//! The tag editor: applies one strategy to one field of a tag block, with a
//! tri-state outcome, and clears fields. The tag is mutated only on a real
//! change.

use crate::strategy::{Strategy, TransformError};
use crate::tag::{field_first, tag_get_first, tag_remove, tag_set, vc_contents};
use vstd::prelude::*;

verus! {

/// The old and the new value of a changed field.
#[derive(Debug, PartialEq, Eq)]
pub struct BeforeAfter {
    /// The value before the edit.
    pub old: String,
    /// The value after the edit.
    pub new: String,
}

/// What one editor invocation did: replaced a value, removed the field, or
/// left everything as it was.
#[derive(Debug, PartialEq, Eq)]
pub enum Change {
    /// The field's value was replaced.
    Changed(BeforeAfter),
    /// The field was removed entirely.
    Cleared,
    /// Nothing was touched.
    Unchanged,
}

/// The outcome of an edit at the specification level, over character
/// sequences.
pub enum SpecChange {
    /// The field's value was replaced.
    Changed { old: Seq<char>, new: Seq<char> },
    /// The field was removed entirely.
    Cleared,
    /// Nothing was touched.
    Unchanged,
}

impl View for Change {
    type V = SpecChange;

    open spec fn view(&self) -> SpecChange {
        match self {
            Change::Changed(ba) => SpecChange::Changed { old: ba.old@, new: ba.new@ },
            Change::Cleared => SpecChange::Cleared,
            Change::Unchanged => SpecChange::Unchanged,
        }
    }
}

/// Why an edit failed.
#[derive(Debug, PartialEq, Eq)]
pub enum EditError {
    /// The named field is absent from the tag, or holds no value.
    FieldMissing(String),
    /// The strategy could not transform the value.
    Transform(TransformError),
    /// The filesystem refused a rename; the text says why.
    RenameFailed(String),
}

/// The edit error at the specification level.
pub enum SpecEditError {
    /// The named field is absent from the tag, or holds no value.
    FieldMissing(Seq<char>),
    /// The strategy could not transform the value.
    Transform(TransformError),
    /// The filesystem refused a rename.
    RenameFailed(Seq<char>),
}

impl View for EditError {
    type V = SpecEditError;

    open spec fn view(&self) -> SpecEditError {
        match self {
            EditError::FieldMissing(f) => SpecEditError::FieldMissing(f@),
            EditError::Transform(e) => SpecEditError::Transform(*e),
            EditError::RenameFailed(d) => SpecEditError::RenameFailed(d@),
        }
    }
}

/// An edit outcome viewed at the specification level.
pub open spec fn edit_result_view(r: Result<Change, EditError>) -> Result<
    SpecChange,
    SpecEditError,
> {
    match r {
        Ok(c) => Ok(c@),
        Err(e) => Err(e@),
    }
}

/// What editing one field with a strategy yields: the outcome, the tag
/// contents afterwards, and whether the tag was mutated. A missing field
/// fails; an equivalent transform leaves the tag alone; otherwise the field
/// is rewritten to hold exactly the new value.
pub open spec fn spec_edit<S: Strategy>(s: S, c: Map<Seq<char>, Seq<Seq<char>>>, f: Seq<char>) -> (
    Result<SpecChange, SpecEditError>,
    Map<Seq<char>, Seq<Seq<char>>>,
    bool,
) {
    match field_first(c, f) {
        None => (Err(SpecEditError::FieldMissing(f)), c, false),
        Some(oldv) => match s.spec_transform(oldv) {
            Err(e) => (Err(SpecEditError::Transform(e)), c, false),
            Ok(newv) => if s.spec_changed(oldv, newv) {
                (
                    Ok(SpecChange::Changed { old: oldv, new: newv }),
                    c.insert(f, seq![newv]),
                    true,
                )
            } else {
                (Ok(SpecChange::Unchanged), c, false)
            },
        },
    }
}

/// Applies one strategy to one field: reads the field's first value,
/// transforms it, and rewrites the field in the tag only when the strategy
/// reports a real change, exactly as `spec_edit` describes.
pub fn edit_tag<S: Strategy>(
    comments: &mut metaflac::block::VorbisComment,
    field: &str,
    strategy: S,
) -> (r: Result<Change, EditError>)
    ensures
        ({
            let step = spec_edit(strategy, vc_contents(*old(comments)), field@);
            &&& edit_result_view(r) == step.0
            &&& vc_contents(*final(comments)) == step.1
        }),
{
    let got = tag_get_first(comments, field);
    match got {
        None => Err(EditError::FieldMissing(field.to_owned())),
        Some(old_v) => match strategy.transform(old_v.as_str()) {
            Err(e) => Err(EditError::Transform(e)),
            Ok(new_v) => {
                if strategy.changed(old_v.as_str(), new_v.as_str()) {
                    let ba = BeforeAfter { old: old_v, new: new_v.clone() };
                    tag_set(comments, field, new_v);
                    Ok(Change::Changed(ba))
                } else {
                    Ok(Change::Unchanged)
                }
            },
        },
    }
}

/// What clearing a field yields: the field goes away with a `Cleared`
/// outcome when it is there, and nothing happens otherwise.
pub open spec fn spec_clear(c: Map<Seq<char>, Seq<Seq<char>>>, f: Seq<char>) -> (
    SpecChange,
    Map<Seq<char>, Seq<Seq<char>>>,
    bool,
) {
    if c.dom().contains(f) {
        (SpecChange::Cleared, c.remove(f), true)
    } else {
        (SpecChange::Unchanged, c, false)
    }
}

/// Removes a field from the tag entirely, exactly as `spec_clear` describes;
/// clearing a field that is not there does nothing, and clearing never
/// fails.
pub fn clear_tag(comments: &mut metaflac::block::VorbisComment, field: &str) -> (r: Change)
    ensures
        ({
            let step = spec_clear(vc_contents(*old(comments)), field@);
            &&& r@ == step.0
            &&& vc_contents(*final(comments)) == step.1
        }),
{
    let was = tag_remove(comments, field);
    proof {
        if !vc_contents(*old(comments)).dom().contains(field@) {
            assert(vc_contents(*old(comments)).remove(field@) =~= vc_contents(*old(comments)));
        }
    }
    if was {
        Change::Cleared
    } else {
        Change::Unchanged
    }
}

} // verus!
