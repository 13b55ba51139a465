//! Trusted bindings to the outside codec's in-memory tag block. The block is
//! declared as an opaque type; what it holds is named by `vc_contents`, and
//! each method the library uses states over that name what the codec does.

use vstd::prelude::*;

verus! {

/// The outside codec's vorbis comment block, declared so that it can stand
/// in signatures; its values stay opaque to the verifier.
#[verifier::external_type_specification]
#[verifier::external_body]
pub struct ExVorbisComment(metaflac::block::VorbisComment);

/// What a vorbis comment block holds: each field name mapped to the ordered
/// list of its values.
pub uninterp spec fn vc_contents(v: metaflac::block::VorbisComment) -> Map<
    Seq<char>,
    Seq<Seq<char>>,
>;

/// The first value under a field name, if the field is there and non-empty.
/// A field that is absent, or present with no values, counts as missing.
pub open spec fn field_first(c: Map<Seq<char>, Seq<Seq<char>>>, f: Seq<char>) -> Option<
    Seq<char>,
> {
    if c.dom().contains(f) && c[f].len() > 0 {
        Some(c[f][0])
    } else {
        None
    }
}

/// Relies on `VorbisComment::get`: returns the values stored under exactly
/// this key in the block's comment map.
#[verifier::external_body]
pub(crate) fn tag_get_first(v: &metaflac::block::VorbisComment, field: &str) -> (r: Option<
    String,
>)
    ensures
        match r {
            Some(s) => field_first(vc_contents(*v), field@) matches Some(t) && s@ == t,
            None => field_first(vc_contents(*v), field@) is None,
        },
{
    v.get(field).and_then(|vals| vals.get(0)).cloned()
}

/// Relies on `VorbisComment::set`: replaces whatever the key held with the
/// given values — here always a single one.
#[verifier::external_body]
pub(crate) fn tag_set(v: &mut metaflac::block::VorbisComment, field: &str, value: String)
    ensures
        vc_contents(*final(v)) == vc_contents(*old(v)).insert(field@, seq![value@]),
{
    v.set(field, vec![value]);
}

/// Relies on the comment map's `remove_entry` (as `VorbisComment::remove`
/// does): removes the key with all its values and tells whether it was there.
#[verifier::external_body]
pub(crate) fn tag_remove(v: &mut metaflac::block::VorbisComment, field: &str) -> (r: bool)
    ensures
        vc_contents(*final(v)) == vc_contents(*old(v)).remove(field@),
        r == vc_contents(*old(v)).dom().contains(field@),
{
    v.comments.remove_entry(field).is_some()
}

} // verus!
