//! The library's general guarantees, stated and proved as standalone facts
//! about the strategies and the editor.

use crate::editor::{SpecChange, SpecEditError, spec_clear, spec_edit};
use crate::outside::title_of;
use crate::strategy::{Erase, FormatNumber, FormatText, Strategy, TransformError};
use crate::tag::field_first;
use crate::text::{
    collapse_ws, dec_of, lemma_dec_of_digits, lemma_format_ws_fixpoint, lemma_parse_dec_roundtrip,
    lemma_trim_digits, parse_u32_spec, trim_ws,
};
use vstd::prelude::*;

verus! {

/// Normalizing a number is idempotent. Whenever a value parses, the
/// canonical form that the transform yields starts with no superfluous
/// zero, parses back to the very same integer, and transforming it a second
/// time yields it unchanged; a value that does not parse is exactly one the
/// transform refuses.
pub proof fn lemma_format_number_idempotent(s: Seq<char>)
    ensures
        match FormatNumber.spec_transform(s) {
            Ok(d) => {
                &&& FormatNumber.spec_transform(d) == Ok::<Seq<char>, TransformError>(d)
                &&& parse_u32_spec(d) == parse_u32_spec(trim_ws(s))
                &&& (d.len() > 1 ==> d[0] != '0')
            },
            Err(_) => parse_u32_spec(trim_ws(s)) is None,
        },
{
    match parse_u32_spec(trim_ws(s)) {
        Some(n) => {
            lemma_dec_of_digits(n as nat);
            lemma_trim_digits(dec_of(n as nat));
            lemma_parse_dec_roundtrip(n);
            if n == 0 {
                assert(dec_of(0nat) =~= seq!['0']);
            }
        },
        None => {},
    }
}

/// The whitespace normalization of the title strategy reaches a fixed point
/// in one pass: the transform's output trims and collapses to itself.
/// Whether a second full pass also leaves the text equal would further rest
/// on how the title-casing service treats its own output, of which nothing
/// is stated here.
pub proof fn lemma_format_text_ws_fixpoint(s: Seq<char>)
    ensures
        FormatText.spec_transform(s) == Ok::<Seq<char>, TransformError>(
            collapse_ws(trim_ws(title_of(s))),
        ),
        collapse_ws(trim_ws(collapse_ws(trim_ws(title_of(s))))) == collapse_ws(
            trim_ws(title_of(s)),
        ),
{
    lemma_format_ws_fixpoint(title_of(s));
}

/// An edit mutates the tag exactly when it reports a change: whenever no
/// change is reported the contents stay as they were, and whenever the tag
/// is mutated the outcome records the old and the new value.
pub proof fn lemma_edit_mutates_only_on_change<S: Strategy>(
    s: S,
    c: Map<Seq<char>, Seq<Seq<char>>>,
    f: Seq<char>,
)
    ensures
        ({
            let (res, c2, m) = spec_edit(s, c, f);
            &&& (!m ==> c2 == c)
            &&& (m ==> res matches Ok(SpecChange::Changed { .. }))
        }),
{
}

/// Clearing mutates the tag exactly when it reports the field cleared; a
/// clearing that reports nothing leaves the contents as they were.
pub proof fn lemma_clear_mutates_only_on_cleared(c: Map<Seq<char>, Seq<Seq<char>>>, f: Seq<char>)
    ensures
        ({
            let (res, c2, m) = spec_clear(c, f);
            &&& (!m ==> c2 == c && res == SpecChange::Unchanged)
            &&& (m ==> res == SpecChange::Cleared)
        }),
{
}

/// Erasing a field reports a change exactly when the field held a
/// non-empty value: the edit then records the old text with an empty new
/// one and rewrites the field; a field holding the empty string is left
/// untouched, and a missing field fails.
pub proof fn lemma_erase_changed(c: Map<Seq<char>, Seq<Seq<char>>>, f: Seq<char>)
    ensures
        ({
            let (res, c2, m) = spec_edit(Erase, c, f);
            match field_first(c, f) {
                Some(oldv) => if oldv.len() > 0 {
                    &&& res == Ok::<SpecChange, SpecEditError>(
                        SpecChange::Changed { old: oldv, new: Seq::empty() },
                    )
                    &&& m
                    &&& c2 == c.insert(f, seq![Seq::<char>::empty()])
                } else {
                    &&& res == Ok::<SpecChange, SpecEditError>(SpecChange::Unchanged)
                    &&& !m
                    &&& c2 == c
                },
                None => {
                    &&& res == Err::<SpecChange, SpecEditError>(SpecEditError::FieldMissing(f))
                    &&& !m
                    &&& c2 == c
                },
            }
        }),
{
}

} // verus!
