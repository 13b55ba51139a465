//! Trusted bindings to the outside text services: title-casing and Unicode
//! canonical decomposition. Each binding names its result, and everything
//! built on top of the names is verified.

use unic_normal::StrNormalForm;
use vstd::prelude::*;

verus! {

/// The title-cased form of a text, as the title-casing service computes it.
/// The rules (which words are capitalized, which small words stay lower-case)
/// take pages to state, but the result depends on the characters alone.
pub uninterp spec fn title_of(s: Seq<char>) -> Seq<char>;

/// Relies on `titlecase::titlecase`: title-cases English text by John
/// Gruber's rules; the result is a pure function of the input characters.
#[verifier::external_body]
pub(crate) fn titlecase_str(s: &str) -> (r: String)
    ensures
        r@ == title_of(s@),
{
    titlecase::titlecase(s)
}

/// The Unicode canonical decomposition (normal form D) of a text.
pub uninterp spec fn nfd_of(s: Seq<char>) -> Seq<char>;

/// Relies on `unic_normal::StrNormalForm::nfd`: yields the canonical
/// decomposition of the string, a pure function of the input characters.
#[verifier::external_body]
pub(crate) fn nfd_str(s: &str) -> (r: String)
    ensures
        r@ == nfd_of(s@),
{
    s.nfd().collect()
}

/// Whether two texts are the same under Unicode canonical decomposition.
pub open spec fn nfd_same(a: Seq<char>, b: Seq<char>) -> bool {
    nfd_of(a) == nfd_of(b)
}

/// Decides `nfd_same` by decomposing both sides and comparing.
pub(crate) fn nfd_eq(a: &str, b: &str) -> (r: bool)
    ensures
        r == nfd_same(a@, b@),
{
    let x = nfd_str(a);
    let y = nfd_str(b);
    crate::text::str_eq(x.as_str(), y.as_str())
}

} // verus!
