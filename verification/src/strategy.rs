//! The rewriting strategies: each turns one raw field value into its
//! normalized form and says when the result counts as a real change.

use crate::outside::{nfd_eq, nfd_same, title_of, titlecase_str};
use crate::text::{
    chars_of, collapse_chars, collapse_ws, dec_chars, dec_of, parse_u32, parse_u32_spec, str_eq,
    string_of, trim_chars, trim_ws, year_chars, year_of,
};
use vstd::prelude::*;

verus! {

/// Why a strategy refused to transform a value.
#[derive(Clone, Copy, Debug, PartialEq, Eq, Structural)]
pub enum TransformError {
    /// The value could not be read as a non-negative decimal number.
    NotANumber,
}

/// A rewriting rule for one field value: what the new text is, and when old
/// and new differ enough that the field must be rewritten.
pub trait Strategy: Sized {
    /// What transforming the text yields, or why it cannot be transformed.
    spec fn spec_transform(&self, old: Seq<char>) -> Result<Seq<char>, TransformError>;

    /// Whether the two values differ under this strategy's equality rule, so
    /// that the field is mutated and the edit reported as changed.
    spec fn spec_changed(&self, old: Seq<char>, new: Seq<char>) -> bool;

    /// Transforms one field value, exactly as `spec_transform` describes.
    fn transform(&self, old: &str) -> (r: Result<String, TransformError>)
        ensures
            match r {
                Ok(s) => self.spec_transform(old@) == Ok::<Seq<char>, TransformError>(s@),
                Err(e) => self.spec_transform(old@) == Err::<Seq<char>, TransformError>(e),
            },
    ;

    /// Decides this strategy's change test, exactly as `spec_changed`
    /// describes.
    fn changed(&self, old: &str, new: &str) -> (r: bool)
        ensures
            r == self.spec_changed(old@, new@),
    ;
}

/// Normalizes a track number to its canonical decimal spelling: surrounding
/// whitespace, a leading plus sign and leading zeros all go.
pub struct FormatNumber;

impl Strategy for FormatNumber {
    open spec fn spec_transform(&self, old: Seq<char>) -> Result<Seq<char>, TransformError> {
        match parse_u32_spec(trim_ws(old)) {
            Some(n) => Ok(dec_of(n as nat)),
            None => Err(TransformError::NotANumber),
        }
    }

    open spec fn spec_changed(&self, old: Seq<char>, new: Seq<char>) -> bool {
        old != new
    }

    fn transform(&self, old: &str) -> (r: Result<String, TransformError>) {
        let cs = chars_of(old);
        let t = trim_chars(&cs);
        match parse_u32(&t) {
            Some(n) => {
                let d = dec_chars(n);
                Ok(string_of(&d))
            },
            None => Err(TransformError::NotANumber),
        }
    }

    fn changed(&self, old: &str, new: &str) -> (r: bool) {
        !str_eq(old, new)
    }
}

/// Normalizes a title: title-cases the text, trims it, and collapses every
/// run of two or more whitespace characters into one space. Two titles count
/// as equal when their Unicode canonical decompositions agree.
pub struct FormatText;

impl Strategy for FormatText {
    open spec fn spec_transform(&self, old: Seq<char>) -> Result<Seq<char>, TransformError> {
        Ok(collapse_ws(trim_ws(title_of(old))))
    }

    open spec fn spec_changed(&self, old: Seq<char>, new: Seq<char>) -> bool {
        !nfd_same(old, new)
    }

    fn transform(&self, old: &str) -> (r: Result<String, TransformError>) {
        let titled = titlecase_str(old);
        let cs = chars_of(titled.as_str());
        let t = trim_chars(&cs);
        let c = collapse_chars(&t);
        Ok(string_of(&c))
    }

    fn changed(&self, old: &str, new: &str) -> (r: bool) {
        !nfd_eq(old, new)
    }
}

/// Normalizes a release year to the first four-digit run found in the value.
/// A value without one passes through unchanged rather than failing: a date
/// field that holds no recognizable year is left alone.
pub struct FormatYear;

impl Strategy for FormatYear {
    open spec fn spec_transform(&self, old: Seq<char>) -> Result<Seq<char>, TransformError> {
        Ok(year_of(old))
    }

    open spec fn spec_changed(&self, old: Seq<char>, new: Seq<char>) -> bool {
        old != new
    }

    fn transform(&self, old: &str) -> (r: Result<String, TransformError>) {
        let cs = chars_of(old);
        let y = year_chars(&cs);
        Ok(string_of(&y))
    }

    fn changed(&self, old: &str, new: &str) -> (r: bool) {
        !str_eq(old, new)
    }
}

/// Sets a genre to a fixed value, whatever the field held before.
pub struct SetGenre {
    /// The genre to write.
    pub genre: String,
}

impl Strategy for SetGenre {
    open spec fn spec_transform(&self, old: Seq<char>) -> Result<Seq<char>, TransformError> {
        Ok(self.genre@)
    }

    open spec fn spec_changed(&self, old: Seq<char>, new: Seq<char>) -> bool {
        old != new
    }

    fn transform(&self, old: &str) -> (r: Result<String, TransformError>) {
        Ok(self.genre.clone())
    }

    fn changed(&self, old: &str, new: &str) -> (r: bool) {
        !str_eq(old, new)
    }
}

/// Sets a release year to a fixed value, written in canonical decimal.
pub struct SetYear {
    /// The year to write.
    pub year: u32,
}

impl Strategy for SetYear {
    open spec fn spec_transform(&self, old: Seq<char>) -> Result<Seq<char>, TransformError> {
        Ok(dec_of(self.year as nat))
    }

    open spec fn spec_changed(&self, old: Seq<char>, new: Seq<char>) -> bool {
        old != new
    }

    fn transform(&self, old: &str) -> (r: Result<String, TransformError>) {
        let d = dec_chars(self.year);
        Ok(string_of(&d))
    }

    fn changed(&self, old: &str, new: &str) -> (r: bool) {
        !str_eq(old, new)
    }
}

/// Empties a field: the new value is always the empty string, and the edit
/// counts as a change exactly when the field held something.
pub struct Erase;

impl Strategy for Erase {
    open spec fn spec_transform(&self, old: Seq<char>) -> Result<Seq<char>, TransformError> {
        Ok(Seq::empty())
    }

    open spec fn spec_changed(&self, old: Seq<char>, new: Seq<char>) -> bool {
        old.len() > 0
    }

    fn transform(&self, old: &str) -> (r: Result<String, TransformError>) {
        Ok(String::new())
    }

    fn changed(&self, old: &str, new: &str) -> (r: bool) {
        !old.is_empty()
    }
}

} // verus!
