//! The renamer: derives the file name that a tag prescribes and detects
//! whether the current name already matches it under Unicode canonical
//! decomposition.

use crate::editor::{BeforeAfter, Change, EditError, SpecChange, SpecEditError, edit_result_view};
use crate::outside::{nfd_eq, nfd_same};
use crate::tag::{field_first, tag_get_first, vc_contents};
use crate::text::{chars_of, pad_track, pad_track_chars, sanitize_chars, sanitize_title, string_of};
use vstd::prelude::*;
use vstd::string::StringExecFns;

verus! {

/// The file name a tag prescribes: the track number left-padded with zeros
/// to two characters, a separator, the title with `:` and `/` replaced by
/// spaces, and the extension.
pub open spec fn candidate_name(track: Seq<char>, title: Seq<char>, ext: Seq<char>) -> Seq<char> {
    pad_track(track) + " - "@ + sanitize_title(title) + "."@ + ext
}

/// Builds the candidate file name, exactly as `candidate_name` describes.
pub fn build_candidate(track: &str, title: &str, ext: &str) -> (r: String)
    ensures
        r@ == candidate_name(track@, title@, ext@),
{
    let tc = chars_of(track);
    let padded = pad_track_chars(&tc);
    let mut r = string_of(&padded);
    r.append(" - ");
    let lc = chars_of(title);
    let clean = sanitize_chars(&lc);
    let clean_str = string_of(&clean);
    r.append(clean_str.as_str());
    r.append(".");
    r.append(ext);
    proof {
        assert(r@ =~= candidate_name(track@, title@, ext@));
    }
    r
}

/// What renaming decides: nothing to do when the current name already
/// matches the candidate under canonical decomposition, else the old and the
/// prospective new name; a missing track number or title makes it fail.
pub open spec fn spec_rename(
    c: Map<Seq<char>, Seq<Seq<char>>>,
    name: Seq<char>,
    ext: Seq<char>,
) -> Result<SpecChange, SpecEditError> {
    match field_first(c, "TRACKNUMBER"@) {
        None => Err(SpecEditError::FieldMissing("TRACKNUMBER"@)),
        Some(track) => match field_first(c, "TITLE"@) {
            None => Err(SpecEditError::FieldMissing("TITLE"@)),
            Some(title) => {
                let cand = candidate_name(track, title, ext);
                if nfd_same(name, cand) {
                    Ok(SpecChange::Unchanged)
                } else {
                    Ok(SpecChange::Changed { old: name, new: cand })
                }
            },
        },
    }
}

/// Decides the rename for one file, exactly as `spec_rename` describes. It
/// never touches the filesystem: carrying out a reported change is the
/// caller's concern, so preview and commit see the same decision.
pub fn rename(comments: &metaflac::block::VorbisComment, file_name: &str, ext: &str) -> (r:
    Result<Change, EditError>)
    ensures
        edit_result_view(r) == spec_rename(vc_contents(*comments), file_name@, ext@),
{
    let track = match tag_get_first(comments, "TRACKNUMBER") {
        Some(t) => t,
        None => {
            return Err(EditError::FieldMissing("TRACKNUMBER".to_owned()));
        },
    };
    let title = match tag_get_first(comments, "TITLE") {
        Some(t) => t,
        None => {
            return Err(EditError::FieldMissing("TITLE".to_owned()));
        },
    };
    let cand = build_candidate(track.as_str(), title.as_str(), ext);
    if nfd_eq(file_name, cand.as_str()) {
        Ok(Change::Unchanged)
    } else {
        Ok(Change::Changed(BeforeAfter { old: file_name.to_owned(), new: cand }))
    }
}

} // verus!
