use metaflac::block::VorbisComment;
use tagtidy::editor::{BeforeAfter, Change, EditError};
use tagtidy::rename::{build_candidate, rename};

fn tagged(track: &str, title: &str) -> VorbisComment {
    let mut vc = VorbisComment::new();
    vc.set("TRACKNUMBER", vec![track]);
    vc.set("TITLE", vec![title]);
    vc
}

#[test]
fn candidate_pads_and_sanitizes() {
    assert_eq!(
        build_candidate("3", "Paranoid:Android/Test", "flac"),
        "03 - Paranoid Android Test.flac"
    );
    assert_eq!(build_candidate("12", "Song", "flac"), "12 - Song.flac");
    assert_eq!(build_candidate("", "Song", "flac"), "00 - Song.flac");
}

#[test]
fn rename_reports_the_prospective_name() {
    let vc = tagged("3", "Paranoid:Android/Test");
    let r = rename(&vc, "old name.flac", "flac");
    assert_eq!(
        r,
        Ok(Change::Changed(BeforeAfter {
            old: "old name.flac".to_string(),
            new: "03 - Paranoid Android Test.flac".to_string(),
        }))
    );
}

#[test]
fn rename_sees_an_already_matching_name() {
    let vc = tagged("3", "Song");
    assert_eq!(rename(&vc, "03 - Song.flac", "flac"), Ok(Change::Unchanged));
}

#[test]
fn rename_matches_names_up_to_decomposition() {
    let vc = tagged("3", "Caf\u{00e9}");
    // The current name spells the accent as a combining character.
    assert_eq!(rename(&vc, "03 - Cafe\u{0301}.flac", "flac"), Ok(Change::Unchanged));
}

#[test]
fn rename_needs_track_and_title() {
    let mut vc = VorbisComment::new();
    assert_eq!(
        rename(&vc, "x.flac", "flac"),
        Err(EditError::FieldMissing("TRACKNUMBER".to_string()))
    );
    vc.set("TRACKNUMBER", vec!["3"]);
    assert_eq!(
        rename(&vc, "x.flac", "flac"),
        Err(EditError::FieldMissing("TITLE".to_string()))
    );
}
