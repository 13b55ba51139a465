use metaflac::block::VorbisComment;
use tagtidy::editor::{BeforeAfter, Change, EditError, clear_tag, edit_tag};
use tagtidy::strategy::{Erase, FormatNumber, TransformError};

fn tag_with(field: &str, value: &str) -> VorbisComment {
    let mut vc = VorbisComment::new();
    vc.set(field, vec![value]);
    vc
}

#[test]
fn edit_rewrites_on_change() {
    let mut vc = tag_with("TRACKNUMBER", "007");
    let r = edit_tag(&mut vc, "TRACKNUMBER", FormatNumber);
    assert_eq!(
        r,
        Ok(Change::Changed(BeforeAfter { old: "007".to_string(), new: "7".to_string() }))
    );
    assert_eq!(vc.get("TRACKNUMBER"), Some(&vec!["7".to_string()]));
}

#[test]
fn edit_leaves_equal_values_alone() {
    let mut vc = tag_with("TRACKNUMBER", "7");
    let r = edit_tag(&mut vc, "TRACKNUMBER", FormatNumber);
    assert_eq!(r, Ok(Change::Unchanged));
    assert_eq!(vc.get("TRACKNUMBER"), Some(&vec!["7".to_string()]));
}

#[test]
fn edit_fails_on_missing_field() {
    let mut vc = VorbisComment::new();
    let r = edit_tag(&mut vc, "TRACKNUMBER", FormatNumber);
    assert_eq!(r, Err(EditError::FieldMissing("TRACKNUMBER".to_string())));
}

#[test]
fn edit_propagates_transform_errors() {
    let mut vc = tag_with("TRACKNUMBER", "seven");
    let r = edit_tag(&mut vc, "TRACKNUMBER", FormatNumber);
    assert_eq!(r, Err(EditError::Transform(TransformError::NotANumber)));
    assert_eq!(vc.get("TRACKNUMBER"), Some(&vec!["seven".to_string()]));
}

#[test]
fn erase_through_the_editor() {
    let mut vc = tag_with("COMMENT", "some text");
    let r = edit_tag(&mut vc, "COMMENT", Erase);
    assert_eq!(
        r,
        Ok(Change::Changed(BeforeAfter { old: "some text".to_string(), new: String::new() }))
    );
    assert_eq!(vc.get("COMMENT"), Some(&vec![String::new()]));

    let mut empty = tag_with("COMMENT", "");
    let r = edit_tag(&mut empty, "COMMENT", Erase);
    assert_eq!(r, Ok(Change::Unchanged));
}

#[test]
fn clear_removes_a_present_field() {
    let mut vc = tag_with("COMMENT", "hello");
    assert_eq!(clear_tag(&mut vc, "COMMENT"), Change::Cleared);
    assert_eq!(vc.get("COMMENT"), None);
}

#[test]
fn clear_of_an_absent_field_does_nothing() {
    let mut vc = VorbisComment::new();
    assert_eq!(clear_tag(&mut vc, "COMMENT"), Change::Unchanged);
    assert_eq!(vc.get("COMMENT"), None);
}
