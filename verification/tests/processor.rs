use metaflac::block::VorbisComment;
use tagtidy::config::Args;
use tagtidy::process::process_entry;

fn args_none() -> Args {
    Args {
        run: false,
        quiet: false,
        path: String::new(),
        normalize_tracknumber: false,
        normalize_title: false,
        normalize_year: false,
        rename: false,
        erase: false,
        set_genre: false,
        genre: None,
        set_year: false,
        year: None,
    }
}

#[test]
fn preview_then_rerun_reports_unchanged() {
    let mut vc = VorbisComment::new();
    vc.set("TRACKNUMBER", vec!["007"]);
    vc.set("TITLE", vec!["the bends"]);

    let mut args = args_none();
    args.normalize_tracknumber = true;
    args.normalize_title = true;

    let out = process_entry(&mut vc, "some file.flac", "flac", &args);
    assert_eq!(
        out.messages,
        vec![
            "Norm. Numb.: 007 -> 7".to_string(),
            "Norm. Title: the bends -> The Bends".to_string(),
        ]
    );
    assert!(out.tag_modified);
    assert!(out.rename.is_none());
    assert_eq!(vc.get("TRACKNUMBER"), Some(&vec!["7".to_string()]));
    assert_eq!(vc.get("TITLE"), Some(&vec!["The Bends".to_string()]));

    // The fields now hold their normalized values: a second run with the
    // same configuration reports both as unchanged and touches nothing.
    let again = process_entry(&mut vc, "some file.flac", "flac", &args);
    assert_eq!(
        again.messages,
        vec![
            "Norm. Numb. (unchanged): some file.flac".to_string(),
            "Norm. Title (unchanged): some file.flac".to_string(),
        ]
    );
    assert!(!again.tag_modified);
}

#[test]
fn operations_run_in_fixed_order() {
    let mut vc = VorbisComment::new();
    vc.set("TRACKNUMBER", vec!["02"]);
    vc.set("TITLE", vec!["songs   of  love"]);
    vc.set("DATE", vec!["Copyright 1998 Some Label"]);
    vc.set("GENRE", vec!["Pop"]);
    vc.set("COMMENT", vec!["a comment"]);

    let mut args = args_none();
    args.normalize_tracknumber = true;
    args.normalize_title = true;
    args.normalize_year = true;
    args.set_genre = true;
    args.genre = Some("Rock".to_string());
    args.set_year = true;
    args.year = Some(2003);
    args.erase = true;
    args.rename = true;

    let out = process_entry(&mut vc, "old.flac", "flac", &args);
    assert_eq!(
        out.messages,
        vec![
            "Norm. Numb.: 02 -> 2".to_string(),
            "Norm. Title: songs   of  love -> Songs of Love".to_string(),
            "Norm. Year: Copyright 1998 Some Label -> 1998".to_string(),
            "Set Genre: Pop -> Rock".to_string(),
            "Set Year: 1998 -> 2003".to_string(),
            "Clr. Comment (cleared): old.flac".to_string(),
            "Clr. Lyrics (unchanged): old.flac".to_string(),
            "Rename: old.flac -> 02 - Songs of Love.flac".to_string(),
        ]
    );
    assert!(out.tag_modified);
    let plan = out.rename.expect("a rename should be wanted");
    assert_eq!(plan.old, "old.flac");
    assert_eq!(plan.new, "02 - Songs of Love.flac");
    assert_eq!(vc.get("DATE"), Some(&vec!["2003".to_string()]));
    assert_eq!(vc.get("GENRE"), Some(&vec!["Rock".to_string()]));
    assert_eq!(vc.get("COMMENT"), None);
}

#[test]
fn one_failing_operation_does_not_stop_the_rest() {
    let mut vc = VorbisComment::new();
    vc.set("TRACKNUMBER", vec!["not a number"]);
    vc.set("TITLE", vec!["ok title"]);

    let mut args = args_none();
    args.normalize_tracknumber = true;
    args.normalize_title = true;

    let out = process_entry(&mut vc, "f.flac", "flac", &args);
    assert_eq!(
        out.messages,
        vec![
            "Norm. Numb. failed for f.flac: not a number".to_string(),
            "Norm. Title: ok title -> Ok Title".to_string(),
        ]
    );
    assert!(out.tag_modified);
}

#[test]
fn missing_fields_are_reported_per_operation() {
    let mut vc = VorbisComment::new();
    let mut args = args_none();
    args.normalize_year = true;

    let out = process_entry(&mut vc, "f.flac", "flac", &args);
    assert_eq!(
        out.messages,
        vec!["Norm. Year failed for f.flac: missing field DATE".to_string()]
    );
    assert!(!out.tag_modified);
}

#[test]
fn rename_is_no_reason_to_save_the_tag() {
    let mut vc = VorbisComment::new();
    vc.set("TRACKNUMBER", vec!["1"]);
    vc.set("TITLE", vec!["Song"]);

    let mut args = args_none();
    args.rename = true;

    let out = process_entry(&mut vc, "anything.flac", "flac", &args);
    assert!(!out.tag_modified);
    assert!(out.rename.is_some());
}
