use tagtidy::batch::{
    EntryReport, chunk_paths, collect_results, failure_message, failure_report, join_messages,
    success_report,
};
use tagtidy::process::ProcessError;

#[test]
fn chunks_are_full_except_the_last() {
    let paths: Vec<String> = (0..25).map(|i| format!("f{i}.flac")).collect();
    let chunks = chunk_paths(&paths, 10);
    assert_eq!(chunks.len(), 3);
    assert_eq!(chunks[0].len(), 10);
    assert_eq!(chunks[1].len(), 10);
    assert_eq!(chunks[2].len(), 5);
    let flat: Vec<String> = chunks.concat();
    assert_eq!(flat, paths);
}

#[test]
fn an_exact_multiple_leaves_no_short_chunk() {
    let paths: Vec<String> = (0..20).map(|i| format!("f{i}.flac")).collect();
    let chunks = chunk_paths(&paths, 10);
    assert_eq!(chunks.len(), 2);
    assert!(chunks.iter().all(|c| c.len() == 10));
}

#[test]
fn no_paths_mean_no_chunks() {
    let chunks = chunk_paths(&Vec::new(), 10);
    assert!(chunks.is_empty());
}

#[test]
fn blocks_join_with_line_breaks() {
    let msgs = vec!["one".to_string(), "two".to_string(), "three".to_string()];
    assert_eq!(join_messages(&msgs), "one\ntwo\nthree");
    assert_eq!(join_messages(&vec!["only".to_string()]), "only");
    assert_eq!(join_messages(&Vec::new()), "");
}

#[test]
fn failure_blocks_name_the_file_and_the_reason() {
    let open = ProcessError::OpenFailed("bad header".to_string());
    assert_eq!(
        failure_message("x.flac", &open),
        "failed x.flac: could not open tag: bad header"
    );
    let save = ProcessError::SaveFailed("disk full".to_string());
    assert_eq!(
        failure_message("x.flac", &save),
        "failed x.flac: could not save tag: disk full"
    );
}

#[test]
fn one_corrupt_file_among_nine_good_ones_loses_nothing() {
    let mut reports: Vec<EntryReport> = Vec::new();
    for i in 0..9 {
        let msgs = vec![format!("Norm. Numb.: 0{i} -> {i}")];
        reports.push(success_report(&msgs, true));
    }
    let err = ProcessError::OpenFailed("corrupt tag".to_string());
    reports.push(failure_report("broken.flac", &err));

    let result = collect_results(reports);
    assert_eq!(result.messages.len(), 10);
    assert!(result.modified);
    let failures: Vec<&String> =
        result.messages.iter().filter(|m| m.starts_with("failed ")).collect();
    assert_eq!(failures.len(), 1);
    assert_eq!(failures[0], "failed broken.flac: could not open tag: corrupt tag");
}

#[test]
fn a_run_without_mutations_reports_none() {
    let reports = vec![
        success_report(&vec!["Norm. Numb. (unchanged): a.flac".to_string()], false),
        success_report(&vec!["Norm. Numb. (unchanged): b.flac".to_string()], false),
    ];
    let result = collect_results(reports);
    assert_eq!(result.messages.len(), 2);
    assert!(!result.modified);
}
