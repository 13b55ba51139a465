//! The per-run configuration: which operations run, whether changes are
//! committed to disk, and the values that the setting operations write.

use vstd::prelude::*;

verus! {

/// One run's configuration. It is built once at startup, validated there,
/// and read-only afterwards.
#[derive(Debug)]
pub struct Args {
    /// Commit mode: true saves changes to disk, false only previews them.
    pub run: bool,
    /// Hush console output.
    pub quiet: bool,
    /// The root directory whose files are processed.
    pub path: String,
    /// Strip padding zeros from track numbers.
    pub normalize_tracknumber: bool,
    /// Title-case and tidy the title.
    pub normalize_title: bool,
    /// Reduce the release date to a four-digit year.
    pub normalize_year: bool,
    /// Rename files from their metadata.
    pub rename: bool,
    /// Remove comments and lyrics.
    pub erase: bool,
    /// Set the genre field.
    pub set_genre: bool,
    /// The genre value to write; required when `set_genre` is on.
    pub genre: Option<String>,
    /// Set the year field.
    pub set_year: bool,
    /// The year value to write; required when `set_year` is on.
    pub year: Option<u32>,
}

/// A configuration is well-formed when every enabled setting operation has
/// its value. Startup validation establishes this before any file is
/// touched.
pub open spec fn args_wf(a: Args) -> bool {
    &&& (a.set_genre ==> a.genre is Some)
    &&& (a.set_year ==> a.year is Some)
}

} // verus!
