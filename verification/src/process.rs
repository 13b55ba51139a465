//! The entry processor: runs the configured operations over one file's tag
//! in a fixed order, collects one message per operation, and reports whether
//! the tag must be saved and whether the file should be renamed.
//!
//! Opening the tag, saving it and carrying out a rename are the caller's
//! concern: this module only decides.

use crate::config::{Args, args_wf};
use crate::editor::{Change, SpecChange, clear_tag, edit_tag, spec_clear, spec_edit};
use crate::message::{create_message, spec_message};
use crate::rename::{rename, spec_rename};
use crate::strategy::{FormatNumber, FormatText, FormatYear, SetGenre, SetYear, Strategy};
use crate::tag::vc_contents;
use vstd::prelude::*;

verus! {

/// Why processing a whole file failed.
#[derive(Debug, PartialEq, Eq)]
pub enum ProcessError {
    /// The tag could not be opened or read; the text says why.
    OpenFailed(String),
    /// The tag could not be written back; the text says why.
    SaveFailed(String),
}

/// The processing error at the specification level.
pub enum SpecProcessError {
    /// The tag could not be opened or read.
    OpenFailed(Seq<char>),
    /// The tag could not be written back.
    SaveFailed(Seq<char>),
}

impl View for ProcessError {
    type V = SpecProcessError;

    open spec fn view(&self) -> SpecProcessError {
        match self {
            ProcessError::OpenFailed(d) => SpecProcessError::OpenFailed(d@),
            ProcessError::SaveFailed(d) => SpecProcessError::SaveFailed(d@),
        }
    }
}

/// What processing one file's tag decides: the messages to show, the tag
/// contents afterwards, whether any field was mutated (so the tag needs
/// saving), and the rename to carry out, if any.
pub struct SpecProcessOutput {
    /// One message per executed operation, in order.
    pub msgs: Seq<Seq<char>>,
    /// The tag contents after all edits.
    pub contents: Map<Seq<char>, Seq<Seq<char>>>,
    /// Whether any field edit or clearing mutated the tag.
    pub modified: bool,
    /// The old and new file name, when a rename is wanted.
    pub rename: Option<(Seq<char>, Seq<char>)>,
}

/// One editing step of the processor: the edit itself plus its message.
pub open spec fn spec_edit_step<S: Strategy>(
    s: S,
    c: Map<Seq<char>, Seq<Seq<char>>>,
    f: Seq<char>,
    label: Seq<char>,
    name: Seq<char>,
) -> (Seq<char>, Map<Seq<char>, Seq<Seq<char>>>, bool) {
    let (res, c2, m) = spec_edit(s, c, f);
    (spec_message(res, label, name), c2, m)
}

/// What the entry processor does, step by step: each enabled operation runs
/// in the fixed order track number, title, year, genre, set-year, erase,
/// rename; each appends its message; field edits thread the tag contents
/// through; the rename only reads them.
pub open spec fn spec_process(
    c0: Map<Seq<char>, Seq<Seq<char>>>,
    name: Seq<char>,
    ext: Seq<char>,
    args: Args,
) -> SpecProcessOutput {
    let m0 = Seq::<Seq<char>>::empty();
    let (m1, c1, f1) = if args.normalize_tracknumber {
        let (t, c, f) = spec_edit_step(FormatNumber, c0, "TRACKNUMBER"@, "Norm. Numb."@, name);
        (m0.push(t), c, f)
    } else {
        (m0, c0, false)
    };
    let (m2, c2, f2) = if args.normalize_title {
        let (t, c, f) = spec_edit_step(FormatText, c1, "TITLE"@, "Norm. Title"@, name);
        (m1.push(t), c, f)
    } else {
        (m1, c1, false)
    };
    let (m3, c3, f3) = if args.normalize_year {
        let (t, c, f) = spec_edit_step(FormatYear, c2, "DATE"@, "Norm. Year"@, name);
        (m2.push(t), c, f)
    } else {
        (m2, c2, false)
    };
    let (m4, c4, f4) = if args.set_genre {
        let (t, c, f) = spec_edit_step(
            SetGenre { genre: args.genre->0 },
            c3,
            "GENRE"@,
            "Set Genre"@,
            name,
        );
        (m3.push(t), c, f)
    } else {
        (m3, c3, false)
    };
    let (m5, c5, f5) = if args.set_year {
        let (t, c, f) = spec_edit_step(
            SetYear { year: args.year->0 },
            c4,
            "DATE"@,
            "Set Year"@,
            name,
        );
        (m4.push(t), c, f)
    } else {
        (m4, c4, false)
    };
    let (m6, c6, f6) = if args.erase {
        let (r1, ca, fa) = spec_clear(c5, "COMMENT"@);
        let (r2, cb, fb) = spec_clear(ca, "LYRICS"@);
        (
            m5.push(spec_message(Ok(r1), "Clr. Comment"@, name)).push(
                spec_message(Ok(r2), "Clr. Lyrics"@, name),
            ),
            cb,
            fa || fb,
        )
    } else {
        (m5, c5, false)
    };
    let (m7, ren) = if args.rename {
        let r = spec_rename(c6, name, ext);
        let plan = match r {
            Ok(SpecChange::Changed { old, new }) => Some((old, new)),
            _ => None,
        };
        (m6.push(spec_message(r, "Rename"@, name)), plan)
    } else {
        (m6, None)
    };
    SpecProcessOutput {
        msgs: m7,
        contents: c6,
        modified: f1 || f2 || f3 || f4 || f5 || f6,
        rename: ren,
    }
}

/// What the entry processor hands back for one file.
pub struct ProcessOutput {
    /// One message per executed operation, in order.
    pub messages: Vec<String>,
    /// Whether any field was mutated, so that committing must save the tag.
    pub tag_modified: bool,
    /// The rename to carry out when committing, if any.
    pub rename: Option<crate::editor::BeforeAfter>,
}

/// Runs the configured operations over one tag, exactly as `spec_process`
/// describes: one message per operation, the tag mutated only by real
/// changes, and the wanted rename reported rather than performed.
#[verifier::rlimit(100)]
#[verifier::spinoff_prover]
pub fn process_entry(
    comments: &mut metaflac::block::VorbisComment,
    file_name: &str,
    ext: &str,
    args: &Args,
) -> (out: ProcessOutput)
    requires
        args_wf(*args),
    ensures
        ({
            let p = spec_process(vc_contents(*old(comments)), file_name@, ext@, *args);
            &&& out.messages@.len() == p.msgs.len()
            &&& (forall|i: int| 0 <= i < p.msgs.len() ==> out.messages@[i]@ == p.msgs[i])
            &&& vc_contents(*final(comments)) == p.contents
            &&& out.tag_modified == p.modified
            &&& (match out.rename {
                Some(ba) => p.rename == Some((ba.old@, ba.new@)),
                None => p.rename is None,
            })
        }),
{
    let ghost c0 = vc_contents(*comments);
    let ghost p = spec_process(c0, file_name@, ext@, *args);
    let mut messages: Vec<String> = Vec::new();
    let mut modified = false;
    let ghost mut gm = Seq::<Seq<char>>::empty();

    if args.normalize_tracknumber {
        let msg = edit_tag(comments, "TRACKNUMBER", FormatNumber);
        if matches!(&msg, Ok(Change::Changed(_))) {
            modified = true;
        }
        messages.push(create_message(msg, "Norm. Numb.", file_name, args.run));
        proof {
            let (t, c, f) = spec_edit_step(
                FormatNumber,
                c0,
                "TRACKNUMBER"@,
                "Norm. Numb."@,
                file_name@,
            );
            gm = gm.push(t);
            assert(vc_contents(*comments) == c && modified == f);
        }
    }
    let ghost c1 = vc_contents(*comments);
    let ghost f1 = modified;
    if args.normalize_title {
        let msg = edit_tag(comments, "TITLE", FormatText);
        if matches!(&msg, Ok(Change::Changed(_))) {
            modified = true;
        }
        messages.push(create_message(msg, "Norm. Title", file_name, args.run));
        proof {
            let (t, c, f) = spec_edit_step(FormatText, c1, "TITLE"@, "Norm. Title"@, file_name@);
            gm = gm.push(t);
            assert(vc_contents(*comments) == c && modified == (f1 || f));
        }
    }
    let ghost c2 = vc_contents(*comments);
    let ghost f2 = modified;
    if args.normalize_year {
        let msg = edit_tag(comments, "DATE", FormatYear);
        if matches!(&msg, Ok(Change::Changed(_))) {
            modified = true;
        }
        messages.push(create_message(msg, "Norm. Year", file_name, args.run));
        proof {
            let (t, c, f) = spec_edit_step(FormatYear, c2, "DATE"@, "Norm. Year"@, file_name@);
            gm = gm.push(t);
            assert(vc_contents(*comments) == c && modified == (f2 || f));
        }
    }
    let ghost c3 = vc_contents(*comments);
    let ghost f3 = modified;
    if args.set_genre {
        let genre = match &args.genre {
            Some(g) => g.clone(),
            None => String::new(),
        };
        let msg = edit_tag(comments, "GENRE", SetGenre { genre });
        if matches!(&msg, Ok(Change::Changed(_))) {
            modified = true;
        }
        messages.push(create_message(msg, "Set Genre", file_name, args.run));
        proof {
            let (t, c, f) = spec_edit_step(
                SetGenre { genre: args.genre->0 },
                c3,
                "GENRE"@,
                "Set Genre"@,
                file_name@,
            );
            gm = gm.push(t);
            assert(vc_contents(*comments) == c && modified == (f3 || f));
        }
    }
    let ghost c4 = vc_contents(*comments);
    let ghost f4 = modified;
    if args.set_year {
        let year = match args.year {
            Some(y) => y,
            None => 0,
        };
        let msg = edit_tag(comments, "DATE", SetYear { year });
        if matches!(&msg, Ok(Change::Changed(_))) {
            modified = true;
        }
        messages.push(create_message(msg, "Set Year", file_name, args.run));
        proof {
            let (t, c, f) = spec_edit_step(
                SetYear { year: args.year->0 },
                c4,
                "DATE"@,
                "Set Year"@,
                file_name@,
            );
            gm = gm.push(t);
            assert(vc_contents(*comments) == c && modified == (f4 || f));
        }
    }
    let ghost c5 = vc_contents(*comments);
    let ghost f5 = modified;
    if args.erase {
        let comment_msg = clear_tag(comments, "COMMENT");
        if matches!(&comment_msg, Change::Cleared) {
            modified = true;
        }
        messages.push(create_message(Ok(comment_msg), "Clr. Comment", file_name, args.run));
        let lyrics_msg = clear_tag(comments, "LYRICS");
        if matches!(&lyrics_msg, Change::Cleared) {
            modified = true;
        }
        messages.push(create_message(Ok(lyrics_msg), "Clr. Lyrics", file_name, args.run));
        proof {
            let (r1, ca, fa) = spec_clear(c5, "COMMENT"@);
            let (r2, cb, fb) = spec_clear(ca, "LYRICS"@);
            gm = gm.push(spec_message(Ok(r1), "Clr. Comment"@, file_name@)).push(
                spec_message(Ok(r2), "Clr. Lyrics"@, file_name@),
            );
            assert(vc_contents(*comments) == cb && modified == (f5 || (fa || fb)));
        }
    }
    let ghost c6 = vc_contents(*comments);
    let mut rename_plan: Option<crate::editor::BeforeAfter> = None;
    if args.rename {
        let msg = rename(comments, file_name, ext);
        match &msg {
            Ok(Change::Changed(ba)) => {
                rename_plan = Some(
                    crate::editor::BeforeAfter { old: ba.old.clone(), new: ba.new.clone() },
                );
            },
            _ => {},
        }
        messages.push(create_message(msg, "Rename", file_name, args.run));
        proof {
            gm = gm.push(spec_message(spec_rename(c6, file_name@, ext@), "Rename"@, file_name@));
        }
    }
    proof {
        assert(p.msgs == gm);
        assert(p.contents == c6);
        assert(p.modified == modified);
        assert(messages@.len() == gm.len());
    }
    ProcessOutput { messages, tag_modified: modified, rename: rename_plan }
}

} // verus!
