//! The batch driver's decision logic: partitioning the discovered files
//! into fixed-size chunks, turning one file's outcome into one message
//! block, and folding all blocks into the run's result. Dispatching the
//! chunks concurrently is the caller's concern; every file's outcome yields
//! exactly one block, so none is ever dropped.

use crate::process::{ProcessError, SpecProcessError};
use vstd::prelude::*;
use vstd::string::StringExecFns;

verus! {

/// How many files one chunk holds.
pub const DEFAULT_CHUNK_SIZE: usize = 10;

/// The chunk at index `i` when a sequence is cut into chunks of `size`:
/// `size` items from position `i * size` on, fewer only at the end.
pub open spec fn chunk_of(paths: Seq<String>, size: int, i: int) -> Seq<String> {
    paths.subrange(
        i * size,
        if (i + 1) * size <= paths.len() {
            (i + 1) * size
        } else {
            paths.len() as int
        },
    )
}

/// Cuts the file list into chunks of `size`: every chunk is full except
/// possibly the last, their concatenation is the input, and only an empty
/// input yields no chunk.
pub fn chunk_paths(paths: &Vec<String>, size: usize) -> (r: Vec<Vec<String>>)
    requires
        size >= 1,
    ensures
        paths@.len() == 0 ==> r@.len() == 0,
        paths@.len() > 0 ==> (r@.len() - 1) * size < paths@.len() <= r@.len() * size,
        forall|i: int| 0 <= i < r@.len() ==> r@[i]@ == chunk_of(paths@, size as int, i),
{
    let n = paths.len();
    let mut r: Vec<Vec<String>> = Vec::new();
    let mut start: usize = 0;
    while start < n
        invariant
            size >= 1,
            n == paths@.len(),
            start <= n,
            start <= r@.len() * size,
            r@.len() == 0 ==> start == 0,
            r@.len() >= 1 ==> (r@.len() - 1) * size < start,
            start < n ==> start == r@.len() * size,
            forall|i: int| 0 <= i < r@.len() ==> r@[i]@ == chunk_of(paths@, size as int, i),
        decreases n - start,
    {
        let end = if n - start < size {
            n
        } else {
            start + size
        };
        let mut chunk: Vec<String> = Vec::new();
        let mut j = start;
        while j < end
            invariant
                start <= j <= end <= n,
                n == paths@.len(),
                chunk@ == paths@.subrange(start as int, j as int),
            decreases end - j,
        {
            chunk.push(paths[j].clone());
            assert(chunk@ =~= paths@.subrange(start as int, j + 1));
            j += 1;
        }
        let ghost k = r@.len();
        r.push(chunk);
        proof {
            assert((k + 1) * size == k * size + size) by (nonlinear_arith);
            assert(r@[k as int]@ =~= chunk_of(paths@, size as int, k as int));
            assert(forall|i: int|
                0 <= i < r@.len() ==> r@[i]@ == chunk_of(paths@, size as int, i));
        }
        start = end;
    }
    r
}

/// The lines joined into one block, separated by line breaks.
pub open spec fn join_lines(msgs: Seq<Seq<char>>) -> Seq<char>
    decreases msgs.len(),
{
    if msgs.len() == 0 {
        Seq::empty()
    } else if msgs.len() == 1 {
        msgs[0]
    } else {
        join_lines(msgs.drop_last()) + "\n"@ + msgs.last()
    }
}

/// Joins one file's messages into its block, exactly as `join_lines`
/// describes.
pub fn join_messages(msgs: &Vec<String>) -> (r: String)
    ensures
        r@ == join_lines(msgs.deep_view()),
{
    let mut r = String::new();
    let n = msgs.len();
    proof {
        assert(msgs.deep_view().len() == n);
        assert(r@ =~= join_lines(msgs.deep_view().take(0)));
    }
    for i in 0..n
        invariant
            n == msgs@.len(),
            msgs.deep_view().len() == n,
            forall|j: int| 0 <= j < n ==> msgs.deep_view()[j] == msgs@[j]@,
            r@ == join_lines(msgs.deep_view().take(i as int)),
    {
        if i > 0 {
            r.append("\n");
        }
        r.append(msgs[i].as_str());
        proof {
            let pre = msgs.deep_view().take(i as int);
            let cur = msgs.deep_view().take(i + 1);
            assert(cur.drop_last() =~= pre);
            assert(cur.last() == msgs@[i as int]@);
            if i == 0 {
                assert(cur =~= seq![msgs.deep_view()[0]]);
            }
        }
    }
    proof {
        assert(msgs.deep_view().take(n as int) =~= msgs.deep_view());
    }
    r
}

/// The text shown for a file whose processing failed as a whole.
pub open spec fn spec_failure_text(e: SpecProcessError) -> Seq<char> {
    match e {
        SpecProcessError::OpenFailed(d) => "could not open tag: "@ + d,
        SpecProcessError::SaveFailed(d) => "could not save tag: "@ + d,
    }
}

/// The single message block for a failed file.
pub open spec fn spec_failure_message(name: Seq<char>, e: SpecProcessError) -> Seq<char> {
    "failed "@ + name + ": "@ + spec_failure_text(e)
}

/// Builds the failure block for one file, exactly as `spec_failure_message`
/// describes.
pub fn failure_message(file_name: &str, err: &ProcessError) -> (r: String)
    ensures
        r@ == spec_failure_message(file_name@, err@),
{
    let mut r = String::from_str("failed ");
    r.append(file_name);
    r.append(": ");
    match err {
        ProcessError::OpenFailed(d) => {
            r.append("could not open tag: ");
            r.append(d.as_str());
            proof {
                assert(r@ =~= spec_failure_message(file_name@, err@));
            }
        },
        ProcessError::SaveFailed(d) => {
            r.append("could not save tag: ");
            r.append(d.as_str());
            proof {
                assert(r@ =~= spec_failure_message(file_name@, err@));
            }
        },
    }
    r
}

/// One file's contribution to the run: its message block and whether its
/// tag was mutated.
pub struct EntryReport {
    /// The file's message block.
    pub block: String,
    /// Whether the file's tag was mutated.
    pub modified: bool,
}

/// The report for a file that was processed: its messages joined into one
/// block.
pub fn success_report(messages: &Vec<String>, modified: bool) -> (r: EntryReport)
    ensures
        r.block@ == join_lines(messages.deep_view()),
        r.modified == modified,
{
    EntryReport { block: join_messages(messages), modified }
}

/// The report for a file whose processing failed: a single failure block,
/// and no mutation.
pub fn failure_report(file_name: &str, err: &ProcessError) -> (r: EntryReport)
    ensures
        r.block@ == spec_failure_message(file_name@, err@),
        !r.modified,
{
    EntryReport { block: failure_message(file_name, err), modified: false }
}

/// A whole run's outcome: one block per file, and whether any file's tag
/// was mutated.
pub struct BatchResult {
    /// One message block per file.
    pub messages: Vec<String>,
    /// Whether any file's tag was mutated.
    pub modified: bool,
}

/// Folds the per-file reports into the run's result: exactly one block per
/// report — no file's outcome is ever dropped — and the run counts as
/// modifying exactly when some file's tag was mutated.
pub fn collect_results(reports: Vec<EntryReport>) -> (r: BatchResult)
    ensures
        r.messages@.len() == reports@.len(),
        forall|i: int| 0 <= i < reports@.len() ==> r.messages@[i] == reports@[i].block,
        r.modified == exists|i: int| 0 <= i < reports@.len() && reports@[i].modified,
{
    let n = reports.len();
    let mut messages: Vec<String> = Vec::new();
    let mut modified = false;
    for i in 0..n
        invariant
            n == reports@.len(),
            messages@.len() == i,
            forall|j: int| 0 <= j < i ==> messages@[j] == reports@[j].block,
            modified == exists|j: int| 0 <= j < i && reports@[j].modified,
    {
        messages.push(reports[i].block.clone());
        if reports[i].modified {
            modified = true;
            proof {
                assert(exists|j: int| 0 <= j < i + 1 && reports@[j].modified) by {
                    assert(reports@[i as int].modified);
                }
            }
        } else {
            proof {
                if exists|j: int| 0 <= j < i + 1 && reports@[j].modified {
                    let j = choose|j: int| 0 <= j < i + 1 && reports@[j].modified;
                    assert(0 <= j < i && reports@[j].modified);
                }
            }
        }
    }
    BatchResult { messages, modified }
}

} // verus!
