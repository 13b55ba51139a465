//! Display messages: one line per operation, stating what happened to the
//! field.

use crate::editor::{Change, EditError, SpecChange, SpecEditError, edit_result_view};
use vstd::prelude::*;
use vstd::string::StringExecFns;

verus! {

/// The text shown for an edit error.
pub open spec fn spec_error_text(e: SpecEditError) -> Seq<char> {
    match e {
        SpecEditError::FieldMissing(f) => "missing field "@ + f,
        SpecEditError::Transform(_) => "not a number"@,
        SpecEditError::RenameFailed(d) => "rename failed: "@ + d,
    }
}

/// The message for one operation on one file: the operation's label, then
/// what happened. The same text is produced in preview and in commit mode.
pub open spec fn spec_message(
    r: Result<SpecChange, SpecEditError>,
    label: Seq<char>,
    name: Seq<char>,
) -> Seq<char> {
    match r {
        Ok(SpecChange::Unchanged) => label + " (unchanged): "@ + name,
        Ok(SpecChange::Cleared) => label + " (cleared): "@ + name,
        Ok(SpecChange::Changed { old, new }) => label + ": "@ + old + " -> "@ + new,
        Err(e) => label + " failed for "@ + name + ": "@ + spec_error_text(e),
    }
}

fn error_text(e: &EditError) -> (r: String)
    ensures
        r@ == spec_error_text(e@),
{
    match e {
        EditError::FieldMissing(f) => {
            let mut r = String::from_str("missing field ");
            r.append(f.as_str());
            r
        },
        EditError::Transform(_) => String::from_str("not a number"),
        EditError::RenameFailed(d) => {
            let mut r = String::from_str("rename failed: ");
            r.append(d.as_str());
            r
        },
    }
}

/// Builds the display message for one operation on one file, exactly as
/// `spec_message` describes. The text does not depend on whether the run
/// commits; marking the new value up for the terminal is a presentation
/// concern left to callers.
#[allow(unused_variables)]
pub fn create_message(
    msg: Result<Change, EditError>,
    strategy: &str,
    file_name: &str,
    run: bool,
) -> (r: String)
    ensures
        r@ == spec_message(edit_result_view(msg), strategy@, file_name@),
{
    match msg {
        Ok(Change::Unchanged) => {
            let mut r = strategy.to_owned();
            r.append(" (unchanged): ");
            r.append(file_name);
            proof {
                assert(r@ =~= strategy@ + " (unchanged): "@ + file_name@);
            }
            r
        },
        Ok(Change::Cleared) => {
            let mut r = strategy.to_owned();
            r.append(" (cleared): ");
            r.append(file_name);
            proof {
                assert(r@ =~= strategy@ + " (cleared): "@ + file_name@);
            }
            r
        },
        Ok(Change::Changed(ba)) => {
            let mut r = strategy.to_owned();
            r.append(": ");
            r.append(ba.old.as_str());
            r.append(" -> ");
            r.append(ba.new.as_str());
            proof {
                assert(r@ =~= strategy@ + ": "@ + ba.old@ + " -> "@ + ba.new@);
            }
            r
        },
        Err(e) => {
            let t = error_text(&e);
            let mut r = strategy.to_owned();
            r.append(" failed for ");
            r.append(file_name);
            r.append(": ");
            r.append(t.as_str());
            proof {
                assert(r@ =~= strategy@ + " failed for "@ + file_name@ + ": "@ + spec_error_text(
                    e@,
                ));
            }
            r
        },
    }
}

} // verus!
