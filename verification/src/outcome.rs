//! The outcome of running the external downloader. Only the exit status is
//! kept: a zero exit code is success, anything else is failure, and no
//! process output is inspected beyond that.

use vstd::prelude::*;

verus! {

/// The only information retained from the external process.
#[derive(Clone, Copy, Debug, PartialEq, Eq, Structural)]
pub struct DownloadOutcome {
    pub succeeded: bool,
}

impl DownloadOutcome {
    /// Map an exit code of the external process to an outcome: the download
    /// succeeded exactly when the code is zero.
    pub fn from_exit_code(code: i32) -> (o: DownloadOutcome)
        ensures
            o.succeeded == (code == 0),
    {
        DownloadOutcome { succeeded: code == 0 }
    }
}

/// The user-visible status string for an outcome.
pub fn status_text(outcome: &DownloadOutcome) -> (r: &'static str)
    ensures
        outcome.succeeded ==> r@ == "Completed"@,
        !outcome.succeeded ==> r@ == "Failed"@,
{
    if outcome.succeeded {
        "Completed"
    } else {
        "Failed"
    }
}

} // verus!
