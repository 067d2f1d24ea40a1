//! What a finished shell command reports.
use vstd::prelude::*;
use crate::text::{utf8_lossy, utf8_lossy_text};

verus! {

/// Whether a finished command succeeded, with its standard output where it
/// did and its standard error where it did not, each read as UTF-8 with
/// invalid sequences replaced.
pub fn shell_outcome(success: bool, stdout: &[u8], stderr: &[u8]) -> (res: (bool, String))
    ensures
        res.0 == success,
        res.1@ == if success {
            utf8_lossy_text(stdout@)
        } else {
            utf8_lossy_text(stderr@)
        },
{
    if success {
        (true, utf8_lossy(stdout))
    } else {
        (false, utf8_lossy(stderr))
    }
}

} // verus!
