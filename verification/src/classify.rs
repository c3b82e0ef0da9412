//! The one-shot text classifier: a stateless spawn-and-wait of a fixed
//! external executable, sharing nothing with the supervisor's slots or guards.
//!
//! The runtime spawns [`crate::launch::build_classify_launch`], waits for
//! completion, decodes the captured output as UTF-8, and hands the outcome to
//! [`classify_outcome`], which decides what the caller sees.

use vstd::prelude::*;

verus! {

/// What `str::trim` returns for the given characters: the slice with leading
/// and trailing whitespace removed. The result depends on the characters
/// alone; the full Unicode whitespace table is not restated here.
pub uninterp spec fn trimmed_of(s: Seq<char>) -> Seq<char>;

/// Relies on `str::trim` from std: removes leading and trailing whitespace,
/// so the result is never longer than the input.
#[verifier::external_body]
fn trim_string(s: &String) -> (r: String)
    ensures
        r@ == trimmed_of(s@),
        r@.len() <= s@.len(),
{
    s.trim().to_owned()
}

/// The failure detail for a classifier run that exited unsuccessfully: the
/// exit status and the captured standard error.
pub open spec fn classify_failure_message(status: Seq<char>, stderr: Seq<char>) -> Seq<char> {
    "FastText failed ("@ + status + "): "@ + stderr
}

/// Decide what a finished classifier run returns: the trimmed standard output
/// on success, or a detail naming the exit status and the captured standard
/// error. `exit_status` is the status as the runtime renders it; `stdout` and
/// `stderr` are the captured streams, already decoded as UTF-8.
pub fn classify_outcome(success: bool, exit_status: &String, stdout: &String, stderr: &String) -> (r:
    Result<String, String>)
    ensures
        success ==> (r matches Ok(m) && m@ == trimmed_of(stdout@)),
        !success ==> (r matches Err(m) && m@ == classify_failure_message(exit_status@, stderr@)),
{
    if success {
        Ok(trim_string(stdout))
    } else {
        Err(
            String::from_str("FastText failed (").concat(exit_status.as_str()).concat(
                "): ",
            ).concat(stderr.as_str()),
        )
    }
}

} // verus!
