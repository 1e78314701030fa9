//! What a run prints: its progress and its final report.

use crate::text::{append_decimal, decimal};
use vstd::prelude::*;
use vstd::string::*;

verus! {

/// Progress is announced once for every this many requests.
pub const PROGRESS_INTERVAL: usize = 10000;

/// Whether the launch of request number `index` is to be announced: the
/// first one is, and every ten-thousandth after it.
pub fn progress_due(index: usize) -> (due: bool)
    ensures
        due == (index % PROGRESS_INTERVAL == 0),
{
    index % PROGRESS_INTERVAL == 0
}

/// The line that announces that `issued` requests have been started.
pub open spec fn progress_line_of(issued: nat) -> Seq<char> {
    "Performed "@ + decimal(issued) + " requests"@
}

/// The first line of the final report.
pub open spec fn successes_line_of(successes: nat) -> Seq<char> {
    "Successes: "@ + decimal(successes)
}

/// The second line of the final report.
pub open spec fn errors_line_of(failures: nat) -> Seq<char> {
    "Errors: "@ + decimal(failures)
}

/// The progress line for `issued` requests, without a line end.
pub fn progress_line(issued: usize) -> (line: String)
    ensures
        line@ == progress_line_of(issued as nat),
{
    let mut line = "Performed ".to_owned();
    append_decimal(&mut line, issued);
    line.append(" requests");
    line
}

/// The two lines of the final report, without line ends: the successes, then
/// the failures.
pub fn report_lines(successes: usize, failures: usize) -> (lines: (String, String))
    ensures
        lines.0@ == successes_line_of(successes as nat),
        lines.1@ == errors_line_of(failures as nat),
{
    let mut first = "Successes: ".to_owned();
    append_decimal(&mut first, successes);
    let mut second = "Errors: ".to_owned();
    append_decimal(&mut second, failures);
    (first, second)
}

} // verus!
