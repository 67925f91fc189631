//! How one case is judged, and how the results are told.
//!
//! The expected output of a case is stored as the reference program printed
//! it, and is compared after its trailing white space has been removed. The
//! candidate's output is compared as it was printed, with nothing removed.

use crate::decimal::numeral_of;
use crate::decimal::render_signed;
use crate::decimal::render_unsigned;
use crate::decimal::signed_numeral_of;
use crate::text::ends_clean;
use crate::text::lemma_trim_end;
use crate::text::same_text;
use crate::text::trim_end;
use crate::text::trim_trailing;
use vstd::prelude::*;
use vstd::string::StringExecFns;

verus! {

/// The result of one case, with the time the candidate took in nanoseconds.
#[derive(Clone, Copy, Debug, PartialEq, Eq, Structural)]
pub enum GradeOutcome {
    /// The output is right and came within the time limit.
    Passed { elapsed_ns: u128 },
    /// The output is right but took longer than the time limit.
    PassedSlow { elapsed_ns: u128 },
    /// The output is wrong.
    Failed { elapsed_ns: u128 },
}

/// The tally of a grading run.
#[derive(Clone, Copy, Debug, PartialEq, Eq, Structural)]
pub struct GradeSummary {
    /// Number of cases that passed within the time limit.
    pub passed_count: i32,
    /// Number of cases the package records.
    pub total_count: i32,
}

/// Whether a run of `elapsed_ns` nanoseconds took longer than `limit_ms`
/// milliseconds.
pub open spec fn exceeds_limit(elapsed_ns: u128, limit_ms: u64) -> bool {
    elapsed_ns as int > limit_ms as int * 1_000_000
}

/// The result of a case whose expected output, after trimming, is `expected`.
pub open spec fn outcome_of(
    actual: Seq<char>,
    expected: Seq<char>,
    elapsed_ns: u128,
    limit_ms: u64,
) -> GradeOutcome {
    if actual != expected {
        GradeOutcome::Failed { elapsed_ns }
    } else if exceeds_limit(elapsed_ns, limit_ms) {
        GradeOutcome::PassedSlow { elapsed_ns }
    } else {
        GradeOutcome::Passed { elapsed_ns }
    }
}

/// The result of a case whose expected output is stored as `stored`.
pub open spec fn case_outcome(
    actual: Seq<char>,
    stored: Seq<char>,
    elapsed_ns: u128,
    limit_ms: u64,
) -> GradeOutcome {
    outcome_of(actual, trim_end(stored), elapsed_ns, limit_ms)
}

impl GradeOutcome {
    /// The time the candidate took, in nanoseconds.
    pub open spec fn elapsed(self) -> u128 {
        match self {
            GradeOutcome::Passed { elapsed_ns } => elapsed_ns,
            GradeOutcome::PassedSlow { elapsed_ns } => elapsed_ns,
            GradeOutcome::Failed { elapsed_ns } => elapsed_ns,
        }
    }

    /// Whether the case counts towards the number of cases passed. A case that
    /// is right but slow does not.
    pub open spec fn counts(self) -> bool {
        self is Passed
    }

    /// Gives the time the candidate took, in nanoseconds.
    pub fn elapsed_ns(&self) -> (r: u128)
        ensures
            r == self.elapsed(),
    {
        match self {
            GradeOutcome::Passed { elapsed_ns } => *elapsed_ns,
            GradeOutcome::PassedSlow { elapsed_ns } => *elapsed_ns,
            GradeOutcome::Failed { elapsed_ns } => *elapsed_ns,
        }
    }

    /// Gives the time the candidate took, in whole milliseconds.
    pub fn elapsed_ms(&self) -> (r: u128)
        ensures
            r == self.elapsed() / 1_000_000,
    {
        self.elapsed_ns() / 1_000_000
    }

    /// Tells whether the case counts towards the number of cases passed.
    pub fn is_counted(&self) -> (r: bool)
        ensures
            r == self.counts(),
    {
        match self {
            GradeOutcome::Passed { .. } => true,
            _ => false,
        }
    }
}

/// The line that tells the result of a case.
pub open spec fn case_line_text(index: int, outcome: GradeOutcome) -> Seq<char> {
    let verdict = match outcome {
        GradeOutcome::Passed { .. } => " passed! ("@,
        GradeOutcome::PassedSlow { .. } => " passed but took too long! ("@,
        GradeOutcome::Failed { .. } => " failed! ("@,
    };
    "Testcase "@ + signed_numeral_of(index) + verdict + numeral_of(
        (outcome.elapsed() / 1_000_000) as nat,
    ) + "ms)"@
}

/// The line that closes a grading run: `<passed>/<total> testcases passed`.
pub open spec fn summary_text(summary: GradeSummary) -> Seq<char> {
    signed_numeral_of(summary.passed_count as int) + "/"@ + signed_numeral_of(
        summary.total_count as int,
    ) + " testcases passed"@
}

/// Tells whether a run took longer than the time limit.
pub fn took_too_long(elapsed_ns: u128, limit_ms: u64) -> (r: bool)
    ensures
        r == exceeds_limit(elapsed_ns, limit_ms),
{
    let limit_ns: u128 = (limit_ms as u128) * 1_000_000;
    elapsed_ns > limit_ns
}

/// Judges a case against its expected output as trimmed when it was read.
pub fn classify(actual: &str, expected: &str, elapsed_ns: u128, limit_ms: u64) -> (r: GradeOutcome)
    ensures
        r == outcome_of(actual@, expected@, elapsed_ns, limit_ms),
{
    if !same_text(actual, expected) {
        GradeOutcome::Failed { elapsed_ns }
    } else if took_too_long(elapsed_ns, limit_ms) {
        GradeOutcome::PassedSlow { elapsed_ns }
    } else {
        GradeOutcome::Passed { elapsed_ns }
    }
}

/// Judges a case against its expected output as stored.
pub fn grade_case(actual: &str, stored: &str, elapsed_ns: u128, limit_ms: u64) -> (r: GradeOutcome)
    ensures
        r == case_outcome(actual@, stored@, elapsed_ns, limit_ms),
        r.elapsed() == elapsed_ns,
        !(r is Failed) <==> actual@ == trim_end(stored@),
        r is Passed <==> actual@ == trim_end(stored@) && !exceeds_limit(elapsed_ns, limit_ms),
        r is PassedSlow <==> actual@ == trim_end(stored@) && exceeds_limit(elapsed_ns, limit_ms),
{
    classify(actual, trim_trailing(stored), elapsed_ns, limit_ms)
}

/// Only the stored side is trimmed: a candidate whose output ends in white
/// space fails the case, whatever is stored.
pub proof fn lemma_trailing_white_space_fails(
    actual: Seq<char>,
    stored: Seq<char>,
    elapsed_ns: u128,
    limit_ms: u64,
)
    requires
        !ends_clean(actual),
    ensures
        case_outcome(actual, stored, elapsed_ns, limit_ms) is Failed,
{
    lemma_trim_end(stored);
}

/// White space at the end of what is stored never matters: two stored texts
/// that agree after trimming judge every candidate alike.
pub proof fn lemma_stored_white_space_is_ignored(
    actual: Seq<char>,
    stored: Seq<char>,
    other: Seq<char>,
    elapsed_ns: u128,
    limit_ms: u64,
)
    requires
        trim_end(stored) == trim_end(other),
    ensures
        case_outcome(actual, stored, elapsed_ns, limit_ms) == case_outcome(
            actual,
            other,
            elapsed_ns,
            limit_ms,
        ),
{
}

/// Writes the line that tells the result of a case.
pub fn case_line(index: i32, outcome: GradeOutcome) -> (r: String)
    ensures
        r@ == case_line_text(index as int, outcome),
{
    let mut line = String::from_str("Testcase ");
    let number = render_signed(index);
    line.append(number.as_str());
    match outcome {
        GradeOutcome::Passed { .. } => line.append(" passed! ("),
        GradeOutcome::PassedSlow { .. } => line.append(" passed but took too long! ("),
        GradeOutcome::Failed { .. } => line.append(" failed! ("),
    }
    let millis = render_unsigned(outcome.elapsed_ms());
    line.append(millis.as_str());
    line.append("ms)");
    line
}

/// Writes the line that closes a grading run.
pub fn format_summary(summary: GradeSummary) -> (r: String)
    ensures
        r@ == summary_text(summary),
{
    let mut line = render_signed(summary.passed_count);
    line.append("/");
    let total = render_signed(summary.total_count);
    line.append(total.as_str());
    line.append(" testcases passed");
    line
}

} // verus!
