//! The grading of a candidate against a package, as a run that is driven from
//! outside.
//!
//! A run holds where the grading stands. It names what is to be done next
//! (`directive`), the caller does it and hands the answer back (`advance`).
//! The package's record is read first, so that a package without a usable
//! record is turned down before anything is compiled. The candidate is then
//! compiled once and judged on the cases one after the other, in ascending
//! order: the expected output is read and trimmed, the candidate reads the
//! stored input, and the result is told. The time limit is the one that the
//! package records. At the end the executable is removed and the tally is
//! told. Once the candidate is compiled its executable is removed on every
//! path, also where the run is given up.

use crate::grading::case_line;
use crate::grading::case_line_text;
use crate::grading::case_outcome;
use crate::grading::classify;
use crate::grading::exceeds_limit;
use crate::grading::format_summary;
use crate::grading::outcome_of;
use crate::grading::summary_text;
use crate::grading::GradeOutcome;
use crate::grading::GradeSummary;
use crate::layout::build_compile_request;
use crate::layout::build_solver_request;
use crate::layout::case_output_path;
use crate::layout::case_output_path_text;
use crate::layout::compile_request;
use crate::layout::launch_path;
use crate::layout::metadata_path;
use crate::layout::metadata_path_text;
use crate::layout::program_launch_path;
use crate::layout::solver_request;
use crate::metadata::metadata_reading;
use crate::metadata::parse_metadata;
use crate::metadata::MetadataError;
use crate::metadata::PackageMetadata;
use crate::protocol::Directive;
use crate::protocol::DirectiveView;
use crate::protocol::Program;
use crate::protocol::Request;
use crate::protocol::RequestView;
use crate::protocol::Response;
use crate::protocol::ResponseView;
use crate::protocol::RunError;
use crate::text::trim_end;
use crate::text::trim_trailing;
use vstd::prelude::*;
use vstd::string::StringExecFns;

verus! {

/// Where a grading stands: what was asked for last and is yet to be answered,
/// or how the run ended.
#[derive(Clone, Copy, Debug, PartialEq, Eq, Structural)]
pub enum GradingStage {
    /// The package's record is being read.
    ReadingMetadata,
    /// The candidate is being compiled.
    CompilingCandidate,
    /// The expected output of case `index` is being read.
    ReadingExpected { index: i32 },
    /// The candidate is running on the stored input of case `index`.
    RunningCandidate { index: i32 },
    /// The result of case `index` is being told.
    Reporting { index: i32 },
    /// The candidate's executable is being removed after the last case.
    RemovingCandidate,
    /// The tally is being told.
    Summarizing,
    /// All is done.
    Finished,
    /// The candidate's executable is being removed because the run is given up.
    CleaningUp { error: RunError },
    /// The run was given up.
    Aborted { error: RunError },
}

/// A grading under way.
#[derive(Debug)]
pub struct Grading {
    package: String,
    stage: GradingStage,
    metadata: PackageMetadata,
    passed: i32,
    expected: String,
    outcome: GradeOutcome,
}

/// A grading as a mathematical value.
pub struct GradingView {
    /// Name of the package.
    pub package: Seq<char>,
    /// Where the run stands.
    pub stage: GradingStage,
    /// The package's record, once it has been read; zeros before.
    pub metadata: PackageMetadata,
    /// Number of cases that have passed so far.
    pub passed: i32,
    /// The expected output of the case in hand, trimmed; of no meaning before
    /// the first case.
    pub expected: Seq<char>,
    /// The result of the case judged last; of no meaning before the first.
    pub outcome: GradeOutcome,
}

impl View for Grading {
    type V = GradingView;

    closed spec fn view(&self) -> GradingView {
        GradingView {
            package: self.package@,
            stage: self.stage,
            metadata: self.metadata,
            passed: self.passed,
            expected: self.expected@,
            outcome: self.outcome,
        }
    }
}

impl GradingStage {
    /// Whether the run has ended, well or badly.
    pub open spec fn is_final(self) -> bool {
        self is Finished || self is Aborted
    }

    /// Whether the candidate's executable is to be removed if the run is given
    /// up at this stage: it is, from the first case to the last.
    pub open spec fn holds_executable(self) -> bool {
        self is ReadingExpected || self is RunningCandidate || self is Reporting
    }
}

impl GradingView {
    /// Number of cases that the run judges: none for a count below one.
    pub open spec fn case_total(self) -> nat {
        if self.metadata.case_count >= 1 {
            self.metadata.case_count as nat
        } else {
            0
        }
    }

    /// Whether the run is one that `test` and `advance` can lead to: a case in
    /// hand is one of the package's cases, and no more cases have passed than
    /// have been judged.
    pub open spec fn well_formed(self) -> bool {
        match self.stage {
            GradingStage::ReadingMetadata => self.passed == 0 && self.metadata.case_count == 0,
            GradingStage::CompilingCandidate => self.passed == 0,
            GradingStage::ReadingExpected { index } => 1 <= index <= self.metadata.case_count && 0
                <= self.passed < index,
            GradingStage::RunningCandidate { index } => 1 <= index <= self.metadata.case_count && 0
                <= self.passed < index,
            GradingStage::Reporting { index } => 1 <= index <= self.metadata.case_count && 0
                <= self.passed <= index,
            _ => 0 <= self.passed <= self.case_total(),
        }
    }

    /// The same run at another stage.
    pub open spec fn at(self, stage: GradingStage) -> GradingView {
        GradingView { stage, ..self }
    }

    /// The stage at which the run is given up with `error`: at once where no
    /// executable is held, after its removal where one is.
    pub open spec fn failing(self, error: RunError) -> GradingStage {
        if self.stage.holds_executable() {
            GradingStage::CleaningUp { error }
        } else {
            GradingStage::Aborted { error }
        }
    }

    /// The stage at which the cases start: the first case, or the removal of
    /// the executable at once where there are no cases.
    pub open spec fn first_case(self) -> GradingStage {
        if self.metadata.case_count >= 1 {
            GradingStage::ReadingExpected { index: 1 }
        } else {
            GradingStage::RemovingCandidate
        }
    }

    /// The stage that follows case `index`: the next case, or the removal of
    /// the executable after the last.
    pub open spec fn after_case(self, index: i32) -> GradingStage {
        if index < self.metadata.case_count {
            GradingStage::ReadingExpected { index: (index + 1) as i32 }
        } else {
            GradingStage::RemovingCandidate
        }
    }

    /// The run after an answer that does not say that the pending request went
    /// well: given up for `error` if the request failed, and for the
    /// unexpected answer otherwise.
    pub open spec fn give_up(self, response: ResponseView, error: RunError) -> GradingView {
        match response {
            ResponseView::Failed => self.at(self.failing(error)),
            _ => self.at(self.failing(RunError::UnexpectedResponse)),
        }
    }

    /// The run after the candidate has printed `stdout` in `elapsed_ns`
    /// nanoseconds on the case in hand: the case is judged against the expected
    /// output and counted if it passed within the time limit.
    pub open spec fn judged(self, index: i32, stdout: Seq<char>, elapsed_ns: u128) -> GradingView {
        let outcome = outcome_of(stdout, self.expected, elapsed_ns, self.metadata.time_limit_ms);
        GradingView {
            stage: GradingStage::Reporting { index },
            outcome,
            passed: if outcome.counts() {
                (self.passed + 1) as i32
            } else {
                self.passed
            },
            ..self
        }
    }

    /// The run after an answer.
    pub open spec fn advance(self, response: ResponseView) -> GradingView {
        match self.stage {
            GradingStage::ReadingMetadata => match response {
                ResponseView::Content { text } => match metadata_reading(text) {
                    Ok(metadata) => GradingView {
                        stage: GradingStage::CompilingCandidate,
                        metadata,
                        ..self
                    },
                    Err(error) => self.at(GradingStage::Aborted { error: RunError::Metadata(error) }),
                },
                _ => self.give_up(response, RunError::Metadata(MetadataError::NotFound)),
            },
            GradingStage::CompilingCandidate => match response {
                ResponseView::Exited { success, .. } => if success {
                    self.at(self.first_case())
                } else {
                    self.at(GradingStage::Aborted { error: RunError::Compile(Program::Candidate) })
                },
                _ => self.give_up(response, RunError::Compile(Program::Candidate)),
            },
            GradingStage::ReadingExpected { index } => match response {
                ResponseView::Content { text } => GradingView {
                    stage: GradingStage::RunningCandidate { index },
                    expected: trim_end(text),
                    ..self
                },
                _ => self.give_up(response, RunError::FileIo),
            },
            GradingStage::RunningCandidate { index } => match response {
                ResponseView::Exited { stdout, elapsed_ns, .. } => self.judged(
                    index,
                    stdout,
                    elapsed_ns,
                ),
                _ => self.give_up(response, RunError::Execution(Program::Candidate)),
            },
            GradingStage::Reporting { index } => match response {
                ResponseView::Done => self.at(self.after_case(index)),
                _ => self.give_up(response, RunError::FileIo),
            },
            GradingStage::RemovingCandidate => match response {
                ResponseView::Done => self.at(GradingStage::Summarizing),
                _ => self.give_up(response, RunError::FileIo),
            },
            GradingStage::Summarizing => match response {
                ResponseView::Done => self.at(GradingStage::Finished),
                _ => self.give_up(response, RunError::FileIo),
            },
            GradingStage::CleaningUp { error } => self.at(GradingStage::Aborted { error }),
            GradingStage::Finished => self,
            GradingStage::Aborted { .. } => self,
        }
    }

    /// The tally so far.
    pub open spec fn summary(self) -> GradeSummary {
        GradeSummary { passed_count: self.passed, total_count: self.metadata.case_count }
    }

    /// What the run wants next.
    pub open spec fn directive(self) -> DirectiveView {
        match self.stage {
            GradingStage::ReadingMetadata => DirectiveView::Perform(
                RequestView::ReadFile { path: metadata_path_text(self.package) },
            ),
            GradingStage::CompilingCandidate => DirectiveView::Perform(
                compile_request(Program::Candidate),
            ),
            GradingStage::ReadingExpected { index } => DirectiveView::Perform(
                RequestView::ReadFile { path: case_output_path_text(self.package, index as int) },
            ),
            GradingStage::RunningCandidate { index } => DirectiveView::Perform(
                solver_request(Program::Candidate, self.package, index as int),
            ),
            GradingStage::Reporting { index } => DirectiveView::Perform(
                RequestView::Print { line: case_line_text(index as int, self.outcome) },
            ),
            GradingStage::RemovingCandidate => DirectiveView::Perform(
                RequestView::RemoveFile { path: launch_path(Program::Candidate) },
            ),
            GradingStage::Summarizing => DirectiveView::Perform(
                RequestView::Print { line: summary_text(self.summary()) },
            ),
            GradingStage::Finished => DirectiveView::Finish,
            GradingStage::CleaningUp { .. } => DirectiveView::Perform(
                RequestView::RemoveFile { path: launch_path(Program::Candidate) },
            ),
            GradingStage::Aborted { error } => DirectiveView::Abort(error),
        }
    }
}

/// A grading that has not begun: its first request is yet to be made.
pub open spec fn initial_grading(package: Seq<char>) -> GradingView {
    GradingView {
        package,
        stage: GradingStage::ReadingMetadata,
        metadata: PackageMetadata { case_count: 0, time_limit_ms: 0 },
        passed: 0,
        expected: Seq::<char>::empty(),
        outcome: GradeOutcome::Failed { elapsed_ns: 0 },
    }
}

/// Begins the grading of the candidate against `package`.
pub fn test(package: &str) -> (r: Grading)
    ensures
        r@ == initial_grading(package@),
        r@.well_formed(),
{
    Grading {
        package: String::from_str(package),
        stage: GradingStage::ReadingMetadata,
        metadata: PackageMetadata { case_count: 0, time_limit_ms: 0 },
        passed: 0,
        expected: String::new(),
        outcome: GradeOutcome::Failed { elapsed_ns: 0 },
    }
}

impl Grading {
    #[verifier::type_invariant]
    spec fn sound(self) -> bool {
        self@.well_formed()
    }

    /// Tells where the run stands.
    pub fn stage(&self) -> (r: GradingStage)
        ensures
            r == self@.stage,
    {
        self.stage
    }

    /// Tells the tally so far: the cases that passed within the time limit,
    /// out of the number of cases the package records. No more cases have
    /// passed than the package holds.
    pub fn summary(&self) -> (r: GradeSummary)
        ensures
            r == self@.summary(),
            self@.well_formed(),
            0 <= r.passed_count <= self@.case_total(),
    {
        proof {
            use_type_invariant(self);
        }
        GradeSummary { passed_count: self.passed, total_count: self.metadata.case_count }
    }

    /// Tells what the run wants next.
    pub fn directive(&self) -> (r: Directive)
        ensures
            r@ == self@.directive(),
    {
        match self.stage {
            GradingStage::ReadingMetadata => Directive::Perform(
                Request::ReadFile { path: metadata_path(self.package.as_str()) },
            ),
            GradingStage::CompilingCandidate => Directive::Perform(
                build_compile_request(Program::Candidate),
            ),
            GradingStage::ReadingExpected { index } => Directive::Perform(
                Request::ReadFile { path: case_output_path(self.package.as_str(), index) },
            ),
            GradingStage::RunningCandidate { index } => Directive::Perform(
                build_solver_request(Program::Candidate, self.package.as_str(), index),
            ),
            GradingStage::Reporting { index } => Directive::Perform(
                Request::Print { line: case_line(index, self.outcome) },
            ),
            GradingStage::RemovingCandidate => Directive::Perform(
                Request::RemoveFile { path: program_launch_path(Program::Candidate) },
            ),
            GradingStage::Summarizing => Directive::Perform(
                Request::Print {
                    line: format_summary(
                        GradeSummary {
                            passed_count: self.passed,
                            total_count: self.metadata.case_count,
                        },
                    ),
                },
            ),
            GradingStage::Finished => Directive::Finish,
            GradingStage::CleaningUp { .. } => Directive::Perform(
                Request::RemoveFile { path: program_launch_path(Program::Candidate) },
            ),
            GradingStage::Aborted { error } => Directive::Abort(error),
        }
    }

    /// The same run at another stage.
    fn moved_to(self, stage: GradingStage) -> (r: Grading)
        requires
            self@.at(stage).well_formed(),
        ensures
            r@ == self@.at(stage),
    {
        Grading {
            package: self.package,
            stage,
            metadata: self.metadata,
            passed: self.passed,
            expected: self.expected,
            outcome: self.outcome,
        }
    }

    /// The run given up after an answer that does not say that the pending
    /// request went well.
    fn given_up(self, failed: bool, error: RunError) -> (r: Grading)
        ensures
            r@ == self@.at(
                self@.failing(
                    if failed {
                        error
                    } else {
                        RunError::UnexpectedResponse
                    },
                ),
            ),
    {
        proof {
            use_type_invariant(&self);
        }
        let error = if failed {
            error
        } else {
            RunError::UnexpectedResponse
        };
        let holds_executable = match self.stage {
            GradingStage::ReadingExpected { .. } => true,
            GradingStage::RunningCandidate { .. } => true,
            GradingStage::Reporting { .. } => true,
            _ => false,
        };
        if holds_executable {
            self.moved_to(GradingStage::CleaningUp { error })
        } else {
            self.moved_to(GradingStage::Aborted { error })
        }
    }

    /// Takes the answer to the request that `directive` named and moves on.
    pub fn advance(self, response: Response) -> (r: Grading)
        ensures
            r@ == self@.advance(response@),
            r@.well_formed(),
    {
        proof {
            use_type_invariant(&self);
        }
        let failed = match response {
            Response::Failed => true,
            _ => false,
        };
        let r = match self.stage {
            GradingStage::ReadingMetadata => match response {
                Response::Content { text } => match parse_metadata(text.as_str()) {
                    Ok(metadata) => Grading {
                        package: self.package,
                        stage: GradingStage::CompilingCandidate,
                        metadata,
                        passed: self.passed,
                        expected: self.expected,
                        outcome: self.outcome,
                    },
                    Err(error) => self.moved_to(
                        GradingStage::Aborted { error: RunError::Metadata(error) },
                    ),
                },
                _ => self.given_up(failed, RunError::Metadata(MetadataError::NotFound)),
            },
            GradingStage::CompilingCandidate => match response {
                Response::Exited { success, .. } => if success {
                    let first_case = if self.metadata.case_count >= 1 {
                        GradingStage::ReadingExpected { index: 1 }
                    } else {
                        GradingStage::RemovingCandidate
                    };
                    self.moved_to(first_case)
                } else {
                    self.moved_to(
                        GradingStage::Aborted { error: RunError::Compile(Program::Candidate) },
                    )
                },
                _ => self.given_up(failed, RunError::Compile(Program::Candidate)),
            },
            GradingStage::ReadingExpected { index } => match response {
                Response::Content { text } => Grading {
                    package: self.package,
                    stage: GradingStage::RunningCandidate { index },
                    metadata: self.metadata,
                    passed: self.passed,
                    expected: String::from_str(trim_trailing(text.as_str())),
                    outcome: self.outcome,
                },
                _ => self.given_up(failed, RunError::FileIo),
            },
            GradingStage::RunningCandidate { index } => match response {
                Response::Exited { stdout, elapsed_ns, .. } => {
                    let outcome = classify(
                        stdout.as_str(),
                        self.expected.as_str(),
                        elapsed_ns,
                        self.metadata.time_limit_ms,
                    );
                    let passed: i32 = if outcome.is_counted() {
                        self.passed + 1
                    } else {
                        self.passed
                    };
                    Grading {
                        package: self.package,
                        stage: GradingStage::Reporting { index },
                        metadata: self.metadata,
                        passed,
                        expected: self.expected,
                        outcome,
                    }
                },
                _ => self.given_up(failed, RunError::Execution(Program::Candidate)),
            },
            GradingStage::Reporting { index } => match response {
                Response::Done => {
                    let after_case = if index < self.metadata.case_count {
                        GradingStage::ReadingExpected { index: index + 1 }
                    } else {
                        GradingStage::RemovingCandidate
                    };
                    self.moved_to(after_case)
                },
                _ => self.given_up(failed, RunError::FileIo),
            },
            GradingStage::RemovingCandidate => match response {
                Response::Done => self.moved_to(GradingStage::Summarizing),
                _ => self.given_up(failed, RunError::FileIo),
            },
            GradingStage::Summarizing => match response {
                Response::Done => self.moved_to(GradingStage::Finished),
                _ => self.given_up(failed, RunError::FileIo),
            },
            GradingStage::CleaningUp { error } => self.moved_to(GradingStage::Aborted { error }),
            GradingStage::Finished => self,
            GradingStage::Aborted { .. } => self,
        };
        proof {
            use_type_invariant(&r);
        }
        r
    }
}

impl GradingView {
    /// Number of requests that have been answered when a run that met no
    /// failure stands at this stage. The three steps of a case follow those of
    /// the case before it.
    pub open spec fn position(self) -> nat
        recommends
            self.well_formed(),
            !(self.stage is Aborted),
            !(self.stage is CleaningUp),
    {
        match self.stage {
            GradingStage::ReadingMetadata => 0,
            GradingStage::CompilingCandidate => 1,
            GradingStage::ReadingExpected { index } => (3 * index - 1) as nat,
            GradingStage::RunningCandidate { index } => (3 * index) as nat,
            GradingStage::Reporting { index } => (3 * index + 1) as nat,
            GradingStage::RemovingCandidate => 3 * self.case_total() + 2,
            GradingStage::Summarizing => 3 * self.case_total() + 3,
            GradingStage::Finished => 3 * self.case_total() + 4,
            GradingStage::CleaningUp { .. } => 0,
            GradingStage::Aborted { .. } => 0,
        }
    }

    /// Whether an answer says that the pending request went well: the record
    /// was read and is well formed, the compiler exited with status zero, a
    /// file was read, the candidate ran to its end, or the thing was done.
    /// Nothing goes well once the run is being given up or has ended.
    pub open spec fn fits(self, response: ResponseView) -> bool {
        match self.stage {
            GradingStage::ReadingMetadata => response matches ResponseView::Content { text }
                && metadata_reading(text) is Ok,
            GradingStage::CompilingCandidate => response.is_clean_exit(),
            GradingStage::ReadingExpected { .. } => response is Content,
            GradingStage::RunningCandidate { .. } => response is Exited,
            GradingStage::Reporting { .. } => response is Done,
            GradingStage::RemovingCandidate => response is Done,
            GradingStage::Summarizing => response is Done,
            _ => false,
        }
    }

    /// The run after a sequence of answers, taken in order.
    pub open spec fn run(self, responses: Seq<ResponseView>) -> GradingView
        decreases responses.len(),
    {
        if responses.len() == 0 {
            self
        } else {
            self.run(responses.drop_last()).advance(responses.last())
        }
    }

    /// Whether every answer of the sequence says that the request it answers
    /// went well.
    pub open spec fn all_fit(self, responses: Seq<ResponseView>) -> bool
        decreases responses.len(),
    {
        responses.len() == 0 || (self.all_fit(responses.drop_last()) && self.run(
            responses.drop_last(),
        ).fits(responses.last()))
    }
}

/// Whatever a grading is told, it stays one that `test` and `advance` can lead
/// to, it keeps its package, and once the record is read it keeps the record.
pub proof fn lemma_grading_step_is_sound(g: GradingView, response: ResponseView)
    requires
        g.well_formed(),
    ensures
        g.advance(response).well_formed(),
        g.advance(response).package == g.package,
        !(g.stage is ReadingMetadata) ==> g.advance(response).metadata == g.metadata,
{
}

/// An answer that says the request went well takes the run exactly one step
/// further in the fixed order of a grading.
pub proof fn lemma_grading_step(g: GradingView, response: ResponseView)
    requires
        g.well_formed(),
        g.fits(response),
    ensures
        !(g.advance(response).stage is Aborted),
        !(g.advance(response).stage is CleaningUp),
        g.advance(response).position() == g.position() + 1,
{
}

/// There is no second try: an answer that says anything else than that the
/// pending request went well gives the run up. Before the candidate is
/// compiled and after its executable was removed the run ends at once.
/// In between the executable is removed first, and the run then ends with the
/// same error whatever came of the removal.
pub proof fn lemma_grading_failure_ends_run(
    g: GradingView,
    response: ResponseView,
    later: ResponseView,
)
    requires
        !g.stage.is_final(),
        !(g.stage is CleaningUp),
        !g.fits(response),
    ensures
        !g.stage.holds_executable() ==> g.advance(response).directive() is Abort,
        g.stage.holds_executable() ==> {
            &&& g.advance(response).stage matches GradingStage::CleaningUp { error }
            &&& g.advance(response).directive() == DirectiveView::Perform(
                RequestView::RemoveFile { path: launch_path(Program::Candidate) },
            )
            &&& g.advance(response).advance(later).directive() == DirectiveView::Abort(error)
        },
{
}

/// A run that has ended stays as it ended, whatever it is told.
pub proof fn lemma_grading_end_is_final(g: GradingView, responses: Seq<ResponseView>)
    requires
        g.stage.is_final(),
    ensures
        g.run(responses) == g,
    decreases responses.len(),
{
    if responses.len() > 0 {
        lemma_grading_end_is_final(g, responses.drop_last());
    }
}

/// Answers may be taken in two parts: the run after all of them is the run
/// that the second part leads to from where the first part led.
pub proof fn lemma_grading_run_splits(
    g: GradingView,
    first: Seq<ResponseView>,
    second: Seq<ResponseView>,
)
    ensures
        g.run(first + second) == g.run(first).run(second),
    decreases second.len(),
{
    if second.len() == 0 {
        assert(first + second =~= first);
    } else {
        lemma_grading_run_splits(g, first, second.drop_last());
        assert((first + second).drop_last() =~= first + second.drop_last());
        assert((first + second).last() == second.last());
    }
}

/// A grading that meets no failure goes through its steps in order: after `k`
/// answers it stands at position `k`. It has finished exactly when `3 * n + 4`
/// requests have been answered, `n` being the number of cases on record: the
/// record, the compilation, three steps for each case, the removal and the
/// tally. No more cases have passed than the package holds.
pub proof fn lemma_grading_runs_in_order(package: Seq<char>, responses: Seq<ResponseView>)
    requires
        initial_grading(package).all_fit(responses),
    ensures
        ({
            let end = initial_grading(package).run(responses);
            &&& end.well_formed()
            &&& !(end.stage is Aborted)
            &&& !(end.stage is CleaningUp)
            &&& end.position() == responses.len()
            &&& responses.len() <= 3 * end.case_total() + 4
            &&& end.stage is Finished <==> responses.len() == 3 * end.case_total() + 4
            &&& 0 <= end.summary().passed_count <= end.case_total()
        }),
    decreases responses.len(),
{
    if responses.len() > 0 {
        let before = initial_grading(package).run(responses.drop_last());
        lemma_grading_runs_in_order(package, responses.drop_last());
        lemma_grading_step_is_sound(before, responses.last());
        lemma_grading_step(before, responses.last());
    }
}

/// A package without a usable record is turned down before anything is
/// compiled or run: if the record cannot be read, or what was read is
/// malformed, the grading ends with that error, and at no point was a program
/// asked to be run.
pub proof fn lemma_unusable_record_ends_grading(
    package: Seq<char>,
    responses: Seq<ResponseView>,
    k: int,
)
    requires
        responses.len() >= 1,
        responses[0] is Failed || (responses[0] matches ResponseView::Content { text }
            && metadata_reading(text) is Err),
        0 <= k <= responses.len(),
    ensures
        initial_grading(package).run(responses).stage == (GradingStage::Aborted {
            error: RunError::Metadata(
                match responses[0] {
                    ResponseView::Content { text } => metadata_reading(text)->Err_0,
                    _ => MetadataError::NotFound,
                },
            ),
        }),
        !initial_grading(package).run(responses.take(k)).directive().runs_program(),
{
    let start = initial_grading(package);
    let first = responses.take(1);
    assert(first.drop_last() =~= Seq::<ResponseView>::empty());
    assert(first.last() == responses[0]);
    assert(start.run(first.drop_last()) == start);
    let turned_down = start.run(first);
    assert(turned_down.stage is Aborted);
    assert(first + responses.skip(1) =~= responses);
    lemma_grading_run_splits(start, first, responses.skip(1));
    lemma_grading_end_is_final(turned_down, responses.skip(1));
    if k >= 1 {
        let part = responses.take(k);
        assert(first + part.skip(1) =~= part);
        lemma_grading_run_splits(start, first, part.skip(1));
        lemma_grading_end_is_final(turned_down, part.skip(1));
    } else {
        assert(responses.take(k) =~= Seq::<ResponseView>::empty());
    }
}

/// How one case is judged and counted. The candidate reads the stored input of
/// the case, its output is compared as printed with the stored expected output
/// as trimmed, and the result is told. The case is counted if and only if the
/// two are the same and the candidate kept the time limit on record: a right
/// answer that came too late is told as such and not counted. How the
/// candidate exited plays no part.
pub proof fn lemma_case_is_counted_iff_right_and_timely(
    g: GradingView,
    index: i32,
    stored: Seq<char>,
    success: bool,
    stdout: Seq<char>,
    elapsed_ns: u128,
)
    requires
        g.well_formed(),
        g.stage == (GradingStage::ReadingExpected { index }),
    ensures
        ({
            let asked = g.advance(ResponseView::Content { text: stored });
            let told = asked.advance(ResponseView::Exited { success, stdout, elapsed_ns });
            let timely = !exceeds_limit(elapsed_ns, g.metadata.time_limit_ms);
            &&& asked.directive() == DirectiveView::Perform(
                solver_request(Program::Candidate, g.package, index as int),
            )
            &&& told.outcome == case_outcome(stdout, stored, elapsed_ns, g.metadata.time_limit_ms)
            &&& told.directive() == DirectiveView::Perform(
                RequestView::Print { line: case_line_text(index as int, told.outcome) },
            )
            &&& stdout == trim_end(stored) && timely ==> told.outcome is Passed && told.passed
                == g.passed + 1
            &&& stdout == trim_end(stored) && !timely ==> told.outcome is PassedSlow && told.passed
                == g.passed
            &&& stdout != trim_end(stored) ==> told.outcome is Failed && told.passed == g.passed
        }),
{
}

/// What happened on one case of a grading that met no failure.
pub struct CaseRecord {
    /// The expected output as stored.
    pub stored: Seq<char>,
    /// Whether the candidate exited with status zero.
    pub success: bool,
    /// What the candidate printed.
    pub stdout: Seq<char>,
    /// How long the candidate ran, in nanoseconds.
    pub elapsed_ns: u128,
}

impl CaseRecord {
    /// The three answers of the case: the stored expected output, the
    /// candidate's run, and the telling of the result.
    pub open spec fn answers(self) -> Seq<ResponseView> {
        seq![
            ResponseView::Content { text: self.stored },
            ResponseView::Exited {
                success: self.success,
                stdout: self.stdout,
                elapsed_ns: self.elapsed_ns,
            },
            ResponseView::Done,
        ]
    }

    /// Whether the case passes within `limit_ms` milliseconds.
    pub open spec fn passes(self, limit_ms: u64) -> bool {
        case_outcome(self.stdout, self.stored, self.elapsed_ns, limit_ms).counts()
    }
}

/// The answers of a sequence of cases, one case after the other.
pub open spec fn answers_of_cases(cases: Seq<CaseRecord>) -> Seq<ResponseView>
    decreases cases.len(),
{
    if cases.len() == 0 {
        Seq::<ResponseView>::empty()
    } else {
        answers_of_cases(cases.drop_last()) + cases.last().answers()
    }
}

/// Number of cases among `cases` that pass within `limit_ms` milliseconds.
pub open spec fn passes_among(cases: Seq<CaseRecord>, limit_ms: u64) -> nat
    decreases cases.len(),
{
    if cases.len() == 0 {
        0
    } else {
        passes_among(cases.drop_last(), limit_ms) + if cases.last().passes(limit_ms) {
            1nat
        } else {
            0nat
        }
    }
}

/// All the answers of a grading that met no failure: the record, the
/// compilation, the cases, the removal of the executable and the telling of
/// the tally.
pub open spec fn answers_of_grading(
    record: Seq<char>,
    compiled: ResponseView,
    cases: Seq<CaseRecord>,
) -> Seq<ResponseView> {
    seq![ResponseView::Content { text: record }, compiled] + answers_of_cases(cases)
        + seq![ResponseView::Done, ResponseView::Done]
}

/// Two answers in a row are two steps.
proof fn lemma_grading_run_of_two(g: GradingView, a: ResponseView, b: ResponseView)
    ensures
        g.run(seq![a, b]) == g.advance(a).advance(b),
{
    let two = seq![a, b];
    assert(two.drop_last() =~= seq![a]);
    assert(two.drop_last().drop_last() =~= Seq::<ResponseView>::empty());
    assert(g.run(two.drop_last().drop_last()) == g);
    assert(g.run(two.drop_last()) == g.advance(a));
}

/// At most as many cases pass as there are.
proof fn lemma_passes_among_bound(cases: Seq<CaseRecord>, limit_ms: u64)
    ensures
        passes_among(cases, limit_ms) <= cases.len(),
    decreases cases.len(),
{
    if cases.len() > 0 {
        lemma_passes_among_bound(cases.drop_last(), limit_ms);
    }
}

/// Where a grading stands after the first `done` of its cases, and how many
/// of them it has counted.
proof fn lemma_grading_after_cases(g: GradingView, cases: Seq<CaseRecord>, done: int)
    requires
        g.well_formed(),
        g.stage is CompilingCandidate,
        cases.len() == g.case_total(),
        0 <= done <= cases.len(),
    ensures
        ({
            let first = g.at(g.first_case());
            let now = first.run(answers_of_cases(cases.take(done)));
            &&& now.well_formed()
            &&& now.package == g.package
            &&& now.metadata == g.metadata
            &&& now.passed == passes_among(cases.take(done), g.metadata.time_limit_ms)
            &&& now.stage == if done < cases.len() {
                GradingStage::ReadingExpected { index: (done + 1) as i32 }
            } else {
                GradingStage::RemovingCandidate
            }
        }),
    decreases done,
{
    let first = g.at(g.first_case());
    let limit = g.metadata.time_limit_ms;
    if done == 0 {
        assert(cases.take(0) =~= Seq::<CaseRecord>::empty());
    } else {
        lemma_grading_after_cases(g, cases, done - 1);
        let earlier = cases.take(done - 1);
        let part = cases.take(done);
        let case = cases[done - 1];
        assert(part.drop_last() =~= earlier);
        assert(part.last() == case);
        let before = first.run(answers_of_cases(earlier));
        lemma_grading_run_splits(first, answers_of_cases(earlier), case.answers());
        let pair = seq![case.answers()[0], case.answers()[1]];
        assert(case.answers().drop_last() =~= pair);
        lemma_grading_run_of_two(before, case.answers()[0], case.answers()[1]);
        let index = done as i32;
        lemma_case_is_counted_iff_right_and_timely(
            before,
            index,
            case.stored,
            case.success,
            case.stdout,
            case.elapsed_ns,
        );
        lemma_passes_among_bound(earlier, limit);
    }
}

/// What a grading that met no failure comes to. Given a well-formed record,
/// a candidate that compiles and one account for each case on record, the
/// run finishes, its last request is to tell the tally, and the tally is the
/// number of cases that passed within the recorded time limit, out of the
/// number of cases on record.
pub proof fn lemma_grading_tallies_the_passes(
    package: Seq<char>,
    record: Seq<char>,
    compiled: ResponseView,
    cases: Seq<CaseRecord>,
)
    requires
        metadata_reading(record) is Ok,
        compiled.is_clean_exit(),
        cases.len() == if metadata_reading(record)->Ok_0.case_count >= 1 {
            metadata_reading(record)->Ok_0.case_count as int
        } else {
            0
        },
    ensures
        ({
            let metadata = metadata_reading(record)->Ok_0;
            let answers = answers_of_grading(record, compiled, cases);
            let end = initial_grading(package).run(answers);
            let tally = GradeSummary {
                passed_count: passes_among(cases, metadata.time_limit_ms) as i32,
                total_count: metadata.case_count,
            };
            &&& passes_among(cases, metadata.time_limit_ms) <= cases.len()
            &&& end.stage is Finished
            &&& end.summary() == tally
            &&& initial_grading(package).run(answers.drop_last()).directive()
                == DirectiveView::Perform(RequestView::Print { line: summary_text(tally) })
        }),
{
    let metadata = metadata_reading(record)->Ok_0;
    let start = initial_grading(package);
    let head = seq![ResponseView::Content { text: record }, compiled];
    let middle = answers_of_cases(cases);
    let tail = seq![ResponseView::Done, ResponseView::Done];
    let answers = answers_of_grading(record, compiled, cases);
    lemma_passes_among_bound(cases, metadata.time_limit_ms);
    lemma_grading_run_of_two(start, head[0], head[1]);
    let read = start.advance(head[0]);
    assert(read.stage is CompilingCandidate);
    assert(read.metadata == metadata);
    let first = read.at(read.first_case());
    assert(start.run(head) == first);
    lemma_grading_after_cases(read, cases, cases.len() as int);
    assert(cases.take(cases.len() as int) =~= cases);
    let judged = first.run(middle);
    lemma_grading_run_splits(start, head, middle);
    lemma_grading_run_splits(start, head + middle, tail);
    lemma_grading_run_of_two(judged, tail[0], tail[1]);
    assert(answers.drop_last() =~= head + middle + seq![ResponseView::Done]);
    lemma_grading_run_splits(start, head + middle, seq![ResponseView::Done]);
    let one = seq![ResponseView::Done];
    assert(one.drop_last() =~= Seq::<ResponseView>::empty());
    assert(judged.run(one.drop_last()) == judged);
    assert(judged.run(one) == judged.advance(ResponseView::Done));
}

} // verus!
