//! The generation of a package, as a run that is driven from outside.
//!
//! A run holds where the generation stands. It names what is to be done next
//! (`directive`), the caller does it and hands the answer back (`advance`).
//! The generator and the reference program are compiled once. Then the cases
//! are made one after the other, in ascending order: the generator prints the
//! input, the input is stored, the reference program reads the stored input and
//! prints the expected output, and that is stored. The package's record is
//! written after the last case and the two executables are removed at the end.
//! Whatever goes wrong ends the run at once; nothing is tried twice, nothing
//! that was written is taken back, and the executables are left behind.

use crate::layout::build_compile_request;
use crate::layout::build_generator_request;
use crate::layout::build_solver_request;
use crate::layout::case_input_path;
use crate::layout::case_input_path_text;
use crate::layout::case_output_path;
use crate::layout::case_output_path_text;
use crate::layout::compile_request;
use crate::layout::generator_request;
use crate::layout::launch_path;
use crate::layout::metadata_path;
use crate::layout::metadata_path_text;
use crate::layout::package_directory;
use crate::layout::package_directory_text;
use crate::layout::program_launch_path;
use crate::layout::solver_request;
use crate::metadata::lemma_metadata_round_trip;
use crate::metadata::metadata_reading;
use crate::metadata::metadata_text;
use crate::metadata::render_metadata;
use crate::metadata::MetadataError;
use crate::metadata::PackageMetadata;
use crate::protocol::Directive;
use crate::protocol::DirectiveView;
use crate::protocol::Program;
use crate::protocol::Request;
use crate::protocol::RequestView;
use crate::protocol::Response;
use crate::protocol::ResponseView;
use crate::protocol::RunError;
use vstd::prelude::*;
use vstd::string::StringExecFns;

verus! {

/// Where a generation stands: what was asked for last and is yet to be
/// answered, or how the run ended.
#[derive(Clone, Copy, Debug, PartialEq, Eq, Structural)]
pub enum GenerationStage {
    /// The package's directory is being made.
    PreparingDirectory,
    /// The generator is being compiled.
    CompilingGenerator,
    /// The reference program is being compiled.
    CompilingReference,
    /// The generator is printing the input of case `index`.
    Generating { index: i32 },
    /// The input of case `index` is being stored.
    StoringInput { index: i32 },
    /// The reference program is reading the stored input of case `index`.
    Referencing { index: i32 },
    /// The expected output of case `index` is being stored.
    StoringOutput { index: i32 },
    /// The package's record is being written.
    StoringMetadata,
    /// The generator's executable is being removed.
    RemovingGenerator,
    /// The reference program's executable is being removed.
    RemovingReference,
    /// All is done.
    Finished,
    /// The run was given up.
    Aborted { error: RunError },
}

/// A generation under way.
#[derive(Debug)]
pub struct Generation {
    package: String,
    case_count: i32,
    time_limit_ms: u64,
    stage: GenerationStage,
    payload: String,
}

/// A generation as a mathematical value.
pub struct GenerationView {
    /// Name of the package.
    pub package: Seq<char>,
    /// Number of cases to make.
    pub case_count: i32,
    /// Time limit to record, in milliseconds.
    pub time_limit_ms: u64,
    /// Where the run stands.
    pub stage: GenerationStage,
    /// The text to be stored, while a case's input or output is being stored;
    /// empty otherwise.
    pub payload: Seq<char>,
}

impl View for Generation {
    type V = GenerationView;

    closed spec fn view(&self) -> GenerationView {
        GenerationView {
            package: self.package@,
            case_count: self.case_count,
            time_limit_ms: self.time_limit_ms,
            stage: self.stage,
            payload: self.payload@,
        }
    }
}

/// Where a stage leads when its request was one that is answered by `Done`.
pub open spec fn when_done(response: ResponseView, next: GenerationStage) -> GenerationStage {
    match response {
        ResponseView::Done => next,
        ResponseView::Failed => GenerationStage::Aborted { error: RunError::FileIo },
        _ => GenerationStage::Aborted { error: RunError::UnexpectedResponse },
    }
}

/// Where a stage leads when its request was the run of a program: on, if the
/// program exited with status zero; to the given error, if it exited otherwise
/// or could not be run.
pub open spec fn when_exited(
    response: ResponseView,
    error: RunError,
    next: GenerationStage,
) -> GenerationStage {
    match response {
        ResponseView::Exited { success, .. } => if success {
            next
        } else {
            GenerationStage::Aborted { error }
        },
        ResponseView::Failed => GenerationStage::Aborted { error },
        _ => GenerationStage::Aborted { error: RunError::UnexpectedResponse },
    }
}

/// What a program printed, if the response is that of a program's run.
pub open spec fn printed(response: ResponseView) -> Seq<char> {
    match response {
        ResponseView::Exited { stdout, .. } => stdout,
        _ => Seq::<char>::empty(),
    }
}

impl GenerationStage {
    /// Whether the run has ended, well or badly.
    pub open spec fn is_final(self) -> bool {
        self is Finished || self is Aborted
    }

    /// Whether a text is being stored for a case at this stage.
    pub open spec fn stores_case(self) -> bool {
        self is StoringInput || self is StoringOutput
    }
}

impl GenerationView {
    /// The stage at which the cases start: the first case, or the record at
    /// once where there are no cases.
    pub open spec fn first_case(self) -> GenerationStage {
        if self.case_count >= 1 {
            GenerationStage::Generating { index: 1 }
        } else {
            GenerationStage::StoringMetadata
        }
    }

    /// The stage that follows case `index`: the next case, or the record after
    /// the last.
    pub open spec fn after_case(self, index: i32) -> GenerationStage {
        if index < self.case_count {
            GenerationStage::Generating { index: (index + 1) as i32 }
        } else {
            GenerationStage::StoringMetadata
        }
    }

    /// The stage that an answer leads to.
    pub open spec fn next_stage(self, response: ResponseView) -> GenerationStage {
        match self.stage {
            GenerationStage::PreparingDirectory => when_done(
                response,
                GenerationStage::CompilingGenerator,
            ),
            GenerationStage::CompilingGenerator => when_exited(
                response,
                RunError::Compile(Program::Generator),
                GenerationStage::CompilingReference,
            ),
            GenerationStage::CompilingReference => when_exited(
                response,
                RunError::Compile(Program::Reference),
                self.first_case(),
            ),
            GenerationStage::Generating { index } => when_exited(
                response,
                RunError::Execution(Program::Generator),
                GenerationStage::StoringInput { index },
            ),
            GenerationStage::StoringInput { index } => when_done(
                response,
                GenerationStage::Referencing { index },
            ),
            GenerationStage::Referencing { index } => when_exited(
                response,
                RunError::Execution(Program::Reference),
                GenerationStage::StoringOutput { index },
            ),
            GenerationStage::StoringOutput { index } => when_done(response, self.after_case(index)),
            GenerationStage::StoringMetadata => when_done(
                response,
                GenerationStage::RemovingGenerator,
            ),
            GenerationStage::RemovingGenerator => when_done(
                response,
                GenerationStage::RemovingReference,
            ),
            GenerationStage::RemovingReference => when_done(response, GenerationStage::Finished),
            GenerationStage::Finished => GenerationStage::Finished,
            GenerationStage::Aborted { error } => GenerationStage::Aborted { error },
        }
    }

    /// The run after an answer. What a program printed is kept, as it was
    /// printed, exactly while it is being stored.
    pub open spec fn advance(self, response: ResponseView) -> GenerationView {
        let stage = self.next_stage(response);
        GenerationView {
            package: self.package,
            case_count: self.case_count,
            time_limit_ms: self.time_limit_ms,
            stage,
            payload: if stage.stores_case() {
                printed(response)
            } else {
                Seq::<char>::empty()
            },
        }
    }

    /// The record that the run writes.
    pub open spec fn metadata(self) -> PackageMetadata {
        PackageMetadata { case_count: self.case_count, time_limit_ms: self.time_limit_ms }
    }

    /// What the run wants next.
    pub open spec fn directive(self) -> DirectiveView {
        match self.stage {
            GenerationStage::PreparingDirectory => DirectiveView::Perform(
                RequestView::EnsureDirectory { path: package_directory_text(self.package) },
            ),
            GenerationStage::CompilingGenerator => DirectiveView::Perform(
                compile_request(Program::Generator),
            ),
            GenerationStage::CompilingReference => DirectiveView::Perform(
                compile_request(Program::Reference),
            ),
            GenerationStage::Generating { index } => DirectiveView::Perform(
                generator_request(index as int, self.case_count as int),
            ),
            GenerationStage::StoringInput { index } => DirectiveView::Perform(
                RequestView::WriteFile {
                    path: case_input_path_text(self.package, index as int),
                    content: self.payload,
                },
            ),
            GenerationStage::Referencing { index } => DirectiveView::Perform(
                solver_request(Program::Reference, self.package, index as int),
            ),
            GenerationStage::StoringOutput { index } => DirectiveView::Perform(
                RequestView::WriteFile {
                    path: case_output_path_text(self.package, index as int),
                    content: self.payload,
                },
            ),
            GenerationStage::StoringMetadata => DirectiveView::Perform(
                RequestView::WriteFile {
                    path: metadata_path_text(self.package),
                    content: metadata_text(self.metadata()),
                },
            ),
            GenerationStage::RemovingGenerator => DirectiveView::Perform(
                RequestView::RemoveFile { path: launch_path(Program::Generator) },
            ),
            GenerationStage::RemovingReference => DirectiveView::Perform(
                RequestView::RemoveFile { path: launch_path(Program::Reference) },
            ),
            GenerationStage::Finished => DirectiveView::Finish,
            GenerationStage::Aborted { error } => DirectiveView::Abort(error),
        }
    }
}

/// A generation that has not begun: its first request is yet to be made.
pub open spec fn initial_generation(
    package: Seq<char>,
    case_count: i32,
    time_limit_ms: u64,
) -> GenerationView {
    GenerationView {
        package,
        case_count,
        time_limit_ms,
        stage: GenerationStage::PreparingDirectory,
        payload: Seq::<char>::empty(),
    }
}

/// Begins the generation of `n` cases for `package`, to be recorded with the
/// time limit `timelimit` in milliseconds.
pub fn generate_testcases(n: i32, package: &str, timelimit: u64) -> (r: Generation)
    ensures
        r@ == initial_generation(package@, n, timelimit),
        r@.well_formed(),
{
    Generation {
        package: String::from_str(package),
        case_count: n,
        time_limit_ms: timelimit,
        stage: GenerationStage::PreparingDirectory,
        payload: String::new(),
    }
}

/// Exec form of `when_done`.
fn stage_when_done(response: &Response, next: GenerationStage) -> (r: GenerationStage)
    ensures
        r == when_done(response@, next),
{
    match response {
        Response::Done => next,
        Response::Failed => GenerationStage::Aborted { error: RunError::FileIo },
        _ => GenerationStage::Aborted { error: RunError::UnexpectedResponse },
    }
}

/// Exec form of `when_exited`.
fn stage_when_exited(response: &Response, error: RunError, next: GenerationStage) -> (r:
    GenerationStage)
    ensures
        r == when_exited(response@, error, next),
{
    match response {
        Response::Exited { success, .. } => if *success {
            next
        } else {
            GenerationStage::Aborted { error }
        },
        Response::Failed => GenerationStage::Aborted { error },
        _ => GenerationStage::Aborted { error: RunError::UnexpectedResponse },
    }
}

impl Generation {
    #[verifier::type_invariant]
    spec fn sound(self) -> bool {
        self@.well_formed()
    }

    /// Tells where the run stands.
    pub fn stage(&self) -> (r: GenerationStage)
        ensures
            r == self@.stage,
    {
        self.stage
    }

    /// Tells what the run wants next.
    pub fn directive(&self) -> (r: Directive)
        ensures
            r@ == self@.directive(),
    {
        match self.stage {
            GenerationStage::PreparingDirectory => Directive::Perform(
                Request::EnsureDirectory { path: package_directory(self.package.as_str()) },
            ),
            GenerationStage::CompilingGenerator => Directive::Perform(
                build_compile_request(Program::Generator),
            ),
            GenerationStage::CompilingReference => Directive::Perform(
                build_compile_request(Program::Reference),
            ),
            GenerationStage::Generating { index } => Directive::Perform(
                build_generator_request(index, self.case_count),
            ),
            GenerationStage::StoringInput { index } => Directive::Perform(
                Request::WriteFile {
                    path: case_input_path(self.package.as_str(), index),
                    content: self.payload.clone(),
                },
            ),
            GenerationStage::Referencing { index } => Directive::Perform(
                build_solver_request(Program::Reference, self.package.as_str(), index),
            ),
            GenerationStage::StoringOutput { index } => Directive::Perform(
                Request::WriteFile {
                    path: case_output_path(self.package.as_str(), index),
                    content: self.payload.clone(),
                },
            ),
            GenerationStage::StoringMetadata => Directive::Perform(
                Request::WriteFile {
                    path: metadata_path(self.package.as_str()),
                    content: render_metadata(
                        PackageMetadata {
                            case_count: self.case_count,
                            time_limit_ms: self.time_limit_ms,
                        },
                    ),
                },
            ),
            GenerationStage::RemovingGenerator => Directive::Perform(
                Request::RemoveFile { path: program_launch_path(Program::Generator) },
            ),
            GenerationStage::RemovingReference => Directive::Perform(
                Request::RemoveFile { path: program_launch_path(Program::Reference) },
            ),
            GenerationStage::Finished => Directive::Finish,
            GenerationStage::Aborted { error } => Directive::Abort(error),
        }
    }

    /// Takes the answer to the request that `directive` named and moves on.
    pub fn advance(self, response: Response) -> (r: Generation)
        ensures
            r@ == self@.advance(response@),
            r@.well_formed(),
    {
        proof {
            use_type_invariant(&self);
        }
        let first_case = if self.case_count >= 1 {
            GenerationStage::Generating { index: 1 }
        } else {
            GenerationStage::StoringMetadata
        };
        let stage = match self.stage {
            GenerationStage::PreparingDirectory => stage_when_done(
                &response,
                GenerationStage::CompilingGenerator,
            ),
            GenerationStage::CompilingGenerator => stage_when_exited(
                &response,
                RunError::Compile(Program::Generator),
                GenerationStage::CompilingReference,
            ),
            GenerationStage::CompilingReference => stage_when_exited(
                &response,
                RunError::Compile(Program::Reference),
                first_case,
            ),
            GenerationStage::Generating { index } => stage_when_exited(
                &response,
                RunError::Execution(Program::Generator),
                GenerationStage::StoringInput { index },
            ),
            GenerationStage::StoringInput { index } => stage_when_done(
                &response,
                GenerationStage::Referencing { index },
            ),
            GenerationStage::Referencing { index } => stage_when_exited(
                &response,
                RunError::Execution(Program::Reference),
                GenerationStage::StoringOutput { index },
            ),
            GenerationStage::StoringOutput { index } => {
                let after_case = if index < self.case_count {
                    GenerationStage::Generating { index: index + 1 }
                } else {
                    GenerationStage::StoringMetadata
                };
                stage_when_done(&response, after_case)
            },
            GenerationStage::StoringMetadata => stage_when_done(
                &response,
                GenerationStage::RemovingGenerator,
            ),
            GenerationStage::RemovingGenerator => stage_when_done(
                &response,
                GenerationStage::RemovingReference,
            ),
            GenerationStage::RemovingReference => stage_when_done(
                &response,
                GenerationStage::Finished,
            ),
            GenerationStage::Finished => GenerationStage::Finished,
            GenerationStage::Aborted { error } => GenerationStage::Aborted { error },
        };
        let stores_case = match stage {
            GenerationStage::StoringInput { .. } => true,
            GenerationStage::StoringOutput { .. } => true,
            _ => false,
        };
        let payload = if stores_case {
            match response {
                Response::Exited { stdout, .. } => stdout,
                _ => String::new(),
            }
        } else {
            String::new()
        };
        Generation {
            package: self.package,
            case_count: self.case_count,
            time_limit_ms: self.time_limit_ms,
            stage,
            payload,
        }
    }
}

impl GenerationView {
    /// Whether the run is one that `generate_testcases` and `advance` can lead
    /// to: a case in the making is one of the package's cases.
    pub open spec fn well_formed(self) -> bool {
        match self.stage {
            GenerationStage::Generating { index } => 1 <= index <= self.case_count,
            GenerationStage::StoringInput { index } => 1 <= index <= self.case_count,
            GenerationStage::Referencing { index } => 1 <= index <= self.case_count,
            GenerationStage::StoringOutput { index } => 1 <= index <= self.case_count,
            _ => true,
        }
    }

    /// Number of cases that the run makes: none for a count below one.
    pub open spec fn case_total(self) -> nat {
        if self.case_count >= 1 {
            self.case_count as nat
        } else {
            0
        }
    }

    /// Number of requests that have been answered when a run that met no
    /// failure stands at this stage. The four steps of a case follow those of
    /// the case before it.
    pub open spec fn position(self) -> nat
        recommends
            self.well_formed(),
            !(self.stage is Aborted),
    {
        match self.stage {
            GenerationStage::PreparingDirectory => 0,
            GenerationStage::CompilingGenerator => 1,
            GenerationStage::CompilingReference => 2,
            GenerationStage::Generating { index } => (4 * index - 1) as nat,
            GenerationStage::StoringInput { index } => (4 * index) as nat,
            GenerationStage::Referencing { index } => (4 * index + 1) as nat,
            GenerationStage::StoringOutput { index } => (4 * index + 2) as nat,
            GenerationStage::StoringMetadata => 4 * self.case_total() + 3,
            GenerationStage::RemovingGenerator => 4 * self.case_total() + 4,
            GenerationStage::RemovingReference => 4 * self.case_total() + 5,
            GenerationStage::Finished => 4 * self.case_total() + 6,
            GenerationStage::Aborted { .. } => 0,
        }
    }

    /// Whether an answer says that the pending request went well. Nothing is
    /// pending once the run has ended.
    pub open spec fn fits(self, response: ResponseView) -> bool {
        match self.stage {
            GenerationStage::CompilingGenerator => response.is_clean_exit(),
            GenerationStage::CompilingReference => response.is_clean_exit(),
            GenerationStage::Generating { .. } => response.is_clean_exit(),
            GenerationStage::Referencing { .. } => response.is_clean_exit(),
            GenerationStage::Finished => false,
            GenerationStage::Aborted { .. } => false,
            _ => response is Done,
        }
    }

    /// The run after a sequence of answers, taken in order.
    pub open spec fn run(self, responses: Seq<ResponseView>) -> GenerationView
        decreases responses.len(),
    {
        if responses.len() == 0 {
            self
        } else {
            self.run(responses.drop_last()).advance(responses.last())
        }
    }

    /// Whether every answer of the sequence says that the request it answers
    /// went well.
    pub open spec fn all_fit(self, responses: Seq<ResponseView>) -> bool
        decreases responses.len(),
    {
        responses.len() == 0 || (self.all_fit(responses.drop_last()) && self.run(
            responses.drop_last(),
        ).fits(responses.last()))
    }
}

/// An answer that says the request went well takes the run exactly one step
/// further in the fixed order of a generation, and never ends it badly.
pub proof fn lemma_generation_step(g: GenerationView, response: ResponseView)
    requires
        g.well_formed(),
        g.fits(response),
    ensures
        g.advance(response).well_formed(),
        !(g.advance(response).stage is Aborted),
        g.advance(response).position() == g.position() + 1,
{
}

/// There is no second try: an answer that says anything else than that the
/// pending request went well ends the run at once.
pub proof fn lemma_generation_failure_ends_run(g: GenerationView, response: ResponseView)
    requires
        !g.stage.is_final(),
        !g.fits(response),
    ensures
        g.advance(response).stage is Aborted,
        g.advance(response).directive() is Abort,
{
}

/// A run that has ended stays as it ended, whatever it is told.
pub proof fn lemma_generation_end_is_final(g: GenerationView, responses: Seq<ResponseView>)
    requires
        g.stage.is_final(),
    ensures
        g.run(responses).stage == g.stage,
    decreases responses.len(),
{
    if responses.len() > 0 {
        lemma_generation_end_is_final(g, responses.drop_last());
    }
}

/// A generation that meets no failure goes through its steps in order: after
/// `k` answers it stands at position `k`. It has finished exactly when
/// `4 * n + 6` requests have been answered, `n` being the number of cases:
/// the directory, the two compilations, four steps for each case, the record
/// and the two removals.
pub proof fn lemma_generation_runs_in_order(
    package: Seq<char>,
    case_count: i32,
    time_limit_ms: u64,
    responses: Seq<ResponseView>,
)
    requires
        initial_generation(package, case_count, time_limit_ms).all_fit(responses),
    ensures
        ({
            let start = initial_generation(package, case_count, time_limit_ms);
            let end = start.run(responses);
            &&& end.well_formed()
            &&& !(end.stage is Aborted)
            &&& end.position() == responses.len()
            &&& responses.len() <= 4 * start.case_total() + 6
            &&& end.stage is Finished <==> responses.len() == 4 * start.case_total() + 6
        }),
    decreases responses.len(),
{
    let start = initial_generation(package, case_count, time_limit_ms);
    if responses.len() > 0 {
        let before = start.run(responses.drop_last());
        lemma_generation_runs_in_order(package, case_count, time_limit_ms, responses.drop_last());
        lemma_generation_step(before, responses.last());
        lemma_run_keeps_settings(start, responses.drop_last());
        lemma_run_keeps_settings(start, responses);
    }
}

/// The package, the number of cases and the time limit never change in a run.
pub proof fn lemma_run_keeps_settings(g: GenerationView, responses: Seq<ResponseView>)
    ensures
        g.run(responses).package == g.package,
        g.run(responses).case_count == g.case_count,
        g.run(responses).time_limit_ms == g.time_limit_ms,
    decreases responses.len(),
{
    if responses.len() > 0 {
        lemma_run_keeps_settings(g, responses.drop_last());
    }
}

/// No file is written before both programs are compiled: whenever a
/// generation asks for a file to be written, the two compilations have been
/// answered, and both with a clean exit.
pub proof fn lemma_writes_follow_compilation(
    package: Seq<char>,
    case_count: i32,
    time_limit_ms: u64,
    responses: Seq<ResponseView>,
)
    ensures
        ({
            let end = initial_generation(package, case_count, time_limit_ms).run(responses);
            &&& responses.len() == 0 ==> end.stage is PreparingDirectory
            &&& responses.len() == 1 ==> end.stage is CompilingGenerator || end.stage is Aborted
            &&& responses.len() == 2 ==> end.stage is Aborted || (end.stage is CompilingReference
                && responses[1].is_clean_exit())
            &&& responses.len() >= 3 ==> end.stage is Aborted || (responses[1].is_clean_exit()
                && responses[2].is_clean_exit())
            &&& end.directive().writes_file() ==> responses.len() >= 3
                && responses[1].is_clean_exit() && responses[2].is_clean_exit()
        }),
    decreases responses.len(),
{
    if responses.len() > 0 {
        let earlier = responses.drop_last();
        lemma_writes_follow_compilation(package, case_count, time_limit_ms, earlier);
        if earlier.len() >= 2 {
            assert(earlier[1] == responses[1]);
        }
        if earlier.len() >= 3 {
            assert(earlier[2] == responses[2]);
        }
    }
}

/// If the generator does not compile, the generation is given up before any
/// file is written: the run ends with the compile error, and at no point up to
/// then or after was a file asked to be written.
pub proof fn lemma_failed_compile_writes_nothing(
    package: Seq<char>,
    case_count: i32,
    time_limit_ms: u64,
    responses: Seq<ResponseView>,
    k: int,
)
    requires
        responses.len() >= 2,
        responses[0] is Done,
        responses[1] is Failed || (responses[1] is Exited && !responses[1].is_clean_exit()),
        0 <= k <= responses.len(),
    ensures
        ({
            let start = initial_generation(package, case_count, time_limit_ms);
            &&& start.run(responses).stage == GenerationStage::Aborted {
                error: RunError::Compile(Program::Generator),
            }
            &&& !start.run(responses.take(k)).directive().writes_file()
        }),
{
    let start = initial_generation(package, case_count, time_limit_ms);
    let first_two = responses.take(2);
    assert(first_two.drop_last() =~= seq![responses[0]]);
    assert(first_two.drop_last().drop_last() =~= Seq::<ResponseView>::empty());
    assert(first_two.last() == responses[1]);
    assert(start.run(first_two.drop_last().drop_last()) == start);
    assert(start.run(first_two.drop_last()).stage is CompilingGenerator);
    assert(start.run(first_two).stage == GenerationStage::Aborted {
        error: RunError::Compile(Program::Generator),
    });
    lemma_run_splits(start, first_two, responses.skip(2));
    assert(first_two + responses.skip(2) =~= responses);
    lemma_generation_end_is_final(start.run(first_two), responses.skip(2));
    lemma_writes_follow_compilation(package, case_count, time_limit_ms, responses.take(k));
    if k >= 2 {
        assert(responses.take(k)[1] == responses[1]);
    }
}

/// Answers may be taken in two parts: the run after all of them is the run
/// that the second part leads to from where the first part led.
pub proof fn lemma_run_splits(
    g: GenerationView,
    first: Seq<ResponseView>,
    second: Seq<ResponseView>,
)
    ensures
        g.run(first + second) == g.run(first).run(second),
    decreases second.len(),
{
    if second.len() == 0 {
        assert(first + second =~= first);
    } else {
        lemma_run_splits(g, first, second.drop_last());
        assert((first + second).drop_last() =~= first + second.drop_last());
        assert((first + second).last() == second.last());
    }
}

/// What is stored for a case is what the programs printed, as they printed it.
/// The input of a case is the generator's output for that case. The reference
/// program reads the stored input of the case, and what it prints is stored as
/// the expected output of the same case.
pub proof fn lemma_cases_store_what_was_printed(g: GenerationView, response: ResponseView)
    requires
        response.is_clean_exit(),
    ensures
        g.stage matches GenerationStage::Generating { index } ==> {
            &&& g.directive() == DirectiveView::Perform(
                generator_request(index as int, g.case_count as int),
            )
            &&& g.advance(response).directive() == DirectiveView::Perform(
                RequestView::WriteFile {
                    path: case_input_path_text(g.package, index as int),
                    content: printed(response),
                },
            )
        },
        g.stage matches GenerationStage::Referencing { index } ==> {
            &&& g.directive() == DirectiveView::Perform(
                solver_request(Program::Reference, g.package, index as int),
            )
            &&& solver_request(Program::Reference, g.package, index as int) matches RequestView::Run {
                stdin_path,
                ..
            } && stdin_path == Some(case_input_path_text(g.package, index as int))
            &&& g.advance(response).directive() == DirectiveView::Perform(
                RequestView::WriteFile {
                    path: case_output_path_text(g.package, index as int),
                    content: printed(response),
                },
            )
        },
{
}

/// The record that a generation writes reads back as the number of cases and
/// the time limit that the generation was begun with.
pub proof fn lemma_written_record_reads_back(g: GenerationView)
    requires
        g.stage is StoringMetadata,
    ensures
        g.directive() matches DirectiveView::Perform(RequestView::WriteFile { path, content })
            && path == metadata_path_text(g.package) && metadata_reading(content) == Ok::<
            PackageMetadata,
            MetadataError,
        >(PackageMetadata { case_count: g.case_count, time_limit_ms: g.time_limit_ms }),
{
    lemma_metadata_round_trip(g.metadata());
}

/// Whatever a generation is told, it stays one that `generate_testcases` and
/// `advance` can lead to, for the same package, number of cases and time
/// limit.
pub proof fn lemma_generation_step_is_sound(g: GenerationView, response: ResponseView)
    requires
        g.well_formed(),
    ensures
        g.advance(response).well_formed(),
        g.advance(response).package == g.package,
        g.advance(response).case_count == g.case_count,
        g.advance(response).time_limit_ms == g.time_limit_ms,
{
}

/// How one case was made in a generation that met no failure: what was
/// answered when the generator ran, and when the reference program ran.
pub struct CaseMaking {
    /// The answer to the generator's run.
    pub generated: ResponseView,
    /// The answer to the reference program's run.
    pub referenced: ResponseView,
}

impl CaseMaking {
    /// Whether both programs exited with status zero.
    pub open spec fn went_well(self) -> bool {
        self.generated.is_clean_exit() && self.referenced.is_clean_exit()
    }

    /// The four answers of the case: the generator's run, the storing of the
    /// input, the reference program's run, the storing of the expected output.
    pub open spec fn answers(self) -> Seq<ResponseView> {
        seq![self.generated, ResponseView::Done, self.referenced, ResponseView::Done]
    }
}

/// The answers of a sequence of cases, one case after the other.
pub open spec fn answers_of_makings(cases: Seq<CaseMaking>) -> Seq<ResponseView>
    decreases cases.len(),
{
    if cases.len() == 0 {
        Seq::<ResponseView>::empty()
    } else {
        answers_of_makings(cases.drop_last()) + cases.last().answers()
    }
}

/// A generation between two cases, or before the first or after the last: the
/// first `done` cases are made and nothing is being stored.
pub open spec fn generation_between_cases(
    package: Seq<char>,
    case_count: i32,
    time_limit_ms: u64,
    done: int,
) -> GenerationView {
    GenerationView {
        package,
        case_count,
        time_limit_ms,
        stage: if done < case_count {
            GenerationStage::Generating { index: (done + 1) as i32 }
        } else {
            GenerationStage::StoringMetadata
        },
        payload: Seq::<char>::empty(),
    }
}

/// Four answers in a row are four steps.
proof fn lemma_generation_run_of_four(
    g: GenerationView,
    a: ResponseView,
    b: ResponseView,
    c: ResponseView,
    d: ResponseView,
)
    ensures
        g.run(seq![a, b, c, d]) == g.advance(a).advance(b).advance(c).advance(d),
{
    let four = seq![a, b, c, d];
    let three = four.drop_last();
    let two = three.drop_last();
    let one = two.drop_last();
    assert(three =~= seq![a, b, c]);
    assert(two =~= seq![a, b]);
    assert(one =~= seq![a]);
    assert(one.drop_last() =~= Seq::<ResponseView>::empty());
    assert(g.run(one.drop_last()) == g);
    assert(g.run(one) == g.advance(a));
    assert(g.run(two) == g.advance(a).advance(b));
    assert(g.run(three) == g.advance(a).advance(b).advance(c));
}

/// Three answers in a row are three steps.
proof fn lemma_generation_run_of_three(
    g: GenerationView,
    a: ResponseView,
    b: ResponseView,
    c: ResponseView,
)
    ensures
        g.run(seq![a, b, c]) == g.advance(a).advance(b).advance(c),
{
    let three = seq![a, b, c];
    let two = three.drop_last();
    let one = two.drop_last();
    assert(two =~= seq![a, b]);
    assert(one =~= seq![a]);
    assert(one.drop_last() =~= Seq::<ResponseView>::empty());
    assert(g.run(one.drop_last()) == g);
    assert(g.run(one) == g.advance(a));
    assert(g.run(two) == g.advance(a).advance(b));
}

/// Where a generation stands after the first `done` of its cases.
proof fn lemma_generation_after_cases(
    package: Seq<char>,
    case_count: i32,
    time_limit_ms: u64,
    cases: Seq<CaseMaking>,
    done: int,
)
    requires
        cases.len() == initial_generation(package, case_count, time_limit_ms).case_total(),
        forall|j: int| 0 <= j < cases.len() ==> (#[trigger] cases[j]).went_well(),
        0 <= done <= cases.len(),
    ensures
        generation_between_cases(package, case_count, time_limit_ms, 0).run(
            answers_of_makings(cases.take(done)),
        ) == generation_between_cases(package, case_count, time_limit_ms, done),
    decreases done,
{
    let first = generation_between_cases(package, case_count, time_limit_ms, 0);
    if done == 0 {
        assert(cases.take(0) =~= Seq::<CaseMaking>::empty());
    } else {
        lemma_generation_after_cases(package, case_count, time_limit_ms, cases, done - 1);
        let earlier = cases.take(done - 1);
        let part = cases.take(done);
        let case = cases[done - 1];
        assert(part.drop_last() =~= earlier);
        assert(part.last() == case);
        assert(case.went_well());
        let before = generation_between_cases(package, case_count, time_limit_ms, done - 1);
        lemma_run_splits(first, answers_of_makings(earlier), case.answers());
        lemma_generation_run_of_four(
            before,
            case.generated,
            ResponseView::Done,
            case.referenced,
            ResponseView::Done,
        );
    }
}

/// What a generation that met no failure does for each of its cases. Given
/// that the directory was made, that both programs compiled and that the
/// generator and the reference program exited with status zero on every case,
/// then for every case, after the cases before it: the generator is launched
/// with the case's index and the number of cases; what it printed is stored as
/// the case's input; the reference program is launched on that stored input;
/// and what it printed is stored as the case's expected output.
pub proof fn lemma_generation_makes_each_case(
    package: Seq<char>,
    case_count: i32,
    time_limit_ms: u64,
    compiled_generator: ResponseView,
    compiled_reference: ResponseView,
    cases: Seq<CaseMaking>,
    i: int,
)
    requires
        compiled_generator.is_clean_exit(),
        compiled_reference.is_clean_exit(),
        cases.len() == initial_generation(package, case_count, time_limit_ms).case_total(),
        forall|j: int| 0 <= j < cases.len() ==> (#[trigger] cases[j]).went_well(),
        0 <= i < cases.len(),
    ensures
        ({
            let head = seq![ResponseView::Done, compiled_generator, compiled_reference];
            let before = initial_generation(package, case_count, time_limit_ms).run(
                head + answers_of_makings(cases.take(i)),
            );
            let generated = before.advance(cases[i].generated);
            let stored = generated.advance(ResponseView::Done);
            let referenced = stored.advance(cases[i].referenced);
            &&& before.directive() == DirectiveView::Perform(
                generator_request(i + 1, case_count as int),
            )
            &&& generated.directive() == DirectiveView::Perform(
                RequestView::WriteFile {
                    path: case_input_path_text(package, i + 1),
                    content: printed(cases[i].generated),
                },
            )
            &&& stored.directive() == DirectiveView::Perform(
                solver_request(Program::Reference, package, i + 1),
            )
            &&& referenced.directive() == DirectiveView::Perform(
                RequestView::WriteFile {
                    path: case_output_path_text(package, i + 1),
                    content: printed(cases[i].referenced),
                },
            )
        }),
{
    let start = initial_generation(package, case_count, time_limit_ms);
    let head = seq![ResponseView::Done, compiled_generator, compiled_reference];
    lemma_generation_run_of_three(start, head[0], head[1], head[2]);
    assert(start.run(head) == generation_between_cases(package, case_count, time_limit_ms, 0));
    lemma_generation_after_cases(package, case_count, time_limit_ms, cases, i);
    lemma_run_splits(start, head, answers_of_makings(cases.take(i)));
    assert(cases[i].went_well());
}

/// What a generation that met no failure comes to. Under the same conditions,
/// once all cases are made the package's record is written, with the number
/// of cases and the time limit that the generation was begun with; the two
/// executables are removed; and the run finishes.
pub proof fn lemma_generation_closes_the_package(
    package: Seq<char>,
    case_count: i32,
    time_limit_ms: u64,
    compiled_generator: ResponseView,
    compiled_reference: ResponseView,
    cases: Seq<CaseMaking>,
)
    requires
        compiled_generator.is_clean_exit(),
        compiled_reference.is_clean_exit(),
        cases.len() == initial_generation(package, case_count, time_limit_ms).case_total(),
        forall|j: int| 0 <= j < cases.len() ==> (#[trigger] cases[j]).went_well(),
    ensures
        ({
            let head = seq![ResponseView::Done, compiled_generator, compiled_reference];
            let made = initial_generation(package, case_count, time_limit_ms).run(
                head + answers_of_makings(cases),
            );
            let recorded = made.advance(ResponseView::Done);
            let removed = recorded.advance(ResponseView::Done);
            &&& made.directive() == DirectiveView::Perform(
                RequestView::WriteFile {
                    path: metadata_path_text(package),
                    content: metadata_text(PackageMetadata { case_count, time_limit_ms }),
                },
            )
            &&& recorded.directive() == DirectiveView::Perform(
                RequestView::RemoveFile { path: launch_path(Program::Generator) },
            )
            &&& removed.directive() == DirectiveView::Perform(
                RequestView::RemoveFile { path: launch_path(Program::Reference) },
            )
            &&& removed.advance(ResponseView::Done).directive() == DirectiveView::Finish
        }),
{
    let start = initial_generation(package, case_count, time_limit_ms);
    let head = seq![ResponseView::Done, compiled_generator, compiled_reference];
    lemma_generation_run_of_three(start, head[0], head[1], head[2]);
    assert(start.run(head) == generation_between_cases(package, case_count, time_limit_ms, 0));
    lemma_generation_after_cases(package, case_count, time_limit_ms, cases, cases.len() as int);
    assert(cases.take(cases.len() as int) =~= cases);
    lemma_run_splits(start, head, answers_of_makings(cases));
}

} // verus!
