//! What a run asks of its surroundings, and what it is told in return.
//!
//! A run of generation or grading never touches a file or a process itself.
//! It names one thing to be done, the caller does it and reports back, and the
//! run decides what comes next.

use crate::metadata::MetadataError;
use vstd::prelude::*;
use vstd::string::StringExecFns;

verus! {

/// One of the three programs a package is built and judged with.
#[derive(Clone, Copy, Debug, PartialEq, Eq, Structural)]
pub enum Program {
    /// Writes the input of a case.
    Generator,
    /// Gives the expected output for an input.
    Reference,
    /// The program under test.
    Candidate,
}

/// A step in the setting up of a workspace or a project that can go wrong in
/// a way of its own.
#[derive(Clone, Copy, Debug, PartialEq, Eq, Structural)]
pub enum SetupStep {
    /// Finding the user's home directory.
    Home,
    /// Reading the default repository from the configuration file.
    Config,
    /// Cloning the default repository.
    Clone,
    /// Removing the history of the clone.
    RemoveHistory,
    /// Starting the project's own repository.
    Initialize,
}

/// Why a run was given up.
#[derive(Clone, Copy, Debug, PartialEq, Eq, Structural)]
pub enum RunError {
    /// The compiler could not be started, or it rejected the program's source.
    Compile(Program),
    /// The program could not be run to a usable output.
    Execution(Program),
    /// The package's record is missing or malformed.
    Metadata(MetadataError),
    /// A step of setting up failed.
    Setup(SetupStep),
    /// A file or directory could not be looked at, made, read, written or
    /// removed.
    FileIo,
    /// The answer does not fit the request that was made.
    UnexpectedResponse,
}

/// Something to be done for a run.
#[derive(Clone, Debug, PartialEq, Eq)]
pub enum Request {
    /// Make sure that the directory exists, with the directories above it.
    EnsureDirectory { path: String },
    /// Run a program to its end. With `stdin_path` the program reads its
    /// standard input from that file. With `capture` its standard output is
    /// collected as text; without, it goes where the caller's own goes.
    Run { program: String, arguments: Vec<String>, stdin_path: Option<String>, capture: bool },
    /// Write the text to the file, replacing what the file held.
    WriteFile { path: String, content: String },
    /// Read the file as text.
    ReadFile { path: String },
    /// Remove the file.
    RemoveFile { path: String },
    /// Remove the file, or the directory with all it holds. There must be
    /// something to remove.
    RemoveTree { path: String },
    /// Tell whether anything exists at the path.
    Probe { path: String },
    /// Tell the path of the user's home directory.
    HomeDirectory,
    /// Read the file as a TOML document and give the text that it holds under
    /// the key.
    ReadSetting { path: String, key: String },
    /// Show the line to the user.
    Print { line: String },
}

/// What came of a request.
#[derive(Clone, Debug, PartialEq, Eq)]
pub enum Response {
    /// The request was carried out and there is nothing to hand back.
    Done,
    /// What was asked for was read or found; this is the text.
    Content { text: String },
    /// The path was looked at; `present` tells whether anything exists there.
    Probed { present: bool },
    /// The program ran to its end. `success` tells whether it exited with
    /// status zero, `stdout` is what it printed if that was captured, and
    /// `elapsed_ns` is the wall-clock time from launch to exit in nanoseconds.
    Exited { success: bool, stdout: String, elapsed_ns: u128 },
    /// The request could not be carried out.
    Failed,
}

/// What a run wants next.
#[derive(Clone, Debug, PartialEq, Eq)]
pub enum Directive {
    /// Carry out the request and answer it.
    Perform(Request),
    /// The run is complete.
    Finish,
    /// The run was given up.
    Abort(RunError),
}

/// A request as a mathematical value.
pub enum RequestView {
    EnsureDirectory { path: Seq<char> },
    Run {
        program: Seq<char>,
        arguments: Seq<Seq<char>>,
        stdin_path: Option<Seq<char>>,
        capture: bool,
    },
    WriteFile { path: Seq<char>, content: Seq<char> },
    ReadFile { path: Seq<char> },
    RemoveFile { path: Seq<char> },
    RemoveTree { path: Seq<char> },
    Probe { path: Seq<char> },
    HomeDirectory,
    ReadSetting { path: Seq<char>, key: Seq<char> },
    Print { line: Seq<char> },
}

/// A response as a mathematical value.
pub enum ResponseView {
    Done,
    Content { text: Seq<char> },
    Probed { present: bool },
    Exited { success: bool, stdout: Seq<char>, elapsed_ns: u128 },
    Failed,
}

/// A directive as a mathematical value.
pub enum DirectiveView {
    Perform(RequestView),
    Finish,
    Abort(RunError),
}

/// The texts of a list of strings, in order.
pub open spec fn texts_of(list: Seq<String>) -> Seq<Seq<char>> {
    Seq::new(list.len(), |i: int| list[i]@)
}

impl View for Request {
    type V = RequestView;

    open spec fn view(&self) -> RequestView {
        match self {
            Request::EnsureDirectory { path } => RequestView::EnsureDirectory { path: path@ },
            Request::Run { program, arguments, stdin_path, capture } => RequestView::Run {
                program: program@,
                arguments: texts_of(arguments@),
                stdin_path: match stdin_path {
                    Some(path) => Some(path@),
                    None => None,
                },
                capture: *capture,
            },
            Request::WriteFile { path, content } => RequestView::WriteFile {
                path: path@,
                content: content@,
            },
            Request::ReadFile { path } => RequestView::ReadFile { path: path@ },
            Request::RemoveFile { path } => RequestView::RemoveFile { path: path@ },
            Request::RemoveTree { path } => RequestView::RemoveTree { path: path@ },
            Request::Probe { path } => RequestView::Probe { path: path@ },
            Request::HomeDirectory => RequestView::HomeDirectory,
            Request::ReadSetting { path, key } => RequestView::ReadSetting {
                path: path@,
                key: key@,
            },
            Request::Print { line } => RequestView::Print { line: line@ },
        }
    }
}

impl View for Response {
    type V = ResponseView;

    open spec fn view(&self) -> ResponseView {
        match self {
            Response::Done => ResponseView::Done,
            Response::Content { text } => ResponseView::Content { text: text@ },
            Response::Probed { present } => ResponseView::Probed { present: *present },
            Response::Exited { success, stdout, elapsed_ns } => ResponseView::Exited {
                success: *success,
                stdout: stdout@,
                elapsed_ns: *elapsed_ns,
            },
            Response::Failed => ResponseView::Failed,
        }
    }
}

impl View for Directive {
    type V = DirectiveView;

    open spec fn view(&self) -> DirectiveView {
        match self {
            Directive::Perform(request) => DirectiveView::Perform(request@),
            Directive::Finish => DirectiveView::Finish,
            Directive::Abort(error) => DirectiveView::Abort(*error),
        }
    }
}

impl ResponseView {
    /// Whether this says that a program ran and exited with status zero.
    pub open spec fn is_clean_exit(self) -> bool {
        self matches ResponseView::Exited { success, .. } && success
    }
}

impl DirectiveView {
    /// Whether this asks for a file to be written.
    pub open spec fn writes_file(self) -> bool {
        self matches DirectiveView::Perform(RequestView::WriteFile { .. })
    }

    /// Whether this asks for a program to be run.
    pub open spec fn runs_program(self) -> bool {
        self matches DirectiveView::Perform(RequestView::Run { .. })
    }
}

/// The message that tells the user why a run was given up.
pub open spec fn error_text(error: RunError) -> Seq<char> {
    match error {
        RunError::Compile(Program::Generator) =>
            "Failed to compile the input test generation algorithm!"@,
        RunError::Compile(Program::Reference) =>
            "Failed to compile the output test generation algorithm!"@,
        RunError::Compile(Program::Candidate) => "Main program failed to compile!"@,
        RunError::Execution(Program::Generator) => "Failed to generate input tests!"@,
        RunError::Execution(Program::Reference) => "Failed to generate output tests!"@,
        RunError::Execution(Program::Candidate) => "Failed to run the main program!"@,
        RunError::Metadata(MetadataError::NotFound) => "Testcase metadata not found!"@,
        RunError::Metadata(MetadataError::BadCaseCount) =>
            "Testcase metadata is malformed: the first line is not a testcase number!"@,
        RunError::Metadata(MetadataError::MissingTimeLimit) =>
            "Testcase metadata is malformed: the time limit is missing!"@,
        RunError::Metadata(MetadataError::BadTimeLimit) =>
            "Testcase metadata is malformed: the second line is not a time limit!"@,
        RunError::Setup(SetupStep::Home) => "Could not find the home directory!"@,
        RunError::Setup(SetupStep::Config) =>
            "Could not read the default repository from the configuration!"@,
        RunError::Setup(SetupStep::Clone) => "Failed to clone repository!"@,
        RunError::Setup(SetupStep::RemoveHistory) => "Error removing .git!"@,
        RunError::Setup(SetupStep::Initialize) => "Failed to re-initialize repository!"@,
        RunError::FileIo => "Failed to read, write or remove a file!"@,
        RunError::UnexpectedResponse => "A request was answered in a way that does not fit it!"@,
    }
}

/// Writes the message that tells the user why a run was given up.
pub fn error_message(error: RunError) -> (r: String)
    ensures
        r@ == error_text(error),
{
    let text = match error {
        RunError::Compile(Program::Generator) =>
            "Failed to compile the input test generation algorithm!",
        RunError::Compile(Program::Reference) =>
            "Failed to compile the output test generation algorithm!",
        RunError::Compile(Program::Candidate) => "Main program failed to compile!",
        RunError::Execution(Program::Generator) => "Failed to generate input tests!",
        RunError::Execution(Program::Reference) => "Failed to generate output tests!",
        RunError::Execution(Program::Candidate) => "Failed to run the main program!",
        RunError::Metadata(MetadataError::NotFound) => "Testcase metadata not found!",
        RunError::Metadata(MetadataError::BadCaseCount) =>
            "Testcase metadata is malformed: the first line is not a testcase number!",
        RunError::Metadata(MetadataError::MissingTimeLimit) =>
            "Testcase metadata is malformed: the time limit is missing!",
        RunError::Metadata(MetadataError::BadTimeLimit) =>
            "Testcase metadata is malformed: the second line is not a time limit!",
        RunError::Setup(SetupStep::Home) => "Could not find the home directory!",
        RunError::Setup(SetupStep::Config) =>
            "Could not read the default repository from the configuration!",
        RunError::Setup(SetupStep::Clone) => "Failed to clone repository!",
        RunError::Setup(SetupStep::RemoveHistory) => "Error removing .git!",
        RunError::Setup(SetupStep::Initialize) => "Failed to re-initialize repository!",
        RunError::FileIo => "Failed to read, write or remove a file!",
        RunError::UnexpectedResponse => "A request was answered in a way that does not fit it!",
    };
    String::from_str(text)
}

} // verus!
