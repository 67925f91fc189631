//! The setting up of a workspace and of a project, as runs that are driven
//! from outside.
//!
//! A workspace is the directory `flowers` with `projects` in it, and a
//! configuration file under the user's home directory that names the
//! repository new projects are cloned from. Setting it up makes what is
//! missing and leaves alone what is there. A project is a clone of that
//! repository without its history, with a fresh repository of its own.

use crate::protocol::texts_of;
use crate::protocol::Directive;
use crate::protocol::DirectiveView;
use crate::protocol::Request;
use crate::protocol::RequestView;
use crate::protocol::Response;
use crate::protocol::ResponseView;
use crate::protocol::RunError;
use crate::protocol::SetupStep;
use vstd::prelude::*;
use vstd::string::StringExecFns;

verus! {

/// The configuration file of a user whose home directory is `home`.
pub open spec fn config_path_text(home: Seq<char>) -> Seq<char> {
    home + "/.config/flowers/config.toml"@
}

/// The directory that holds the configuration file.
pub open spec fn config_directory_text(home: Seq<char>) -> Seq<char> {
    home + "/.config/flowers"@
}

/// What a new configuration file holds.
pub open spec fn default_config_text() -> Seq<char> {
    "\n# Which repository to use when generating project \ndefault_repo = \"https://github.com/raisadesu/oisuite-files.git\"\n"@
}

/// Where the setting up of a workspace stands: what was asked for last and is
/// yet to be answered, or how the run ended.
#[derive(Clone, Copy, Debug, PartialEq, Eq, Structural)]
pub enum InstallStage {
    /// Looking whether `flowers` exists.
    ProbingWorkspace,
    /// Saying that `flowers` is being made.
    AnnouncingWorkspace,
    /// Making `flowers`.
    CreatingWorkspace,
    /// Asking for the home directory.
    FindingHome,
    /// Looking whether the configuration file exists.
    ProbingConfig,
    /// Saying that the configuration file is being made.
    AnnouncingConfig,
    /// Making the directory of the configuration file.
    CreatingConfigDirectory,
    /// Writing the configuration file.
    WritingConfig,
    /// Looking whether `flowers/projects` exists.
    ProbingProjects,
    /// Saying that `flowers/projects` is being made.
    AnnouncingProjects,
    /// Making `flowers/projects`.
    CreatingProjects,
    /// Saying that the workspace is set up.
    AnnouncingSuccess,
    /// All is done.
    Finished,
    /// The run was given up.
    Aborted { error: RunError },
}

/// The setting up of a workspace, under way.
#[derive(Debug)]
pub struct Installation {
    stage: InstallStage,
    home: String,
}

/// The setting up of a workspace as a mathematical value.
pub struct InstallationView {
    /// Where the run stands.
    pub stage: InstallStage,
    /// The home directory, once it is known; empty before.
    pub home: Seq<char>,
}

impl View for Installation {
    type V = InstallationView;

    closed spec fn view(&self) -> InstallationView {
        InstallationView { stage: self.stage, home: self.home@ }
    }
}

/// Where a stage of the setting up leads when its request was one that is
/// answered by `Done`.
pub open spec fn install_when_done(response: ResponseView, next: InstallStage) -> InstallStage {
    match response {
        ResponseView::Done => next,
        ResponseView::Failed => InstallStage::Aborted { error: RunError::FileIo },
        _ => InstallStage::Aborted { error: RunError::UnexpectedResponse },
    }
}

/// Where a stage of the setting up leads when its request was to look whether
/// something exists.
pub open spec fn install_when_probed(
    response: ResponseView,
    present: InstallStage,
    absent: InstallStage,
) -> InstallStage {
    match response {
        ResponseView::Probed { present: found } => if found {
            present
        } else {
            absent
        },
        ResponseView::Failed => InstallStage::Aborted { error: RunError::FileIo },
        _ => InstallStage::Aborted { error: RunError::UnexpectedResponse },
    }
}

impl InstallationView {
    /// The stage that an answer leads to. What exists is left alone; what is
    /// missing is announced and then made.
    pub open spec fn next_stage(self, response: ResponseView) -> InstallStage {
        match self.stage {
            InstallStage::ProbingWorkspace => install_when_probed(
                response,
                InstallStage::FindingHome,
                InstallStage::AnnouncingWorkspace,
            ),
            InstallStage::AnnouncingWorkspace => install_when_done(
                response,
                InstallStage::CreatingWorkspace,
            ),
            InstallStage::CreatingWorkspace => install_when_done(
                response,
                InstallStage::FindingHome,
            ),
            InstallStage::FindingHome => match response {
                ResponseView::Content { .. } => InstallStage::ProbingConfig,
                ResponseView::Failed => InstallStage::Aborted {
                    error: RunError::Setup(SetupStep::Home),
                },
                _ => InstallStage::Aborted { error: RunError::UnexpectedResponse },
            },
            InstallStage::ProbingConfig => install_when_probed(
                response,
                InstallStage::ProbingProjects,
                InstallStage::AnnouncingConfig,
            ),
            InstallStage::AnnouncingConfig => install_when_done(
                response,
                InstallStage::CreatingConfigDirectory,
            ),
            InstallStage::CreatingConfigDirectory => install_when_done(
                response,
                InstallStage::WritingConfig,
            ),
            InstallStage::WritingConfig => install_when_done(
                response,
                InstallStage::ProbingProjects,
            ),
            InstallStage::ProbingProjects => install_when_probed(
                response,
                InstallStage::AnnouncingSuccess,
                InstallStage::AnnouncingProjects,
            ),
            InstallStage::AnnouncingProjects => install_when_done(
                response,
                InstallStage::CreatingProjects,
            ),
            InstallStage::CreatingProjects => install_when_done(
                response,
                InstallStage::AnnouncingSuccess,
            ),
            InstallStage::AnnouncingSuccess => install_when_done(response, InstallStage::Finished),
            InstallStage::Finished => InstallStage::Finished,
            InstallStage::Aborted { error } => InstallStage::Aborted { error },
        }
    }

    /// The run after an answer. The home directory is kept once it was told.
    pub open spec fn advance(self, response: ResponseView) -> InstallationView {
        InstallationView {
            stage: self.next_stage(response),
            home: match (self.stage, response) {
                (InstallStage::FindingHome, ResponseView::Content { text }) => text,
                _ => self.home,
            },
        }
    }

    /// What the run wants next.
    pub open spec fn directive(self) -> DirectiveView {
        match self.stage {
            InstallStage::ProbingWorkspace => DirectiveView::Perform(
                RequestView::Probe { path: "flowers"@ },
            ),
            InstallStage::AnnouncingWorkspace => DirectiveView::Perform(
                RequestView::Print { line: "Creating flowers directory"@ },
            ),
            InstallStage::CreatingWorkspace => DirectiveView::Perform(
                RequestView::EnsureDirectory { path: "flowers"@ },
            ),
            InstallStage::FindingHome => DirectiveView::Perform(RequestView::HomeDirectory),
            InstallStage::ProbingConfig => DirectiveView::Perform(
                RequestView::Probe { path: config_path_text(self.home) },
            ),
            InstallStage::AnnouncingConfig => DirectiveView::Perform(
                RequestView::Print { line: "Creating config.yml"@ },
            ),
            InstallStage::CreatingConfigDirectory => DirectiveView::Perform(
                RequestView::EnsureDirectory { path: config_directory_text(self.home) },
            ),
            InstallStage::WritingConfig => DirectiveView::Perform(
                RequestView::WriteFile {
                    path: config_path_text(self.home),
                    content: default_config_text(),
                },
            ),
            InstallStage::ProbingProjects => DirectiveView::Perform(
                RequestView::Probe { path: "flowers/projects"@ },
            ),
            InstallStage::AnnouncingProjects => DirectiveView::Perform(
                RequestView::Print { line: "Creating projects directory"@ },
            ),
            InstallStage::CreatingProjects => DirectiveView::Perform(
                RequestView::EnsureDirectory { path: "flowers/projects"@ },
            ),
            InstallStage::AnnouncingSuccess => DirectiveView::Perform(
                RequestView::Print { line: "Successfully installed flowerchecker!"@ },
            ),
            InstallStage::Finished => DirectiveView::Finish,
            InstallStage::Aborted { error } => DirectiveView::Abort(error),
        }
    }
}

/// The setting up of a workspace before it has begun.
pub open spec fn initial_installation() -> InstallationView {
    InstallationView { stage: InstallStage::ProbingWorkspace, home: Seq::<char>::empty() }
}

/// Begins the setting up of a workspace in the working directory.
pub fn first_install() -> (r: Installation)
    ensures
        r@ == initial_installation(),
{
    Installation { stage: InstallStage::ProbingWorkspace, home: String::new() }
}

/// Builds the path of the configuration file.
pub fn config_path(home: &str) -> (r: String)
    ensures
        r@ == config_path_text(home@),
{
    let mut path = String::from_str(home);
    path.append("/.config/flowers/config.toml");
    path
}

/// Builds the path of the directory that holds the configuration file.
pub fn config_directory(home: &str) -> (r: String)
    ensures
        r@ == config_directory_text(home@),
{
    let mut path = String::from_str(home);
    path.append("/.config/flowers");
    path
}

/// Exec form of `install_when_done`.
fn install_stage_when_done(response: &Response, next: InstallStage) -> (r: InstallStage)
    ensures
        r == install_when_done(response@, next),
{
    match response {
        Response::Done => next,
        Response::Failed => InstallStage::Aborted { error: RunError::FileIo },
        _ => InstallStage::Aborted { error: RunError::UnexpectedResponse },
    }
}

/// Exec form of `install_when_probed`.
fn install_stage_when_probed(response: &Response, present: InstallStage, absent: InstallStage) -> (r:
    InstallStage)
    ensures
        r == install_when_probed(response@, present, absent),
{
    match response {
        Response::Probed { present: found } => if *found {
            present
        } else {
            absent
        },
        Response::Failed => InstallStage::Aborted { error: RunError::FileIo },
        _ => InstallStage::Aborted { error: RunError::UnexpectedResponse },
    }
}

impl Installation {
    /// Tells where the run stands.
    pub fn stage(&self) -> (r: InstallStage)
        ensures
            r == self@.stage,
    {
        self.stage
    }

    /// Tells what the run wants next.
    pub fn directive(&self) -> (r: Directive)
        ensures
            r@ == self@.directive(),
    {
        match self.stage {
            InstallStage::ProbingWorkspace => Directive::Perform(
                Request::Probe { path: String::from_str("flowers") },
            ),
            InstallStage::AnnouncingWorkspace => Directive::Perform(
                Request::Print { line: String::from_str("Creating flowers directory") },
            ),
            InstallStage::CreatingWorkspace => Directive::Perform(
                Request::EnsureDirectory { path: String::from_str("flowers") },
            ),
            InstallStage::FindingHome => Directive::Perform(Request::HomeDirectory),
            InstallStage::ProbingConfig => Directive::Perform(
                Request::Probe { path: config_path(self.home.as_str()) },
            ),
            InstallStage::AnnouncingConfig => Directive::Perform(
                Request::Print { line: String::from_str("Creating config.yml") },
            ),
            InstallStage::CreatingConfigDirectory => Directive::Perform(
                Request::EnsureDirectory { path: config_directory(self.home.as_str()) },
            ),
            InstallStage::WritingConfig => Directive::Perform(
                Request::WriteFile {
                    path: config_path(self.home.as_str()),
                    content: String::from_str(
                        "\n# Which repository to use when generating project \ndefault_repo = \"https://github.com/raisadesu/oisuite-files.git\"\n",
                    ),
                },
            ),
            InstallStage::ProbingProjects => Directive::Perform(
                Request::Probe { path: String::from_str("flowers/projects") },
            ),
            InstallStage::AnnouncingProjects => Directive::Perform(
                Request::Print { line: String::from_str("Creating projects directory") },
            ),
            InstallStage::CreatingProjects => Directive::Perform(
                Request::EnsureDirectory { path: String::from_str("flowers/projects") },
            ),
            InstallStage::AnnouncingSuccess => Directive::Perform(
                Request::Print { line: String::from_str("Successfully installed flowerchecker!") },
            ),
            InstallStage::Finished => Directive::Finish,
            InstallStage::Aborted { error } => Directive::Abort(error),
        }
    }

    /// Takes the answer to the request that `directive` named and moves on.
    pub fn advance(self, response: Response) -> (r: Installation)
        ensures
            r@ == self@.advance(response@),
    {
        let stage = match self.stage {
            InstallStage::ProbingWorkspace => install_stage_when_probed(
                &response,
                InstallStage::FindingHome,
                InstallStage::AnnouncingWorkspace,
            ),
            InstallStage::AnnouncingWorkspace => install_stage_when_done(
                &response,
                InstallStage::CreatingWorkspace,
            ),
            InstallStage::CreatingWorkspace => install_stage_when_done(
                &response,
                InstallStage::FindingHome,
            ),
            InstallStage::FindingHome => match &response {
                Response::Content { .. } => InstallStage::ProbingConfig,
                Response::Failed => InstallStage::Aborted {
                    error: RunError::Setup(SetupStep::Home),
                },
                _ => InstallStage::Aborted { error: RunError::UnexpectedResponse },
            },
            InstallStage::ProbingConfig => install_stage_when_probed(
                &response,
                InstallStage::ProbingProjects,
                InstallStage::AnnouncingConfig,
            ),
            InstallStage::AnnouncingConfig => install_stage_when_done(
                &response,
                InstallStage::CreatingConfigDirectory,
            ),
            InstallStage::CreatingConfigDirectory => install_stage_when_done(
                &response,
                InstallStage::WritingConfig,
            ),
            InstallStage::WritingConfig => install_stage_when_done(
                &response,
                InstallStage::ProbingProjects,
            ),
            InstallStage::ProbingProjects => install_stage_when_probed(
                &response,
                InstallStage::AnnouncingSuccess,
                InstallStage::AnnouncingProjects,
            ),
            InstallStage::AnnouncingProjects => install_stage_when_done(
                &response,
                InstallStage::CreatingProjects,
            ),
            InstallStage::CreatingProjects => install_stage_when_done(
                &response,
                InstallStage::AnnouncingSuccess,
            ),
            InstallStage::AnnouncingSuccess => install_stage_when_done(
                &response,
                InstallStage::Finished,
            ),
            InstallStage::Finished => InstallStage::Finished,
            InstallStage::Aborted { error } => InstallStage::Aborted { error },
        };
        let finding_home = match self.stage {
            InstallStage::FindingHome => true,
            _ => false,
        };
        let home = if finding_home {
            match response {
                Response::Content { text } => text,
                _ => self.home,
            }
        } else {
            self.home
        };
        Installation { stage, home }
    }
}

/// Setting up leaves alone what is there: where a look finds the thing, the
/// next request is neither to make a directory nor to write a file, and
/// nothing is announced.
pub proof fn lemma_install_leaves_what_exists(g: InstallationView)
    requires
        g.stage is ProbingWorkspace || g.stage is ProbingConfig || g.stage is ProbingProjects,
    ensures
        ({
            let next = g.advance(ResponseView::Probed { present: true });
            &&& g.stage is ProbingWorkspace ==> next.stage is FindingHome
            &&& g.stage is ProbingConfig ==> next.stage is ProbingProjects
            &&& g.stage is ProbingProjects ==> next.stage is AnnouncingSuccess
            &&& !(next.directive() matches DirectiveView::Perform(
                RequestView::EnsureDirectory { .. },
            ))
            &&& !next.directive().writes_file()
        }),
{
}

/// Setting up makes what is missing: where nothing exists at all, the
/// requests are, in this order, to look for `flowers`, announce it and make
/// it; to ask for the home directory; to look for the configuration file,
/// announce it, make its directory and write it; to look for
/// `flowers/projects`, announce it and make it; and to announce success.
pub proof fn lemma_install_makes_what_is_missing(home: Seq<char>)
    ensures
        ({
            let absent = ResponseView::Probed { present: false };
            let s0 = initial_installation();
            let s1 = s0.advance(absent);
            let s2 = s1.advance(ResponseView::Done);
            let s3 = s2.advance(ResponseView::Done);
            let s4 = s3.advance(ResponseView::Content { text: home });
            let s5 = s4.advance(absent);
            let s6 = s5.advance(ResponseView::Done);
            let s7 = s6.advance(ResponseView::Done);
            let s8 = s7.advance(ResponseView::Done);
            let s9 = s8.advance(absent);
            let s10 = s9.advance(ResponseView::Done);
            let s11 = s10.advance(ResponseView::Done);
            let s12 = s11.advance(ResponseView::Done);
            &&& s0.directive() == DirectiveView::Perform(RequestView::Probe { path: "flowers"@ })
            &&& s2.directive() == DirectiveView::Perform(
                RequestView::EnsureDirectory { path: "flowers"@ },
            )
            &&& s3.directive() == DirectiveView::Perform(RequestView::HomeDirectory)
            &&& s4.directive() == DirectiveView::Perform(
                RequestView::Probe { path: config_path_text(home) },
            )
            &&& s6.directive() == DirectiveView::Perform(
                RequestView::EnsureDirectory { path: config_directory_text(home) },
            )
            &&& s7.directive() == DirectiveView::Perform(
                RequestView::WriteFile {
                    path: config_path_text(home),
                    content: default_config_text(),
                },
            )
            &&& s8.directive() == DirectiveView::Perform(
                RequestView::Probe { path: "flowers/projects"@ },
            )
            &&& s10.directive() == DirectiveView::Perform(
                RequestView::EnsureDirectory { path: "flowers/projects"@ },
            )
            &&& s1.directive() matches DirectiveView::Perform(RequestView::Print { .. })
            &&& s5.directive() matches DirectiveView::Perform(RequestView::Print { .. })
            &&& s9.directive() matches DirectiveView::Perform(RequestView::Print { .. })
            &&& s11.directive() matches DirectiveView::Perform(RequestView::Print { .. })
            &&& s12.directive() == DirectiveView::Finish
        }),
{
}

/// Where the making of a project stands: what was asked for last and is yet
/// to be answered, or how the run ended.
#[derive(Clone, Copy, Debug, PartialEq, Eq, Structural)]
pub enum ProjectStage {
    /// Asking for the home directory.
    FindingHome,
    /// Reading the default repository from the configuration file.
    ReadingConfig,
    /// Saying that the repository is being cloned.
    AnnouncingClone,
    /// Cloning the repository into the project's directory.
    Cloning,
    /// Removing the clone's `.git`.
    RemovingHistory,
    /// Removing the clone's `.gitignore`.
    RemovingIgnore,
    /// Starting the project's own repository.
    Initializing,
    /// Saying that the project is made.
    AnnouncingSuccess,
    /// All is done.
    Finished,
    /// The run was given up.
    Aborted { error: RunError },
}

/// The making of a project, under way.
#[derive(Debug)]
pub struct ProjectSetup {
    name: String,
    stage: ProjectStage,
    home: String,
    repository: String,
}

/// The making of a project as a mathematical value.
pub struct ProjectSetupView {
    /// The project's name, which is also its directory.
    pub name: Seq<char>,
    /// Where the run stands.
    pub stage: ProjectStage,
    /// The home directory, once it is known; empty before.
    pub home: Seq<char>,
    /// The repository to clone, once it is known; empty before.
    pub repository: Seq<char>,
}

impl View for ProjectSetup {
    type V = ProjectSetupView;

    closed spec fn view(&self) -> ProjectSetupView {
        ProjectSetupView {
            name: self.name@,
            stage: self.stage,
            home: self.home@,
            repository: self.repository@,
        }
    }
}

/// Where a stage of the making leads when its request was to tell a text: on,
/// if the text was told; to the given error, if it could not be.
pub open spec fn project_when_told(
    response: ResponseView,
    step: SetupStep,
    next: ProjectStage,
) -> ProjectStage {
    match response {
        ResponseView::Content { .. } => next,
        ResponseView::Failed => ProjectStage::Aborted { error: RunError::Setup(step) },
        _ => ProjectStage::Aborted { error: RunError::UnexpectedResponse },
    }
}

/// Where a stage of the making leads when its request was to run `git`: on,
/// if it ran, however it exited; to the given error, if it could not be run.
pub open spec fn project_when_ran(
    response: ResponseView,
    step: SetupStep,
    next: ProjectStage,
) -> ProjectStage {
    match response {
        ResponseView::Exited { .. } => next,
        ResponseView::Failed => ProjectStage::Aborted { error: RunError::Setup(step) },
        _ => ProjectStage::Aborted { error: RunError::UnexpectedResponse },
    }
}

/// Where a stage of the making leads when its request was to show a line.
pub open spec fn project_when_shown(response: ResponseView, next: ProjectStage) -> ProjectStage {
    match response {
        ResponseView::Done => next,
        ResponseView::Failed => ProjectStage::Aborted { error: RunError::FileIo },
        _ => ProjectStage::Aborted { error: RunError::UnexpectedResponse },
    }
}

impl ProjectSetupView {
    /// The stage that an answer leads to. The clone's `.git` must go; its
    /// `.gitignore` may be missing.
    pub open spec fn next_stage(self, response: ResponseView) -> ProjectStage {
        match self.stage {
            ProjectStage::FindingHome => project_when_told(
                response,
                SetupStep::Home,
                ProjectStage::ReadingConfig,
            ),
            ProjectStage::ReadingConfig => project_when_told(
                response,
                SetupStep::Config,
                ProjectStage::AnnouncingClone,
            ),
            ProjectStage::AnnouncingClone => project_when_shown(response, ProjectStage::Cloning),
            ProjectStage::Cloning => project_when_ran(
                response,
                SetupStep::Clone,
                ProjectStage::RemovingHistory,
            ),
            ProjectStage::RemovingHistory => match response {
                ResponseView::Done => ProjectStage::RemovingIgnore,
                ResponseView::Failed => ProjectStage::Aborted {
                    error: RunError::Setup(SetupStep::RemoveHistory),
                },
                _ => ProjectStage::Aborted { error: RunError::UnexpectedResponse },
            },
            ProjectStage::RemovingIgnore => match response {
                ResponseView::Done => ProjectStage::Initializing,
                ResponseView::Failed => ProjectStage::Initializing,
                _ => ProjectStage::Aborted { error: RunError::UnexpectedResponse },
            },
            ProjectStage::Initializing => project_when_ran(
                response,
                SetupStep::Initialize,
                ProjectStage::AnnouncingSuccess,
            ),
            ProjectStage::AnnouncingSuccess => project_when_shown(response, ProjectStage::Finished),
            ProjectStage::Finished => ProjectStage::Finished,
            ProjectStage::Aborted { error } => ProjectStage::Aborted { error },
        }
    }

    /// The run after an answer. The home directory and the repository are kept
    /// once they were told.
    pub open spec fn advance(self, response: ResponseView) -> ProjectSetupView {
        ProjectSetupView {
            name: self.name,
            stage: self.next_stage(response),
            home: match (self.stage, response) {
                (ProjectStage::FindingHome, ResponseView::Content { text }) => text,
                _ => self.home,
            },
            repository: match (self.stage, response) {
                (ProjectStage::ReadingConfig, ResponseView::Content { text }) => text,
                _ => self.repository,
            },
        }
    }

    /// What the run wants next.
    pub open spec fn directive(self) -> DirectiveView {
        match self.stage {
            ProjectStage::FindingHome => DirectiveView::Perform(RequestView::HomeDirectory),
            ProjectStage::ReadingConfig => DirectiveView::Perform(
                RequestView::ReadSetting {
                    path: config_path_text(self.home),
                    key: "default_repo"@,
                },
            ),
            ProjectStage::AnnouncingClone => DirectiveView::Perform(
                RequestView::Print { line: "Cloning default repo"@ },
            ),
            ProjectStage::Cloning => DirectiveView::Perform(
                RequestView::Run {
                    program: "git"@,
                    arguments: seq!["clone"@, self.repository, self.name],
                    stdin_path: None,
                    capture: false,
                },
            ),
            ProjectStage::RemovingHistory => DirectiveView::Perform(
                RequestView::RemoveTree { path: self.name + "/.git"@ },
            ),
            ProjectStage::RemovingIgnore => DirectiveView::Perform(
                RequestView::RemoveTree { path: self.name + "/.gitignore"@ },
            ),
            ProjectStage::Initializing => DirectiveView::Perform(
                RequestView::Run {
                    program: "git"@,
                    arguments: seq!["init"@, self.name],
                    stdin_path: None,
                    capture: false,
                },
            ),
            ProjectStage::AnnouncingSuccess => DirectiveView::Perform(
                RequestView::Print { line: "Successfully generated project!"@ },
            ),
            ProjectStage::Finished => DirectiveView::Finish,
            ProjectStage::Aborted { error } => DirectiveView::Abort(error),
        }
    }
}

/// The making of a project before it has begun.
pub open spec fn initial_project(name: Seq<char>) -> ProjectSetupView {
    ProjectSetupView {
        name,
        stage: ProjectStage::FindingHome,
        home: Seq::<char>::empty(),
        repository: Seq::<char>::empty(),
    }
}

/// Begins the making of a project in the directory `name`.
pub fn generate_project(name: &str) -> (r: ProjectSetup)
    ensures
        r@ == initial_project(name@),
{
    ProjectSetup {
        name: String::from_str(name),
        stage: ProjectStage::FindingHome,
        home: String::new(),
        repository: String::new(),
    }
}

/// Exec form of `project_when_told`.
fn project_stage_when_told(response: &Response, step: SetupStep, next: ProjectStage) -> (r:
    ProjectStage)
    ensures
        r == project_when_told(response@, step, next),
{
    match response {
        Response::Content { .. } => next,
        Response::Failed => ProjectStage::Aborted { error: RunError::Setup(step) },
        _ => ProjectStage::Aborted { error: RunError::UnexpectedResponse },
    }
}

/// Exec form of `project_when_ran`.
fn project_stage_when_ran(response: &Response, step: SetupStep, next: ProjectStage) -> (r:
    ProjectStage)
    ensures
        r == project_when_ran(response@, step, next),
{
    match response {
        Response::Exited { .. } => next,
        Response::Failed => ProjectStage::Aborted { error: RunError::Setup(step) },
        _ => ProjectStage::Aborted { error: RunError::UnexpectedResponse },
    }
}

/// Exec form of `project_when_shown`.
fn project_stage_when_shown(response: &Response, next: ProjectStage) -> (r: ProjectStage)
    ensures
        r == project_when_shown(response@, next),
{
    match response {
        Response::Done => next,
        Response::Failed => ProjectStage::Aborted { error: RunError::FileIo },
        _ => ProjectStage::Aborted { error: RunError::UnexpectedResponse },
    }
}

impl ProjectSetup {
    /// Tells where the run stands.
    pub fn stage(&self) -> (r: ProjectStage)
        ensures
            r == self@.stage,
    {
        self.stage
    }

    /// Builds the request to run `git` with a subcommand and its operands.
    fn git(&self, subcommand: &str, with_repository: bool) -> (r: Request)
        ensures
            r@ == (RequestView::Run {
                program: "git"@,
                arguments: if with_repository {
                    seq![subcommand@, self@.repository, self@.name]
                } else {
                    seq![subcommand@, self@.name]
                },
                stdin_path: None,
                capture: false,
            }),
    {
        let mut arguments: Vec<String> = Vec::new();
        arguments.push(String::from_str(subcommand));
        if with_repository {
            arguments.push(self.repository.clone());
        }
        arguments.push(self.name.clone());
        proof {
            if with_repository {
                assert(texts_of(arguments@) =~= seq![subcommand@, self@.repository, self@.name]);
            } else {
                assert(texts_of(arguments@) =~= seq![subcommand@, self@.name]);
            }
        }
        Request::Run { program: String::from_str("git"), arguments, stdin_path: None, capture: false }
    }

    /// Builds a path inside the project's directory.
    fn inside(&self, rest: &str) -> (r: String)
        ensures
            r@ == self@.name + rest@,
    {
        let mut path = self.name.clone();
        path.append(rest);
        path
    }

    /// Tells what the run wants next.
    pub fn directive(&self) -> (r: Directive)
        ensures
            r@ == self@.directive(),
    {
        match self.stage {
            ProjectStage::FindingHome => Directive::Perform(Request::HomeDirectory),
            ProjectStage::ReadingConfig => Directive::Perform(
                Request::ReadSetting {
                    path: config_path(self.home.as_str()),
                    key: String::from_str("default_repo"),
                },
            ),
            ProjectStage::AnnouncingClone => Directive::Perform(
                Request::Print { line: String::from_str("Cloning default repo") },
            ),
            ProjectStage::Cloning => Directive::Perform(self.git("clone", true)),
            ProjectStage::RemovingHistory => Directive::Perform(
                Request::RemoveTree { path: self.inside("/.git") },
            ),
            ProjectStage::RemovingIgnore => Directive::Perform(
                Request::RemoveTree { path: self.inside("/.gitignore") },
            ),
            ProjectStage::Initializing => Directive::Perform(self.git("init", false)),
            ProjectStage::AnnouncingSuccess => Directive::Perform(
                Request::Print { line: String::from_str("Successfully generated project!") },
            ),
            ProjectStage::Finished => Directive::Finish,
            ProjectStage::Aborted { error } => Directive::Abort(error),
        }
    }

    /// Takes the answer to the request that `directive` named and moves on.
    pub fn advance(self, response: Response) -> (r: ProjectSetup)
        ensures
            r@ == self@.advance(response@),
    {
        let stage = match self.stage {
            ProjectStage::FindingHome => project_stage_when_told(
                &response,
                SetupStep::Home,
                ProjectStage::ReadingConfig,
            ),
            ProjectStage::ReadingConfig => project_stage_when_told(
                &response,
                SetupStep::Config,
                ProjectStage::AnnouncingClone,
            ),
            ProjectStage::AnnouncingClone => project_stage_when_shown(
                &response,
                ProjectStage::Cloning,
            ),
            ProjectStage::Cloning => project_stage_when_ran(
                &response,
                SetupStep::Clone,
                ProjectStage::RemovingHistory,
            ),
            ProjectStage::RemovingHistory => match &response {
                Response::Done => ProjectStage::RemovingIgnore,
                Response::Failed => ProjectStage::Aborted {
                    error: RunError::Setup(SetupStep::RemoveHistory),
                },
                _ => ProjectStage::Aborted { error: RunError::UnexpectedResponse },
            },
            ProjectStage::RemovingIgnore => match &response {
                Response::Done => ProjectStage::Initializing,
                Response::Failed => ProjectStage::Initializing,
                _ => ProjectStage::Aborted { error: RunError::UnexpectedResponse },
            },
            ProjectStage::Initializing => project_stage_when_ran(
                &response,
                SetupStep::Initialize,
                ProjectStage::AnnouncingSuccess,
            ),
            ProjectStage::AnnouncingSuccess => project_stage_when_shown(
                &response,
                ProjectStage::Finished,
            ),
            ProjectStage::Finished => ProjectStage::Finished,
            ProjectStage::Aborted { error } => ProjectStage::Aborted { error },
        };
        match (self.stage, response) {
            (ProjectStage::FindingHome, Response::Content { text }) => ProjectSetup {
                name: self.name,
                stage,
                home: text,
                repository: self.repository,
            },
            (ProjectStage::ReadingConfig, Response::Content { text }) => ProjectSetup {
                name: self.name,
                stage,
                home: self.home,
                repository: text,
            },
            _ => ProjectSetup {
                name: self.name,
                stage,
                home: self.home,
                repository: self.repository,
            },
        }
    }
}

/// What the making of a project does when nothing fails: it asks for the home
/// directory, reads the default repository from the configuration file there,
/// clones that repository into the project's directory, removes the clone's
/// `.git` and `.gitignore`, and starts a repository there. How `git` exits is
/// not looked at, and it does not matter whether `.gitignore` could be
/// removed.
pub proof fn lemma_project_is_cloned_then_started_afresh(
    name: Seq<char>,
    home: Seq<char>,
    repository: Seq<char>,
    cloned: ResponseView,
    ignore_removed: ResponseView,
    started: ResponseView,
)
    requires
        cloned is Exited,
        ignore_removed is Done || ignore_removed is Failed,
        started is Exited,
    ensures
        ({
            let s0 = initial_project(name);
            let s1 = s0.advance(ResponseView::Content { text: home });
            let s2 = s1.advance(ResponseView::Content { text: repository });
            let s3 = s2.advance(ResponseView::Done);
            let s4 = s3.advance(cloned);
            let s5 = s4.advance(ResponseView::Done);
            let s6 = s5.advance(ignore_removed);
            let s7 = s6.advance(started);
            let s8 = s7.advance(ResponseView::Done);
            &&& s0.directive() == DirectiveView::Perform(RequestView::HomeDirectory)
            &&& s1.directive() == DirectiveView::Perform(
                RequestView::ReadSetting { path: config_path_text(home), key: "default_repo"@ },
            )
            &&& s2.directive() matches DirectiveView::Perform(RequestView::Print { .. })
            &&& s3.directive() == DirectiveView::Perform(
                RequestView::Run {
                    program: "git"@,
                    arguments: seq!["clone"@, repository, name],
                    stdin_path: None,
                    capture: false,
                },
            )
            &&& s4.directive() == DirectiveView::Perform(
                RequestView::RemoveTree { path: name + "/.git"@ },
            )
            &&& s5.directive() == DirectiveView::Perform(
                RequestView::RemoveTree { path: name + "/.gitignore"@ },
            )
            &&& s6.directive() == DirectiveView::Perform(
                RequestView::Run {
                    program: "git"@,
                    arguments: seq!["init"@, name],
                    stdin_path: None,
                    capture: false,
                },
            )
            &&& s7.directive() matches DirectiveView::Perform(RequestView::Print { .. })
            &&& s8.directive() == DirectiveView::Finish
        }),
{
}

/// A project is given up at the first step that cannot be taken, with the
/// error of that step: no home directory, no readable configuration, `git`
/// not to be run, or a `.git` that cannot be removed.
pub proof fn lemma_project_failure_ends_run(g: ProjectSetupView)
    requires
        !(g.stage is Finished),
        !(g.stage is Aborted),
        !(g.stage is RemovingIgnore),
    ensures
        g.advance(ResponseView::Failed).directive() == DirectiveView::Abort(
            match g.stage {
                ProjectStage::FindingHome => RunError::Setup(SetupStep::Home),
                ProjectStage::ReadingConfig => RunError::Setup(SetupStep::Config),
                ProjectStage::Cloning => RunError::Setup(SetupStep::Clone),
                ProjectStage::RemovingHistory => RunError::Setup(SetupStep::RemoveHistory),
                ProjectStage::Initializing => RunError::Setup(SetupStep::Initialize),
                _ => RunError::FileIo,
            },
        ),
{
}

} // verus!
