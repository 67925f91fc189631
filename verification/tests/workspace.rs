use flowerchecker::protocol::Directive;
use flowerchecker::protocol::Request;
use flowerchecker::protocol::Response;
use flowerchecker::protocol::RunError;
use flowerchecker::protocol::SetupStep;
use flowerchecker::workspace::config_directory;
use flowerchecker::workspace::config_path;
use flowerchecker::workspace::first_install;
use flowerchecker::workspace::generate_project;
use flowerchecker::workspace::InstallStage;
use flowerchecker::workspace::ProjectStage;

const CONFIG: &str = "\n# Which repository to use when generating project \ndefault_repo = \"https://github.com/raisadesu/oisuite-files.git\"\n";

/// Sets up a workspace where the paths in `present` exist, and gives the
/// requests that were made with how the run ended.
fn install_where(present: &[&str]) -> (Vec<Request>, Directive) {
    let mut run = first_install();
    let mut log: Vec<Request> = Vec::new();
    loop {
        assert!(log.len() < 100);
        match run.directive() {
            Directive::Perform(request) => {
                let response = match &request {
                    Request::Probe { path } => {
                        Response::Probed { present: present.contains(&path.as_str()) }
                    }
                    Request::HomeDirectory => Response::Content { text: "/home/ada".to_string() },
                    Request::EnsureDirectory { .. } => Response::Done,
                    Request::WriteFile { .. } => Response::Done,
                    Request::Print { .. } => Response::Done,
                    _ => Response::Failed,
                };
                log.push(request);
                run = run.advance(response);
            }
            last => return (log, last),
        }
    }
}

fn made(log: &[Request]) -> Vec<String> {
    let mut paths = Vec::new();
    for request in log {
        match request {
            Request::EnsureDirectory { path } => paths.push(path.clone()),
            Request::WriteFile { path, .. } => paths.push(path.clone()),
            _ => {}
        }
    }
    paths
}

fn printed(log: &[Request]) -> Vec<String> {
    let mut lines = Vec::new();
    for request in log {
        if let Request::Print { line } = request {
            lines.push(line.clone());
        }
    }
    lines
}

#[test]
fn the_configuration_lives_under_the_home_directory() {
    assert_eq!(config_path("/home/ada"), "/home/ada/.config/flowers/config.toml");
    assert_eq!(config_directory("/home/ada"), "/home/ada/.config/flowers");
}

#[test]
fn install_makes_everything_in_an_empty_place() {
    let (log, last) = install_where(&[]);
    assert_eq!(last, Directive::Finish);
    assert_eq!(
        made(log.as_slice()),
        vec![
            "flowers".to_string(),
            "/home/ada/.config/flowers".to_string(),
            "/home/ada/.config/flowers/config.toml".to_string(),
            "flowers/projects".to_string(),
        ]
    );
    assert_eq!(
        printed(log.as_slice()),
        vec![
            "Creating flowers directory".to_string(),
            "Creating config.yml".to_string(),
            "Creating projects directory".to_string(),
            "Successfully installed flowerchecker!".to_string(),
        ]
    );
    assert!(log.contains(&Request::WriteFile {
        path: "/home/ada/.config/flowers/config.toml".to_string(),
        content: CONFIG.to_string(),
    }));
    assert_eq!(log.len(), 12);
}

#[test]
fn install_leaves_alone_what_is_there() {
    let (log, last) = install_where(&[
        "flowers",
        "/home/ada/.config/flowers/config.toml",
        "flowers/projects",
    ]);
    assert_eq!(last, Directive::Finish);
    assert!(made(log.as_slice()).is_empty());
    assert_eq!(
        printed(log.as_slice()),
        vec!["Successfully installed flowerchecker!".to_string()]
    );
    assert_eq!(log.len(), 5);
}

#[test]
fn install_makes_only_what_is_missing() {
    let (log, last) = install_where(&["flowers", "flowers/projects"]);
    assert_eq!(last, Directive::Finish);
    assert_eq!(
        made(log.as_slice()),
        vec![
            "/home/ada/.config/flowers".to_string(),
            "/home/ada/.config/flowers/config.toml".to_string(),
        ]
    );
    let (log, _) = install_where(&["/home/ada/.config/flowers/config.toml"]);
    assert_eq!(
        made(log.as_slice()),
        vec!["flowers".to_string(), "flowers/projects".to_string()]
    );
}

#[test]
fn install_gives_up_when_something_cannot_be_made() {
    let run = first_install();
    let run = run.advance(Response::Probed { present: false });
    let run = run.advance(Response::Done);
    assert_eq!(run.stage(), InstallStage::CreatingWorkspace);
    let run = run.advance(Response::Failed);
    assert_eq!(run.directive(), Directive::Abort(RunError::FileIo));
    let run = run.advance(Response::Done);
    assert_eq!(run.directive(), Directive::Abort(RunError::FileIo));
}

#[test]
fn install_gives_up_without_a_home_directory() {
    let run = first_install();
    let run = run.advance(Response::Probed { present: true });
    assert_eq!(run.directive(), Directive::Perform(Request::HomeDirectory));
    let run = run.advance(Response::Failed);
    assert_eq!(run.directive(), Directive::Abort(RunError::Setup(SetupStep::Home)));
}

#[test]
fn install_turns_down_an_answer_that_does_not_fit() {
    let run = first_install();
    let run = run.advance(Response::Done);
    assert_eq!(run.directive(), Directive::Abort(RunError::UnexpectedResponse));
}

fn exited(success: bool) -> Response {
    Response::Exited { success, stdout: String::new(), elapsed_ns: 0 }
}

fn strings(items: &[&str]) -> Vec<String> {
    items.iter().map(|s| s.to_string()).collect()
}

#[test]
fn a_project_is_cloned_stripped_and_started_afresh() {
    let run = generate_project("sums");
    assert_eq!(run.directive(), Directive::Perform(Request::HomeDirectory));
    let run = run.advance(Response::Content { text: "/home/ada".to_string() });
    assert_eq!(
        run.directive(),
        Directive::Perform(Request::ReadSetting {
            path: "/home/ada/.config/flowers/config.toml".to_string(),
            key: "default_repo".to_string(),
        })
    );
    let run = run.advance(Response::Content { text: "https://example.org/files.git".to_string() });
    assert_eq!(
        run.directive(),
        Directive::Perform(Request::Print { line: "Cloning default repo".to_string() })
    );
    let run = run.advance(Response::Done);
    assert_eq!(
        run.directive(),
        Directive::Perform(Request::Run {
            program: "git".to_string(),
            arguments: strings(&["clone", "https://example.org/files.git", "sums"]),
            stdin_path: None,
            capture: false,
        })
    );
    let run = run.advance(exited(true));
    assert_eq!(
        run.directive(),
        Directive::Perform(Request::RemoveTree { path: "sums/.git".to_string() })
    );
    let run = run.advance(Response::Done);
    assert_eq!(
        run.directive(),
        Directive::Perform(Request::RemoveTree { path: "sums/.gitignore".to_string() })
    );
    let run = run.advance(Response::Done);
    assert_eq!(
        run.directive(),
        Directive::Perform(Request::Run {
            program: "git".to_string(),
            arguments: strings(&["init", "sums"]),
            stdin_path: None,
            capture: false,
        })
    );
    let run = run.advance(exited(true));
    assert_eq!(
        run.directive(),
        Directive::Perform(Request::Print { line: "Successfully generated project!".to_string() })
    );
    let run = run.advance(Response::Done);
    assert_eq!(run.directive(), Directive::Finish);
    assert_eq!(run.stage(), ProjectStage::Finished);
}

fn cloned_project() -> flowerchecker::workspace::ProjectSetup {
    let run = generate_project("sums");
    let run = run.advance(Response::Content { text: "/home/ada".to_string() });
    let run = run.advance(Response::Content { text: "https://example.org/files.git".to_string() });
    let run = run.advance(Response::Done);
    run.advance(exited(false))
}

#[test]
fn a_project_does_not_mind_how_git_exited() {
    let run = cloned_project();
    assert_eq!(run.stage(), ProjectStage::RemovingHistory);
}

#[test]
fn a_project_needs_its_history_removed() {
    let run = cloned_project().advance(Response::Failed);
    assert_eq!(run.directive(), Directive::Abort(RunError::Setup(SetupStep::RemoveHistory)));
}

#[test]
fn a_project_may_lack_an_ignore_file() {
    let run = cloned_project().advance(Response::Done).advance(Response::Failed);
    assert_eq!(run.stage(), ProjectStage::Initializing);
}

#[test]
fn a_project_is_given_up_at_the_first_step_that_fails() {
    let run = generate_project("sums").advance(Response::Failed);
    assert_eq!(run.directive(), Directive::Abort(RunError::Setup(SetupStep::Home)));
    let run = generate_project("sums")
        .advance(Response::Content { text: "/home/ada".to_string() })
        .advance(Response::Failed);
    assert_eq!(run.directive(), Directive::Abort(RunError::Setup(SetupStep::Config)));
    let run = generate_project("sums")
        .advance(Response::Content { text: "/home/ada".to_string() })
        .advance(Response::Content { text: "repo".to_string() })
        .advance(Response::Done)
        .advance(Response::Failed);
    assert_eq!(run.directive(), Directive::Abort(RunError::Setup(SetupStep::Clone)));
    let run = cloned_project()
        .advance(Response::Done)
        .advance(Response::Done)
        .advance(Response::Failed);
    assert_eq!(run.directive(), Directive::Abort(RunError::Setup(SetupStep::Initialize)));
}
