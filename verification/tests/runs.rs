use flowerchecker::generation::generate_testcases;
use flowerchecker::generation::GenerationStage;
use flowerchecker::grader::GradingStage;
use flowerchecker::grading::GradeSummary;
use flowerchecker::metadata::MetadataError;
use flowerchecker::protocol::error_message;
use flowerchecker::protocol::Directive;
use flowerchecker::protocol::Program;
use flowerchecker::protocol::Request;
use flowerchecker::protocol::Response;
use flowerchecker::protocol::RunError;
use flowerchecker::protocol::SetupStep;
use std::collections::BTreeMap;

/// A working directory held in memory, with three programs that never touch
/// the machine.
struct World {
    files: BTreeMap<String, String>,
    directories: Vec<String>,
    printed: Vec<String>,
    log: Vec<Request>,
    broken_sources: Vec<String>,
    candidate: fn(&str) -> String,
    candidate_ns: fn(usize) -> u128,
    candidate_runs: usize,
    reference_fails: bool,
}

fn reversed(input: &str) -> String {
    input.chars().rev().collect()
}

fn reversed_with_line_feed(input: &str) -> String {
    let mut text = reversed(input);
    text.push('\n');
    text
}

fn echoed(input: &str) -> String {
    input.to_string()
}

fn quick(_run: usize) -> u128 {
    20_000_000
}

fn second_run_slow(run: usize) -> u128 {
    if run == 2 {
        1_500_000_000
    } else {
        20_000_000
    }
}

fn new_world(candidate: fn(&str) -> String, candidate_ns: fn(usize) -> u128) -> World {
    World {
        files: BTreeMap::new(),
        directories: Vec::new(),
        printed: Vec::new(),
        log: Vec::new(),
        broken_sources: Vec::new(),
        candidate,
        candidate_ns,
        candidate_runs: 0,
        reference_fails: false,
    }
}

fn exited(stdout: String, elapsed_ns: u128) -> Response {
    Response::Exited { success: true, stdout, elapsed_ns }
}

fn launch(world: &mut World, program: &str, arguments: &[String], stdin: Option<&String>) -> Response {
    if program == "g++" {
        assert_eq!(arguments.len(), 4);
        assert_eq!(arguments[0], "-std=c++17");
        assert_eq!(arguments[1], "-o");
        if world.broken_sources.contains(&arguments[3]) {
            return Response::Exited { success: false, stdout: String::new(), elapsed_ns: 1 };
        }
        world.files.insert(format!("./{}", arguments[2]), String::from("executable"));
        return exited(String::new(), 1);
    }
    if !world.files.contains_key(program) {
        return Response::Failed;
    }
    let input = match stdin {
        Some(path) => match world.files.get(path) {
            Some(text) => text.clone(),
            None => return Response::Failed,
        },
        None => String::new(),
    };
    if program == "./test_generator" {
        assert_eq!(arguments.len(), 2);
        exited(format!("case {} of {}\n", arguments[0], arguments[1]), 5)
    } else if program == "./output_generator" {
        assert!(arguments.is_empty());
        if world.reference_fails {
            return Response::Exited { success: false, stdout: String::new(), elapsed_ns: 5 };
        }
        exited(reversed(input.as_str()), 5)
    } else {
        assert_eq!(program, "./main");
        assert!(arguments.is_empty());
        world.candidate_runs += 1;
        exited((world.candidate)(input.as_str()), (world.candidate_ns)(world.candidate_runs))
    }
}

fn perform(world: &mut World, request: &Request) -> Response {
    world.log.push(request.clone());
    match request {
        Request::EnsureDirectory { path } => {
            world.directories.push(path.clone());
            Response::Done
        }
        Request::Run { program, arguments, stdin_path, capture: _ } => {
            launch(world, program.as_str(), arguments.as_slice(), stdin_path.as_ref())
        }
        Request::WriteFile { path, content } => {
            world.files.insert(path.clone(), content.clone());
            Response::Done
        }
        Request::ReadFile { path } => match world.files.get(path) {
            Some(text) => Response::Content { text: text.clone() },
            None => Response::Failed,
        },
        Request::RemoveFile { path } => match world.files.remove(path) {
            Some(_) => Response::Done,
            None => Response::Failed,
        },
        Request::Print { line } => {
            world.printed.push(line.clone());
            Response::Done
        }
        _ => Response::Failed,
    }
}

fn run_generation(world: &mut World, n: i32, package: &str, limit: u64) -> Result<(), RunError> {
    let mut run = generate_testcases(n, package, limit);
    let mut steps = 0;
    loop {
        steps += 1;
        assert!(steps < 10_000);
        match run.directive() {
            Directive::Perform(request) => {
                let response = perform(world, &request);
                run = run.advance(response);
            }
            Directive::Finish => return Ok(()),
            Directive::Abort(error) => return Err(error),
        }
    }
}

fn run_grading(world: &mut World, package: &str) -> Result<GradeSummary, RunError> {
    let mut run = flowerchecker::grader::test(package);
    let mut steps = 0;
    loop {
        steps += 1;
        assert!(steps < 10_000);
        match run.directive() {
            Directive::Perform(request) => {
                let response = perform(world, &request);
                run = run.advance(response);
            }
            Directive::Finish => return Ok(run.summary()),
            Directive::Abort(error) => return Err(error),
        }
    }
}

fn writes(log: &[Request]) -> usize {
    log.iter().filter(|r| matches!(r, Request::WriteFile { .. })).count()
}

fn runs(log: &[Request]) -> usize {
    log.iter().filter(|r| matches!(r, Request::Run { .. })).count()
}

#[test]
fn generation_stores_each_case_and_the_record() {
    let mut world = new_world(reversed, quick);
    assert_eq!(run_generation(&mut world, 3, "main", 1000), Ok(()));
    assert_eq!(world.directories, vec!["testcases/main".to_string()]);
    assert_eq!(world.files.len(), 7);
    for i in 1..=3 {
        let input = format!("case {} of 3\n", i);
        assert_eq!(world.files[&format!("testcases/main/{}.in", i)], input);
        assert_eq!(world.files[&format!("testcases/main/{}.out", i)], reversed(input.as_str()));
    }
    assert_eq!(world.files["testcases/main/testcases.txt"], "3\n1000");
}

#[test]
fn generation_removes_both_executables_at_the_end() {
    let mut world = new_world(reversed, quick);
    assert_eq!(run_generation(&mut world, 2, "main", 1000), Ok(()));
    assert!(!world.files.contains_key("./test_generator"));
    assert!(!world.files.contains_key("./output_generator"));
    let n = world.log.len();
    assert_eq!(
        world.log[n - 2],
        Request::RemoveFile { path: "./test_generator".to_string() }
    );
    assert_eq!(
        world.log[n - 1],
        Request::RemoveFile { path: "./output_generator".to_string() }
    );
}

#[test]
fn generation_asks_for_everything_in_order() {
    let mut world = new_world(reversed, quick);
    assert_eq!(run_generation(&mut world, 2, "p", 50), Ok(()));
    let kinds: Vec<String> = world
        .log
        .iter()
        .map(|r| match r {
            Request::EnsureDirectory { path } => format!("dir {}", path),
            Request::Run { program, arguments, stdin_path, .. } => {
                format!("run {} {:?} {:?}", program, arguments, stdin_path)
            }
            Request::WriteFile { path, .. } => format!("write {}", path),
            Request::ReadFile { path } => format!("read {}", path),
            Request::RemoveFile { path } => format!("remove {}", path),
            Request::Print { line } => format!("print {}", line),
            other => format!("{:?}", other),
        })
        .collect();
    let expected = vec![
        "dir testcases/p",
        "run g++ [\"-std=c++17\", \"-o\", \"test_generator\", \"generate_tests.cpp\"] None",
        "run g++ [\"-std=c++17\", \"-o\", \"output_generator\", \"brute.cpp\"] None",
        "run ./test_generator [\"1\", \"2\"] None",
        "write testcases/p/1.in",
        "run ./output_generator [] Some(\"testcases/p/1.in\")",
        "write testcases/p/1.out",
        "run ./test_generator [\"2\", \"2\"] None",
        "write testcases/p/2.in",
        "run ./output_generator [] Some(\"testcases/p/2.in\")",
        "write testcases/p/2.out",
        "write testcases/p/testcases.txt",
        "remove ./test_generator",
        "remove ./output_generator",
    ];
    assert_eq!(kinds, expected);
    assert_eq!(world.log.len(), 4 * 2 + 6);
}

#[test]
fn generation_without_cases_writes_only_the_record() {
    for n in [0, -4] {
        let mut world = new_world(reversed, quick);
        assert_eq!(run_generation(&mut world, n, "empty", 10), Ok(()));
        assert_eq!(world.files.len(), 1);
        assert_eq!(world.files["testcases/empty/testcases.txt"], format!("{}\n10", n));
        assert_eq!(world.log.len(), 6);
    }
}

#[test]
fn generation_aborts_before_any_file_is_written_if_the_generator_does_not_compile() {
    let mut world = new_world(reversed, quick);
    world.broken_sources.push("generate_tests.cpp".to_string());
    assert_eq!(
        run_generation(&mut world, 3, "main", 1000),
        Err(RunError::Compile(Program::Generator))
    );
    assert_eq!(writes(world.log.as_slice()), 0);
    assert!(world.files.is_empty());
    assert_eq!(world.log.len(), 2);
}

#[test]
fn generation_aborts_before_any_file_is_written_if_the_reference_does_not_compile() {
    let mut world = new_world(reversed, quick);
    world.broken_sources.push("brute.cpp".to_string());
    assert_eq!(
        run_generation(&mut world, 3, "main", 1000),
        Err(RunError::Compile(Program::Reference))
    );
    assert_eq!(writes(world.log.as_slice()), 0);
    assert_eq!(world.log.len(), 3);
}

#[test]
fn generation_gives_up_at_the_first_failure_and_leaves_what_is_there() {
    let mut world = new_world(reversed, quick);
    world.reference_fails = true;
    assert_eq!(
        run_generation(&mut world, 3, "main", 1000),
        Err(RunError::Execution(Program::Reference))
    );
    assert!(world.files.contains_key("testcases/main/1.in"));
    assert!(!world.files.contains_key("testcases/main/1.out"));
    assert!(!world.files.contains_key("testcases/main/2.in"));
    assert!(!world.files.contains_key("testcases/main/testcases.txt"));
    assert!(world.files.contains_key("./test_generator"));
    assert!(world.files.contains_key("./output_generator"));
}

#[test]
fn generation_stays_aborted_whatever_it_is_told() {
    let run = generate_testcases(3, "main", 1000);
    let run = run.advance(Response::Failed);
    assert_eq!(run.stage(), GenerationStage::Aborted { error: RunError::FileIo });
    let run = run.advance(Response::Done);
    assert_eq!(run.stage(), GenerationStage::Aborted { error: RunError::FileIo });
    assert_eq!(run.directive(), Directive::Abort(RunError::FileIo));
}

#[test]
fn generation_turns_down_an_answer_that_does_not_fit() {
    let run = generate_testcases(3, "main", 1000);
    let run = run.advance(Response::Content { text: String::new() });
    assert_eq!(run.directive(), Directive::Abort(RunError::UnexpectedResponse));
    let run = generate_testcases(3, "main", 1000).advance(Response::Done);
    assert_eq!(run.stage(), GenerationStage::CompilingGenerator);
    let run = run.advance(Response::Done);
    assert_eq!(run.directive(), Directive::Abort(RunError::UnexpectedResponse));
}

#[test]
fn generation_stores_the_output_of_the_generator_untrimmed() {
    let run = generate_testcases(1, "main", 1000);
    let run = run.advance(Response::Done);
    let run = run.advance(exited(String::new(), 0));
    let run = run.advance(exited(String::new(), 0));
    assert_eq!(run.stage(), GenerationStage::Generating { index: 1 });
    let run = run.advance(exited("  5 \n\n".to_string(), 0));
    assert_eq!(
        run.directive(),
        Directive::Perform(Request::WriteFile {
            path: "testcases/main/1.in".to_string(),
            content: "  5 \n\n".to_string(),
        })
    );
    let run = run.advance(Response::Done);
    let run = run.advance(exited(" 25\n \n".to_string(), 0));
    assert_eq!(
        run.directive(),
        Directive::Perform(Request::WriteFile {
            path: "testcases/main/1.out".to_string(),
            content: " 25\n \n".to_string(),
        })
    );
}

#[test]
fn three_generated_cases_graded_with_a_right_candidate_all_pass() {
    let mut world = new_world(reversed, quick);
    assert_eq!(run_generation(&mut world, 3, "main", 1000), Ok(()));
    // The reference reverses "case i of 3\n", so what is stored starts with a
    // line feed and ends clean: trimming removes nothing.
    let summary = run_grading(&mut world, "main");
    assert_eq!(summary, Ok(GradeSummary { passed_count: 3, total_count: 3 }));
    assert_eq!(
        world.printed,
        vec![
            "Testcase 1 passed! (20ms)".to_string(),
            "Testcase 2 passed! (20ms)".to_string(),
            "Testcase 3 passed! (20ms)".to_string(),
            "3/3 testcases passed".to_string(),
        ]
    );
    assert!(!world.files.contains_key("./main"));
}

#[test]
fn a_right_but_slow_case_is_told_and_not_counted() {
    let mut world = new_world(reversed, second_run_slow);
    assert_eq!(run_generation(&mut world, 3, "main", 1000), Ok(()));
    let summary = run_grading(&mut world, "main");
    assert_eq!(summary, Ok(GradeSummary { passed_count: 2, total_count: 3 }));
    assert_eq!(
        world.printed,
        vec![
            "Testcase 1 passed! (20ms)".to_string(),
            "Testcase 2 passed but took too long! (1500ms)".to_string(),
            "Testcase 3 passed! (20ms)".to_string(),
            "2/3 testcases passed".to_string(),
        ]
    );
}

#[test]
fn a_candidate_that_adds_a_trailing_character_fails_every_case() {
    let mut world = new_world(reversed_with_line_feed, quick);
    assert_eq!(run_generation(&mut world, 3, "main", 1000), Ok(()));
    let summary = run_grading(&mut world, "main");
    assert_eq!(summary, Ok(GradeSummary { passed_count: 0, total_count: 3 }));
    assert_eq!(world.printed[0], "Testcase 1 failed! (20ms)");
    assert_eq!(world.printed[3], "0/3 testcases passed");
}

#[test]
fn one_wrong_case_is_left_out_of_the_count() {
    let mut world = new_world(reversed, quick);
    assert_eq!(run_generation(&mut world, 3, "main", 1000), Ok(()));
    let stored = world.files["testcases/main/2.out"].clone();
    world.files.insert("testcases/main/2.out".to_string(), format!("{}x\n", stored));
    let summary = run_grading(&mut world, "main");
    assert_eq!(summary, Ok(GradeSummary { passed_count: 2, total_count: 3 }));
    assert_eq!(world.printed[1], "Testcase 2 failed! (20ms)");
    assert_eq!(world.printed[3], "2/3 testcases passed");
}

#[test]
fn the_stored_side_is_trimmed_before_it_is_compared() {
    let mut world = new_world(echoed, quick);
    world.files.insert("testcases/t/testcases.txt".to_string(), "2\n100".to_string());
    world.files.insert("testcases/t/1.in".to_string(), "7".to_string());
    world.files.insert("testcases/t/1.out".to_string(), "7 \n\n".to_string());
    world.files.insert("testcases/t/2.in".to_string(), "8\n".to_string());
    world.files.insert("testcases/t/2.out".to_string(), "8\n".to_string());
    let summary = run_grading(&mut world, "t");
    assert_eq!(summary, Ok(GradeSummary { passed_count: 1, total_count: 2 }));
    assert_eq!(world.printed[0], "Testcase 1 passed! (20ms)");
    assert_eq!(world.printed[1], "Testcase 2 failed! (20ms)");
}

#[test]
fn grading_takes_the_time_limit_from_the_record() {
    let mut world = new_world(echoed, quick);
    world.files.insert("testcases/t/testcases.txt".to_string(), "1\n19".to_string());
    world.files.insert("testcases/t/1.in".to_string(), "7".to_string());
    world.files.insert("testcases/t/1.out".to_string(), "7".to_string());
    assert_eq!(
        run_grading(&mut world, "t"),
        Ok(GradeSummary { passed_count: 0, total_count: 1 })
    );
    world.files.insert("testcases/t/testcases.txt".to_string(), "1\n20".to_string());
    assert_eq!(
        run_grading(&mut world, "t"),
        Ok(GradeSummary { passed_count: 1, total_count: 1 })
    );
}

#[test]
fn grading_without_a_record_aborts_before_compiling() {
    let mut world = new_world(reversed, quick);
    assert_eq!(
        run_grading(&mut world, "main"),
        Err(RunError::Metadata(MetadataError::NotFound))
    );
    assert_eq!(runs(world.log.as_slice()), 0);
    assert_eq!(
        world.log,
        vec![Request::ReadFile { path: "testcases/main/testcases.txt".to_string() }]
    );
}

#[test]
fn grading_with_a_malformed_record_aborts_before_compiling() {
    let records = [
        ("three\n1000", MetadataError::BadCaseCount),
        ("", MetadataError::BadCaseCount),
        ("3", MetadataError::MissingTimeLimit),
        ("3\nsoon", MetadataError::BadTimeLimit),
    ];
    for (text, error) in records {
        let mut world = new_world(reversed, quick);
        world.files.insert("testcases/main/testcases.txt".to_string(), text.to_string());
        assert_eq!(run_grading(&mut world, "main"), Err(RunError::Metadata(error)));
        assert_eq!(runs(world.log.as_slice()), 0);
        assert!(world.printed.is_empty());
    }
}

#[test]
fn grading_aborts_if_the_candidate_does_not_compile() {
    let mut world = new_world(reversed, quick);
    assert_eq!(run_generation(&mut world, 3, "main", 1000), Ok(()));
    world.broken_sources.push("main.cpp".to_string());
    assert_eq!(run_grading(&mut world, "main"), Err(RunError::Compile(Program::Candidate)));
    assert!(world.printed.is_empty());
}

#[test]
fn grading_removes_the_executable_when_it_gives_up_after_compiling() {
    let mut world = new_world(reversed, quick);
    assert_eq!(run_generation(&mut world, 3, "main", 1000), Ok(()));
    world.files.remove("testcases/main/2.out");
    assert_eq!(run_grading(&mut world, "main"), Err(RunError::FileIo));
    assert!(!world.files.contains_key("./main"));
    assert_eq!(
        world.log.last(),
        Some(&Request::RemoveFile { path: "./main".to_string() })
    );
    assert_eq!(world.printed, vec!["Testcase 1 passed! (20ms)".to_string()]);
}

#[test]
fn grading_gives_up_if_the_candidate_cannot_be_run() {
    let run = flowerchecker::grader::test("main");
    let run = run.advance(Response::Content { text: "1\n1000".to_string() });
    let run = run.advance(exited(String::new(), 0));
    assert_eq!(run.stage(), GradingStage::ReadingExpected { index: 1 });
    let run = run.advance(Response::Content { text: "x\n".to_string() });
    assert_eq!(run.stage(), GradingStage::RunningCandidate { index: 1 });
    let run = run.advance(Response::Failed);
    assert_eq!(
        run.stage(),
        GradingStage::CleaningUp { error: RunError::Execution(Program::Candidate) }
    );
    assert_eq!(
        run.directive(),
        Directive::Perform(Request::RemoveFile { path: "./main".to_string() })
    );
    let run = run.advance(Response::Failed);
    assert_eq!(run.directive(), Directive::Abort(RunError::Execution(Program::Candidate)));
}

#[test]
fn grading_does_not_mind_how_the_candidate_exited() {
    let run = flowerchecker::grader::test("main");
    let run = run.advance(Response::Content { text: "1\n1000".to_string() });
    let run = run.advance(exited(String::new(), 0));
    let run = run.advance(Response::Content { text: "x\n".to_string() });
    let run = run.advance(Response::Exited {
        success: false,
        stdout: "x".to_string(),
        elapsed_ns: 3_000_000,
    });
    assert_eq!(
        run.directive(),
        Directive::Perform(Request::Print { line: "Testcase 1 passed! (3ms)".to_string() })
    );
    assert_eq!(run.summary(), GradeSummary { passed_count: 1, total_count: 1 });
}

#[test]
fn grading_a_package_without_cases_passes_none_of_none() {
    let mut world = new_world(reversed, quick);
    assert_eq!(run_generation(&mut world, 0, "none", 1000), Ok(()));
    assert_eq!(
        run_grading(&mut world, "none"),
        Ok(GradeSummary { passed_count: 0, total_count: 0 })
    );
    assert_eq!(world.printed, vec!["0/0 testcases passed".to_string()]);
}

#[test]
fn grading_asks_for_three_things_a_case_and_four_besides() {
    let mut world = new_world(reversed, quick);
    assert_eq!(run_generation(&mut world, 5, "main", 1000), Ok(()));
    world.log.clear();
    assert_eq!(
        run_grading(&mut world, "main"),
        Ok(GradeSummary { passed_count: 5, total_count: 5 })
    );
    assert_eq!(world.log.len(), 3 * 5 + 4);
    assert_eq!(
        world.log[2],
        Request::ReadFile { path: "testcases/main/1.out".to_string() }
    );
    assert_eq!(
        world.log[3],
        Request::Run {
            program: "./main".to_string(),
            arguments: Vec::new(),
            stdin_path: Some("testcases/main/1.in".to_string()),
            capture: true,
        }
    );
}

#[test]
fn regeneration_gives_the_same_package() {
    let mut world = new_world(reversed, quick);
    assert_eq!(run_generation(&mut world, 3, "main", 1000), Ok(()));
    let first = world.files.clone();
    assert_eq!(run_generation(&mut world, 3, "main", 1000), Ok(()));
    assert_eq!(world.files, first);
}

#[test]
fn every_error_has_a_message() {
    assert_eq!(
        error_message(RunError::Compile(Program::Generator)),
        "Failed to compile the input test generation algorithm!"
    );
    assert_eq!(
        error_message(RunError::Compile(Program::Reference)),
        "Failed to compile the output test generation algorithm!"
    );
    assert_eq!(
        error_message(RunError::Compile(Program::Candidate)),
        "Main program failed to compile!"
    );
    assert_eq!(
        error_message(RunError::Execution(Program::Generator)),
        "Failed to generate input tests!"
    );
    assert_eq!(
        error_message(RunError::Execution(Program::Reference)),
        "Failed to generate output tests!"
    );
    assert_eq!(
        error_message(RunError::Execution(Program::Candidate)),
        "Failed to run the main program!"
    );
    assert_eq!(
        error_message(RunError::Metadata(MetadataError::NotFound)),
        "Testcase metadata not found!"
    );
    assert_eq!(
        error_message(RunError::Metadata(MetadataError::BadCaseCount)),
        "Testcase metadata is malformed: the first line is not a testcase number!"
    );
    assert_eq!(
        error_message(RunError::Metadata(MetadataError::MissingTimeLimit)),
        "Testcase metadata is malformed: the time limit is missing!"
    );
    assert_eq!(
        error_message(RunError::Metadata(MetadataError::BadTimeLimit)),
        "Testcase metadata is malformed: the second line is not a time limit!"
    );
    assert_eq!(
        error_message(RunError::Setup(SetupStep::Home)),
        "Could not find the home directory!"
    );
    assert_eq!(
        error_message(RunError::Setup(SetupStep::Config)),
        "Could not read the default repository from the configuration!"
    );
    assert_eq!(error_message(RunError::Setup(SetupStep::Clone)), "Failed to clone repository!");
    assert_eq!(error_message(RunError::Setup(SetupStep::RemoveHistory)), "Error removing .git!");
    assert_eq!(
        error_message(RunError::Setup(SetupStep::Initialize)),
        "Failed to re-initialize repository!"
    );
    assert_eq!(
        error_message(RunError::FileIo),
        "Failed to read, write or remove a file!"
    );
    assert_eq!(
        error_message(RunError::UnexpectedResponse),
        "A request was answered in a way that does not fit it!"
    );
}
