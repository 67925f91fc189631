use flowerchecker::command::parse_command;
use flowerchecker::command::usage;
use flowerchecker::command::Command;
use flowerchecker::command::Topic;

fn line(items: &[&str]) -> Vec<String> {
    items.iter().map(|s| s.to_string()).collect()
}

#[test]
fn no_command_asks_for_the_general_usage() {
    assert_eq!(parse_command(&line(&["flowerchecker"])), Command::Usage(Topic::General));
    assert_eq!(parse_command(&line(&[])), Command::Usage(Topic::General));
}

#[test]
fn install_takes_no_operand() {
    assert_eq!(parse_command(&line(&["flowerchecker", "install"])), Command::Install);
    assert_eq!(parse_command(&line(&["flowerchecker", "install", "x"])), Command::Install);
}

#[test]
fn new_takes_a_project_name() {
    assert_eq!(
        parse_command(&line(&["flowerchecker", "new", "sums"])),
        Command::NewProject { name: "sums".to_string() }
    );
    assert_eq!(
        parse_command(&line(&["flowerchecker", "new"])),
        Command::Usage(Topic::NewProject)
    );
}

#[test]
fn generate_takes_package_count_and_limit() {
    assert_eq!(
        parse_command(&line(&["flowerchecker", "generate", "main", "30", "4000"])),
        Command::Generate { package: "main".to_string(), case_count: 30, time_limit_ms: 4000 }
    );
    assert_eq!(
        parse_command(&line(&["flowerchecker", "generate", "main", "3", "1000", "more"])),
        Command::Generate { package: "main".to_string(), case_count: 3, time_limit_ms: 1000 }
    );
}

#[test]
fn generate_with_too_few_operands_asks_for_its_usage() {
    assert_eq!(
        parse_command(&line(&["flowerchecker", "generate"])),
        Command::Usage(Topic::Generate)
    );
    assert_eq!(
        parse_command(&line(&["flowerchecker", "generate", "main"])),
        Command::Usage(Topic::Generate)
    );
    assert_eq!(
        parse_command(&line(&["flowerchecker", "generate", "main", "30"])),
        Command::Usage(Topic::Generate)
    );
}

#[test]
fn generate_with_an_unreadable_number_asks_for_its_usage() {
    assert_eq!(
        parse_command(&line(&["flowerchecker", "generate", "main", "many", "4000"])),
        Command::Usage(Topic::Generate)
    );
    assert_eq!(
        parse_command(&line(&["flowerchecker", "generate", "main", "30", "-1"])),
        Command::Usage(Topic::Generate)
    );
    assert_eq!(
        parse_command(&line(&["flowerchecker", "generate", "main", "30", "4s"])),
        Command::Usage(Topic::Generate)
    );
}

#[test]
fn test_takes_a_package_name() {
    assert_eq!(
        parse_command(&line(&["flowerchecker", "test", "main"])),
        Command::Test { package: "main".to_string() }
    );
    assert_eq!(parse_command(&line(&["flowerchecker", "test"])), Command::Usage(Topic::Test));
}

#[test]
fn anything_else_is_unknown() {
    assert_eq!(parse_command(&line(&["flowerchecker", "grade"])), Command::Unknown);
    assert_eq!(parse_command(&line(&["flowerchecker", ""])), Command::Unknown);
    assert_eq!(parse_command(&line(&["flowerchecker", "Install"])), Command::Unknown);
    assert_eq!(parse_command(&line(&["flowerchecker", "tests", "main"])), Command::Unknown);
}

#[test]
fn each_topic_has_its_usage_message() {
    assert_eq!(
        usage(Topic::General),
        "Usage: flowerchecker <command>\nCommands: install, project"
    );
    assert_eq!(usage(Topic::NewProject), "Usage: flowerchecker new <project_name>");
    assert_eq!(
        usage(Topic::Generate),
        "Usage: flowerchecker generate <package_name> <testcase_number> <max_time>"
    );
    assert_eq!(usage(Topic::Test), "Usage: flowerchecker test <package_name>");
}
