//! The command line: which command the arguments name, and what to say when
//! they name none.

use crate::decimal::parse_i32;
use crate::decimal::parse_u64;
use crate::decimal::signed_reading;
use crate::decimal::unsigned_reading;
use crate::protocol::texts_of;
use crate::text::same_text;
use vstd::prelude::*;
use vstd::string::StringExecFns;

verus! {

/// A command, or the lack of one, that a usage message is about.
#[derive(Clone, Copy, Debug, PartialEq, Eq, Structural)]
pub enum Topic {
    /// No command was given.
    General,
    /// `new` without a project name.
    NewProject,
    /// `generate` without its three operands, or with a number that cannot be
    /// read.
    Generate,
    /// `test` without a package name.
    Test,
}

/// What the command line asks for.
#[derive(Clone, Debug, PartialEq, Eq)]
pub enum Command {
    /// Set up the directories and the configuration file.
    Install,
    /// Make a new project of this name.
    NewProject { name: String },
    /// Generate the cases of a package.
    Generate { package: String, case_count: i32, time_limit_ms: u64 },
    /// Grade the candidate against a package.
    Test { package: String },
    /// Nothing can be done: show the usage message and exit with status one.
    Usage(Topic),
    /// The command is not known: say so and exit normally.
    Unknown,
}

/// A command as a mathematical value.
pub enum CommandView {
    Install,
    NewProject { name: Seq<char> },
    Generate { package: Seq<char>, case_count: i32, time_limit_ms: u64 },
    Test { package: Seq<char> },
    Usage(Topic),
    Unknown,
}

impl View for Command {
    type V = CommandView;

    open spec fn view(&self) -> CommandView {
        match self {
            Command::Install => CommandView::Install,
            Command::NewProject { name } => CommandView::NewProject { name: name@ },
            Command::Generate { package, case_count, time_limit_ms } => CommandView::Generate {
                package: package@,
                case_count: *case_count,
                time_limit_ms: *time_limit_ms,
            },
            Command::Test { package } => CommandView::Test { package: package@ },
            Command::Usage(topic) => CommandView::Usage(*topic),
            Command::Unknown => CommandView::Unknown,
        }
    }
}

/// What `generate` asks for, given the whole command line: the package, then
/// the number of cases as a 32-bit integer, then the time limit in
/// milliseconds as an unsigned 64-bit integer. Operands after these are not
/// looked at.
pub open spec fn generate_command(args: Seq<Seq<char>>) -> CommandView {
    if args.len() < 5 {
        CommandView::Usage(Topic::Generate)
    } else {
        match (
            signed_reading(args[3], i32::MIN as int, i32::MAX as int),
            unsigned_reading(args[4], u64::MAX as nat),
        ) {
            (Some(count), Some(limit)) => CommandView::Generate {
                package: args[2],
                case_count: count as i32,
                time_limit_ms: limit as u64,
            },
            _ => CommandView::Usage(Topic::Generate),
        }
    }
}

/// What a command line asks for. Its first entry is the program's own name,
/// the second names the command, the operands follow.
pub open spec fn command_of(args: Seq<Seq<char>>) -> CommandView {
    if args.len() <= 1 {
        CommandView::Usage(Topic::General)
    } else if args[1] == "install"@ {
        CommandView::Install
    } else if args[1] == "new"@ {
        if args.len() == 2 {
            CommandView::Usage(Topic::NewProject)
        } else {
            CommandView::NewProject { name: args[2] }
        }
    } else if args[1] == "generate"@ {
        generate_command(args)
    } else if args[1] == "test"@ {
        if args.len() == 2 {
            CommandView::Usage(Topic::Test)
        } else {
            CommandView::Test { package: args[2] }
        }
    } else {
        CommandView::Unknown
    }
}

/// The usage message for a topic.
pub open spec fn usage_text(topic: Topic) -> Seq<char> {
    match topic {
        Topic::General => "Usage: flowerchecker <command>\nCommands: install, project"@,
        Topic::NewProject => "Usage: flowerchecker new <project_name>"@,
        Topic::Generate =>
            "Usage: flowerchecker generate <package_name> <testcase_number> <max_time>"@,
        Topic::Test => "Usage: flowerchecker test <package_name>"@,
    }
}

/// Reads the operands of `generate`.
fn parse_generate(args: &Vec<String>) -> (r: Command)
    ensures
        r@ == generate_command(texts_of(args@)),
{
    if args.len() < 5 {
        return Command::Usage(Topic::Generate);
    }
    let count = parse_i32(args[3].as_str());
    let limit = parse_u64(args[4].as_str());
    match (count, limit) {
        (Some(case_count), Some(time_limit_ms)) => Command::Generate {
            package: args[2].clone(),
            case_count,
            time_limit_ms,
        },
        _ => Command::Usage(Topic::Generate),
    }
}

/// Reads the command line.
pub fn parse_command(args: &Vec<String>) -> (r: Command)
    ensures
        r@ == command_of(texts_of(args@)),
{
    if args.len() <= 1 {
        return Command::Usage(Topic::General);
    }
    let name = args[1].as_str();
    if same_text(name, "install") {
        Command::Install
    } else if same_text(name, "new") {
        if args.len() == 2 {
            Command::Usage(Topic::NewProject)
        } else {
            Command::NewProject { name: args[2].clone() }
        }
    } else if same_text(name, "generate") {
        parse_generate(args)
    } else if same_text(name, "test") {
        if args.len() == 2 {
            Command::Usage(Topic::Test)
        } else {
            Command::Test { package: args[2].clone() }
        }
    } else {
        Command::Unknown
    }
}

/// Writes the usage message for a topic.
pub fn usage(topic: Topic) -> (r: String)
    ensures
        r@ == usage_text(topic),
{
    match topic {
        Topic::General => String::from_str(
            "Usage: flowerchecker <command>\nCommands: install, project",
        ),
        Topic::NewProject => String::from_str("Usage: flowerchecker new <project_name>"),
        Topic::Generate => String::from_str(
            "Usage: flowerchecker generate <package_name> <testcase_number> <max_time>",
        ),
        Topic::Test => String::from_str("Usage: flowerchecker test <package_name>"),
    }
}

} // verus!
