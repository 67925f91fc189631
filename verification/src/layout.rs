//! Where a package keeps its files, what the three programs are called, and
//! how they are compiled and launched.

use crate::decimal::render_signed;
use crate::decimal::signed_numeral_of;
use crate::protocol::texts_of;
use crate::protocol::Program;
use crate::protocol::Request;
use crate::protocol::RequestView;
use vstd::prelude::*;
use vstd::string::StringExecFns;

verus! {

/// The directory of a package: `testcases/<package>`.
pub open spec fn package_directory_text(package: Seq<char>) -> Seq<char> {
    "testcases/"@ + package
}

/// The file that holds the input of a case: `testcases/<package>/<index>.in`.
pub open spec fn case_input_path_text(package: Seq<char>, index: int) -> Seq<char> {
    package_directory_text(package) + "/"@ + signed_numeral_of(index) + ".in"@
}

/// The file that holds the expected output of a case:
/// `testcases/<package>/<index>.out`.
pub open spec fn case_output_path_text(package: Seq<char>, index: int) -> Seq<char> {
    package_directory_text(package) + "/"@ + signed_numeral_of(index) + ".out"@
}

/// The file that holds a package's record: `testcases/<package>/testcases.txt`.
pub open spec fn metadata_path_text(package: Seq<char>) -> Seq<char> {
    package_directory_text(package) + "/testcases.txt"@
}

/// The source file of a program, looked for in the working directory.
pub open spec fn source_name(program: Program) -> Seq<char> {
    match program {
        Program::Generator => "generate_tests.cpp"@,
        Program::Reference => "brute.cpp"@,
        Program::Candidate => "main.cpp"@,
    }
}

/// The name under which a program's executable is built.
pub open spec fn executable_name(program: Program) -> Seq<char> {
    match program {
        Program::Generator => "test_generator"@,
        Program::Reference => "output_generator"@,
        Program::Candidate => "main"@,
    }
}

/// The path by which a built program is launched and removed.
pub open spec fn launch_path(program: Program) -> Seq<char> {
    "./"@ + executable_name(program)
}

/// The compiler's command line for a program:
/// `g++ -std=c++17 -o <executable> <source>`. The compiler writes to the
/// caller's own output.
pub open spec fn compile_request(program: Program) -> RequestView {
    RequestView::Run {
        program: "g++"@,
        arguments: seq!["-std=c++17"@, "-o"@, executable_name(program), source_name(program)],
        stdin_path: None,
        capture: false,
    }
}

/// The launch of the generator for one case: it is told the case's index and
/// the number of cases, reads nothing, and its output is collected.
pub open spec fn generator_request(index: int, count: int) -> RequestView {
    RequestView::Run {
        program: launch_path(Program::Generator),
        arguments: seq![signed_numeral_of(index), signed_numeral_of(count)],
        stdin_path: None,
        capture: true,
    }
}

/// The launch of the reference program or the candidate on one case: no
/// arguments, the case's stored input as standard input, the output collected.
pub open spec fn solver_request(program: Program, package: Seq<char>, index: int) -> RequestView {
    RequestView::Run {
        program: launch_path(program),
        arguments: Seq::<Seq<char>>::empty(),
        stdin_path: Some(case_input_path_text(package, index)),
        capture: true,
    }
}

/// Builds the path of a package's directory.
pub fn package_directory(package: &str) -> (r: String)
    ensures
        r@ == package_directory_text(package@),
{
    let mut path = String::from_str("testcases/");
    path.append(package);
    path
}

/// Builds the path of a case's input file.
pub fn case_input_path(package: &str, index: i32) -> (r: String)
    ensures
        r@ == case_input_path_text(package@, index as int),
{
    let mut path = package_directory(package);
    path.append("/");
    let number = render_signed(index);
    path.append(number.as_str());
    path.append(".in");
    path
}

/// Builds the path of a case's expected-output file.
pub fn case_output_path(package: &str, index: i32) -> (r: String)
    ensures
        r@ == case_output_path_text(package@, index as int),
{
    let mut path = package_directory(package);
    path.append("/");
    let number = render_signed(index);
    path.append(number.as_str());
    path.append(".out");
    path
}

/// Builds the path of a package's record.
pub fn metadata_path(package: &str) -> (r: String)
    ensures
        r@ == metadata_path_text(package@),
{
    let mut path = package_directory(package);
    path.append("/testcases.txt");
    path
}

/// Gives the source file name of a program.
pub fn program_source(program: Program) -> (r: &'static str)
    ensures
        r@ == source_name(program),
{
    match program {
        Program::Generator => "generate_tests.cpp",
        Program::Reference => "brute.cpp",
        Program::Candidate => "main.cpp",
    }
}

/// Gives the name of a program's executable.
pub fn program_executable(program: Program) -> (r: &'static str)
    ensures
        r@ == executable_name(program),
{
    match program {
        Program::Generator => "test_generator",
        Program::Reference => "output_generator",
        Program::Candidate => "main",
    }
}

/// Builds the path by which a built program is launched and removed.
pub fn program_launch_path(program: Program) -> (r: String)
    ensures
        r@ == launch_path(program),
{
    let mut path = String::from_str("./");
    path.append(program_executable(program));
    path
}

/// Builds the request that compiles a program.
pub fn build_compile_request(program: Program) -> (r: Request)
    ensures
        r@ == compile_request(program),
{
    let mut arguments: Vec<String> = Vec::new();
    arguments.push(String::from_str("-std=c++17"));
    arguments.push(String::from_str("-o"));
    arguments.push(String::from_str(program_executable(program)));
    arguments.push(String::from_str(program_source(program)));
    assert(texts_of(arguments@) =~= seq![
        "-std=c++17"@,
        "-o"@,
        executable_name(program),
        source_name(program),
    ]);
    Request::Run { program: String::from_str("g++"), arguments, stdin_path: None, capture: false }
}

/// Builds the request that launches the generator for one case.
pub fn build_generator_request(index: i32, count: i32) -> (r: Request)
    ensures
        r@ == generator_request(index as int, count as int),
{
    let mut arguments: Vec<String> = Vec::new();
    arguments.push(render_signed(index));
    arguments.push(render_signed(count));
    assert(texts_of(arguments@) =~= seq![
        signed_numeral_of(index as int),
        signed_numeral_of(count as int),
    ]);
    Request::Run {
        program: program_launch_path(Program::Generator),
        arguments,
        stdin_path: None,
        capture: true,
    }
}

/// Builds the request that launches the reference program or the candidate on
/// one case.
pub fn build_solver_request(program: Program, package: &str, index: i32) -> (r: Request)
    ensures
        r@ == solver_request(program, package@, index as int),
{
    let arguments: Vec<String> = Vec::new();
    assert(texts_of(arguments@) =~= Seq::<Seq<char>>::empty());
    Request::Run {
        program: program_launch_path(program),
        arguments,
        stdin_path: Some(case_input_path(package, index)),
        capture: true,
    }
}

} // verus!
