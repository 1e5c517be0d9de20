//! The command table: which operation a command line asks for.
//!
//! Every command takes a fixed number of arguments. Fewer is the error that
//! names what is missing, more is `TooManyArguments`, and an identifier that
//! is not a 64-bit decimal number is `MalformedId`.

use crate::config::Config;
use crate::text::parse_i64;
use crate::text::parse_i64_spec;
use vstd::prelude::*;
use vstd::string::StringExecFns;

verus! {

/// The operation that a command line asks for.
#[derive(Debug, Clone, PartialEq, Eq)]
pub enum Command {
    /// `account`: show the account of the signed-in user.
    Account,
    /// `courses`: list the courses.
    Courses,
    /// `assignments <course_id>`: list the assignments of a course.
    Assignments { course_id: i64 },
    /// `login`: ask for the school's address and the token, and store them.
    Login,
    /// `add <file_path>`: register the upload of a local file.
    Add { file_path: String },
    /// `commit`: commit the registered upload.
    Commit,
    /// `submit <course_id> <assignment_id>`: attach the committed file to
    /// an assignment.
    Submit { course_id: i64, assignment_id: i64 },
    /// `help`: show the usage text.
    Help,
    /// The command word names no command.
    NotFound,
    /// There is no command word.
    Missing,
}

/// What a [`Command`] holds, as character sequences.
pub enum CommandView {
    Account,
    Courses,
    Assignments { course_id: i64 },
    Login,
    Add { file_path: Seq<char> },
    Commit,
    Submit { course_id: i64, assignment_id: i64 },
    Help,
    NotFound,
    Missing,
}

impl View for Command {
    type V = CommandView;

    open spec fn view(&self) -> CommandView {
        match *self {
            Command::Account => CommandView::Account,
            Command::Courses => CommandView::Courses,
            Command::Assignments { course_id } => CommandView::Assignments { course_id },
            Command::Login => CommandView::Login,
            Command::Add { file_path } => CommandView::Add { file_path: file_path@ },
            Command::Commit => CommandView::Commit,
            Command::Submit { course_id, assignment_id } => CommandView::Submit {
                course_id,
                assignment_id,
            },
            Command::Help => CommandView::Help,
            Command::NotFound => CommandView::NotFound,
            Command::Missing => CommandView::Missing,
        }
    }
}

/// What is wrong with the arguments of a command.
#[derive(Debug, Clone, Copy, PartialEq, Eq, Structural)]
pub enum LocalInputError {
    /// More arguments than the command takes.
    TooManyArguments,
    /// `assignments` without a course.
    MissingCourseId,
    /// `add` without a file.
    MissingFilePath,
    /// `submit` without both a course and an assignment.
    MissingSubmissionIds,
    /// An identifier that is not a 64-bit decimal number.
    MalformedId,
}

/// The line for [`LocalInputError::TooManyArguments`].
pub const TOO_MANY_ARGUMENTS: &'static str = "Too many arguments";

/// The line for [`LocalInputError::MissingCourseId`].
pub const MUST_PROVIDE_COURSE: &'static str = "Must provide a course id";

/// The line for [`LocalInputError::MissingFilePath`].
pub const MUST_PROVIDE_FILE: &'static str = "Must provide a file path";

/// The line for [`LocalInputError::MissingSubmissionIds`].
pub const MUST_PROVIDE_SUBMISSION: &'static str = "Must provide a course and assignment id";

/// The line for [`LocalInputError::MalformedId`].
pub const MUST_BE_NUMBER: &'static str = "Identifiers must be whole numbers";

impl LocalInputError {
    /// The line shown to the user for this error.
    pub fn message(&self) -> (text: &'static str)
        ensures
            text@ == match *self {
                LocalInputError::TooManyArguments => TOO_MANY_ARGUMENTS@,
                LocalInputError::MissingCourseId => MUST_PROVIDE_COURSE@,
                LocalInputError::MissingFilePath => MUST_PROVIDE_FILE@,
                LocalInputError::MissingSubmissionIds => MUST_PROVIDE_SUBMISSION@,
                LocalInputError::MalformedId => MUST_BE_NUMBER@,
            },
    {
        match self {
            LocalInputError::TooManyArguments => TOO_MANY_ARGUMENTS,
            LocalInputError::MissingCourseId => MUST_PROVIDE_COURSE,
            LocalInputError::MissingFilePath => MUST_PROVIDE_FILE,
            LocalInputError::MissingSubmissionIds => MUST_PROVIDE_SUBMISSION,
            LocalInputError::MalformedId => MUST_BE_NUMBER,
        }
    }
}

/// A command that takes no argument.
pub open spec fn without_arguments(
    args: Seq<Seq<char>>,
    command: CommandView,
) -> Result<CommandView, LocalInputError> {
    if args.len() == 0 {
        Ok(command)
    } else {
        Err(LocalInputError::TooManyArguments)
    }
}

/// `assignments`, with exactly one argument that is a course identifier.
pub open spec fn assignments_command(args: Seq<Seq<char>>) -> Result<CommandView, LocalInputError> {
    if args.len() < 1 {
        Err(LocalInputError::MissingCourseId)
    } else if args.len() > 1 {
        Err(LocalInputError::TooManyArguments)
    } else {
        match parse_i64_spec(args[0]) {
            Some(course_id) => Ok(CommandView::Assignments { course_id }),
            None => Err(LocalInputError::MalformedId),
        }
    }
}

/// `add`, with exactly one argument that is the path of a file.
pub open spec fn add_command(args: Seq<Seq<char>>) -> Result<CommandView, LocalInputError> {
    if args.len() < 1 {
        Err(LocalInputError::MissingFilePath)
    } else if args.len() > 1 {
        Err(LocalInputError::TooManyArguments)
    } else {
        Ok(CommandView::Add { file_path: args[0] })
    }
}

/// `submit`, with exactly two arguments: a course identifier and an
/// assignment identifier.
pub open spec fn submit_command(args: Seq<Seq<char>>) -> Result<CommandView, LocalInputError> {
    if args.len() < 2 {
        Err(LocalInputError::MissingSubmissionIds)
    } else if args.len() > 2 {
        Err(LocalInputError::TooManyArguments)
    } else {
        match (parse_i64_spec(args[0]), parse_i64_spec(args[1])) {
            (Some(course_id), Some(assignment_id)) => Ok(
                CommandView::Submit { course_id, assignment_id },
            ),
            _ => Err(LocalInputError::MalformedId),
        }
    }
}

/// The command table.
pub open spec fn dispatch_spec(
    command: Option<Seq<char>>,
    args: Seq<Seq<char>>,
) -> Result<CommandView, LocalInputError> {
    match command {
        None => Ok(CommandView::Missing),
        Some(word) => {
            if word == "account"@ {
                without_arguments(args, CommandView::Account)
            } else if word == "courses"@ {
                without_arguments(args, CommandView::Courses)
            } else if word == "assignments"@ {
                assignments_command(args)
            } else if word == "login"@ {
                without_arguments(args, CommandView::Login)
            } else if word == "add"@ {
                add_command(args)
            } else if word == "commit"@ {
                without_arguments(args, CommandView::Commit)
            } else if word == "submit"@ {
                submit_command(args)
            } else if word == "help"@ {
                without_arguments(args, CommandView::Help)
            } else {
                Ok(CommandView::NotFound)
            }
        },
    }
}

/// The view of a dispatch result.
pub open spec fn dispatch_view(r: Result<Command, LocalInputError>) -> Result<
    CommandView,
    LocalInputError,
> {
    match r {
        Ok(command) => Ok(command@),
        Err(e) => Err(e),
    }
}

/// Tells whether `word` is the command word `literal`.
fn is_word(word: &String, literal: &str) -> (same: bool)
    ensures
        same == (word@ == literal@),
{
    *word == String::from_str(literal)
}

/// Accepts `command` when no argument follows it.
fn no_arguments(arguments: &Vec<String>, command: Command) -> (r: Result<Command, LocalInputError>)
    ensures
        dispatch_view(r) == without_arguments(arguments@.map_values(|a: String| a@), command@),
{
    if arguments.len() == 0 {
        Ok(command)
    } else {
        Err(LocalInputError::TooManyArguments)
    }
}

/// Maps a command line to the operation it asks for.
pub fn dispatch(config: &Config) -> (r: Result<Command, LocalInputError>)
    ensures
        dispatch_view(r) == dispatch_spec(config@.command, config@.arguments),
{
    let arguments = &config.arguments;
    let ghost args = config@.arguments;
    let count = arguments.len();
    match &config.command {
        None => Ok(Command::Missing),
        Some(word) => {
            if is_word(word, "account") {
                no_arguments(arguments, Command::Account)
            } else if is_word(word, "courses") {
                no_arguments(arguments, Command::Courses)
            } else if is_word(word, "assignments") {
                if count < 1 {
                    Err(LocalInputError::MissingCourseId)
                } else if count > 1 {
                    Err(LocalInputError::TooManyArguments)
                } else {
                    assert(args[0] == arguments@[0]@);
                    match parse_i64(arguments[0].as_str()) {
                        Some(course_id) => Ok(Command::Assignments { course_id }),
                        None => Err(LocalInputError::MalformedId),
                    }
                }
            } else if is_word(word, "login") {
                no_arguments(arguments, Command::Login)
            } else if is_word(word, "add") {
                if count < 1 {
                    Err(LocalInputError::MissingFilePath)
                } else if count > 1 {
                    Err(LocalInputError::TooManyArguments)
                } else {
                    assert(args[0] == arguments@[0]@);
                    Ok(Command::Add { file_path: arguments[0].clone() })
                }
            } else if is_word(word, "commit") {
                no_arguments(arguments, Command::Commit)
            } else if is_word(word, "submit") {
                if count < 2 {
                    Err(LocalInputError::MissingSubmissionIds)
                } else if count > 2 {
                    Err(LocalInputError::TooManyArguments)
                } else {
                    assert(args[0] == arguments@[0]@);
                    assert(args[1] == arguments@[1]@);
                    let course = parse_i64(arguments[0].as_str());
                    let assignment = parse_i64(arguments[1].as_str());
                    match (course, assignment) {
                        (Some(course_id), Some(assignment_id)) => Ok(
                            Command::Submit { course_id, assignment_id },
                        ),
                        _ => Err(LocalInputError::MalformedId),
                    }
                }
            } else if is_word(word, "help") {
                no_arguments(arguments, Command::Help)
            } else {
                Ok(Command::NotFound)
            }
        },
    }
}

} // verus!
