//! Static usage text.

use vstd::prelude::*;
use vstd::string::StringExecFns;

verus! {

/// The usage text shown by the `help` command.
pub const HELP_TEXT: &'static str = "

Welcome to Canva CLI! This is an application that allows you to interact with your Canvas account from the command line.

Usage: canvas[EXE] [COMMAND] [OPTIONS]

These are the command Canva commands in various situations:
Managing your account
    account                         Get account information
    courses                         Get courses
    assignments <course_id>         Get assignments for a course
    login                           Login to your account
Interacting with files
    add <course_id>                 Add files to a course
    commit <message>                Commit files to a course
    submit                          Submit files to a course
    ";

/// Returns the usage text as an owned string.
pub fn help_message() -> (message: String)
    ensures
        message@ == HELP_TEXT@,
{
    String::from_str(HELP_TEXT)
}

} // verus!
