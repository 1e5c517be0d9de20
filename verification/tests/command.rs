use canvas_cli::command::dispatch;
use canvas_cli::command::Command;
use canvas_cli::command::LocalInputError;
use canvas_cli::Config;
use canvas_cli::help::help_message;

fn line(words: &[&str]) -> Vec<String> {
    words.iter().map(|w| w.to_string()).collect()
}

fn config(command: &str, arguments: &[&str]) -> Config {
    Config { command: Some(command.to_string()), arguments: line(arguments) }
}

#[test]
fn build_needs_a_command_word() {
    assert_eq!(Config::build(&line(&[])), Err("not enough arguments"));
    assert_eq!(Config::build(&line(&["canvas"])), Err("not enough arguments"));
}

#[test]
fn build_takes_the_command_word() {
    let built = Config::build(&line(&["canvas", "courses"])).unwrap();
    assert_eq!(built.command, Some("courses".to_string()));
    assert!(built.arguments.is_empty());
}

#[test]
fn build_takes_the_arguments_in_order() {
    let built = Config::build(&line(&["canvas", "submit", "10", "20"])).unwrap();
    assert_eq!(built.command, Some("submit".to_string()));
    assert_eq!(built.arguments, line(&["10", "20"]));
}

#[test]
fn dispatch_commands_without_arguments() {
    assert_eq!(dispatch(&config("account", &[])), Ok(Command::Account));
    assert_eq!(dispatch(&config("courses", &[])), Ok(Command::Courses));
    assert_eq!(dispatch(&config("login", &[])), Ok(Command::Login));
    assert_eq!(dispatch(&config("commit", &[])), Ok(Command::Commit));
    assert_eq!(dispatch(&config("help", &[])), Ok(Command::Help));
}

#[test]
fn dispatch_refuses_arguments_where_none_is_taken() {
    for word in ["account", "courses", "login", "commit", "help"].iter() {
        assert_eq!(dispatch(&config(word, &["x"])), Err(LocalInputError::TooManyArguments));
    }
}

#[test]
fn dispatch_assignments() {
    assert_eq!(dispatch(&config("assignments", &["17"])), Ok(Command::Assignments { course_id: 17 }));
    assert_eq!(dispatch(&config("assignments", &["-3"])), Ok(Command::Assignments { course_id: -3 }));
    assert_eq!(dispatch(&config("assignments", &[])), Err(LocalInputError::MissingCourseId));
    assert_eq!(dispatch(&config("assignments", &["1", "2"])), Err(LocalInputError::TooManyArguments));
    assert_eq!(dispatch(&config("assignments", &["seventeen"])), Err(LocalInputError::MalformedId));
    assert_eq!(dispatch(&config("assignments", &[""])), Err(LocalInputError::MalformedId));
}

#[test]
fn dispatch_add() {
    assert_eq!(
        dispatch(&config("add", &["notes/essay.pdf"])),
        Ok(Command::Add { file_path: "notes/essay.pdf".to_string() })
    );
    assert_eq!(dispatch(&config("add", &[])), Err(LocalInputError::MissingFilePath));
    assert_eq!(dispatch(&config("add", &["a", "b"])), Err(LocalInputError::TooManyArguments));
}

#[test]
fn dispatch_submit() {
    assert_eq!(
        dispatch(&config("submit", &["10", "20"])),
        Ok(Command::Submit { course_id: 10, assignment_id: 20 })
    );
    assert_eq!(dispatch(&config("submit", &[])), Err(LocalInputError::MissingSubmissionIds));
    assert_eq!(dispatch(&config("submit", &["10"])), Err(LocalInputError::MissingSubmissionIds));
    assert_eq!(dispatch(&config("submit", &["10", "20", "30"])), Err(LocalInputError::TooManyArguments));
    assert_eq!(dispatch(&config("submit", &["ten", "20"])), Err(LocalInputError::MalformedId));
    assert_eq!(dispatch(&config("submit", &["10", "twenty"])), Err(LocalInputError::MalformedId));
    assert_eq!(
        dispatch(&config("submit", &["10", "9223372036854775808"])),
        Err(LocalInputError::MalformedId)
    );
}

#[test]
fn dispatch_unknown_and_missing_words() {
    assert_eq!(dispatch(&config("upload", &[])), Ok(Command::NotFound));
    assert_eq!(dispatch(&config("Account", &[])), Ok(Command::NotFound));
    assert_eq!(dispatch(&config("", &["x", "y"])), Ok(Command::NotFound));
    assert_eq!(dispatch(&Config { command: None, arguments: Vec::new() }), Ok(Command::Missing));
    assert_eq!(dispatch(&Config { command: None, arguments: line(&["x"]) }), Ok(Command::Missing));
}

#[test]
fn dispatch_after_build() {
    let built = Config::build(&line(&["canvas", "assignments", "99"])).unwrap();
    assert_eq!(dispatch(&built), Ok(Command::Assignments { course_id: 99 }));
}

#[test]
fn input_error_messages() {
    assert_eq!(LocalInputError::TooManyArguments.message(), "Too many arguments");
    assert_eq!(LocalInputError::MissingCourseId.message(), "Must provide a course id");
    assert_eq!(LocalInputError::MissingFilePath.message(), "Must provide a file path");
    assert_eq!(
        LocalInputError::MissingSubmissionIds.message(),
        "Must provide a course and assignment id"
    );
    assert_eq!(LocalInputError::MalformedId.message(), "Identifiers must be whole numbers");
}

#[test]
fn help_names_every_command() {
    let text = help_message();
    for word in ["account", "courses", "assignments <course_id>", "login", "add", "commit", "submit"].iter() {
        assert!(text.contains(word));
    }
    assert!(text.starts_with("\n\nWelcome to Canva CLI!"));
    assert!(text.ends_with("Submit files to a course\n    "));
    assert!(text.contains("\nUsage: canvas[EXE] [COMMAND] [OPTIONS]\n"));
    assert_eq!(text.lines().count(), 17);
}

#[test]
fn help_is_the_usage_text() {
    assert_eq!(help_message(), canvas_cli::help::HELP_TEXT);
}
