//! Tests of the tool's decisions: argument classification, the removal
//! confirmation, and the exact message and exit code of every outcome.

use folder::args::{classify, Invocation};
use folder::confirm::{confirms, decide_removal, RemoveDecision};
use folder::outcome::{
    file_body, file_path, outcome_create_done, outcome_create_failed, outcome_help,
    outcome_missing_target, outcome_read_failed, outcome_removal, outcome_removal_aborted,
    outcome_version, outcome_write, remove_prompt,
};

fn strings(words: &[&str]) -> Vec<String> {
    words.iter().map(|w| w.to_string()).collect()
}

#[test]
fn classify_no_args_is_help() {
    assert_eq!(classify(Vec::new()), Invocation::Help);
}

#[test]
fn classify_help_flag() {
    assert_eq!(classify(strings(&["--help"])), Invocation::Help);
}

#[test]
fn classify_help_and_no_args_agree() {
    assert_eq!(classify(Vec::new()), classify(strings(&["--help"])));
}

#[test]
fn classify_version_flag() {
    assert_eq!(classify(strings(&["--version"])), Invocation::Version);
}

#[test]
fn classify_remove_with_target() {
    assert_eq!(
        classify(strings(&["--remove", "stuff"])),
        Invocation::Remove { target: "stuff".to_string() }
    );
}

#[test]
fn classify_remove_without_target() {
    assert_eq!(classify(strings(&["--remove"])), Invocation::RemoveMissingArg);
}

#[test]
fn classify_dir_only() {
    assert_eq!(
        classify(strings(&["mydir"])),
        Invocation::Create { dir: "mydir".to_string(), file: None, contents: None }
    );
}

#[test]
fn classify_dir_and_file() {
    assert_eq!(
        classify(strings(&["mydir", "notes.txt"])),
        Invocation::Create {
            dir: "mydir".to_string(),
            file: Some("notes.txt".to_string()),
            contents: None
        }
    );
}

#[test]
fn classify_dir_file_and_contents() {
    assert_eq!(
        classify(strings(&["mydir", "notes.txt", "hello"])),
        Invocation::Create {
            dir: "mydir".to_string(),
            file: Some("notes.txt".to_string()),
            contents: Some("hello".to_string())
        }
    );
}

#[test]
fn classify_ignores_arguments_past_the_third() {
    assert_eq!(
        classify(strings(&["mydir", "notes.txt", "hello", "extra"])),
        Invocation::Create {
            dir: "mydir".to_string(),
            file: Some("notes.txt".to_string()),
            contents: Some("hello".to_string())
        }
    );
}

#[test]
fn confirms_plain_y() {
    assert!(confirms("y"));
}

#[test]
fn confirms_y_with_newline() {
    assert!(confirms("y\n"));
}

#[test]
fn confirms_y_with_surrounding_spaces() {
    assert!(confirms("  \ty \r\n"));
}

#[test]
fn rejects_uppercase_y() {
    assert!(!confirms("Y"));
}

#[test]
fn rejects_yes() {
    assert!(!confirms("yes"));
}

#[test]
fn rejects_empty_line() {
    assert!(!confirms(""));
}

#[test]
fn rejects_whitespace_only_line() {
    assert!(!confirms(" \n"));
}

#[test]
fn decide_removal_read_failure() {
    assert_eq!(decide_removal(false, ""), RemoveDecision::ReadFailed);
}

#[test]
fn decide_removal_confirmed() {
    assert_eq!(decide_removal(true, "y\n"), RemoveDecision::Confirmed);
}

#[test]
fn decide_removal_aborted() {
    assert_eq!(decide_removal(true, "no\n"), RemoveDecision::Aborted);
}

#[test]
fn help_text_exact() {
    let o = outcome_help();
    assert_eq!(
        o.message,
        "------- HELP -------\n\nFolder Tool Arguments:\n    <dir_name>     Name for the new directory,\n    <file_name>    Optional file to be created in the new directory,\n    <contents>     Optional contents for the new file\n\nAdittional Commands\n    --remove       removes a directory PERMANENTLY\n    --help         prints help\n    --version      prints version"
    );
    assert_eq!(o.exit_code, 0);
}

#[test]
fn help_is_byte_identical_for_both_routes() {
    let via_no_args = match classify(Vec::new()) {
        Invocation::Help => outcome_help(),
        _ => panic!("no arguments must ask for help"),
    };
    let via_flag = match classify(strings(&["--help"])) {
        Invocation::Help => outcome_help(),
        _ => panic!("--help must ask for help"),
    };
    assert_eq!(via_no_args.message, via_flag.message);
    assert_eq!(via_no_args.exit_code, 0);
    assert_eq!(via_flag.exit_code, 0);
}

#[test]
fn version_banner_exact() {
    let o = outcome_version("1.2.3");
    assert_eq!(o.message, "folder 1.2.3,\nA command line tool by Jessie 2022");
    assert_eq!(o.exit_code, 0);
}

#[test]
fn version_banner_names_the_author() {
    let o = outcome_version("0.1.0");
    assert!(o.message.contains("A command line tool by Jessie 2022"));
}

#[test]
fn remove_prompt_exact() {
    assert_eq!(
        remove_prompt("stuff"),
        "Permanently remove stuff/, cannot be undone <Y/N>:"
    );
}

#[test]
fn removal_success_outcome() {
    let o = outcome_removal("stuff", true);
    assert_eq!(o.message, "Directory stuff/ successfully deleted!");
    assert_eq!(o.exit_code, 0);
}

#[test]
fn removal_failure_outcome() {
    let o = outcome_removal("stuff", false);
    assert_eq!(
        o.message,
        "Failed to remove 'stuff': Resource busy, Exiting program..."
    );
    assert_eq!(o.exit_code, 1);
}

#[test]
fn removal_aborted_outcome() {
    let o = outcome_removal_aborted("stuff");
    assert_eq!(o.message, "Removal of stuff/ aborted, no action taken");
    assert_eq!(o.exit_code, 0);
}

#[test]
fn missing_target_outcome() {
    let o = outcome_missing_target();
    assert_eq!(
        o.message,
        "Missing directory name after --remove\nFor help type folder --help"
    );
    assert_eq!(o.exit_code, 1);
}

#[test]
fn read_failed_outcome() {
    let o = outcome_read_failed();
    assert_eq!(o.message, "Failed to read line!\nExiting program...");
    assert_eq!(o.exit_code, 1);
}

#[test]
fn create_failed_outcome() {
    let o = outcome_create_failed("mydir");
    assert_eq!(
        o.message,
        "Failed to create directory mydir/, it may already exist!\nFor help type folder --help"
    );
    assert_eq!(o.exit_code, 0);
}

#[test]
fn create_done_outcome() {
    let o = outcome_create_done("mydir");
    assert_eq!(o.message, "Directory mydir/ successfully created!");
    assert_eq!(o.exit_code, 0);
}

#[test]
fn file_path_joins_with_slash() {
    assert_eq!(file_path("mydir", "notes.txt"), "mydir/notes.txt");
}

#[test]
fn file_body_defaults_to_empty() {
    assert_eq!(file_body(&None), "");
}

#[test]
fn file_body_keeps_contents_byte_exact() {
    assert_eq!(file_body(&Some("hello there".to_string())), "hello there");
}

#[test]
fn write_success_outcome() {
    let o = outcome_write("mydir", "notes.txt", &Some("hello".to_string()), true);
    assert_eq!(
        o.message,
        "Directory mydir/ successfully created with file: notes.txt"
    );
    assert_eq!(o.exit_code, 0);
}

#[test]
fn write_failure_with_contents_outcome() {
    let o = outcome_write("mydir", "notes.txt", &Some("hello".to_string()), false);
    assert_eq!(
        o.message,
        "Failed to write contents to file: mydir/notes.txt,\nhello"
    );
    assert_eq!(o.exit_code, 1);
}

#[test]
fn write_failure_without_contents_outcome() {
    let o = outcome_write("mydir", "notes.txt", &None, false);
    assert_eq!(o.message, "Failed to create File: mydir/notes.txt");
    assert_eq!(o.exit_code, 1);
}
