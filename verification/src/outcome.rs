//! Terminal outcomes.
//!
//! Every run of the tool ends by printing one message and exiting with one
//! code. The builders here pin both down exactly for each way a run can
//! end: help, the version banner, the guarded removal, and the creation of
//! a directory with an optional file.

use vstd::prelude::*;

verus! {

/// How a run ends: the line to print and the process exit code.
pub struct Outcome {
    pub message: String,
    pub exit_code: i32,
}

/// The help text, printed for `--help` and for an empty argument list.
pub open spec fn spec_help_text() -> Seq<char> {
    "------- HELP -------\n\nFolder Tool Arguments:\n    <dir_name>     Name for the new directory,\n    <file_name>    Optional file to be created in the new directory,\n    <contents>     Optional contents for the new file\n\nAdittional Commands\n    --remove       removes a directory PERMANENTLY\n    --help         prints help\n    --version      prints version"@
}

/// The fixed attribution line that the version banner carries.
pub open spec fn spec_attribution() -> Seq<char> {
    "A command line tool by Jessie 2022"@
}

/// The version banner: the tool's name and build version, then the
/// attribution line.
pub open spec fn spec_version_banner(version: Seq<char>) -> Seq<char> {
    "folder "@ + version + ",\n"@ + spec_attribution()
}

/// Whether `needle` occurs contiguously inside `hay`.
pub open spec fn contains_seq(hay: Seq<char>, needle: Seq<char>) -> bool {
    exists|i: int|
        0 <= i && i + needle.len() <= hay.len() && #[trigger] hay.subrange(
            i,
            i + needle.len() as int,
        ) == needle
}

/// Law: the version banner contains the attribution line, whatever the
/// build version string is.
pub proof fn lemma_version_banner_has_attribution(version: Seq<char>)
    ensures
        contains_seq(spec_version_banner(version), spec_attribution()),
{
    let prefix = "folder "@ + version + ",\n"@;
    let i = prefix.len() as int;
    let banner = spec_version_banner(version);
    assert(banner.subrange(i, i + spec_attribution().len() as int) =~= spec_attribution());
}

/// The help outcome: the help text, exit code 0.
pub fn outcome_help() -> (o: Outcome)
    ensures
        o.message@ == spec_help_text(),
        o.exit_code == 0,
{
    Outcome {
        message: String::from_str(
            "------- HELP -------\n\nFolder Tool Arguments:\n    <dir_name>     Name for the new directory,\n    <file_name>    Optional file to be created in the new directory,\n    <contents>     Optional contents for the new file\n\nAdittional Commands\n    --remove       removes a directory PERMANENTLY\n    --help         prints help\n    --version      prints version",
        ),
        exit_code: 0,
    }
}

/// The version outcome: the banner around the build version, exit code 0.
pub fn outcome_version(version: &str) -> (o: Outcome)
    ensures
        o.message@ == spec_version_banner(version@),
        o.exit_code == 0,
{
    Outcome {
        message: String::from_str("folder ").concat(version).concat(",\n").concat(
            "A command line tool by Jessie 2022",
        ),
        exit_code: 0,
    }
}

/// The message of the missing-argument outcome.
pub open spec fn spec_missing_target_message() -> Seq<char> {
    "Missing directory name after --remove\nFor help type folder --help"@
}

/// `--remove` without a directory name after it: report the missing
/// argument, exit code 1.
pub fn outcome_missing_target() -> (o: Outcome)
    ensures
        o.message@ == spec_missing_target_message(),
        o.exit_code == 1,
{
    Outcome {
        message: String::from_str(
            "Missing directory name after --remove\nFor help type folder --help",
        ),
        exit_code: 1,
    }
}

/// The confirmation prompt that removal prints before reading an answer.
pub open spec fn spec_remove_prompt(target: Seq<char>) -> Seq<char> {
    "Permanently remove "@ + target + "/, cannot be undone <Y/N>:"@
}

/// The confirmation prompt for removing `target`.
pub fn remove_prompt(target: &str) -> (m: String)
    ensures
        m@ == spec_remove_prompt(target@),
{
    String::from_str("Permanently remove ").concat(target).concat(
        "/, cannot be undone <Y/N>:",
    )
}

/// The message of the failed-read outcome.
pub open spec fn spec_read_failed_message() -> Seq<char> {
    "Failed to read line!\nExiting program..."@
}

/// The confirmation line could not be read: report it, exit code 1.
pub fn outcome_read_failed() -> (o: Outcome)
    ensures
        o.message@ == spec_read_failed_message(),
        o.exit_code == 1,
{
    Outcome {
        message: String::from_str("Failed to read line!\nExiting program..."),
        exit_code: 1,
    }
}

/// The message of the aborted-removal outcome.
pub open spec fn spec_removal_aborted_message(target: Seq<char>) -> Seq<char> {
    "Removal of "@ + target + "/ aborted, no action taken"@
}

/// The answer was anything but `y`: nothing was touched, exit code 0.
pub fn outcome_removal_aborted(target: &str) -> (o: Outcome)
    ensures
        o.message@ == spec_removal_aborted_message(target@),
        o.exit_code == 0,
{
    Outcome {
        message: String::from_str("Removal of ").concat(target).concat(
            "/ aborted, no action taken",
        ),
        exit_code: 0,
    }
}

/// The message printed when the directory tree was removed.
pub open spec fn spec_removal_done_message(target: Seq<char>) -> Seq<char> {
    "Directory "@ + target + "/ successfully deleted!"@
}

/// The message printed when removal failed.
pub open spec fn spec_removal_failed_message(target: Seq<char>) -> Seq<char> {
    "Failed to remove '"@ + target + "': Resource busy, Exiting program..."@
}

/// The end of a confirmed removal: success with exit code 0 when the
/// directory tree was removed, the failure report with exit code 1 when
/// it was not.
pub fn outcome_removal(target: &str, removed: bool) -> (o: Outcome)
    ensures
        removed ==> o.message@ == spec_removal_done_message(target@) && o.exit_code == 0,
        !removed ==> o.message@ == spec_removal_failed_message(target@) && o.exit_code == 1,
{
    if removed {
        Outcome {
            message: String::from_str("Directory ").concat(target).concat(
                "/ successfully deleted!",
            ),
            exit_code: 0,
        }
    } else {
        Outcome {
            message: String::from_str("Failed to remove '").concat(target).concat(
                "': Resource busy, Exiting program...",
            ),
            exit_code: 1,
        }
    }
}

/// The message printed when the directory could not be created.
pub open spec fn spec_create_failed_message(dir: Seq<char>) -> Seq<char> {
    "Failed to create directory "@ + dir + "/, it may already exist!\nFor help type folder --help"@
}

/// The directory could not be created (it may already exist): report it.
/// The exit code stays 0 on this path.
pub fn outcome_create_failed(dir: &str) -> (o: Outcome)
    ensures
        o.message@ == spec_create_failed_message(dir@),
        o.exit_code == 0,
{
    Outcome {
        message: String::from_str("Failed to create directory ").concat(dir).concat(
            "/, it may already exist!\nFor help type folder --help",
        ),
        exit_code: 0,
    }
}

/// The message printed when only a directory was asked for and created.
pub open spec fn spec_create_done_message(dir: Seq<char>) -> Seq<char> {
    "Directory "@ + dir + "/ successfully created!"@
}

/// The directory was created and no file was asked for: success, exit
/// code 0.
pub fn outcome_create_done(dir: &str) -> (o: Outcome)
    ensures
        o.message@ == spec_create_done_message(dir@),
        o.exit_code == 0,
{
    Outcome {
        message: String::from_str("Directory ").concat(dir).concat("/ successfully created!"),
        exit_code: 0,
    }
}

/// The path of the file created inside the new directory.
pub open spec fn spec_file_path(dir: Seq<char>, file: Seq<char>) -> Seq<char> {
    dir + "/"@ + file
}

/// Joins the new directory's name and the file name with a single `/`.
pub fn file_path(dir: &str, file: &str) -> (p: String)
    ensures
        p@ == spec_file_path(dir@, file@),
{
    String::from_str(dir).concat("/").concat(file)
}

/// The body the new file gets: the contents argument if one was given,
/// empty otherwise.
pub fn file_body(contents: &Option<String>) -> (b: String)
    ensures
        contents matches Some(c) ==> b@ == c@,
        contents is None ==> b@ == Seq::<char>::empty(),
{
    match contents {
        Some(c) => c.clone(),
        None => String::new(),
    }
}

/// The message printed when the directory and the file were both created.
pub open spec fn spec_create_file_done_message(dir: Seq<char>, file: Seq<char>) -> Seq<char> {
    "Directory "@ + dir + "/ successfully created with file: "@ + file
}

/// The message printed when writing the given contents failed.
pub open spec fn spec_write_failed_message(path: Seq<char>, contents: Seq<char>) -> Seq<char> {
    "Failed to write contents to file: "@ + path + ",\n"@ + contents
}

/// The message printed when creating the empty file failed.
pub open spec fn spec_create_file_failed_message(path: Seq<char>) -> Seq<char> {
    "Failed to create File: "@ + path
}

/// The end of a creation that asked for a file: success names the
/// directory and the file and exits 0; a failed write names the file's
/// path (and the contents, where some were given) and exits 1.
pub fn outcome_write(dir: &str, file: &str, contents: &Option<String>, written: bool) -> (o:
    Outcome)
    ensures
        written ==> o.message@ == spec_create_file_done_message(dir@, file@) && o.exit_code == 0,
        !written ==> (contents matches Some(c) ==> o.message@ == spec_write_failed_message(
            spec_file_path(dir@, file@),
            c@,
        ) && o.exit_code == 1),
        !written ==> (contents is None ==> o.message@ == spec_create_file_failed_message(
            spec_file_path(dir@, file@),
        ) && o.exit_code == 1),
{
    if written {
        Outcome {
            message: String::from_str("Directory ").concat(dir).concat(
                "/ successfully created with file: ",
            ).concat(file),
            exit_code: 0,
        }
    } else {
        let path = file_path(dir, file);
        match contents {
            Some(c) => Outcome {
                message: String::from_str("Failed to write contents to file: ").concat(
                    path.as_str(),
                ).concat(",\n").concat(c.as_str()),
                exit_code: 1,
            },
            None => Outcome {
                message: String::from_str("Failed to create File: ").concat(path.as_str()),
                exit_code: 1,
            },
        }
    }
}

} // verus!
