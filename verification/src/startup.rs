//! What a run decides before it scans: which command was asked for, whether
//! the path can be analysed, and at which level to log.

use vstd::prelude::*;
use vstd::string::*;
use crate::notice::{Level, Notice, NoticeText};

verus! {

/// What the command line asks for.
#[derive(Clone, Copy, Debug, PartialEq, Eq, Structural)]
pub enum Command {
    /// Print the version and end with exit code 0.
    ShowVersion,
    /// Analyse the image at the given path.
    Analyze,
}

/// Why a run ends before the scan.
#[derive(Clone, Copy, Debug, PartialEq, Eq, Structural)]
pub enum StartupError {
    /// No path was given.
    MissingFile,
    /// Nothing is at the path.
    NotFound,
    /// What is at the path is not a regular file.
    NotRegularFile,
    /// The path has no directory or no file name that can be written out.
    Unnameable,
}

/// What was found out about the path, by whoever can look at the disk.
#[derive(Clone, Copy, Debug, PartialEq, Eq, Structural)]
pub struct PathFacts {
    /// Something is at the path.
    pub exists: bool,
    /// It is a regular file.
    pub is_file: bool,
    /// The path splits into a directory and a file name, both valid text.
    pub named: bool,
}

/// The command that the flags and the path ask for. The version flag wins
/// over everything else; without it a path is required.
pub open spec fn command_of(version: bool, filepath: Seq<char>) -> Result<Command, StartupError> {
    if version {
        Ok(Command::ShowVersion)
    } else if filepath.len() == 0 {
        Err(StartupError::MissingFile)
    } else {
        Ok(Command::Analyze)
    }
}

/// Whether the path can be analysed, and if not, the first reason why not.
pub open spec fn path_verdict(facts: PathFacts) -> Result<(), StartupError> {
    if !facts.exists {
        Err(StartupError::NotFound)
    } else if !facts.is_file {
        Err(StartupError::NotRegularFile)
    } else if !facts.named {
        Err(StartupError::Unnameable)
    } else {
        Ok(())
    }
}

/// The message of a start-up error about the path `filepath`.
pub open spec fn startup_error_text(error: StartupError, filepath: Seq<char>) -> Seq<char> {
    match error {
        StartupError::MissingFile => "Missing required [-f | --file] argument!"@,
        StartupError::NotFound => "File '"@ + filepath + "' does not exist."@,
        StartupError::NotRegularFile => "'"@ + filepath + "' is not a regular file."@,
        StartupError::Unnameable => "Failed to extract parent directory or file name"@,
    }
}

/// The line that answers the version flag.
pub open spec fn version_line() -> Seq<char> {
    "KForge "@ + crate::version_text()
}

/// The line that announces the analysis of the image `file` in `dir`.
pub open spec fn analyzing_line(dir: Seq<char>, file: Seq<char>) -> Seq<char> {
    "Analyzing '"@ + dir + "/"@ + file + "'..."@
}

/// The name of the level at which a run logs: `debug` if verbose, else `info`.
pub open spec fn log_level_text(verbose: bool) -> Seq<char> {
    if verbose {
        "debug"@
    } else {
        "info"@
    }
}

/// Reads the command off the version flag and the path. An empty path
/// counts as none.
pub fn command(version: bool, filepath: &str) -> (asked: Result<Command, StartupError>)
    ensures
        asked == command_of(version, filepath@),
{
    if version {
        Ok(Command::ShowVersion)
    } else if filepath.is_empty() {
        Err(StartupError::MissingFile)
    } else {
        Ok(Command::Analyze)
    }
}

/// Accepts or rejects the path by what is known of it.
pub fn check_path(facts: PathFacts) -> (verdict: Result<(), StartupError>)
    ensures
        verdict == path_verdict(facts),
{
    if !facts.exists {
        Err(StartupError::NotFound)
    } else if !facts.is_file {
        Err(StartupError::NotRegularFile)
    } else if !facts.named {
        Err(StartupError::Unnameable)
    } else {
        Ok(())
    }
}

impl StartupError {
    /// The code with which the process ends on this error: always 1.
    pub fn exit_code(self) -> (code: i32)
        ensures
            code == 1,
    {
        1
    }

    /// Words the error about the path `filepath`.
    pub fn notice(self, filepath: &str) -> (notice: Notice)
        ensures
            notice@ == (NoticeText {
                level: Level::Error,
                text: startup_error_text(self, filepath@),
            }),
    {
        let text: String = match self {
            StartupError::MissingFile => String::from_str(
                "Missing required [-f | --file] argument!",
            ),
            StartupError::NotFound => {
                let mut text: String = String::from_str("File '");
                text.append(filepath);
                text.append("' does not exist.");
                text
            },
            StartupError::NotRegularFile => {
                let mut text: String = String::from_str("'");
                text.append(filepath);
                text.append("' is not a regular file.");
                text
            },
            StartupError::Unnameable => String::from_str(
                "Failed to extract parent directory or file name",
            ),
        };
        Notice { level: Level::Error, text }
    }
}

/// Words the answer to the version flag.
pub fn version_notice() -> (notice: Notice)
    ensures
        notice@ == (NoticeText { level: Level::Info, text: version_line() }),
{
    let mut text: String = String::from_str("KForge ");
    text.append(crate::get_version());
    Notice { level: Level::Info, text }
}

/// Words the announcement that the analysis begins.
pub fn analyzing_notice(parent_dir: &str, filename: &str) -> (notice: Notice)
    ensures
        notice@ == (NoticeText {
            level: Level::Info,
            text: analyzing_line(parent_dir@, filename@),
        }),
{
    let mut text: String = String::from_str("Analyzing '");
    text.append(parent_dir);
    text.append("/");
    text.append(filename);
    text.append("'...");
    Notice { level: Level::Info, text }
}

/// Chooses the log level: `debug` for a verbose run, `info` otherwise.
pub fn log_level(verbose: bool) -> (level: &'static str)
    ensures
        level@ == log_level_text(verbose),
{
    if verbose {
        "debug"
    } else {
        "info"
    }
}

} // verus!
