//! What a run has to say: messages, each with the level at which it is logged.

use vstd::prelude::*;
use vstd::string::*;

verus! {

/// How serious a message is.
#[derive(Clone, Copy, Debug, PartialEq, Eq, Structural)]
pub enum Level {
    /// The run has failed.
    Error,
    /// The run goes on, but the user has to decide something.
    Warn,
    /// Ordinary output.
    Info,
}

/// One message of a run.
#[derive(Clone, Debug, PartialEq, Eq)]
pub struct Notice {
    pub level: Level,
    pub text: String,
}

/// A message as plain values.
pub struct NoticeText {
    pub level: Level,
    pub text: Seq<char>,
}

impl View for Notice {
    type V = NoticeText;

    open spec fn view(&self) -> NoticeText {
        NoticeText { level: self.level, text: self.text@ }
    }
}

/// Said when the scan found no compressed region in the image `file`.
pub open spec fn empty_scan_text(file: Seq<char>) -> Seq<char> {
    "Unable to find any compressed sections in '"@ + file + "'"@
}

/// Said once when the scan found more than one region.
pub open spec fn ambiguity_text() -> Seq<char> {
    "Identified more than one compressed section! Only one of them contains the actual kernel. Please identify it yourself."@
}

/// Said of a region whose tag names no known format.
pub open spec fn unknown_format_text(tag: Seq<char>) -> Seq<char> {
    "Unable to find valid compression! Got '"@ + tag + "' instead."@
}

/// Said when the scanner gave up on the image `file` before it had a result.
pub open spec fn scan_failure_text(file: Seq<char>) -> Seq<char> {
    "Unable to scan '"@ + file + "' for compressed sections"@
}

/// The error for a scan that did not come to an end.
pub fn scan_failure_notice(file: &str) -> (notice: Notice)
    ensures
        notice@ == (NoticeText { level: Level::Error, text: scan_failure_text(file@) }),
{
    let mut text: String = String::from_str("Unable to scan '");
    text.append(file);
    text.append("' for compressed sections");
    Notice { level: Level::Error, text }
}

/// The error for a scan without regions.
pub fn empty_scan_notice(file: &str) -> (notice: Notice)
    ensures
        notice@ == (NoticeText { level: Level::Error, text: empty_scan_text(file@) }),
{
    let mut text: String = String::from_str("Unable to find any compressed sections in '");
    text.append(file);
    text.append("'");
    Notice { level: Level::Error, text }
}

/// The warning for a scan with several regions.
pub fn ambiguity_notice() -> (notice: Notice)
    ensures
        notice@ == (NoticeText { level: Level::Warn, text: ambiguity_text() }),
{
    Notice {
        level: Level::Warn,
        text: String::from_str(
            "Identified more than one compressed section! Only one of them contains the actual kernel. Please identify it yourself.",
        ),
    }
}

/// The error for a region with an unknown tag.
pub fn unknown_format_notice(tag: &str) -> (notice: Notice)
    ensures
        notice@ == (NoticeText { level: Level::Error, text: unknown_format_text(tag@) }),
{
    let mut text: String = String::from_str("Unable to find valid compression! Got '");
    text.append(tag);
    text.append("' instead.");
    Notice { level: Level::Error, text }
}

} // verus!
