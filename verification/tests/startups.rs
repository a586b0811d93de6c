use kforge::get_version;
use kforge::notice::{Level, Notice};
use kforge::startup::{
    analyzing_notice, check_path, command, log_level, version_notice, Command, PathFacts,
    StartupError,
};

#[test]
fn version_is_the_released_one() {
    assert_eq!(get_version(), "v1.0.0");
}

#[test]
fn version_flag_wins() {
    assert_eq!(command(true, ""), Ok(Command::ShowVersion));
    assert_eq!(command(true, "/fw/img"), Ok(Command::ShowVersion));
}

#[test]
fn missing_file_is_an_error() {
    assert_eq!(command(false, ""), Err(StartupError::MissingFile));
    assert_eq!(StartupError::MissingFile.exit_code(), 1);
}

#[test]
fn a_path_asks_for_the_analysis() {
    assert_eq!(command(false, "/fw/img"), Ok(Command::Analyze));
}

#[test]
fn path_checks_come_in_order() {
    let facts = |exists, is_file, named| PathFacts { exists, is_file, named };
    assert_eq!(check_path(facts(false, false, false)), Err(StartupError::NotFound));
    assert_eq!(check_path(facts(false, true, true)), Err(StartupError::NotFound));
    assert_eq!(check_path(facts(true, false, true)), Err(StartupError::NotRegularFile));
    assert_eq!(check_path(facts(true, true, false)), Err(StartupError::Unnameable));
    assert_eq!(check_path(facts(true, true, true)), Ok(()));
}

#[test]
fn every_startup_error_ends_with_exit_code_one() {
    for error in [
        StartupError::MissingFile,
        StartupError::NotFound,
        StartupError::NotRegularFile,
        StartupError::Unnameable,
    ] {
        assert_eq!(error.exit_code(), 1);
        assert_eq!(error.notice("/x").level, Level::Error);
    }
}

#[test]
fn startup_errors_are_worded_with_the_path() {
    assert_eq!(
        StartupError::MissingFile.notice("").text,
        "Missing required [-f | --file] argument!"
    );
    assert_eq!(StartupError::NotFound.notice("/fw/img").text, "File '/fw/img' does not exist.");
    assert_eq!(
        StartupError::NotRegularFile.notice("/fw").text,
        "'/fw' is not a regular file."
    );
    assert_eq!(
        StartupError::Unnameable.notice("/").text,
        "Failed to extract parent directory or file name"
    );
}

#[test]
fn version_notice_names_the_tool() {
    assert_eq!(
        version_notice(),
        Notice { level: Level::Info, text: String::from("KForge v1.0.0") }
    );
}

#[test]
fn analyzing_notice_names_the_image() {
    assert_eq!(
        analyzing_notice("/tmp/fw", "vmlinuz"),
        Notice { level: Level::Info, text: String::from("Analyzing '/tmp/fw/vmlinuz'...") }
    );
}

#[test]
fn log_level_follows_the_verbose_flag() {
    assert_eq!(log_level(false), "info");
    assert_eq!(log_level(true), "debug");
}
