//! A scan as the run receives it, and the run built on it.
//!
//! The library does not look for signatures itself. Whoever runs the scanner
//! hands over what came of it: the regions found, or the fact that the
//! scanner broke down on the image. The run is decided here for either.

use vstd::prelude::*;
use vstd::string::*;
use crate::notice::{scan_failure_notice, scan_failure_text, Level, Notice, NoticeText};
use crate::policy::{
    plan_regions,
    regions_text,
    report_text,
    CandidateRegion,
    Outcome,
    PolicyState,
    RegionText,
    Report,
    ReportText,
};

verus! {

/// What came of scanning an image.
#[derive(Clone, Debug, PartialEq, Eq)]
pub enum Scan {
    /// The scanner finished and found these regions, in its own order.
    Found(Vec<CandidateRegion>),
    /// The scanner broke down before it had a result.
    Failed,
}

impl View for Scan {
    type V = Option<Seq<RegionText>>;

    open spec fn view(&self) -> Option<Seq<RegionText>> {
        match self {
            Scan::Found(regions) => Some(regions_text(regions@)),
            Scan::Failed => None,
        }
    }
}

/// The result of a run whose scan broke down: the policy is still idle,
/// nothing is planned, the one message is the error, and the exit code is 1.
pub open spec fn failed_scan_report(file: Seq<char>) -> ReportText {
    ReportText {
        state: PolicyState::Idle,
        outcomes: Seq::empty(),
        notices: seq![NoticeText { level: Level::Error, text: scan_failure_text(file) }],
        exit_code: 1,
    }
}

/// The result of a run over what came of the scan.
pub open spec fn analysis_text(
    dir: Seq<char>,
    file: Seq<char>,
    scan: Option<Seq<RegionText>>,
) -> ReportText {
    match scan {
        Some(regions) => report_text(dir, file, regions),
        None => failed_scan_report(file),
    }
}

/// The path of the image `filename` in `parent_dir`.
pub open spec fn image_path_text(dir: Seq<char>, file: Seq<char>) -> Seq<char> {
    dir + "/"@ + file
}

/// A run whose scan broke down fails: it ends with exit code 1, plans
/// nothing and says so in one error. It is never taken for a run whose scan
/// finished and found nothing.
pub proof fn lemma_failed_scan_fails(dir: Seq<char>, file: Seq<char>)
    ensures
        analysis_text(dir, file, None).exit_code == 1,
        analysis_text(dir, file, None).outcomes.len() == 0,
        analysis_text(dir, file, None).notices.len() == 1,
        analysis_text(dir, file, None).notices[0].level == Level::Error,
        !analysis_text(dir, file, None).state.is_final(),
        analysis_text(dir, file, None) != analysis_text(dir, file, Some(Seq::empty())),
{
}

/// A scan that finished is judged by the policy, and by nothing else.
pub proof fn lemma_finished_scan_follows_policy(
    dir: Seq<char>,
    file: Seq<char>,
    regions: Seq<RegionText>,
)
    ensures
        analysis_text(dir, file, Some(regions)) == report_text(dir, file, regions),
        analysis_text(dir, file, Some(regions)).state.is_final(),
{
}

/// Joins the directory and the file name of the image into its path.
pub fn image_path(parent_dir: &str, filename: &str) -> (path: String)
    ensures
        path@ == image_path_text(parent_dir@, filename@),
{
    let mut path: String = String::from_str(parent_dir);
    path.append("/");
    path.append(filename);
    path
}

/// Decides the run over the image `filename` in `parent_dir` from what came
/// of its scan: the policy's report for the regions found, or the failure.
pub fn analyze(parent_dir: &str, filename: &str, scan: &Scan) -> (report: Report)
    ensures
        report@ == analysis_text(parent_dir@, filename@, scan@),
{
    match scan {
        Scan::Found(regions) => plan_regions(parent_dir, filename, regions),
        Scan::Failed => {
            let mut notices: Vec<Notice> = Vec::new();
            notices.push(scan_failure_notice(filename));
            let outcomes: Vec<Outcome> = Vec::new();
            let report = Report { state: PolicyState::Idle, outcomes, notices, exit_code: 1 };
            proof {
                let expected = failed_scan_report(filename@);
                assert(report@.outcomes =~= expected.outcomes);
                assert(report@.notices =~= expected.notices);
            }
            report
        },
    }
}

} // verus!
