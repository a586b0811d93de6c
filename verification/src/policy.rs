//! What to do with the regions that a scan found: none is fatal, one is
//! planned, several are all planned after one warning.
//!
//! Each region is classified and planned by itself. A region with an unknown
//! tag gets an error in place of a plan and makes the run fail, but the
//! other regions are planned as if it were not there.

use vstd::prelude::*;
use vstd::string::*;
use crate::blueprint::{blueprint_text, plan_blueprint, Blueprint, StepText};
use crate::notice::{
    ambiguity_notice,
    ambiguity_text,
    empty_scan_notice,
    empty_scan_text,
    unknown_format_notice,
    unknown_format_text,
    Level,
    Notice,
    NoticeText,
};
use crate::profile::{classified, classify, UnknownFormat};
use crate::table::{announcement, announcement_text, modern_table, render_table, table_records};

verus! {

/// A byte range of the image that a scanner takes for compressed data.
#[derive(Clone, Debug, PartialEq, Eq)]
pub struct CandidateRegion {
    /// The scanner's name for the format.
    pub format_tag: String,
    /// Where the range starts in the image.
    pub offset: usize,
    /// How many bytes it has.
    pub length: usize,
}

/// A region as plain values.
pub struct RegionText {
    pub format_tag: Seq<char>,
    pub offset: nat,
    pub length: nat,
}

impl View for CandidateRegion {
    type V = RegionText;

    open spec fn view(&self) -> RegionText {
        RegionText {
            format_tag: self.format_tag@,
            offset: self.offset as nat,
            length: self.length as nat,
        }
    }
}

/// The regions of a scan as plain values, in the scan's order.
pub open spec fn regions_text(regions: Seq<CandidateRegion>) -> Seq<RegionText> {
    Seq::new(regions.len(), |i: int| regions[i]@)
}

/// Where the policy stands.
#[derive(Clone, Copy, Debug, PartialEq, Eq, Structural)]
pub enum PolicyState {
    /// Nothing has been scanned yet.
    Idle,
    /// The scan is in, with this many regions.
    Scanned(usize),
    /// No region: the run fails.
    Empty,
    /// One region: it is planned.
    Single,
    /// Several regions: the user is warned once, and each is planned.
    Multiple,
}

/// The state in which a scan with `count` regions ends.
pub open spec fn settled(count: nat) -> PolicyState {
    if count == 0 {
        PolicyState::Empty
    } else if count == 1 {
        PolicyState::Single
    } else {
        PolicyState::Multiple
    }
}

impl PolicyState {
    /// No further step leaves this state.
    pub open spec fn is_final(self) -> bool {
        self == PolicyState::Empty || self == PolicyState::Single || self == PolicyState::Multiple
    }

    /// The state after a scan has come in with `count` regions.
    pub open spec fn after_scan(self, count: usize) -> PolicyState {
        match self {
            PolicyState::Idle => PolicyState::Scanned(count),
            other => other,
        }
    }

    /// The state after the count of the scan has been looked at.
    pub open spec fn after_decision(self) -> PolicyState {
        match self {
            PolicyState::Scanned(count) => settled(count as nat),
            other => other,
        }
    }

    /// Takes in the result of a scan. Only `Idle` waits for one.
    pub fn on_scan(self, count: usize) -> (next: PolicyState)
        ensures
            next == self.after_scan(count),
    {
        match self {
            PolicyState::Idle => PolicyState::Scanned(count),
            other => other,
        }
    }

    /// Decides by the number of regions. Only `Scanned` has one to decide by.
    pub fn decide(self) -> (next: PolicyState)
        ensures
            next == self.after_decision(),
    {
        match self {
            PolicyState::Scanned(count) => {
                if count == 0 {
                    PolicyState::Empty
                } else if count == 1 {
                    PolicyState::Single
                } else {
                    PolicyState::Multiple
                }
            },
            other => other,
        }
    }
}

/// What becomes of one region: its plan, or its tag if the tag is unknown.
pub open spec fn outcome_text(dir: Seq<char>, file: Seq<char>, region: RegionText) -> Result<
    Seq<StepText>,
    Seq<char>,
> {
    match classified(region.format_tag) {
        Ok(profile) => Ok(blueprint_text(dir, file, region.offset, region.length, profile)),
        Err(tag) => Err(tag),
    }
}

/// What is said of one region: its plan under its headline, or the error.
pub open spec fn region_notice_text(dir: Seq<char>, file: Seq<char>, region: RegionText) -> NoticeText {
    match outcome_text(dir, file, region) {
        Ok(steps) => NoticeText {
            level: Level::Info,
            text: announcement_text(
                region.format_tag,
                region.offset,
                region.length,
                modern_table(table_records(steps)),
            ),
        },
        Err(tag) => NoticeText { level: Level::Error, text: unknown_format_text(tag) },
    }
}

/// The messages that open a run, before any region is looked at.
pub open spec fn opening_notices(file: Seq<char>, count: nat) -> Seq<NoticeText> {
    if count == 0 {
        seq![NoticeText { level: Level::Error, text: empty_scan_text(file) }]
    } else if count == 1 {
        Seq::empty()
    } else {
        seq![NoticeText { level: Level::Warn, text: ambiguity_text() }]
    }
}

/// Some region of the scan has a tag that names no known format.
pub open spec fn some_unknown(regions: Seq<RegionText>) -> bool {
    exists|i: int| 0 <= i < regions.len() && classified(#[trigger] regions[i].format_tag) is Err
}

/// The exit code of a run: 1 if the scan was empty or a tag was unknown, else 0.
pub open spec fn exit_code_text(regions: Seq<RegionText>) -> int {
    if regions.len() == 0 || some_unknown(regions) {
        1
    } else {
        0
    }
}

/// The result of a run as plain values.
pub struct ReportText {
    pub state: PolicyState,
    pub outcomes: Seq<Result<Seq<StepText>, Seq<char>>>,
    pub notices: Seq<NoticeText>,
    pub exit_code: int,
}

/// The whole result of a run over the given regions.
pub open spec fn report_text(dir: Seq<char>, file: Seq<char>, regions: Seq<RegionText>) -> ReportText {
    ReportText {
        state: settled(regions.len()),
        outcomes: Seq::new(regions.len(), |i: int| outcome_text(dir, file, regions[i])),
        notices: opening_notices(file, regions.len()) + Seq::new(
            regions.len(),
            |i: int| region_notice_text(dir, file, regions[i]),
        ),
        exit_code: exit_code_text(regions),
    }
}

/// One region's plan, or the error that stands in its place.
pub type Outcome = Result<Blueprint, UnknownFormat>;

/// An outcome as plain values.
pub open spec fn outcome_view(outcome: Outcome) -> Result<Seq<StepText>, Seq<char>> {
    match outcome {
        Ok(blueprint) => Ok(blueprint@),
        Err(unknown) => Err(unknown.tag@),
    }
}

/// The result of a run.
#[derive(Clone, Debug, PartialEq, Eq)]
pub struct Report {
    /// The final state of the policy.
    pub state: PolicyState,
    /// One outcome per region, in the scan's order.
    pub outcomes: Vec<Outcome>,
    /// The messages to log, in order.
    pub notices: Vec<Notice>,
    /// The code with which the process is to end.
    pub exit_code: i32,
}

impl View for Report {
    type V = ReportText;

    open spec fn view(&self) -> ReportText {
        ReportText {
            state: self.state,
            outcomes: Seq::new(self.outcomes@.len(), |i: int| outcome_view(self.outcomes@[i])),
            notices: Seq::new(self.notices@.len(), |i: int| self.notices@[i]@),
            exit_code: self.exit_code as int,
        }
    }
}

/// A run that starts idle ends, once the scan is in and looked at, in the
/// final state that belongs to the number of regions.
pub proof fn lemma_policy_settles(count: usize)
    ensures
        PolicyState::Idle.after_scan(count).after_decision() == settled(count as nat),
        settled(count as nat).is_final(),
        settled(count as nat) == PolicyState::Empty <==> count == 0,
        settled(count as nat) == PolicyState::Single <==> count == 1,
        settled(count as nat) == PolicyState::Multiple <==> count > 1,
{
}

/// A final state stays as it is, whatever comes after.
pub proof fn lemma_final_state_stays(state: PolicyState, count: usize)
    requires
        state.is_final(),
    ensures
        state.after_scan(count) == state,
        state.after_decision() == state,
{
}

/// A scan without regions fails the run: the exit code is 1, there is no
/// plan, and the one message is the error.
pub proof fn lemma_empty_scan_fails(dir: Seq<char>, file: Seq<char>)
    ensures
        report_text(dir, file, Seq::empty()).state == PolicyState::Empty,
        report_text(dir, file, Seq::empty()).exit_code == 1,
        report_text(dir, file, Seq::empty()).outcomes.len() == 0,
        report_text(dir, file, Seq::empty()).notices == seq![
            NoticeText { level: Level::Error, text: empty_scan_text(file) },
        ],
{
    let report = report_text(dir, file, Seq::empty());
    assert(report.notices =~= seq![
        NoticeText { level: Level::Error, text: empty_scan_text(file) },
    ]);
}

/// Every region has its own outcome, at its own place, made from that
/// region's tag, offset and length and from nothing of any other region.
pub proof fn lemma_one_outcome_per_region(dir: Seq<char>, file: Seq<char>, regions: Seq<RegionText>)
    ensures
        report_text(dir, file, regions).outcomes.len() == regions.len(),
        forall|i: int|
            0 <= i < regions.len() ==> #[trigger] report_text(dir, file, regions).outcomes[i]
                == outcome_text(dir, file, regions[i]),
        forall|i: int|
            0 <= i < regions.len() ==> (#[trigger] report_text(dir, file, regions).outcomes[i] is Ok
                <==> classified(regions[i].format_tag) is Ok),
{
}

/// Two scans that agree on one region agree on its outcome, wherever the
/// region stands in either and whatever else they hold.
pub proof fn lemma_outcome_independent(
    dir: Seq<char>,
    file: Seq<char>,
    first: Seq<RegionText>,
    i: int,
    second: Seq<RegionText>,
    j: int,
)
    requires
        0 <= i < first.len(),
        0 <= j < second.len(),
        first[i] == second[j],
    ensures
        report_text(dir, file, first).outcomes[i] == report_text(dir, file, second).outcomes[j],
{
}

/// With more than one region the warning is given exactly once, before
/// anything is said of a region; with one region or none it is not given.
pub proof fn lemma_warned_once(dir: Seq<char>, file: Seq<char>, regions: Seq<RegionText>)
    ensures
        regions.len() > 1 ==> {
            let notices = report_text(dir, file, regions).notices;
            &&& report_text(dir, file, regions).state == PolicyState::Multiple
            &&& notices.len() == regions.len() + 1
            &&& notices[0] == (NoticeText { level: Level::Warn, text: ambiguity_text() })
            &&& forall|k: int| 1 <= k < notices.len() ==> (#[trigger] notices[k]).level != Level::Warn
        },
        regions.len() <= 1 ==> {
            let notices = report_text(dir, file, regions).notices;
            forall|k: int| 0 <= k < notices.len() ==> (#[trigger] notices[k]).level != Level::Warn
        },
{
    let notices = report_text(dir, file, regions).notices;
    let opening = opening_notices(file, regions.len());
    assert forall|k: int| opening.len() <= k < notices.len() implies (#[trigger] notices[k]).level
        != Level::Warn by {
        assert(notices[k] == region_notice_text(dir, file, regions[k - opening.len()]));
    }
}

/// A region with an unknown tag gets no plan: its outcome is the tag, what
/// is said of it is an error, and the run ends with exit code 1. The regions
/// whose tags are known are planned all the same.
pub proof fn lemma_unknown_tag_fails(
    dir: Seq<char>,
    file: Seq<char>,
    regions: Seq<RegionText>,
    i: int,
)
    requires
        0 <= i < regions.len(),
        classified(regions[i].format_tag) is Err,
    ensures
        report_text(dir, file, regions).outcomes[i] == Err::<Seq<StepText>, Seq<char>>(
            regions[i].format_tag,
        ),
        report_text(dir, file, regions).exit_code == 1,
        forall|j: int|
            0 <= j < regions.len() && classified(regions[j].format_tag) is Ok
                ==> #[trigger] report_text(dir, file, regions).outcomes[j] is Ok,
{
    assert(some_unknown(regions));
}

/// The run succeeds exactly when there is a region and every tag is known.
pub proof fn lemma_exit_code(dir: Seq<char>, file: Seq<char>, regions: Seq<RegionText>)
    ensures
        report_text(dir, file, regions).exit_code == 0 || report_text(dir, file, regions).exit_code
            == 1,
        report_text(dir, file, regions).exit_code == 0 <==> (regions.len() > 0 && forall|i: int|
            0 <= i < regions.len() ==> classified(#[trigger] regions[i].format_tag) is Ok),
{
}

/// Classifies and plans one region, and words what is to be said of it.
pub fn plan_region(parent_dir: &str, filename: &str, region: &CandidateRegion) -> (planned: (
    Outcome,
    Notice,
))
    ensures
        outcome_view(planned.0) == outcome_text(parent_dir@, filename@, region@),
        planned.1@ == region_notice_text(parent_dir@, filename@, region@),
{
    match classify(region.format_tag.as_str()) {
        Ok(profile) => {
            let blueprint = plan_blueprint(
                parent_dir,
                filename,
                region.offset,
                region.length,
                &profile,
            );
            let table: String = render_table(&blueprint);
            let text: String = announcement(
                region.format_tag.as_str(),
                region.offset,
                region.length,
                table.as_str(),
            );
            (Ok(blueprint), Notice { level: Level::Info, text })
        },
        Err(unknown) => {
            let notice = unknown_format_notice(unknown.tag.as_str());
            (Err(unknown), notice)
        },
    }
}

/// Applies the policy to the regions of one scan of the image `filename` in
/// `parent_dir`. The regions are taken in the order given; they need not be
/// sorted, and the same range may come twice.
pub fn plan_regions(parent_dir: &str, filename: &str, regions: &Vec<CandidateRegion>) -> (report:
    Report)
    ensures
        report@ == report_text(parent_dir@, filename@, regions_text(regions@)),
{
    let ghost dir = parent_dir@;
    let ghost file = filename@;
    let ghost all = regions_text(regions@);
    let state = PolicyState::Idle.on_scan(regions.len()).decide();
    let mut notices: Vec<Notice> = Vec::new();
    match state {
        PolicyState::Empty => {
            notices.push(empty_scan_notice(filename));
        },
        PolicyState::Multiple => {
            notices.push(ambiguity_notice());
        },
        _ => {},
    }
    let ghost opening = opening_notices(file, all.len());
    assert(Seq::new(notices@.len(), |i: int| notices@[i]@) =~= opening);
    let mut outcomes: Vec<Outcome> = Vec::new();
    let mut failed: bool = regions.len() == 0;
    let mut k: usize = 0;
    while k < regions.len()
        invariant
            k <= regions.len(),
            dir == parent_dir@,
            file == filename@,
            all == regions_text(regions@),
            opening == opening_notices(file, all.len()),
            outcomes@.len() == k,
            notices@.len() == opening.len() + k,
            forall|i: int| 0 <= i < k ==> outcome_view(#[trigger] outcomes@[i]) == outcome_text(dir, file, all[i]),
            forall|i: int| 0 <= i < opening.len() ==> (#[trigger] notices@[i])@ == opening[i],
            forall|j: int|
                opening.len() <= j < opening.len() + k ==> (#[trigger] notices@[j])@
                    == region_notice_text(dir, file, all[j - opening.len()]),
            failed <==> (regions.len() == 0 || exists|i: int| 0 <= i < k && classified(#[trigger] all[i].format_tag) is Err),
        decreases regions.len() - k,
    {
        let planned = plan_region(parent_dir, filename, &regions[k]);
        let outcome = planned.0;
        let notice = planned.1;
        assert(all[k as int] == regions@[k as int]@);
        if outcome.is_err() {
            failed = true;
        }
        proof {
            assert(outcome is Err <==> classified(all[k as int].format_tag) is Err);
        }
        outcomes.push(outcome);
        notices.push(notice);
        k += 1;
    }
    let exit_code: i32 = if failed {
        1
    } else {
        0
    };
    let report = Report { state, outcomes, notices, exit_code };
    proof {
        let expected = report_text(dir, file, all);
        assert(report@.outcomes =~= expected.outcomes);
        assert(report@.notices =~= expected.notices);
        assert(failed <==> (all.len() == 0 || some_unknown(all)));
    }
    report
}

} // verus!
