use kforge::blueprint::plan_blueprint;
use kforge::notice::{Level, Notice};
use kforge::policy::{plan_region, plan_regions, CandidateRegion, PolicyState};
use kforge::profile::{Format, UnknownFormat};
use kforge::table::{announcement, render_table};

fn region(tag: &str, offset: usize, length: usize) -> CandidateRegion {
    CandidateRegion { format_tag: String::from(tag), offset, length }
}

fn warnings(notices: &[Notice]) -> usize {
    notices.iter().filter(|n| n.level == Level::Warn).count()
}

#[test]
fn empty_scan_fails_without_a_plan() {
    let report = plan_regions("/fw", "vmlinuz", &vec![]);
    assert_eq!(report.state, PolicyState::Empty);
    assert_eq!(report.exit_code, 1);
    assert!(report.outcomes.is_empty());
    assert_eq!(
        report.notices,
        vec![Notice {
            level: Level::Error,
            text: String::from("Unable to find any compressed sections in 'vmlinuz'"),
        }]
    );
}

#[test]
fn single_region_is_planned_without_a_warning() {
    let report = plan_regions("/fw", "vmlinuz", &vec![region("gzip", 4096, 512)]);
    assert_eq!(report.state, PolicyState::Single);
    assert_eq!(report.exit_code, 0);
    assert_eq!(report.outcomes.len(), 1);
    let expected = plan_blueprint("/fw", "vmlinuz", 4096, 512, &Format::Gzip.profile());
    assert_eq!(report.outcomes[0], Ok(expected.clone()));
    assert_eq!(warnings(&report.notices), 0);
    assert_eq!(report.notices.len(), 1);
    assert_eq!(report.notices[0].level, Level::Info);
    assert_eq!(
        report.notices[0].text,
        announcement("gzip", 4096, 512, &render_table(&expected))
    );
    assert!(report.notices[0].text.starts_with(
        "Kernel Modification Blueprint (Type: gzip, Offset: 4096, Size: 512 bytes)\n┌"
    ));
}

#[test]
fn several_regions_are_all_planned_after_one_warning() {
    let regions = vec![region("xz", 0x300, 0x40), region("gzip", 0x100, 0x20), region("lz4", 7, 9)];
    let report = plan_regions("/fw", "img", &regions);
    assert_eq!(report.state, PolicyState::Multiple);
    assert_eq!(report.exit_code, 0);
    assert_eq!(report.outcomes.len(), 3);
    assert_eq!(warnings(&report.notices), 1);
    assert_eq!(report.notices.len(), 4);
    assert_eq!(
        report.notices[0],
        Notice {
            level: Level::Warn,
            text: String::from(
                "Identified more than one compressed section! Only one of them contains the actual kernel. Please identify it yourself."
            ),
        }
    );
    let formats = [Format::Xz, Format::Gzip, Format::Lz4];
    for i in 0..3 {
        let expected = plan_blueprint(
            "/fw",
            "img",
            regions[i].offset,
            regions[i].length,
            &formats[i].profile(),
        );
        assert_eq!(report.outcomes[i], Ok(expected));
        assert_eq!(report.notices[i + 1].level, Level::Info);
    }
}

#[test]
fn warning_is_given_once_whatever_the_number_of_regions() {
    for count in 2..12usize {
        let regions: Vec<CandidateRegion> =
            (0..count).map(|i| region("zstd", i * 16, 16)).collect();
        let report = plan_regions(".", "img", &regions);
        assert_eq!(report.state, PolicyState::Multiple);
        assert_eq!(warnings(&report.notices), 1);
        assert_eq!(report.outcomes.len(), count);
        assert_eq!(report.notices.len(), count + 1);
    }
}

#[test]
fn each_plan_uses_its_own_region_only() {
    let regions = vec![region("gzip", 0x100, 0x20), region("gzip", 0x300, 0x40)];
    let report = plan_regions("/fw", "img", &regions);
    let first = report.outcomes[0].clone().expect("planned");
    let second = report.outcomes[1].clone().expect("planned");
    for step in &first.steps {
        assert!(!step.commands.contains("0x300"));
        assert!(!step.commands.contains("0x40]"));
    }
    for step in &second.steps {
        assert!(!step.commands.contains("0x100"));
        assert!(!step.commands.contains("0x20]"));
    }
    assert!(first.steps[0].commands.contains("skip=$[0x100] count=$[0x20]"));
    assert!(second.steps[0].commands.contains("skip=$[0x300] count=$[0x40]"));
}

#[test]
fn unknown_tag_fails_the_single_region() {
    let report = plan_regions("/fw", "img", &vec![region("foo", 1, 2)]);
    assert_eq!(report.state, PolicyState::Single);
    assert_eq!(report.exit_code, 1);
    assert_eq!(report.outcomes, vec![Err(UnknownFormat { tag: String::from("foo") })]);
    assert_eq!(
        report.notices,
        vec![Notice {
            level: Level::Error,
            text: String::from("Unable to find valid compression! Got 'foo' instead."),
        }]
    );
}

#[test]
fn unknown_tag_does_not_stop_the_other_regions() {
    let regions = vec![region("gzip", 1, 2), region("foo", 3, 4), region("xz", 5, 6)];
    let report = plan_regions("/fw", "img", &regions);
    assert_eq!(report.state, PolicyState::Multiple);
    assert_eq!(report.exit_code, 1);
    assert_eq!(report.outcomes.len(), 3);
    assert_eq!(
        report.outcomes[0],
        Ok(plan_blueprint("/fw", "img", 1, 2, &Format::Gzip.profile()))
    );
    assert_eq!(report.outcomes[1], Err(UnknownFormat { tag: String::from("foo") }));
    assert_eq!(
        report.outcomes[2],
        Ok(plan_blueprint("/fw", "img", 5, 6, &Format::Xz.profile()))
    );
    let levels: Vec<Level> = report.notices.iter().map(|n| n.level).collect();
    assert_eq!(levels, vec![Level::Warn, Level::Info, Level::Error, Level::Info]);
}

#[test]
fn regions_need_not_be_sorted_or_distinct() {
    let regions = vec![region("lzma", 900, 10), region("lzma", 100, 10), region("lzma", 900, 10)];
    let report = plan_regions("/fw", "img", &regions);
    assert_eq!(report.exit_code, 0);
    assert_eq!(report.outcomes.len(), 3);
    assert_eq!(report.outcomes[0], report.outcomes[2]);
    assert_ne!(report.outcomes[0], report.outcomes[1]);
}

#[test]
fn plan_region_of_a_known_tag() {
    let (outcome, notice) = plan_region("/fw", "img", &region("bzip2", 32, 64));
    let expected = plan_blueprint("/fw", "img", 32, 64, &Format::Bzip2.profile());
    assert_eq!(notice.level, Level::Info);
    assert_eq!(notice.text, announcement("bzip2", 32, 64, &render_table(&expected)));
    assert_eq!(outcome, Ok(expected));
}

#[test]
fn plan_region_of_an_unknown_tag() {
    let (outcome, notice) = plan_region("/fw", "img", &region("GZIP", 32, 64));
    assert_eq!(outcome, Err(UnknownFormat { tag: String::from("GZIP") }));
    assert_eq!(notice.level, Level::Error);
    assert_eq!(notice.text, "Unable to find valid compression! Got 'GZIP' instead.");
}

#[test]
fn two_runs_give_the_same_report() {
    let regions = vec![region("lzop", 11, 22), region("nope", 0, 0), region("lzfse", 33, 44)];
    assert_eq!(plan_regions("/fw", "img", &regions), plan_regions("/fw", "img", &regions));
}

#[test]
fn policy_goes_from_idle_to_a_final_state() {
    assert_eq!(PolicyState::Idle.on_scan(0), PolicyState::Scanned(0));
    assert_eq!(PolicyState::Idle.on_scan(0).decide(), PolicyState::Empty);
    assert_eq!(PolicyState::Idle.on_scan(1).decide(), PolicyState::Single);
    assert_eq!(PolicyState::Idle.on_scan(2).decide(), PolicyState::Multiple);
    assert_eq!(PolicyState::Idle.on_scan(usize::MAX).decide(), PolicyState::Multiple);
}

#[test]
fn policy_steps_out_of_turn_change_nothing() {
    assert_eq!(PolicyState::Idle.decide(), PolicyState::Idle);
    assert_eq!(PolicyState::Scanned(3).on_scan(0), PolicyState::Scanned(3));
    for state in [PolicyState::Empty, PolicyState::Single, PolicyState::Multiple] {
        assert_eq!(state.on_scan(5), state);
        assert_eq!(state.decide(), state);
    }
}
