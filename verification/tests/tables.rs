use kforge::blueprint::{plan_blueprint, Blueprint, BlueprintStep};
use kforge::profile::Format;
use kforge::table::{announcement, headline, records_of, render_table};

fn short_plan() -> Blueprint {
    Blueprint {
        steps: vec![BlueprintStep { step: 1, description: "a", commands: String::from("b") }],
    }
}

#[test]
fn records_start_with_the_header() {
    let records = records_of(&short_plan());
    assert_eq!(
        records,
        vec![
            vec![String::from("step"), String::from("description"), String::from("commands")],
            vec![String::from("1"), String::from("a"), String::from("b")],
        ]
    );
}

#[test]
fn records_of_a_plan_have_one_row_per_step() {
    let blueprint = plan_blueprint("/fw", "img", 4096, 512, &Format::Xz.profile());
    let records = records_of(&blueprint);
    assert_eq!(records.len(), 9);
    for (i, step) in blueprint.steps.iter().enumerate() {
        assert_eq!(records[i + 1].len(), 3);
        assert_eq!(records[i + 1][0], format!("{}", i + 1));
        assert_eq!(records[i + 1][1], step.description);
        assert_eq!(records[i + 1][2], step.commands);
    }
}

#[test]
fn table_of_a_short_plan() {
    let expected = "\
┌──────┬─────────────┬──────────┐
│ step │ description │ commands │
├──────┼─────────────┼──────────┤
│ 1    │ a           │ b        │
└──────┴─────────────┴──────────┘";
    assert_eq!(render_table(&short_plan()), expected);
}

#[test]
fn table_keeps_the_lines_of_a_cell_apart() {
    let blueprint = Blueprint {
        steps: vec![
            BlueprintStep { step: 1, description: "one", commands: String::from("x\nyy") },
            BlueprintStep { step: 2, description: "two", commands: String::from("z") },
        ],
    };
    let expected = "\
┌──────┬─────────────┬──────────┐
│ step │ description │ commands │
├──────┼─────────────┼──────────┤
│ 1    │ one         │ x        │
│      │             │ yy       │
├──────┼─────────────┼──────────┤
│ 2    │ two         │ z        │
└──────┴─────────────┴──────────┘";
    assert_eq!(render_table(&blueprint), expected);
}

#[test]
fn table_of_a_plan_shows_every_step() {
    let blueprint = plan_blueprint("/fw", "img", 4096, 512, &Format::Gzip.profile());
    let table = render_table(&blueprint);
    assert!(table.starts_with('┌'));
    assert!(table.ends_with('┘'));
    assert!(table.contains("│ step │ description"));
    for step in &blueprint.steps {
        assert!(table.contains(step.description));
        for line in step.commands.lines() {
            assert!(table.contains(line));
        }
    }
    assert!(table.contains("skip=$[0x1000] count=$[0x200]"));
}

#[test]
fn table_is_the_same_on_every_drawing() {
    let blueprint = plan_blueprint("/fw", "img", 77, 99, &Format::Lz4.profile());
    assert_eq!(render_table(&blueprint), render_table(&blueprint.clone()));
}

#[test]
fn headline_shows_tag_offset_and_size_in_decimal() {
    assert_eq!(
        headline("gzip", 4096, 512),
        "Kernel Modification Blueprint (Type: gzip, Offset: 4096, Size: 512 bytes)"
    );
    assert_eq!(
        headline("xz", 0, 0),
        "Kernel Modification Blueprint (Type: xz, Offset: 0, Size: 0 bytes)"
    );
}

#[test]
fn announcement_puts_the_table_under_the_headline() {
    assert_eq!(
        announcement("lzma", 10, 20, "TABLE"),
        "Kernel Modification Blueprint (Type: lzma, Offset: 10, Size: 20 bytes)\nTABLE"
    );
}
