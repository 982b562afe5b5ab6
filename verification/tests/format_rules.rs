//! The merge and expansion behavior of the format rule sets.

use ineed::format::FmtRule;
use ineed::format::FmtRules;
use ineed::format::Mergeable;
use ineed::format::Partial;
use ineed::format::Position;
use ineed::format::rules::ExpandedSelectedFmtRules;
use ineed::format::rules::ExpandedWrittenFmtRules;
use ineed::format::rules::SelectedFmtRules;
use ineed::format::rules::WrittenFmtRules;

#[test]
fn partial_written_fmt_infer_default() {
    let default_fmt_rules = WrittenFmtRules::default().expand();
    let fmt_rules = ineed::fmt()
        .msg_prefix("my super prefix")
        .break_line(!default_fmt_rules.break_line);
    let fmt_rules = WrittenFmtRules::from_fmt(&fmt_rules.collect()).expand();

    assert_eq!(
        fmt_rules,
        ExpandedWrittenFmtRules {
            msg_prefix: "my super prefix".to_string(),
            break_line: !default_fmt_rules.break_line,
            ..default_fmt_rules
        }
    )
}

#[test]
fn written_fmt_exclusive_merge() {
    let default_fmt_rules = WrittenFmtRules::default().expand();

    let fmt_rules1 = ineed::fmt()
        .msg_prefix("my super prefix")
        .break_line(!default_fmt_rules.break_line);
    let fmt_rules1 = WrittenFmtRules::from_fmt(&fmt_rules1.collect());

    let fmt_rules2 = ineed::fmt()
        .input_prefix("my giga input prefix")
        .repeat_prompt(!default_fmt_rules.repeat_prompt);
    let fmt_rules2 = WrittenFmtRules::from_fmt(&fmt_rules2.collect());

    let fmt_rules = fmt_rules1.merge_with(&fmt_rules2).expand();

    assert_eq!(
        fmt_rules,
        ExpandedWrittenFmtRules {
            msg_prefix: "my super prefix".to_string(),
            input_prefix: "my giga input prefix".to_string(),
            break_line: !default_fmt_rules.break_line,
            repeat_prompt: !default_fmt_rules.repeat_prompt,
        }
    )
}

#[test]
fn written_fmt_conflicting_merge() {
    let fmt_rules1 = ineed::fmt().msg_prefix("my msg prefix 1");
    let fmt_rules1 = WrittenFmtRules::from_fmt(&fmt_rules1.collect());

    let fmt_rules2 = ineed::fmt().msg_prefix("my omega msg prefix 2");
    let fmt_rules2 = WrittenFmtRules::from_fmt(&fmt_rules2.collect());

    let merged = fmt_rules1.merge_with(&fmt_rules2).expand();
    assert_eq!(
        merged,
        ExpandedWrittenFmtRules {
            msg_prefix: "my msg prefix 1".to_string(),
            ..ExpandedWrittenFmtRules::default()
        }
    );

    let merged = fmt_rules2.merge_with(&fmt_rules1).expand();
    assert_eq!(
        merged,
        ExpandedWrittenFmtRules {
            msg_prefix: "my omega msg prefix 2".to_string(),
            ..ExpandedWrittenFmtRules::default()
        }
    );
}

#[test]
fn partial_selected_fmt_infer_default() {
    let default_fmt_rules = SelectedFmtRules::default().expand();
    let fmt_rules = ineed::fmt()
        .msg_prefix("my super prefix")
        .break_line(!default_fmt_rules.break_line)
        .list_msg_pos(Position::Bottom);
    let fmt_rules = SelectedFmtRules::from_fmt(&fmt_rules.collect()).expand();

    assert_eq!(
        fmt_rules,
        ExpandedSelectedFmtRules {
            msg_prefix: "my super prefix".to_string(),
            break_line: !default_fmt_rules.break_line,
            list_msg_pos: Position::Bottom,
            ..default_fmt_rules
        }
    );
}

#[test]
fn selected_fmt_exclusive_merge() {
    let default_fmt_rules = SelectedFmtRules::default().expand();

    let fmt_rules1 = ineed::fmt().list_surrounds("<", ">").input_prefix("-> ");
    let fmt_rules1 = SelectedFmtRules::from_fmt(&fmt_rules1.collect());

    let fmt_rules2 = ineed::fmt()
        .msg_prefix("my giga msg prefix")
        .repeat_prompt(!default_fmt_rules.repeat_prompt);
    let fmt_rules2 = SelectedFmtRules::from_fmt(&fmt_rules2.collect());

    let fmt_rules = fmt_rules1.merge_with(&fmt_rules2).expand();

    assert_eq!(
        fmt_rules,
        ExpandedSelectedFmtRules {
            msg_prefix: "my giga msg prefix".to_string(),
            input_prefix: "-> ".to_string(),
            repeat_prompt: !default_fmt_rules.repeat_prompt,
            list_surrounds: ("<".to_string(), ">".to_string()),
            ..default_fmt_rules
        }
    )
}

#[test]
fn selected_fmt_conflicting_merge() {
    let fmt_rules1 = ineed::fmt().list_surrounds("<", ">");
    let fmt_rules1 = SelectedFmtRules::from_fmt(&fmt_rules1.collect());

    let fmt_rules2 = ineed::fmt().list_surrounds("<<", ">>");
    let fmt_rules2 = SelectedFmtRules::from_fmt(&fmt_rules2.collect());

    let merged = fmt_rules1.merge_with(&fmt_rules2).expand();

    assert_eq!(
        merged,
        ExpandedSelectedFmtRules {
            list_surrounds: ("<".to_string(), ">".to_string()),
            ..ExpandedSelectedFmtRules::default()
        }
    );

    let merged = fmt_rules2.merge_with(&fmt_rules1).expand();

    assert_eq!(
        merged,
        ExpandedSelectedFmtRules {
            list_surrounds: ("<<".to_string(), ">>".to_string()),
            ..ExpandedSelectedFmtRules::default()
        }
    );
}

#[test]
fn expand_of_empty_override_is_hardcoded_defaults() {
    let written = WrittenFmtRules::default().expand();
    assert_eq!(
        written,
        ExpandedWrittenFmtRules {
            msg_prefix: "- ".to_string(),
            input_prefix: "> ".to_string(),
            break_line: true,
            repeat_prompt: false,
        }
    );

    let selected = SelectedFmtRules::default().expand();
    assert_eq!(
        selected,
        ExpandedSelectedFmtRules {
            msg_prefix: "- ".to_string(),
            input_prefix: "> ".to_string(),
            break_line: true,
            repeat_prompt: false,
            list_surrounds: ("[".to_string(), "] - ".to_string()),
            list_msg_pos: Position::Bottom,
        }
    );
}

#[test]
fn latest_builder_call_wins() {
    let fmt_rules = ineed::fmt().msg_prefix("first").msg_prefix("second");
    let rules = WrittenFmtRules::from_fmt(&fmt_rules.collect()).expand();
    assert_eq!(rules.msg_prefix, "second");
}
