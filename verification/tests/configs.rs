use system_recorder::config::{AppConfig, RuleEdit};
use system_recorder::dsp::{DspSettings, DspSlider, DspSwitch};
use system_recorder::naming::{NamingMode, SequenceType};
use system_recorder::single::Single;

fn names(c: &AppConfig) -> Vec<&str> {
    c.naming_rules.iter().map(|r| r.name.as_str()).collect()
}

#[test]
fn a_fresh_configuration_names_by_time() {
    let c = AppConfig::default();
    assert_eq!(c.last_dir, None);
    assert_eq!(names(&c), vec!["默认 (来源+时间戳)"]);
    assert_eq!(c.naming_rules[0].mode, NamingMode::Timestamped);
    assert_eq!(c.naming_rules[0].current_sequence, 0);
    assert_eq!(c.selected_rule_idx, 0);
    assert!(c.has_selection());
    assert!(!c.can_remove());
}

#[test]
fn new_rules_are_counted_and_selected() {
    let mut c = AppConfig::default();
    c.add_rule();
    c.add_rule();
    assert_eq!(names(&c), vec!["默认 (来源+时间戳)", "新规则 1", "新规则 2"]);
    assert_eq!(c.selected_rule_idx, 2);
    assert!(c.can_remove());
}

#[test]
fn deleting_selects_the_next_rule() {
    let mut c = AppConfig::default();
    c.add_rule();
    c.add_rule();
    c.select_rule(1);
    c.remove_selected();
    assert_eq!(names(&c), vec!["默认 (来源+时间戳)", "新规则 2"]);
    assert_eq!(c.selected_rule_idx, 1);
    c.remove_selected();
    assert_eq!(names(&c), vec!["默认 (来源+时间戳)"]);
    assert_eq!(c.selected_rule_idx, 0);
}

#[test]
fn deleting_undoes_adding() {
    let mut c = AppConfig::default();
    c.add_rule();
    c.select_rule(0);
    c.add_rule();
    c.remove_selected();
    assert_eq!(names(&c), vec!["默认 (来源+时间戳)", "新规则 1"]);
    assert_eq!(c.selected_rule_idx, 1);
}

#[test]
fn a_rule_goes_through_its_modes() {
    let mut c = AppConfig::default();
    assert!(c.edit_selected(RuleEdit::Rename("会议".to_string())));
    assert_eq!(c.naming_rules[0].name, "会议");
    assert!(c.edit_selected(RuleEdit::ToFixed));
    assert_eq!(c.naming_rules[0].mode, NamingMode::Fixed("recording".to_string()));
    assert!(c.edit_selected(RuleEdit::FileName("talk".to_string())));
    assert_eq!(c.naming_rules[0].mode, NamingMode::Fixed("talk".to_string()));
    assert!(c.edit_selected(RuleEdit::ToTimestamped));
    assert_eq!(c.naming_rules[0].mode, NamingMode::Timestamped);
    assert!(c.edit_selected(RuleEdit::ToAutoIncrement));
    assert_eq!(
        c.naming_rules[0].mode,
        NamingMode::AutoIncrement { prefix: String::new(), sequence: SequenceType::Numeric }
    );
    assert!(c.edit_selected(RuleEdit::Prefix("p".to_string())));
    assert!(c.edit_selected(RuleEdit::Sequence(SequenceType::AlphabeticUpper)));
    assert_eq!(
        c.naming_rules[0].mode,
        NamingMode::AutoIncrement {
            prefix: "p".to_string(),
            sequence: SequenceType::AlphabeticUpper,
        }
    );
    assert_eq!(c.naming_rules[0].name, "会议");
}

#[test]
fn edits_that_are_not_offered_change_nothing() {
    let mut c = AppConfig::default();
    assert!(!c.edit_selected(RuleEdit::ToTimestamped));
    assert!(!c.edit_selected(RuleEdit::FileName("x".to_string())));
    assert!(!c.edit_selected(RuleEdit::Prefix("x".to_string())));
    assert!(!c.edit_selected(RuleEdit::Sequence(SequenceType::Numeric)));
    assert_eq!(c.naming_rules[0].mode, NamingMode::Timestamped);
    assert!(c.edit_selected(RuleEdit::ToFixed));
    assert!(!c.edit_selected(RuleEdit::ToFixed));
    assert!(!c.edit_selected(RuleEdit::ToAutoIncrement));
    c.selected_rule_idx = 5;
    assert!(!c.has_selection());
    assert!(!c.edit_selected(RuleEdit::Rename("y".to_string())));
    assert_eq!(c.naming_rules[0].name, "默认 (来源+时间戳)");
}

#[test]
fn only_series_are_counted() {
    let mut c = AppConfig::default();
    c.count_file();
    assert_eq!(c.naming_rules[0].current_sequence, 0);
    c.edit_selected(RuleEdit::ToAutoIncrement);
    c.count_file();
    c.count_file();
    assert_eq!(c.naming_rules[0].current_sequence, 2);
    // the count survives a change of the mode
    c.edit_selected(RuleEdit::ToTimestamped);
    assert_eq!(c.naming_rules[0].current_sequence, 2);
}

#[test]
fn sound_settings_are_kept() {
    let mut c = AppConfig::default();
    let mut s = DspSettings::default();
    s.set_switch(DspSwitch::Gate, true);
    s.set_level(DspSlider::GateThreshold, Single::from_bits(0.05f32.to_bits()));
    c.store_dsp(s);
    assert!(c.dsp_settings.enable_gate);
    assert_eq!(c.dsp_settings.gate_threshold.bits, 0.05f32.to_bits());
    assert_eq!(names(&c), vec!["默认 (来源+时间戳)"]);
}
