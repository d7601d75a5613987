//! The configuration: naming rules, the last directory, and the sound settings.
use vstd::prelude::*;
use vstd::string::*;

use crate::dsp::DspSettings;
use crate::naming::{NamingMode, SequenceType};
use crate::text::push_decimal;

verus! {

/// A named way of naming files.
#[derive(Debug)]
pub struct NamingRule {
    pub name: String,
    pub mode: NamingMode,
    /// The number of the last file of the series.
    pub current_sequence: usize,
}

/// What is kept between two runs of the program.
#[derive(Debug)]
pub struct AppConfig {
    pub last_dir: Option<String>,
    pub naming_rules: Vec<NamingRule>,
    pub selected_rule_idx: usize,
    pub dsp_settings: DspSettings,
}

/// What the naming window can do to the selected rule.
#[derive(Debug, PartialEq, Eq)]
pub enum RuleEdit {
    Rename(String),
    ToFixed,
    ToAutoIncrement,
    ToTimestamped,
    FileName(String),
    Prefix(String),
    Sequence(SequenceType),
}

/// Which edits the window offers depends on the mode of the rule.
pub open spec fn offered(mode: NamingMode, edit: RuleEdit) -> bool {
    match edit {
        RuleEdit::Rename(_) => true,
        RuleEdit::ToFixed => mode is Timestamped,
        RuleEdit::ToAutoIncrement => mode is Timestamped,
        RuleEdit::ToTimestamped => !(mode is Timestamped),
        RuleEdit::FileName(_) => mode is Fixed,
        RuleEdit::Prefix(_) => mode is AutoIncrement,
        RuleEdit::Sequence(_) => mode is AutoIncrement,
    }
}

/// Whether `r` is the rule after an edit that the window offers for it.
pub open spec fn edited(rule: NamingRule, edit: RuleEdit, r: NamingRule) -> bool {
    &&& r.current_sequence == rule.current_sequence
    &&& !(edit is Rename) ==> r.name == rule.name
    &&& match edit {
        RuleEdit::Rename(name) => r.name == name && r.mode == rule.mode,
        RuleEdit::ToFixed => r.mode matches NamingMode::Fixed(name) && name@ == "recording"@,
        RuleEdit::ToAutoIncrement => {
            &&& r.mode matches NamingMode::AutoIncrement { prefix, sequence }
            &&& prefix@ == Seq::<char>::empty()
            &&& sequence == SequenceType::Numeric
        },
        RuleEdit::ToTimestamped => r.mode == NamingMode::Timestamped,
        RuleEdit::FileName(name) => r.mode == NamingMode::Fixed(name),
        RuleEdit::Prefix(prefix) => r.mode == (NamingMode::AutoIncrement {
            prefix,
            sequence: rule.mode->sequence,
        }),
        RuleEdit::Sequence(sequence) => r.mode == (NamingMode::AutoIncrement {
            prefix: rule.mode->prefix,
            sequence,
        }),
    }
}

fn is_offered(mode: &NamingMode, edit: &RuleEdit) -> (b: bool)
    ensures
        b == offered(*mode, *edit),
{
    match edit {
        RuleEdit::Rename(_) => true,
        RuleEdit::ToFixed | RuleEdit::ToAutoIncrement => match mode {
            NamingMode::Timestamped => true,
            _ => false,
        },
        RuleEdit::ToTimestamped => match mode {
            NamingMode::Timestamped => false,
            _ => true,
        },
        RuleEdit::FileName(_) => match mode {
            NamingMode::Fixed(_) => true,
            _ => false,
        },
        RuleEdit::Prefix(_) | RuleEdit::Sequence(_) => match mode {
            NamingMode::AutoIncrement { .. } => true,
            _ => false,
        },
    }
}

fn edit_rule(rule: NamingRule, edit: RuleEdit) -> (r: NamingRule)
    requires
        offered(rule.mode, edit),
    ensures
        edited(rule, edit, r),
{
    let NamingRule { name, mode, current_sequence } = rule;
    match edit {
        RuleEdit::Rename(name) => NamingRule { name, mode, current_sequence },
        RuleEdit::ToFixed => NamingRule {
            name,
            mode: NamingMode::Fixed("recording".to_string()),
            current_sequence,
        },
        RuleEdit::ToAutoIncrement => NamingRule {
            name,
            mode: NamingMode::AutoIncrement {
                prefix: String::new(),
                sequence: SequenceType::Numeric,
            },
            current_sequence,
        },
        RuleEdit::ToTimestamped => NamingRule {
            name,
            mode: NamingMode::Timestamped,
            current_sequence,
        },
        RuleEdit::FileName(file) => NamingRule {
            name,
            mode: NamingMode::Fixed(file),
            current_sequence,
        },
        RuleEdit::Prefix(prefix) => {
            let mode = match mode {
                NamingMode::AutoIncrement { sequence, .. } => NamingMode::AutoIncrement {
                    prefix,
                    sequence,
                },
                other => other,
            };
            NamingRule { name, mode, current_sequence }
        },
        RuleEdit::Sequence(sequence) => {
            let mode = match mode {
                NamingMode::AutoIncrement { prefix, .. } => NamingMode::AutoIncrement {
                    prefix,
                    sequence,
                },
                other => other,
            };
            NamingRule { name, mode, current_sequence }
        },
    }
}

/// Whether `after` is the configuration `before` with a new rule.
pub open spec fn rule_added(before: AppConfig, after: AppConfig) -> bool {
    &&& after.naming_rules@.len() == before.naming_rules@.len() + 1
    &&& after.naming_rules@.drop_last() == before.naming_rules@
    &&& after.selected_rule_idx == before.naming_rules@.len()
    &&& after.rule().name@ == "新规则 "@ + crate::text::decimal(before.naming_rules@.len())
    &&& after.rule().mode == NamingMode::Timestamped
    &&& after.rule().current_sequence == 0
    &&& after.same_elsewhere(before)
}

/// Whether `after` is the configuration `before` without its selected rule.
pub open spec fn rule_removed(before: AppConfig, after: AppConfig) -> bool {
    &&& after.naming_rules@ == before.naming_rules@.remove(before.selected_rule_idx as int)
    &&& after.selected_rule_idx == if before.selected_rule_idx < after.naming_rules@.len() {
        before.selected_rule_idx as int
    } else {
        after.naming_rules@.len() - 1
    }
    &&& after.same_elsewhere(before)
}

/// Whether editing the selected rule changes the configuration `before` to
/// `after`, and whether it was `done` at all.
pub open spec fn rule_edited(
    before: AppConfig,
    edit: RuleEdit,
    done: bool,
    after: AppConfig,
) -> bool {
    &&& done <==> before.wf() && offered(before.rule().mode, edit)
    &&& !done ==> after == before
    &&& done ==> {
        &&& after.selected_rule_idx == before.selected_rule_idx
        &&& edited(before.rule(), edit, after.rule())
        &&& after.naming_rules@ == before.naming_rules@.update(
            before.selected_rule_idx as int,
            after.rule(),
        )
        &&& after.same_elsewhere(before)
    }
}

/// Whether `after` is the configuration `before` with one more file counted.
pub open spec fn file_counted(before: AppConfig, after: AppConfig) -> bool {
    &&& after.selected_rule_idx == before.selected_rule_idx
    &&& after.naming_rules@ == before.naming_rules@.update(
        before.selected_rule_idx as int,
        after.rule(),
    )
    &&& after.rule().name == before.rule().name
    &&& after.rule().mode == before.rule().mode
    &&& after.rule().current_sequence == before.rule().current_sequence
        + if before.rule().mode is AutoIncrement {
        1int
    } else {
        0
    }
    &&& after.same_elsewhere(before)
}

impl AppConfig {
    /// Whether this is the configuration of a fresh installation.
    pub open spec fn is_default(self) -> bool {
        &&& self.last_dir is None
        &&& self.naming_rules@.len() == 1
        &&& self.selected_rule_idx == 0
        &&& self.rule().name@ == "默认 (来源+时间戳)"@
        &&& self.rule().mode == NamingMode::Timestamped
        &&& self.rule().current_sequence == 0
        &&& self.dsp_settings.is_default()
    }

    /// Whether the selected rule may be deleted.
    pub open spec fn removable(self) -> bool {
        self.naming_rules@.len() > 1
    }

    /// Whether a rule is selected. The window and the recorder keep it so; a
    /// configuration from a file may not have it.
    pub open spec fn wf(self) -> bool {
        self.selected_rule_idx < self.naming_rules@.len()
    }

    /// The selected rule.
    pub open spec fn rule(self) -> NamingRule {
        self.naming_rules@[self.selected_rule_idx as int]
    }

    /// Whether everything but the naming rules agrees.
    pub open spec fn same_elsewhere(self, other: AppConfig) -> bool {
        self.last_dir == other.last_dir && self.dsp_settings == other.dsp_settings
    }

    /// Whether a rule is selected.
    pub fn has_selection(&self) -> (b: bool)
        ensures
            b == self.wf(),
    {
        self.selected_rule_idx < self.naming_rules.len()
    }

    /// Selects another rule.
    pub fn select_rule(&mut self, idx: usize)
        requires
            idx < old(self).naming_rules@.len(),
        ensures
            final(self).wf(),
            final(self).selected_rule_idx == idx,
            final(self).naming_rules == old(self).naming_rules,
            final(self).same_elsewhere(*old(self)),
    {
        self.selected_rule_idx = idx;
    }

    /// Edits the selected rule, where there is one and the window offers the
    /// edit. Says whether it did.
    pub fn edit_selected(&mut self, edit: RuleEdit) -> (done: bool)
        ensures
            done == (old(self).wf() && offered(old(self).rule().mode, edit)),
            !done ==> *final(self) == *old(self),
            done ==> {
                &&& final(self).wf()
                &&& final(self).selected_rule_idx == old(self).selected_rule_idx
                &&& edited(old(self).rule(), edit, final(self).rule())
                &&& final(self).naming_rules@ == old(self).naming_rules@.update(
                    old(self).selected_rule_idx as int,
                    final(self).rule(),
                )
                &&& final(self).same_elsewhere(*old(self))
            },
            rule_edited(*old(self), edit, done, *final(self)),
    {
        let idx = self.selected_rule_idx;
        if idx >= self.naming_rules.len() {
            return false;
        }
        if !is_offered(&self.naming_rules[idx].mode, &edit) {
            return false;
        }
        let rule = self.naming_rules.remove(idx);
        let rule = edit_rule(rule, edit);
        self.naming_rules.insert(idx, rule);
        assert(self.naming_rules@ == old(self).naming_rules@.update(idx as int, self.rule()));
        true
    }

    /// Adds a rule at the end and selects it. It names files by time, and its
    /// own name counts the rules before it.
    pub fn add_rule(&mut self)
        ensures
            rule_added(*old(self), *final(self)),
            final(self).wf(),
    {
        let count: usize = self.naming_rules.len();
        let mut name = "新规则 ".to_string();
        push_decimal(&mut name, count as u64);
        self.naming_rules.push(
            NamingRule { name, mode: NamingMode::Timestamped, current_sequence: 0 },
        );
        self.selected_rule_idx = self.naming_rules.len() - 1;
        assert(self.naming_rules@.drop_last() == old(self).naming_rules@);
    }

    /// Whether the window offers to delete the selected rule: the last rule stays.
    pub fn can_remove(&self) -> (b: bool)
        ensures
            b == (self.naming_rules@.len() > 1),
            b == self.removable(),
    {
        self.naming_rules.len() > 1
    }

    /// Deletes the selected rule. The rule that moves to its place is selected,
    /// or the last one where there is none.
    pub fn remove_selected(&mut self)
        requires
            old(self).wf(),
            old(self).naming_rules@.len() > 1,
        ensures
            rule_removed(*old(self), *final(self)),
            final(self).wf(),
    {
        self.naming_rules.remove(self.selected_rule_idx);
        if self.selected_rule_idx >= self.naming_rules.len() {
            self.selected_rule_idx = self.naming_rules.len() - 1;
        }
    }

    /// Counts one more file of the selected rule's series; other rules are not
    /// numbered.
    pub fn count_file(&mut self)
        requires
            old(self).wf(),
            old(self).rule().mode is AutoIncrement ==> old(self).rule().current_sequence
                < usize::MAX,
        ensures
            final(self).wf(),
            final(self).selected_rule_idx == old(self).selected_rule_idx,
            final(self).naming_rules@ == old(self).naming_rules@.update(
                old(self).selected_rule_idx as int,
                final(self).rule(),
            ),
            final(self).rule().name == old(self).rule().name,
            final(self).rule().mode == old(self).rule().mode,
            final(self).rule().current_sequence == old(self).rule().current_sequence + if old(
                self).rule().mode is AutoIncrement {
                1int
            } else {
                0
            },
            final(self).same_elsewhere(*old(self)),
            file_counted(*old(self), *final(self)),
    {
        let idx = self.selected_rule_idx;
        let numbered = match &self.naming_rules[idx].mode {
            NamingMode::AutoIncrement { .. } => true,
            _ => false,
        };
        if numbered {
            let n = self.naming_rules[idx].current_sequence;
            self.naming_rules[idx].current_sequence = n + 1;
        }
        assert(self.naming_rules@ == old(self).naming_rules@.update(idx as int, self.rule()));
    }

    /// Keeps new sound settings.
    pub fn store_dsp(&mut self, settings: DspSettings)
        ensures
            final(self).dsp_settings == settings,
            final(self).last_dir == old(self).last_dir,
            final(self).naming_rules == old(self).naming_rules,
            final(self).selected_rule_idx == old(self).selected_rule_idx,
    {
        self.dsp_settings = settings;
    }
}

impl Default for AppConfig {
    fn default() -> (c: Self)
        ensures
            c.wf(),
            c.last_dir is None,
            c.naming_rules@.len() == 1,
            c.selected_rule_idx == 0,
            c.rule().name@ == "默认 (来源+时间戳)"@,
            c.rule().mode == NamingMode::Timestamped,
            c.rule().current_sequence == 0,
            c.dsp_settings.is_default(),
            c.is_default(),
    {
        let mut naming_rules: Vec<NamingRule> = Vec::new();
        naming_rules.push(
            NamingRule {
                name: "默认 (来源+时间戳)".to_string(),
                mode: NamingMode::Timestamped,
                current_sequence: 0,
            },
        );
        AppConfig {
            last_dir: None,
            naming_rules,
            selected_rule_idx: 0,
            dsp_settings: DspSettings::default(),
        }
    }
}

/// Deleting a rule right after adding it gives the configuration back as it
/// was, with the last rule selected.
pub proof fn law_remove_undoes_add(before: AppConfig, added: AppConfig, after: AppConfig)
    requires
        before.naming_rules@.len() > 0,
        rule_added(before, added),
        rule_removed(added, after),
    ensures
        after.naming_rules@ == before.naming_rules@,
        after.selected_rule_idx == before.naming_rules@.len() - 1,
        after.same_elsewhere(before),
{
}

// ---------------------------------------------------------------------------
// Laws of editing
// ---------------------------------------------------------------------------
/// What the window offers for a rule: renaming always; for time stamps the two
/// other modes; for the two other modes time stamps and their own texts.
pub proof fn law_offered_edits(mode: NamingMode, text: String, sequence: SequenceType)
    ensures
        offered(mode, RuleEdit::Rename(text)),
        offered(mode, RuleEdit::ToFixed) <==> mode == NamingMode::Timestamped,
        offered(mode, RuleEdit::ToAutoIncrement) <==> mode == NamingMode::Timestamped,
        offered(mode, RuleEdit::ToTimestamped) <==> mode != NamingMode::Timestamped,
        offered(mode, RuleEdit::FileName(text)) <==> mode is Fixed,
        offered(mode, RuleEdit::Prefix(text)) <==> mode is AutoIncrement,
        offered(mode, RuleEdit::Sequence(sequence)) <==> mode is AutoIncrement,
{
}

/// What an edit makes of a rule. The number of its last file is never touched,
/// its name only by renaming, and its mode never by renaming.
pub proof fn law_edits(rule: NamingRule, edit: RuleEdit, r: NamingRule)
    requires
        offered(rule.mode, edit),
        edited(rule, edit, r),
    ensures
        r.current_sequence == rule.current_sequence,
        edit matches RuleEdit::Rename(name) ==> r.name == name && r.mode == rule.mode,
        !(edit is Rename) ==> r.name == rule.name,
        edit is ToFixed ==> r.mode is Fixed && r.mode->Fixed_0@ == "recording"@,
        edit is ToAutoIncrement ==> r.mode is AutoIncrement && r.mode->prefix@.len() == 0
            && r.mode->sequence is Numeric,
        edit is ToTimestamped ==> r.mode is Timestamped,
        edit matches RuleEdit::FileName(name) ==> r.mode is Fixed && r.mode->Fixed_0 == name,
        edit matches RuleEdit::Prefix(prefix) ==> r.mode is AutoIncrement && r.mode->prefix
            == prefix && r.mode->sequence == rule.mode->sequence,
        edit matches RuleEdit::Sequence(sequence) ==> r.mode is AutoIncrement
            && r.mode->sequence == sequence && r.mode->prefix == rule.mode->prefix,
{
}

/// A rule is selected exactly where the selection names one of the rules, and it
/// is that one.
pub proof fn law_selection(c: AppConfig)
    ensures
        c.wf() <==> c.selected_rule_idx < c.naming_rules@.len(),
        c.wf() ==> c.rule() == c.naming_rules@[c.selected_rule_idx as int],
{
}

/// Adding a rule keeps all others in their places and selects the new one, which
/// names files by time and is called after the number of rules before it.
pub proof fn law_added_rule(before: AppConfig, after: AppConfig, i: int)
    requires
        rule_added(before, after),
    ensures
        after.naming_rules@.len() == before.naming_rules@.len() + 1,
        0 <= i < before.naming_rules@.len() ==> after.naming_rules@[i] == before.naming_rules@[i],
        after.selected_rule_idx == before.naming_rules@.len(),
        after.naming_rules@.last().mode is Timestamped,
        after.naming_rules@.last().current_sequence == 0,
        after.naming_rules@.last().name@ == "新规则 "@ + crate::text::decimal(
            before.naming_rules@.len(),
        ),
        after.last_dir == before.last_dir,
        after.dsp_settings == before.dsp_settings,
{
    if 0 <= i < before.naming_rules@.len() {
        assert(after.naming_rules@.drop_last()[i] == before.naming_rules@[i]);
    }
}

/// Deleting takes the selected rule and no other: those before it stay, those
/// behind it move up by one, and the selection stays at its place or goes to the
/// last rule.
pub proof fn law_removed_rule(before: AppConfig, after: AppConfig, i: int)
    requires
        before.selected_rule_idx < before.naming_rules@.len(),
        before.naming_rules@.len() > 1,
        rule_removed(before, after),
    ensures
        after.naming_rules@.len() == before.naming_rules@.len() - 1,
        0 <= i < before.selected_rule_idx ==> after.naming_rules@[i] == before.naming_rules@[i],
        before.selected_rule_idx <= i < after.naming_rules@.len() ==> after.naming_rules@[i]
            == before.naming_rules@[i + 1],
        before.selected_rule_idx < before.naming_rules@.len() - 1 ==> after.selected_rule_idx
            == before.selected_rule_idx,
        before.selected_rule_idx == before.naming_rules@.len() - 1 ==> after.selected_rule_idx
            == before.selected_rule_idx - 1,
        after.last_dir == before.last_dir,
        after.dsp_settings == before.dsp_settings,
{
}

/// An edit is done exactly where a rule is selected and offers it. It touches the
/// selected rule alone, and nothing where it is not done.
pub proof fn law_edited_rule(
    before: AppConfig,
    edit: RuleEdit,
    done: bool,
    after: AppConfig,
    i: int,
)
    requires
        rule_edited(before, edit, done, after),
    ensures
        done <==> before.selected_rule_idx < before.naming_rules@.len() && offered(
            before.naming_rules@[before.selected_rule_idx as int].mode,
            edit,
        ),
        !done ==> after == before,
        after.naming_rules@.len() == before.naming_rules@.len(),
        0 <= i < before.naming_rules@.len() && i != before.selected_rule_idx
            ==> after.naming_rules@[i] == before.naming_rules@[i],
        done ==> edited(
            before.naming_rules@[before.selected_rule_idx as int],
            edit,
            after.naming_rules@[before.selected_rule_idx as int],
        ),
        after.selected_rule_idx == before.selected_rule_idx,
        after.last_dir == before.last_dir,
        after.dsp_settings == before.dsp_settings,
{
}

/// A file is counted for the selected rule exactly where that numbers its files;
/// no other rule and nothing else of the rule changes.
pub proof fn law_counted_file(before: AppConfig, after: AppConfig, i: int)
    requires
        before.selected_rule_idx < before.naming_rules@.len(),
        file_counted(before, after),
    ensures
        ({
            let idx = before.selected_rule_idx as int;
            let rule = before.naming_rules@[idx];
            let new_rule = after.naming_rules@[idx];
            &&& rule.mode is AutoIncrement ==> new_rule.current_sequence == rule.current_sequence
                + 1
            &&& !(rule.mode is AutoIncrement) ==> new_rule == rule
            &&& new_rule.name == rule.name
            &&& new_rule.mode == rule.mode
            &&& 0 <= i < before.naming_rules@.len() && i != idx ==> after.naming_rules@[i]
                == before.naming_rules@[i]
        }),
        after.naming_rules@.len() == before.naming_rules@.len(),
        after.selected_rule_idx == before.selected_rule_idx,
        after.last_dir == before.last_dir,
        after.dsp_settings == before.dsp_settings,
{
}

/// The last rule is never deleted: where deleting is offered there are two rules
/// or more, and a selected one is left behind.
pub proof fn law_a_rule_is_left(before: AppConfig, after: AppConfig)
    requires
        before.wf(),
        rule_removed(before, after),
    ensures
        before.removable() <==> before.naming_rules@.len() >= 2,
        before.removable() ==> after.naming_rules@.len() >= 1 && after.selected_rule_idx
            < after.naming_rules@.len(),
{
}

/// A fresh installation has one rule, which names files by time, and has recorded
/// nothing yet.
pub proof fn law_default_config(c: AppConfig)
    requires
        c.is_default(),
    ensures
        c.last_dir is None,
        c.naming_rules@.len() == 1,
        c.selected_rule_idx == 0,
        c.naming_rules@[0].name@ == "默认 (来源+时间戳)"@,
        c.naming_rules@[0].mode is Timestamped,
        c.naming_rules@[0].current_sequence == 0,
        c.dsp_settings.is_default(),
{
}

} // verus!
