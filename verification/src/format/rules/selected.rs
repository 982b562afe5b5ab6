//! The rules accepted by selection-style prompts.

use vstd::prelude::*;
use vstd::string::*;

use crate::format::ConstDefault;
use crate::format::Fmt;
use crate::format::FmtRules;
use crate::format::FmtView;
use crate::format::Mergeable;
use crate::format::Partial;
use crate::format::Position;
use crate::format::merged_field;

verus! {

/// The mathematical value of a selection rule set.
pub ghost struct SelectedRulesView {
    /// The text put right before the message, if set.
    pub msg_prefix: Option<Seq<char>>,
    /// The text put right before the operator's input, if set.
    pub input_prefix: Option<Seq<char>>,
    /// Whether a line break follows the message, if set.
    pub break_line: Option<bool>,
    /// Whether the whole prompt is repeated after an invalid input, if set.
    pub repeat_prompt: Option<bool>,
    /// The texts around each list item index, if set.
    pub list_surrounds: Option<(Seq<char>, Seq<char>)>,
    /// Where the message stands relative to the list, if set.
    pub list_msg_pos: Option<Position>,
}

impl SelectedRulesView {
    /// The set with every rule unset.
    pub open spec fn empty() -> SelectedRulesView {
        SelectedRulesView {
            msg_prefix: None,
            input_prefix: None,
            break_line: None,
            repeat_prompt: None,
            list_surrounds: None,
            list_msg_pos: None,
        }
    }
}

/// The set of rules accepted by selection-style prompts: everything the
/// written-style prompts accept, plus the list surrounds and the list
/// message position.
pub struct SelectedFmtRules {
    /// The text put right before the message, if set.
    pub msg_prefix: Option<String>,
    /// The text put right before the operator's input, if set.
    pub input_prefix: Option<String>,
    /// Whether a line break follows the message, if set.
    pub break_line: Option<bool>,
    /// Whether the whole prompt is repeated after an invalid input, if set.
    pub repeat_prompt: Option<bool>,
    /// The texts around each list item index, if set.
    pub list_surrounds: Option<(String, String)>,
    /// Where the message stands relative to the list, if set.
    pub list_msg_pos: Option<Position>,
}

impl View for SelectedFmtRules {
    type V = SelectedRulesView;

    open spec fn view(&self) -> SelectedRulesView {
        SelectedRulesView {
            msg_prefix: self.msg_prefix.deep_view(),
            input_prefix: self.input_prefix.deep_view(),
            break_line: self.break_line,
            repeat_prompt: self.repeat_prompt,
            list_surrounds: self.list_surrounds.deep_view(),
            list_msg_pos: self.list_msg_pos,
        }
    }
}

impl Default for SelectedFmtRules {
    /// The set with every rule unset.
    fn default() -> (r: Self)
        ensures
            r@ == SelectedRulesView::empty(),
    {
        SelectedFmtRules {
            msg_prefix: None,
            input_prefix: None,
            break_line: None,
            repeat_prompt: None,
            list_surrounds: None,
            list_msg_pos: None,
        }
    }
}

impl Mergeable for SelectedFmtRules {
    /// Field by field, a set rule of the left side wins.
    open spec fn spec_merge(a: SelectedRulesView, b: SelectedRulesView) -> SelectedRulesView {
        SelectedRulesView {
            msg_prefix: merged_field(a.msg_prefix, b.msg_prefix),
            input_prefix: merged_field(a.input_prefix, b.input_prefix),
            break_line: merged_field(a.break_line, b.break_line),
            repeat_prompt: merged_field(a.repeat_prompt, b.repeat_prompt),
            list_surrounds: merged_field(a.list_surrounds, b.list_surrounds),
            list_msg_pos: merged_field(a.list_msg_pos, b.list_msg_pos),
        }
    }

    fn merge_with(&self, other: &Self) -> (r: Self) {
        SelectedFmtRules {
            msg_prefix: match &self.msg_prefix {
                Some(s) => Some(s.clone()),
                None => match &other.msg_prefix {
                    Some(s) => Some(s.clone()),
                    None => None,
                },
            },
            input_prefix: match &self.input_prefix {
                Some(s) => Some(s.clone()),
                None => match &other.input_prefix {
                    Some(s) => Some(s.clone()),
                    None => None,
                },
            },
            break_line: match self.break_line {
                Some(b) => Some(b),
                None => other.break_line,
            },
            repeat_prompt: match self.repeat_prompt {
                Some(b) => Some(b),
                None => other.repeat_prompt,
            },
            list_surrounds: match &self.list_surrounds {
                Some(p) => Some((p.0.clone(), p.1.clone())),
                None => match &other.list_surrounds {
                    Some(p) => Some((p.0.clone(), p.1.clone())),
                    None => None,
                },
            },
            list_msg_pos: match self.list_msg_pos {
                Some(p) => Some(p),
                None => other.list_msg_pos,
            },
        }
    }
}

impl Partial for SelectedFmtRules {
    type Expanded = ExpandedSelectedFmtRules;

    /// Every unset rule takes its hardcoded default.
    open spec fn spec_expand(v: SelectedRulesView) -> ExpandedSelectedRulesView {
        ExpandedSelectedRulesView {
            msg_prefix: match v.msg_prefix {
                Some(p) => p,
                None => "- "@,
            },
            input_prefix: match v.input_prefix {
                Some(p) => p,
                None => "> "@,
            },
            break_line: match v.break_line {
                Some(b) => b,
                None => true,
            },
            repeat_prompt: match v.repeat_prompt {
                Some(b) => b,
                None => false,
            },
            list_surrounds: match v.list_surrounds {
                Some(p) => p,
                None => ("["@, "] - "@),
            },
            list_msg_pos: match v.list_msg_pos {
                Some(p) => p,
                None => Position::Bottom,
            },
        }
    }

    fn expand(&self) -> (r: ExpandedSelectedFmtRules) {
        ExpandedSelectedFmtRules {
            msg_prefix: match &self.msg_prefix {
                Some(p) => p.clone(),
                None => String::from_str("- "),
            },
            input_prefix: match &self.input_prefix {
                Some(p) => p.clone(),
                None => String::from_str("> "),
            },
            break_line: match self.break_line {
                Some(b) => b,
                None => true,
            },
            repeat_prompt: match self.repeat_prompt {
                Some(b) => b,
                None => false,
            },
            list_surrounds: match &self.list_surrounds {
                Some(p) => (p.0.clone(), p.1.clone()),
                None => (String::from_str("["), String::from_str("] - ")),
            },
            list_msg_pos: match self.list_msg_pos {
                Some(p) => p,
                None => Position::Bottom,
            },
        }
    }
}

impl FmtRules for SelectedFmtRules {
    /// Selection-style prompts accept every atomic rule.
    open spec fn spec_from_fmt(o: FmtView) -> SelectedRulesView {
        SelectedRulesView {
            msg_prefix: o.msg_prefix,
            input_prefix: o.input_prefix,
            break_line: o.break_line,
            repeat_prompt: o.repeat_prompt,
            list_surrounds: o.list_surrounds,
            list_msg_pos: o.list_msg_pos,
        }
    }

    fn from_fmt(f: &Fmt) -> (r: Self) {
        SelectedFmtRules {
            msg_prefix: match &f.msg_prefix {
                Some(s) => Some(s.clone()),
                None => None,
            },
            input_prefix: match &f.input_prefix {
                Some(s) => Some(s.clone()),
                None => None,
            },
            break_line: f.break_line,
            repeat_prompt: f.repeat_prompt,
            list_surrounds: match &f.list_surrounds {
                Some(p) => Some((p.0.clone(), p.1.clone())),
                None => None,
            },
            list_msg_pos: f.list_msg_pos,
        }
    }
}

/// The mathematical value of an expanded selection rule set.
pub ghost struct ExpandedSelectedRulesView {
    /// The text put right before the message.
    pub msg_prefix: Seq<char>,
    /// The text put right before the operator's input.
    pub input_prefix: Seq<char>,
    /// Whether a line break follows the message.
    pub break_line: bool,
    /// Whether the whole prompt is repeated after an invalid input.
    pub repeat_prompt: bool,
    /// The texts around each list item index.
    pub list_surrounds: (Seq<char>, Seq<char>),
    /// Where the message stands relative to the list.
    pub list_msg_pos: Position,
}

/// The fully-resolved rules a selection-style prompt renders with.
#[derive(Debug, PartialEq, Eq)]
pub struct ExpandedSelectedFmtRules {
    /// The text put right before the message.
    pub msg_prefix: String,
    /// The text put right before the operator's input.
    pub input_prefix: String,
    /// Whether a line break follows the message.
    pub break_line: bool,
    /// Whether the whole prompt is repeated after an invalid input.
    pub repeat_prompt: bool,
    /// The texts around each list item index.
    pub list_surrounds: (String, String),
    /// Where the message stands relative to the list.
    pub list_msg_pos: Position,
}

impl View for ExpandedSelectedFmtRules {
    type V = ExpandedSelectedRulesView;

    open spec fn view(&self) -> ExpandedSelectedRulesView {
        ExpandedSelectedRulesView {
            msg_prefix: self.msg_prefix@,
            input_prefix: self.input_prefix@,
            break_line: self.break_line,
            repeat_prompt: self.repeat_prompt,
            list_surrounds: (self.list_surrounds.0@, self.list_surrounds.1@),
            list_msg_pos: self.list_msg_pos,
        }
    }
}

impl ConstDefault for ExpandedSelectedFmtRules {
    /// The hardcoded defaults of selection-style prompts.
    open spec fn spec_default() -> ExpandedSelectedRulesView {
        ExpandedSelectedRulesView {
            msg_prefix: "- "@,
            input_prefix: "> "@,
            break_line: true,
            repeat_prompt: false,
            list_surrounds: ("["@, "] - "@),
            list_msg_pos: Position::Bottom,
        }
    }

    fn const_default() -> (r: Self) {
        ExpandedSelectedFmtRules {
            msg_prefix: String::from_str("- "),
            input_prefix: String::from_str("> "),
            break_line: true,
            repeat_prompt: false,
            list_surrounds: (String::from_str("["), String::from_str("] - ")),
            list_msg_pos: Position::Bottom,
        }
    }
}

impl Default for ExpandedSelectedFmtRules {
    /// The hardcoded defaults of selection-style prompts.
    fn default() -> (r: Self)
        ensures
            r@ == <ExpandedSelectedFmtRules as ConstDefault>::spec_default(),
    {
        ExpandedSelectedFmtRules::const_default()
    }
}

/// Law: merging two selection rule sets keeps, field by field, every rule
/// the more specific side has set, and takes the other side's rule exactly
/// where the more specific side has none — so the merge of sets with
/// disjoint fields is their union.
pub proof fn lemma_selected_merge_precedence(a: SelectedRulesView, b: SelectedRulesView)
    ensures
        ({
            let m = SelectedFmtRules::spec_merge(a, b);
            &&& m.msg_prefix == (if a.msg_prefix is Some {
                a.msg_prefix
            } else {
                b.msg_prefix
            })
            &&& m.input_prefix == (if a.input_prefix is Some {
                a.input_prefix
            } else {
                b.input_prefix
            })
            &&& m.break_line == (if a.break_line is Some {
                a.break_line
            } else {
                b.break_line
            })
            &&& m.repeat_prompt == (if a.repeat_prompt is Some {
                a.repeat_prompt
            } else {
                b.repeat_prompt
            })
            &&& m.list_surrounds == (if a.list_surrounds is Some {
                a.list_surrounds
            } else {
                b.list_surrounds
            })
            &&& m.list_msg_pos == (if a.list_msg_pos is Some {
                a.list_msg_pos
            } else {
                b.list_msg_pos
            })
        }),
{
}

/// Law: expanding the empty selection rule set yields exactly the hardcoded
/// defaults, for every field the kind accepts.
pub proof fn lemma_selected_expand_defaults()
    ensures
        SelectedFmtRules::spec_expand(SelectedRulesView::empty())
            == <ExpandedSelectedFmtRules as ConstDefault>::spec_default(),
{
}

} // verus!
