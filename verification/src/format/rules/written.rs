//! The rules accepted by written-style prompts.

use vstd::prelude::*;
use vstd::string::*;

use crate::format::ConstDefault;
use crate::format::Fmt;
use crate::format::FmtRules;
use crate::format::FmtView;
use crate::format::Mergeable;
use crate::format::Partial;
use crate::format::merged_field;

verus! {

/// The mathematical value of a written rule set.
pub ghost struct WrittenRulesView {
    /// The text put right before the message, if set.
    pub msg_prefix: Option<Seq<char>>,
    /// The text put right before the operator's input, if set.
    pub input_prefix: Option<Seq<char>>,
    /// Whether a line break follows the message, if set.
    pub break_line: Option<bool>,
    /// Whether the whole prompt is repeated after an invalid input, if set.
    pub repeat_prompt: Option<bool>,
}

impl WrittenRulesView {
    /// The set with every rule unset.
    pub open spec fn empty() -> WrittenRulesView {
        WrittenRulesView {
            msg_prefix: None,
            input_prefix: None,
            break_line: None,
            repeat_prompt: None,
        }
    }
}

/// The set of rules accepted by written-style prompts: message prefix, input
/// prefix, line-break behavior and repeat behavior.
pub struct WrittenFmtRules {
    /// The text put right before the message, if set.
    pub msg_prefix: Option<String>,
    /// The text put right before the operator's input, if set.
    pub input_prefix: Option<String>,
    /// Whether a line break follows the message, if set.
    pub break_line: Option<bool>,
    /// Whether the whole prompt is repeated after an invalid input, if set.
    pub repeat_prompt: Option<bool>,
}

impl View for WrittenFmtRules {
    type V = WrittenRulesView;

    open spec fn view(&self) -> WrittenRulesView {
        WrittenRulesView {
            msg_prefix: self.msg_prefix.deep_view(),
            input_prefix: self.input_prefix.deep_view(),
            break_line: self.break_line,
            repeat_prompt: self.repeat_prompt,
        }
    }
}

impl Default for WrittenFmtRules {
    /// The set with every rule unset.
    fn default() -> (r: Self)
        ensures
            r@ == WrittenRulesView::empty(),
    {
        WrittenFmtRules { msg_prefix: None, input_prefix: None, break_line: None, repeat_prompt: None }
    }
}

impl Mergeable for WrittenFmtRules {
    /// Field by field, a set rule of the left side wins.
    open spec fn spec_merge(a: WrittenRulesView, b: WrittenRulesView) -> WrittenRulesView {
        WrittenRulesView {
            msg_prefix: merged_field(a.msg_prefix, b.msg_prefix),
            input_prefix: merged_field(a.input_prefix, b.input_prefix),
            break_line: merged_field(a.break_line, b.break_line),
            repeat_prompt: merged_field(a.repeat_prompt, b.repeat_prompt),
        }
    }

    fn merge_with(&self, other: &Self) -> (r: Self) {
        WrittenFmtRules {
            msg_prefix: match &self.msg_prefix {
                Some(s) => Some(s.clone()),
                None => match &other.msg_prefix {
                    Some(s) => Some(s.clone()),
                    None => None,
                },
            },
            input_prefix: match &self.input_prefix {
                Some(s) => Some(s.clone()),
                None => match &other.input_prefix {
                    Some(s) => Some(s.clone()),
                    None => None,
                },
            },
            break_line: match self.break_line {
                Some(b) => Some(b),
                None => other.break_line,
            },
            repeat_prompt: match self.repeat_prompt {
                Some(b) => Some(b),
                None => other.repeat_prompt,
            },
        }
    }
}

impl Partial for WrittenFmtRules {
    type Expanded = ExpandedWrittenFmtRules;

    /// Every unset rule takes its hardcoded default.
    open spec fn spec_expand(v: WrittenRulesView) -> ExpandedWrittenRulesView {
        ExpandedWrittenRulesView {
            msg_prefix: match v.msg_prefix {
                Some(p) => p,
                None => "- "@,
            },
            input_prefix: match v.input_prefix {
                Some(p) => p,
                None => "> "@,
            },
            break_line: match v.break_line {
                Some(b) => b,
                None => true,
            },
            repeat_prompt: match v.repeat_prompt {
                Some(b) => b,
                None => false,
            },
        }
    }

    fn expand(&self) -> (r: ExpandedWrittenFmtRules) {
        ExpandedWrittenFmtRules {
            msg_prefix: match &self.msg_prefix {
                Some(p) => p.clone(),
                None => String::from_str("- "),
            },
            input_prefix: match &self.input_prefix {
                Some(p) => p.clone(),
                None => String::from_str("> "),
            },
            break_line: match self.break_line {
                Some(b) => b,
                None => true,
            },
            repeat_prompt: match self.repeat_prompt {
                Some(b) => b,
                None => false,
            },
        }
    }
}

impl FmtRules for WrittenFmtRules {
    /// Written-style prompts accept everything but the list rules.
    open spec fn spec_from_fmt(o: FmtView) -> WrittenRulesView {
        WrittenRulesView {
            msg_prefix: o.msg_prefix,
            input_prefix: o.input_prefix,
            break_line: o.break_line,
            repeat_prompt: o.repeat_prompt,
        }
    }

    fn from_fmt(f: &Fmt) -> (r: Self) {
        WrittenFmtRules {
            msg_prefix: match &f.msg_prefix {
                Some(s) => Some(s.clone()),
                None => None,
            },
            input_prefix: match &f.input_prefix {
                Some(s) => Some(s.clone()),
                None => None,
            },
            break_line: f.break_line,
            repeat_prompt: f.repeat_prompt,
        }
    }
}

/// The mathematical value of an expanded written rule set.
pub ghost struct ExpandedWrittenRulesView {
    /// The text put right before the message.
    pub msg_prefix: Seq<char>,
    /// The text put right before the operator's input.
    pub input_prefix: Seq<char>,
    /// Whether a line break follows the message.
    pub break_line: bool,
    /// Whether the whole prompt is repeated after an invalid input.
    pub repeat_prompt: bool,
}

/// The fully-resolved rules a written-style prompt renders with.
#[derive(Debug, PartialEq, Eq)]
pub struct ExpandedWrittenFmtRules {
    /// The text put right before the message.
    pub msg_prefix: String,
    /// The text put right before the operator's input.
    pub input_prefix: String,
    /// Whether a line break follows the message.
    pub break_line: bool,
    /// Whether the whole prompt is repeated after an invalid input.
    pub repeat_prompt: bool,
}

impl View for ExpandedWrittenFmtRules {
    type V = ExpandedWrittenRulesView;

    open spec fn view(&self) -> ExpandedWrittenRulesView {
        ExpandedWrittenRulesView {
            msg_prefix: self.msg_prefix@,
            input_prefix: self.input_prefix@,
            break_line: self.break_line,
            repeat_prompt: self.repeat_prompt,
        }
    }
}

impl ConstDefault for ExpandedWrittenFmtRules {
    /// The hardcoded defaults of written-style prompts.
    open spec fn spec_default() -> ExpandedWrittenRulesView {
        ExpandedWrittenRulesView {
            msg_prefix: "- "@,
            input_prefix: "> "@,
            break_line: true,
            repeat_prompt: false,
        }
    }

    fn const_default() -> (r: Self) {
        ExpandedWrittenFmtRules {
            msg_prefix: String::from_str("- "),
            input_prefix: String::from_str("> "),
            break_line: true,
            repeat_prompt: false,
        }
    }
}

impl Default for ExpandedWrittenFmtRules {
    /// The hardcoded defaults of written-style prompts.
    fn default() -> (r: Self)
        ensures
            r@ == <ExpandedWrittenFmtRules as ConstDefault>::spec_default(),
    {
        ExpandedWrittenFmtRules::const_default()
    }
}

/// Law: merging two written rule sets keeps, field by field, every rule the
/// more specific side has set, and takes the other side's rule exactly where
/// the more specific side has none — so the merge of sets with disjoint
/// fields is their union.
pub proof fn lemma_written_merge_precedence(a: WrittenRulesView, b: WrittenRulesView)
    ensures
        ({
            let m = WrittenFmtRules::spec_merge(a, b);
            &&& m.msg_prefix == (if a.msg_prefix is Some {
                a.msg_prefix
            } else {
                b.msg_prefix
            })
            &&& m.input_prefix == (if a.input_prefix is Some {
                a.input_prefix
            } else {
                b.input_prefix
            })
            &&& m.break_line == (if a.break_line is Some {
                a.break_line
            } else {
                b.break_line
            })
            &&& m.repeat_prompt == (if a.repeat_prompt is Some {
                a.repeat_prompt
            } else {
                b.repeat_prompt
            })
        }),
{
}

/// Law: expanding the empty written rule set yields exactly the hardcoded
/// defaults, for every field the kind accepts.
pub proof fn lemma_written_expand_defaults()
    ensures
        WrittenFmtRules::spec_expand(WrittenRulesView::empty())
            == <ExpandedWrittenFmtRules as ConstDefault>::spec_default(),
{
}

} // verus!
