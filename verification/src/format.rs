//! Customization of prompt styling.
//!
//! A prompt's display is customized through *format rules*: sparse bundles of
//! atomic style settings (message prefix, input prefix, line-break behavior,
//! repeat behavior, list surrounds, list message position).  A caller builds
//! an override chain starting from [`fmt()`] and chaining the builder methods
//! of [`FmtRule`]; a promptable kind projects from it the subset of rules it
//! accepts (its [`FmtRules`] set), merges rule sets with well-defined
//! precedence (an already-set field is never overridden), and expands a rule
//! set into a fully-defaulted struct just before prompting.

use vstd::prelude::*;

pub mod rules;

verus! {

/// The position of a selection prompt's message relative to its item list.
#[derive(Debug, Clone, Copy, PartialEq, Eq, Structural)]
pub enum Position {
    /// The message stands above the list.
    Top,
    /// The message stands below the list.
    Bottom,
}

/// The mathematical value of an override bundle: each atomic rule is either
/// unset or set to a value.
pub ghost struct FmtView {
    /// The text put right before the message.
    pub msg_prefix: Option<Seq<char>>,
    /// The text put right before the operator's input.
    pub input_prefix: Option<Seq<char>>,
    /// Whether a line break follows the message.
    pub break_line: Option<bool>,
    /// Whether the whole prompt, not only the input prefix, is repeated
    /// after an invalid input.
    pub repeat_prompt: Option<bool>,
    /// The texts around each list item index.
    pub list_surrounds: Option<(Seq<char>, Seq<char>)>,
    /// Where the message stands relative to the list.
    pub list_msg_pos: Option<Position>,
}

impl FmtView {
    /// The bundle with every rule unset.
    pub open spec fn empty() -> FmtView {
        FmtView {
            msg_prefix: None,
            input_prefix: None,
            break_line: None,
            repeat_prompt: None,
            list_surrounds: None,
            list_msg_pos: None,
        }
    }
}

/// In a merge the left (more specific) side wins on every field it has set.
pub open spec fn merged_field<T>(a: Option<T>, b: Option<T>) -> Option<T> {
    if a is Some {
        a
    } else {
        b
    }
}

/// A bundle of atomic style overrides, each either unset or set.
///
/// This is both the start of an override chain (see [`fmt()`]) and the
/// collected form of any chain (see [`FmtRule::collect`]).
pub struct Fmt {
    /// The text put right before the message, if set.
    pub msg_prefix: Option<String>,
    /// The text put right before the operator's input, if set.
    pub input_prefix: Option<String>,
    /// Whether a line break follows the message, if set.
    pub break_line: Option<bool>,
    /// Whether the whole prompt is repeated after an invalid input, if set.
    pub repeat_prompt: Option<bool>,
    /// The texts around each list item index, if set.
    pub list_surrounds: Option<(String, String)>,
    /// Where the message stands relative to the list, if set.
    pub list_msg_pos: Option<Position>,
}

impl View for Fmt {
    type V = FmtView;

    open spec fn view(&self) -> FmtView {
        FmtView {
            msg_prefix: self.msg_prefix.deep_view(),
            input_prefix: self.input_prefix.deep_view(),
            break_line: self.break_line,
            repeat_prompt: self.repeat_prompt,
            list_surrounds: self.list_surrounds.deep_view(),
            list_msg_pos: self.list_msg_pos,
        }
    }
}

/// Starts an override chain with nothing set.  Chain the [`FmtRule`] builder
/// methods onto the result and hand the chain to a promptable's `fmt` method.
pub fn fmt() -> (r: Fmt)
    ensures
        r@ == FmtView::empty(),
{
    Fmt {
        msg_prefix: None,
        input_prefix: None,
        break_line: None,
        repeat_prompt: None,
        list_surrounds: None,
        list_msg_pos: None,
    }
}

/// Copies an optional string, keeping its value.
fn clone_opt_string(o: &Option<String>) -> (r: Option<String>)
    ensures
        r.deep_view() == o.deep_view(),
{
    match o {
        Some(s) => Some(s.clone()),
        None => None,
    }
}

/// Copies an optional pair of strings, keeping its value.
fn clone_opt_string_pair(o: &Option<(String, String)>) -> (r: Option<(String, String)>)
    ensures
        r.deep_view() == o.deep_view(),
{
    match o {
        Some(p) => Some((p.0.clone(), p.1.clone())),
        None => None,
    }
}

/// An override chain: [`Fmt`] alone, or any nesting of the six rule wrappers
/// around it.  `spec_fmt` is the bundle the chain denotes; on a conflict the
/// most recently applied setting wins.
pub trait FmtRule: Sized {
    /// The override bundle this chain denotes.
    spec fn spec_fmt(&self) -> FmtView;

    /// Collects the chain into a plain bundle.
    fn collect(&self) -> (r: Fmt)
        ensures
            r@ == self.spec_fmt(),
    ;

    /// Sets the message prefix.
    fn msg_prefix(self, prefix: &str) -> (r: MsgPrefix<Self>)
        ensures
            r.rule == self,
            r.prefix@ == prefix@,
    {
        MsgPrefix { rule: self, prefix: prefix.to_owned() }
    }

    /// Sets the input prefix.
    fn input_prefix(self, prefix: &str) -> (r: InputPrefix<Self>)
        ensures
            r.rule == self,
            r.prefix@ == prefix@,
    {
        InputPrefix { rule: self, prefix: prefix.to_owned() }
    }

    /// Sets the texts around each list item index of a selection prompt.
    fn list_surrounds(self, open: &str, close: &str) -> (r: ListSurrounds<Self>)
        ensures
            r.rule == self,
            r.surrounds.0@ == open@,
            r.surrounds.1@ == close@,
    {
        ListSurrounds { rule: self, surrounds: (open.to_owned(), close.to_owned()) }
    }

    /// Sets where a selection prompt's message stands relative to its list.
    fn list_msg_pos(self, pos: Position) -> (r: ListMsgPos<Self>)
        ensures
            r.rule == self,
            r.pos == pos,
    {
        ListMsgPos { rule: self, pos }
    }

    /// Sets whether a line break follows the message.
    fn break_line(self, value: bool) -> (r: BreakLine<Self>)
        ensures
            r.rule == self,
            r.value == value,
    {
        BreakLine { rule: self, value }
    }

    /// Sets whether the whole prompt (message, prefixes and all), rather
    /// than the input prefix alone, is repeated after an invalid input.
    fn repeat_prompt(self, value: bool) -> (r: RepeatPrompt<Self>)
        ensures
            r.rule == self,
            r.value == value,
    {
        RepeatPrompt { rule: self, value }
    }
}

impl FmtRule for Fmt {
    /// A bare bundle denotes itself.
    open spec fn spec_fmt(&self) -> FmtView {
        self@
    }

    fn collect(&self) -> (r: Fmt) {
        Fmt {
            msg_prefix: clone_opt_string(&self.msg_prefix),
            input_prefix: clone_opt_string(&self.input_prefix),
            break_line: self.break_line,
            repeat_prompt: self.repeat_prompt,
            list_surrounds: clone_opt_string_pair(&self.list_surrounds),
            list_msg_pos: self.list_msg_pos,
        }
    }
}

/// The message prefix rule, wrapped around the chain it extends.
pub struct MsgPrefix<R> {
    /// The chain this rule extends.
    pub rule: R,
    /// The text put right before the message.
    pub prefix: String,
}

impl<R: FmtRule> FmtRule for MsgPrefix<R> {
    open spec fn spec_fmt(&self) -> FmtView {
        FmtView { msg_prefix: Some(self.prefix@), ..self.rule.spec_fmt() }
    }

    fn collect(&self) -> (r: Fmt) {
        let mut f = self.rule.collect();
        f.msg_prefix = Some(self.prefix.clone());
        f
    }
}

/// The input prefix rule, wrapped around the chain it extends.
pub struct InputPrefix<R> {
    /// The chain this rule extends.
    pub rule: R,
    /// The text put right before the operator's input.
    pub prefix: String,
}

impl<R: FmtRule> FmtRule for InputPrefix<R> {
    open spec fn spec_fmt(&self) -> FmtView {
        FmtView { input_prefix: Some(self.prefix@), ..self.rule.spec_fmt() }
    }

    fn collect(&self) -> (r: Fmt) {
        let mut f = self.rule.collect();
        f.input_prefix = Some(self.prefix.clone());
        f
    }
}

/// The list surrounds rule, wrapped around the chain it extends.
pub struct ListSurrounds<R> {
    /// The chain this rule extends.
    pub rule: R,
    /// The texts around each list item index.
    pub surrounds: (String, String),
}

impl<R: FmtRule> FmtRule for ListSurrounds<R> {
    open spec fn spec_fmt(&self) -> FmtView {
        FmtView {
            list_surrounds: Some((self.surrounds.0@, self.surrounds.1@)),
            ..self.rule.spec_fmt()
        }
    }

    fn collect(&self) -> (r: Fmt) {
        let mut f = self.rule.collect();
        f.list_surrounds = Some((self.surrounds.0.clone(), self.surrounds.1.clone()));
        f
    }
}

/// The list message position rule, wrapped around the chain it extends.
pub struct ListMsgPos<R> {
    /// The chain this rule extends.
    pub rule: R,
    /// Where the message stands relative to the list.
    pub pos: Position,
}

impl<R: FmtRule> FmtRule for ListMsgPos<R> {
    open spec fn spec_fmt(&self) -> FmtView {
        FmtView { list_msg_pos: Some(self.pos), ..self.rule.spec_fmt() }
    }

    fn collect(&self) -> (r: Fmt) {
        let mut f = self.rule.collect();
        f.list_msg_pos = Some(self.pos);
        f
    }
}

/// The line-break rule, wrapped around the chain it extends.
pub struct BreakLine<R> {
    /// The chain this rule extends.
    pub rule: R,
    /// Whether a line break follows the message.
    pub value: bool,
}

impl<R: FmtRule> FmtRule for BreakLine<R> {
    open spec fn spec_fmt(&self) -> FmtView {
        FmtView { break_line: Some(self.value), ..self.rule.spec_fmt() }
    }

    fn collect(&self) -> (r: Fmt) {
        let mut f = self.rule.collect();
        f.break_line = Some(self.value);
        f
    }
}

/// The repeat-prompt rule, wrapped around the chain it extends.
pub struct RepeatPrompt<R> {
    /// The chain this rule extends.
    pub rule: R,
    /// Whether the whole prompt is repeated after an invalid input.
    pub value: bool,
}

impl<R: FmtRule> FmtRule for RepeatPrompt<R> {
    open spec fn spec_fmt(&self) -> FmtView {
        FmtView { repeat_prompt: Some(self.value), ..self.rule.spec_fmt() }
    }

    fn collect(&self) -> (r: Fmt) {
        let mut f = self.rule.collect();
        f.repeat_prompt = Some(self.value);
        f
    }
}

/// A value that merges with another of its kind; implemented by every rule
/// set.  The left-hand side is the more specific one: each field it has set
/// is kept, and only its unset fields are filled from the other side.
pub trait Mergeable: View + Sized {
    /// What the merge yields.
    spec fn spec_merge(a: Self::V, b: Self::V) -> Self::V;

    /// Merges this value (which wins on conflicts) with `other`.
    fn merge_with(&self, other: &Self) -> (r: Self)
        ensures
            r@ == Self::spec_merge(self@, other@),
    ;
}

/// A value with a fully-resolved default; implemented by every expanded rule
/// struct.
pub trait ConstDefault: View + Sized {
    /// The default value.
    spec fn spec_default() -> Self::V;

    /// Builds the default value.
    fn const_default() -> (r: Self)
        ensures
            r@ == Self::spec_default(),
    ;
}

/// A partial form that expands into a fully-resolved one: every unset rule
/// takes its hardcoded default.  Implemented by every rule set.
pub trait Partial: View + Sized {
    /// The fully-resolved form.
    type Expanded: View + ConstDefault;

    /// What expansion yields: the set fields, defaults elsewhere.
    spec fn spec_expand(v: Self::V) -> <Self::Expanded as View>::V;

    /// Resolves every unset rule to its default.
    fn expand(&self) -> (r: Self::Expanded)
        ensures
            r@ == Self::spec_expand(self@),
    ;
}

/// The set of format rules one promptable kind accepts: projectable from any
/// override bundle, mergeable, and expandable into its resolved form.
pub trait FmtRules: Mergeable + Partial {
    /// Which rules the projection of `o` keeps.
    spec fn spec_from_fmt(o: FmtView) -> Self::V;

    /// Projects from `f` the rules this set accepts.
    fn from_fmt(f: &Fmt) -> (r: Self)
        ensures
            r@ == Self::spec_from_fmt(f@),
    ;
}

} // verus!
