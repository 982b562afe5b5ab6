//! The composite rule set of chained prompts: one rule set per side.

use vstd::prelude::*;

use crate::format::ConstDefault;
use crate::format::Fmt;
use crate::format::FmtRules;
use crate::format::FmtView;
use crate::format::Mergeable;
use crate::format::Partial;

verus! {

/// The rule set of a chained prompt: the first side's rules paired with the
/// second side's.  Projecting a single override bundle into it applies the
/// bundle to both sides alike; a side's own, closer override still wins when
/// the two are merged.
pub struct ThenFmtRules<A, B> {
    /// The rules of the first prompt.
    pub a_rules: A,
    /// The rules of the second prompt.
    pub b_rules: B,
}

impl<A: View, B: View> View for ThenFmtRules<A, B> {
    type V = (A::V, B::V);

    open spec fn view(&self) -> (A::V, B::V) {
        (self.a_rules@, self.b_rules@)
    }
}

impl<A: FmtRules, B: FmtRules> Default for ThenFmtRules<A, B> {
    /// Both sides with every rule unset.
    fn default() -> (r: Self)
        ensures
            r@ == (A::spec_from_fmt(FmtView::empty()), B::spec_from_fmt(FmtView::empty())),
    {
        let f = crate::format::fmt();
        ThenFmtRules { a_rules: A::from_fmt(&f), b_rules: B::from_fmt(&f) }
    }
}

impl<A: Mergeable, B: Mergeable> Mergeable for ThenFmtRules<A, B> {
    /// Merging recurses into each side.
    open spec fn spec_merge(a: (A::V, B::V), b: (A::V, B::V)) -> (A::V, B::V) {
        (A::spec_merge(a.0, b.0), B::spec_merge(a.1, b.1))
    }

    fn merge_with(&self, other: &Self) -> (r: Self) {
        ThenFmtRules {
            a_rules: self.a_rules.merge_with(&other.a_rules),
            b_rules: self.b_rules.merge_with(&other.b_rules),
        }
    }
}

impl<A: Partial, B: Partial> Partial for ThenFmtRules<A, B> {
    type Expanded = ExpandedThenFmtRules<A::Expanded, B::Expanded>;

    /// Expansion recurses into each side.
    open spec fn spec_expand(v: (A::V, B::V)) -> (<A::Expanded as View>::V, <B::Expanded as View>::V) {
        (A::spec_expand(v.0), B::spec_expand(v.1))
    }

    fn expand(&self) -> (r: ExpandedThenFmtRules<A::Expanded, B::Expanded>) {
        ExpandedThenFmtRules { a_rules: self.a_rules.expand(), b_rules: self.b_rules.expand() }
    }
}

impl<A: FmtRules, B: FmtRules> FmtRules for ThenFmtRules<A, B> {
    /// A single bundle reaches both sides alike.
    open spec fn spec_from_fmt(o: FmtView) -> (A::V, B::V) {
        (A::spec_from_fmt(o), B::spec_from_fmt(o))
    }

    fn from_fmt(f: &Fmt) -> (r: Self) {
        ThenFmtRules { a_rules: A::from_fmt(f), b_rules: B::from_fmt(f) }
    }
}

/// The fully-resolved rules of a chained prompt: one expanded set per side.
pub struct ExpandedThenFmtRules<A, B> {
    /// The expanded rules of the first prompt.
    pub a_rules: A,
    /// The expanded rules of the second prompt.
    pub b_rules: B,
}

impl<A: View, B: View> View for ExpandedThenFmtRules<A, B> {
    type V = (A::V, B::V);

    open spec fn view(&self) -> (A::V, B::V) {
        (self.a_rules@, self.b_rules@)
    }
}

impl<A: ConstDefault, B: ConstDefault> ConstDefault for ExpandedThenFmtRules<A, B> {
    /// Each side's own defaults.
    open spec fn spec_default() -> (A::V, B::V) {
        (A::spec_default(), B::spec_default())
    }

    fn const_default() -> (r: Self) {
        ExpandedThenFmtRules { a_rules: A::const_default(), b_rules: B::const_default() }
    }
}

/// Law: one override bundle projected into a composite rule set reaches
/// both sides alike, and merging or expanding the composite is merging or
/// expanding each side — so precedence and defaulting recurse structurally
/// through arbitrarily deep chains.
pub proof fn lemma_then_rules_structural<A: FmtRules, B: FmtRules>(
    o: FmtView,
    a: (A::V, B::V),
    b: (A::V, B::V),
)
    ensures
        ThenFmtRules::<A, B>::spec_from_fmt(o) == (A::spec_from_fmt(o), B::spec_from_fmt(o)),
        ThenFmtRules::<A, B>::spec_merge(a, b) == (
            A::spec_merge(a.0, b.0),
            B::spec_merge(a.1, b.1),
        ),
        ThenFmtRules::<A, B>::spec_expand(a) == (A::spec_expand(a.0), B::spec_expand(a.1)),
{
}

} // verus!
