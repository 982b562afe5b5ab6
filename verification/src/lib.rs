//! Composable console-input prompting library.
//!
//! A program declares a sequence of typed prompts (free text, selection from
//! a list, yes/no, password, multi-field input) and combines them — chaining,
//! mapping, retry-limiting, filtering, restyling — into one prompt pipeline.
//! Running the pipeline drives a shared single-attempt protocol in a loop
//! until a value is accepted, with display-format rules resolved once from
//! the composed rule-set hierarchy.
//!
//! The console itself is modelled as plain values (see [`console`]): the
//! lines the operator types go in, the prompt text comes out.  Every prompt
//! type carries a specification of exactly what one attempt consumes, prints,
//! and returns.

use vstd::prelude::*;

pub mod console;
pub mod format;
pub mod laws;
pub mod parse;
pub mod prelude;
mod promptables;
pub mod text;

pub use format::fmt;
pub use promptables::Bool;
pub use promptables::Formatted;
pub use promptables::FromFields;
pub use promptables::Mapped;
pub use promptables::MaxTries;
pub use promptables::MaxTriesExceeded;
pub use promptables::ManyWritten;
pub use promptables::Password;
pub use promptables::Selected;
pub use promptables::Separated;
pub use promptables::Flattenable;
pub use promptables::FromOutput;
pub use promptables::Then;
pub use promptables::Until;
pub use promptables::Written;
pub use promptables::bool;
pub use promptables::is_false_input;
pub use promptables::is_true_input;
pub use promptables::many_written;
pub use promptables::lemma_until_inv;
pub use promptables::parsed_fields;
pub use promptables::password;
pub use promptables::prompt_twice;
pub use promptables::selected;
pub use promptables::separated;
pub use promptables::WrittenInner;
pub use promptables::consumed_console;
pub use promptables::read_line_of;
pub use promptables::written;
pub use promptables::written_render;

use core::marker::PhantomData;

use crate::console::Console;
use crate::console::ConsoleView;
use crate::format::FmtRule;
use crate::format::FmtRules;
use crate::format::FmtView;

verus! {

/// The two outcomes of one prompt attempt: a value was accepted, or the
/// input was invalid and the prompt must be retried.
#[derive(Debug)]
pub enum Outcome<T> {
    /// The attempt resolved a value.
    Accepted(T),
    /// The input was invalid; the prompt is to be repeated.
    Retry,
}

/// Reported when a prompt needs a line and the console has none left, or
/// when retrying cannot consume any further input.  This is the model's
/// analogue of a transport-level read failure: it aborts the whole run.
#[derive(Debug, Clone, Copy, PartialEq, Eq)]
pub struct EndOfInput;

/// A unit that can be prompted on a console.
///
/// Every promptable exposes one operation, `prompt_once`: render whatever of
/// the prompt is due, consume input, and either accept a value or ask to be
/// retried.  `post` is the unit's own specification of that transition; the
/// remaining clauses of `prompt_once` hold for every promptable: the console
/// is only ever advanced and appended to.
pub trait Promptable: Sized {
    /// The type of the value the prompt resolves.
    type Output;

    /// The set of format rules the prompt accepts.
    type FmtRules: FmtRules;

    /// What must hold of the promptable for it to be run.
    spec fn inv(&self) -> bool;

    /// How one attempt relates the state before it (`self`, `pre`) to the
    /// state after it (`post_self`, `post_con`) and to its result.
    spec fn post(
        self,
        pre: ConsoleView,
        fmt: <Self::FmtRules as View>::V,
        post_self: Self,
        post_con: ConsoleView,
        r: Result<Outcome<Self::Output>, EndOfInput>,
    ) -> bool;

    /// Makes one attempt: renders what is due, consumes input, and either
    /// accepts a value or asks to be retried.
    fn prompt_once(&mut self, con: &mut Console, fmt: &Self::FmtRules) -> (r: Result<
        Outcome<Self::Output>,
        EndOfInput,
    >)
        requires
            old(self).inv(),
            old(con).wf(),
        ensures
            final(self).inv(),
            final(con).wf(),
            old(con)@.evolves_to(final(con)@),
            old(self).post(old(con)@, fmt@, *final(self), final(con)@, r),
    ;

}

/// Running a [`Promptable`] to completion.  Implemented for every promptable;
/// it stands apart only so that its contract can speak of [`runs_to`], which
/// quantifies over promptables.
pub trait Prompt: Promptable {
    /// Prompts until a value is accepted, with every format rule at its
    /// default; see [`runs_to`] for what the run returns.
    fn prompt_with(&mut self, con: &mut Console) -> (r: Result<Self::Output, EndOfInput>)
        requires
            old(self).inv(),
            old(con).wf(),
        ensures
            final(self).inv(),
            final(con).wf(),
            old(con)@.evolves_to(final(con)@),
            runs_to(
                *old(self),
                old(con)@,
                <Self::FmtRules as FmtRules>::spec_from_fmt(FmtView::empty()),
                *final(self),
                final(con)@,
                r,
            ),
    {
        let f = crate::format::fmt();
        let rules = Self::FmtRules::from_fmt(&f);
        run_loop(self, con, &rules)
    }

    /// Limits the prompt to `max` attempts; a value accepted within the
    /// budget arrives as `Ok`, and after the budget is spent the prompt
    /// yields `Err(MaxTriesExceeded)`.  See [`MaxTries`].
    fn max_tries(self, max: usize) -> (r: MaxTries<Self>)
        ensures
            r.prompt == self,
            r.current == 0,
            r.max == max,
    {
        MaxTries { prompt: self, current: 0, max }
    }

    /// Chains this prompt with another into one prompt whose output
    /// combines both accepted values; see [`Then`].
    fn chain<P: Promptable, O: FromOutput<(Self::Output, P::Output)>>(self, promptable: P) -> (r:
        Then<Self, P, O>)
        ensures
            r.first == self,
            r.second == promptable,
    {
        Then { first: self, second: promptable, _marker: PhantomData }
    }

    /// Keeps only the accepted values the predicate holds of; the others
    /// are retried.  See [`Until`].
    fn until<F: Fn(&Self::Output) -> bool>(self, until: F) -> (r: Until<Self, F>)
        ensures
            r.prompt == self,
            r.until == until,
    {
        Until { prompt: self, until }
    }

    /// Maps every accepted value through the given function; see
    /// [`Mapped`].
    fn map<T, F: Fn(Self::Output) -> T>(self, map: F) -> (r: Mapped<Self, F>)
        ensures
            r.prompt == self,
            r.map == map,
    {
        Mapped { prompt: self, map }
    }

    /// Attaches a format override, which wins over any broader override
    /// when the prompt runs; see [`Formatted`].
    fn fmt<F: FmtRule>(self, fmt: F) -> (r: Formatted<Self>)
        ensures
            r.prompt == self,
            r.rules@ == <Self::FmtRules as FmtRules>::spec_from_fmt(fmt.spec_fmt()),
    {
        let collected = fmt.collect();
        Formatted { prompt: self, rules: Self::FmtRules::from_fmt(&collected) }
    }
}

impl<P: Promptable> Prompt for P {

}

/// What a whole run — attempts repeated until one is accepted — relates: the
/// promptable and console before it, those after it, and the run's result.
/// A run ends with the first accepted value or propagated failure; a retry
/// that consumed no input ends it with [`EndOfInput`], since in this model
/// repeating such an attempt can never get further.
pub open spec fn runs_to<P: Promptable>(
    p: P,
    con: ConsoleView,
    fmt: <P::FmtRules as View>::V,
    p_end: P,
    con_end: ConsoleView,
    r: Result<P::Output, EndOfInput>,
) -> bool
    decreases con.remaining(),
{
    exists|p1: P, c1: ConsoleView, r1: Result<Outcome<P::Output>, EndOfInput>|
        {
            &&& #[trigger] p.post(con, fmt, p1, c1, r1)
            &&& con.evolves_to(c1)
            &&& c1.wf()
            &&& match r1 {
                Result::Err(e) => p_end == p1 && con_end == c1 && r == Result::<
                    P::Output,
                    EndOfInput,
                >::Err(e),
                Result::Ok(Outcome::Accepted(v)) => p_end == p1 && con_end == c1 && r == Result::<
                    P::Output,
                    EndOfInput,
                >::Ok(v),
                Result::Ok(Outcome::Retry) => {
                    if c1.remaining() < con.remaining() {
                        runs_to(p1, c1, fmt, p_end, con_end, r)
                    } else {
                        p_end == p1 && con_end == c1 && r == Result::<
                            P::Output,
                            EndOfInput,
                        >::Err(EndOfInput)
                    }
                },
            }
        }
}

/// Drives a promptable with the given rules until a value is accepted, the
/// input fails, or a retry makes no progress.
pub fn run_loop<P: Promptable>(p: &mut P, con: &mut Console, rules: &P::FmtRules) -> (r: Result<
    P::Output,
    EndOfInput,
>)
    requires
        old(p).inv(),
        old(con).wf(),
    ensures
        final(p).inv(),
        final(con).wf(),
        old(con)@.evolves_to(final(con)@),
        runs_to(*old(p), old(con)@, rules@, *final(p), final(con)@, r),
{
    proof {
        ConsoleView::lemma_evolves_reflexive(old(con)@);
    }
    loop
        invariant
            p.inv(),
            con.wf(),
            old(con)@.evolves_to(con@),
            forall|pe: P, ce: ConsoleView, re: Result<P::Output, EndOfInput>|
                #[trigger] runs_to(*p, con@, rules@, pe, ce, re) ==> runs_to(
                    *old(p),
                    old(con)@,
                    rules@,
                    pe,
                    ce,
                    re,
                ),
        decreases con@.remaining(),
    {
        let cursor_before = con.cursor();
        let hidden_before = con.hidden_cursor();
        let ghost pre_p = *p;
        let ghost pre_c = con@;
        let step = p.prompt_once(con, rules);
        let ghost g_step = step;
        proof {
            ConsoleView::lemma_evolves_transitive(old(con)@, pre_c, con@);
        }
        match step {
            Result::Err(e) => {
                proof {
                    assert(pre_p.post(pre_c, rules@, *p, con@, g_step));
                    assert(runs_to(
                        pre_p,
                        pre_c,
                        rules@,
                        *p,
                        con@,
                        Result::<P::Output, EndOfInput>::Err(e),
                    ));
                }
                return Result::Err(e);
            },
            Result::Ok(Outcome::Accepted(v)) => {
                let ghost g_v = v;
                proof {
                    assert(pre_p.post(pre_c, rules@, *p, con@, g_step));
                    assert(runs_to(
                        pre_p,
                        pre_c,
                        rules@,
                        *p,
                        con@,
                        Result::<P::Output, EndOfInput>::Ok(g_v),
                    ));
                }
                return Result::Ok(v);
            },
            Result::Ok(Outcome::Retry) => {
                if con.cursor() == cursor_before && con.hidden_cursor() == hidden_before {
                    proof {
                        assert(con@.remaining() == pre_c.remaining());
                        assert(pre_p.post(pre_c, rules@, *p, con@, g_step));
                        assert(runs_to(
                            pre_p,
                            pre_c,
                            rules@,
                            *p,
                            con@,
                            Result::<P::Output, EndOfInput>::Err(EndOfInput),
                        ));
                    }
                    return Result::Err(EndOfInput);
                }
                proof {
                    ConsoleView::lemma_progress_decreases(pre_c, con@);
                    assert forall|pe: P, ce: ConsoleView, re: Result<P::Output, EndOfInput>|
                        #[trigger] runs_to(*p, con@, rules@, pe, ce, re) implies runs_to(
                        *old(p),
                        old(con)@,
                        rules@,
                        pe,
                        ce,
                        re,
                    ) by {
                        assert(pre_p.post(pre_c, rules@, *p, con@, g_step));
                        assert(runs_to(pre_p, pre_c, rules@, pe, ce, re));
                    }
                }
            },
        }
    }
}

} // verus!
