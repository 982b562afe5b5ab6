//! Limiting how many attempts a prompt gets before it gives up.

use vstd::prelude::*;

use crate::EndOfInput;
use crate::Outcome;
use crate::Promptable;
use crate::console::Console;
use crate::console::ConsoleView;

verus! {

/// Wraps a promptable and limits how many attempts it gets; built by
/// [`Prompt::max_tries`](crate::Prompt::max_tries).
///
/// The wrapped output becomes a `Result`: a value accepted within the
/// budget arrives as `Ok`, and once the budget is spent every further
/// attempt yields `Err(MaxTriesExceeded)` at once, touching neither the
/// console nor the inner prompt.
pub struct MaxTries<P> {
    /// The wrapped promptable.
    pub prompt: P,
    /// How many attempts have been made.
    pub current: usize,
    /// How many attempts are allowed.
    pub max: usize,
}

/// The terminal value carried in the success channel when the operator has
/// spent all allowed attempts.
#[derive(Debug, Clone, Copy, PartialEq, Eq)]
pub struct MaxTriesExceeded;

impl<P: Promptable> Promptable for MaxTries<P> {
    type Output = Result<P::Output, MaxTriesExceeded>;

    type FmtRules = P::FmtRules;

    open spec fn inv(&self) -> bool {
        self.prompt.inv()
    }

    /// With budget left, one attempt is the inner prompt's attempt, its
    /// acceptance wrapped in `Ok`; with the budget spent, the attempt
    /// accepts `Err(MaxTriesExceeded)` locally, touching nothing.
    open spec fn post(
        self,
        pre: ConsoleView,
        fmt: <P::FmtRules as View>::V,
        post_self: Self,
        post_con: ConsoleView,
        r: Result<Outcome<Result<P::Output, MaxTriesExceeded>>, EndOfInput>,
    ) -> bool {
        if self.current >= self.max {
            &&& post_self == self
            &&& post_con == pre
            &&& r matches Ok(Outcome::Accepted(Result::Err(MaxTriesExceeded)))
        } else {
            exists|r1: Result<Outcome<P::Output>, EndOfInput>|
                {
                    &&& #[trigger] self.prompt.post(pre, fmt, post_self.prompt, post_con, r1)
                    &&& post_self.current == self.current + 1
                    &&& post_self.max == self.max
                    &&& match r1 {
                        Result::Ok(Outcome::Accepted(v)) => r matches Ok(
                            Outcome::Accepted(Result::Ok(w)),
                        ) && w == v,
                        Result::Ok(Outcome::Retry) => r matches Ok(Outcome::Retry),
                        Result::Err(e) => r == Result::<
                            Outcome<Result<P::Output, MaxTriesExceeded>>,
                            EndOfInput,
                        >::Err(e),
                    }
                }
        }
    }

    fn prompt_once(&mut self, con: &mut Console, fmt: &P::FmtRules) -> (r: Result<
        Outcome<Result<P::Output, MaxTriesExceeded>>,
        EndOfInput,
    >) {
        if self.current >= self.max {
            proof {
                ConsoleView::lemma_evolves_reflexive(con@);
            }
            return Result::Ok(Outcome::Accepted(Result::Err(MaxTriesExceeded)));
        }
        self.current = self.current + 1;
        let r1 = self.prompt.prompt_once(con, fmt);
        let ghost g_r1 = r1;
        let r = match r1 {
            Result::Ok(Outcome::Accepted(v)) => Result::Ok(Outcome::Accepted(Result::Ok(v))),
            Result::Ok(Outcome::Retry) => Result::Ok(Outcome::Retry),
            Result::Err(e) => Result::Err(e),
        };
        proof {
            assert(old(self).prompt.post(old(con)@, fmt@, self.prompt, con@, g_r1));
        }
        r
    }
}

/// Law: once the budget is spent, an attempt fails purely locally.  It
/// accepts `Err(MaxTriesExceeded)` at once, and neither the console — so
/// no text, no read — nor the wrapped prompt nor the counters are touched.
pub proof fn lemma_max_tries_exceeded_is_local<P: Promptable>(
    m: MaxTries<P>,
    pre: ConsoleView,
    fmt: <P::FmtRules as View>::V,
    m1: MaxTries<P>,
    c1: ConsoleView,
    r: Result<Outcome<Result<P::Output, MaxTriesExceeded>>, EndOfInput>,
)
    requires
        m.current >= m.max,
        m.post(pre, fmt, m1, c1, r),
    ensures
        m1 == m,
        c1 == pre,
        r matches Ok(Outcome::Accepted(Result::Err(MaxTriesExceeded))),
{
}

/// Law: within the budget, an attempt is exactly one attempt of the
/// wrapped prompt, with its acceptance wrapped in `Ok` and the attempt
/// counter advanced by one.
pub proof fn lemma_max_tries_delegates<P: Promptable>(
    m: MaxTries<P>,
    pre: ConsoleView,
    fmt: <P::FmtRules as View>::V,
    m1: MaxTries<P>,
    c1: ConsoleView,
    r: Result<Outcome<Result<P::Output, MaxTriesExceeded>>, EndOfInput>,
)
    requires
        m.current < m.max,
        m.post(pre, fmt, m1, c1, r),
    ensures
        m1.current == m.current + 1,
        m1.max == m.max,
        exists|r1: Result<Outcome<P::Output>, EndOfInput>|
            #[trigger] m.prompt.post(pre, fmt, m1.prompt, c1, r1),
{
}

} // verus!
