//! Filtering a prompt's accepted values through a predicate.

use vstd::prelude::*;

use crate::EndOfInput;
use crate::Outcome;
use crate::Promptable;
use crate::console::Console;
use crate::console::ConsoleView;

verus! {

/// Wraps a promptable and a predicate on its output; built by
/// [`Prompt::until`](crate::Prompt::until).
///
/// An accepted value the predicate rejects is downgraded to a retry.  The
/// inner prompt's own state — in particular a leaf's pending message — is
/// not reset by the downgrade: the next attempt behaves as any other retry.
pub struct Until<P, F> {
    /// The wrapped promptable.
    pub prompt: P,
    /// The predicate an accepted value must satisfy.
    pub until: F,
}

impl<P: Promptable, F: Fn(&P::Output) -> bool> Promptable for Until<P, F> {
    type Output = P::Output;

    type FmtRules = P::FmtRules;

    open spec fn inv(&self) -> bool {
        &&& self.prompt.inv()
        &&& forall|x: P::Output| #[trigger] call_requires(self.until, (&x,))
    }

    /// One attempt is the inner prompt's attempt; a value it accepts passes
    /// through exactly when the predicate holds of it, and is downgraded to
    /// a retry otherwise, with the inner state kept either way.
    open spec fn post(
        self,
        pre: ConsoleView,
        fmt: <P::FmtRules as View>::V,
        post_self: Self,
        post_con: ConsoleView,
        r: Result<Outcome<P::Output>, EndOfInput>,
    ) -> bool {
        exists|r1: Result<Outcome<P::Output>, EndOfInput>|
            {
                &&& #[trigger] self.prompt.post(pre, fmt, post_self.prompt, post_con, r1)
                &&& post_self.until == self.until
                &&& match r1 {
                    Result::Ok(Outcome::Accepted(v)) => {
                        ||| (r matches Ok(Outcome::Accepted(out)) && out == v && call_ensures(
                            self.until,
                            (&v,),
                            true,
                        ))
                        ||| (r matches Ok(Outcome::Retry) && call_ensures(self.until, (&v,), false))
                    },
                    Result::Ok(Outcome::Retry) => r matches Ok(Outcome::Retry),
                    Result::Err(e) => r == Result::<Outcome<P::Output>, EndOfInput>::Err(e),
                }
            }
    }

    fn prompt_once(&mut self, con: &mut Console, fmt: &P::FmtRules) -> (r: Result<
        Outcome<P::Output>,
        EndOfInput,
    >) {
        let r1 = self.prompt.prompt_once(con, fmt);
        let ghost g_r1 = r1;
        match r1 {
            Result::Ok(Outcome::Accepted(v)) => {
                let ghost g_v = v;
                let keep = (self.until)(&v);
                proof {
                    assert(old(self).prompt.post(old(con)@, fmt@, self.prompt, con@, g_r1));
                    assert(call_ensures(old(self).until, (&g_v,), keep));
                }
                if keep {
                    Result::Ok(Outcome::Accepted(v))
                } else {
                    Result::Ok(Outcome::Retry)
                }
            },
            Result::Ok(Outcome::Retry) => Result::Ok(Outcome::Retry),
            Result::Err(e) => Result::Err(e),
        }
    }
}

/// Restates what a filtered prompt's invariant asks: the wrapped prompt's
/// own invariant, and that the predicate can be called on any value.
pub proof fn lemma_until_inv<P: Promptable, F: Fn(&P::Output) -> bool>(u: &Until<P, F>)
    ensures
        u.inv() == (u.prompt.inv() && (forall|x: P::Output|
            #[trigger] call_requires(u.until, (&x,)))),
{
}

} // verus!
