//! Mapping a prompt's accepted value into another value.

use vstd::prelude::*;

use crate::EndOfInput;
use crate::Outcome;
use crate::Promptable;
use crate::console::Console;
use crate::console::ConsoleView;

verus! {

/// Wraps a promptable and a function applied to its accepted value; built
/// by [`Prompt::map`](crate::Prompt::map).  Retries pass through
/// unchanged; the function touches no input or output itself.
pub struct Mapped<P, F> {
    /// The wrapped promptable.
    pub prompt: P,
    /// The function applied to an accepted value.
    pub map: F,
}

impl<P: Promptable, T, F: Fn(P::Output) -> T> Promptable for Mapped<P, F> {
    type Output = T;

    type FmtRules = P::FmtRules;

    open spec fn inv(&self) -> bool {
        &&& self.prompt.inv()
        &&& forall|x: P::Output| #[trigger] call_requires(self.map, (x,))
    }

    /// One attempt is the inner prompt's attempt, an accepted value passing
    /// through the function.
    open spec fn post(
        self,
        pre: ConsoleView,
        fmt: <P::FmtRules as View>::V,
        post_self: Self,
        post_con: ConsoleView,
        r: Result<Outcome<T>, EndOfInput>,
    ) -> bool {
        exists|r1: Result<Outcome<P::Output>, EndOfInput>|
            {
                &&& #[trigger] self.prompt.post(pre, fmt, post_self.prompt, post_con, r1)
                &&& post_self.map == self.map
                &&& match r1 {
                    Result::Ok(Outcome::Accepted(v)) => r matches Ok(Outcome::Accepted(out))
                        && call_ensures(self.map, (v,), out),
                    Result::Ok(Outcome::Retry) => r matches Ok(Outcome::Retry),
                    Result::Err(e) => r == Result::<Outcome<T>, EndOfInput>::Err(e),
                }
            }
    }

    fn prompt_once(&mut self, con: &mut Console, fmt: &P::FmtRules) -> (r: Result<
        Outcome<T>,
        EndOfInput,
    >) {
        let r1 = self.prompt.prompt_once(con, fmt);
        let ghost g_r1 = r1;
        match r1 {
            Result::Ok(Outcome::Accepted(v)) => {
                let out = (self.map)(v);
                proof {
                    assert(old(self).prompt.post(old(con)@, fmt@, self.prompt, con@, g_r1));
                }
                Result::Ok(Outcome::Accepted(out))
            },
            Result::Ok(Outcome::Retry) => Result::Ok(Outcome::Retry),
            Result::Err(e) => Result::Err(e),
        }
    }
}

} // verus!
