//! Chaining two prompts into one, and flattening the nested pair outputs
//! that repeated chaining builds.

use core::marker::PhantomData;

use vstd::prelude::*;

use crate::EndOfInput;
use crate::Outcome;
use crate::Promptable;
use crate::console::Console;
use crate::console::ConsoleView;
use crate::format::rules::ThenFmtRules;
use crate::run_loop;
use crate::runs_to;

verus! {

/// Converts a chain's raw nested-pair output into the flat output the
/// caller asked for.  The conversion is a pure, total reshaping: every
/// component of the result is a component of the input, in order.
pub trait FromOutput<Output>: Sized {
    /// The reshaped value.
    spec fn spec_from_output(output: Output) -> Self;

    /// Reshapes the raw output.
    fn from_output(output: Output) -> (r: Self)
        ensures
            r == Self::spec_from_output(output),
    ;
}

impl<T> FromOutput<T> for T {
    /// Any output stands for itself.
    open spec fn spec_from_output(output: T) -> T {
        output
    }

    fn from_output(output: T) -> (r: T) {
        output
    }
}

impl<A, B, C> FromOutput<((A, B), C)> for (A, B, C) {
    /// The components of the nested pairs, in order.
    open spec fn spec_from_output(output: ((A, B), C)) -> (A, B, C) {
        (output.0.0, output.0.1, output.1)
    }

    fn from_output(output: ((A, B), C)) -> (r: (A, B, C)) {
        let ((a, b), c) = output;
        (a, b, c)
    }
}

impl<A, B, C, D> FromOutput<(((A, B), C), D)> for (A, B, C, D) {
    /// The components of the nested pairs, in order.
    open spec fn spec_from_output(output: (((A, B), C), D)) -> (A, B, C, D) {
        (output.0.0.0, output.0.0.1, output.0.1, output.1)
    }

    fn from_output(output: (((A, B), C), D)) -> (r: (A, B, C, D)) {
        let (((a, b), c), d) = output;
        (a, b, c, d)
    }
}

impl<A, B, C, D, E> FromOutput<((((A, B), C), D), E)> for (A, B, C, D, E) {
    /// The components of the nested pairs, in order.
    open spec fn spec_from_output(output: ((((A, B), C), D), E)) -> (A, B, C, D, E) {
        (output.0.0.0.0, output.0.0.0.1, output.0.0.1, output.0.1, output.1)
    }

    fn from_output(output: ((((A, B), C), D), E)) -> (r: (A, B, C, D, E)) {
        let ((((a, b), c), d), e) = output;
        (a, b, c, d, e)
    }
}

impl<A, B, C, D, E, F> FromOutput<(((((A, B), C), D), E), F)> for (A, B, C, D, E, F) {
    /// The components of the nested pairs, in order.
    open spec fn spec_from_output(output: (((((A, B), C), D), E), F)) -> (A, B, C, D, E, F) {
        (
            output.0.0.0.0.0,
            output.0.0.0.0.1,
            output.0.0.0.1,
            output.0.0.1,
            output.0.1,
            output.1,
        )
    }

    fn from_output(output: (((((A, B), C), D), E), F)) -> (r: (A, B, C, D, E, F)) {
        let (((((a, b), c), d), e), f) = output;
        (a, b, c, d, e, f)
    }
}

/// A promptable whose output can be flattened: names the raw, nested-pair
/// shape that [`FromOutput`] reshapes.
pub trait Flattenable {
    /// The raw output shape.
    type RawOutput;
}

/// Chains two prompts into one; built by
/// [`Prompt::chain`](crate::Prompt::chain).
///
/// One attempt asks the first prompt once; if it retries, the whole chain
/// retries (and so restarts from its first element on the next attempt).
/// If it accepts, the second prompt alone is retried until it too accepts:
/// its retries do not re-ask the first prompt.
pub struct Then<A, B, O> {
    /// The first prompt.
    pub first: A,
    /// The second prompt.
    pub second: B,
    /// Marks the flattened output type, which leaves no trace in the state.
    pub _marker: PhantomData<O>,
}

impl<A: Promptable, B: Promptable, O> Flattenable for Then<A, B, O> {
    type RawOutput = (A::Output, B::Output);
}

impl<A: Promptable, B: Promptable, O: FromOutput<(A::Output, B::Output)>> Promptable for Then<
    A,
    B,
    O,
> {
    type Output = O;

    type FmtRules = ThenFmtRules<A::FmtRules, B::FmtRules>;

    open spec fn inv(&self) -> bool {
        self.first.inv() && self.second.inv()
    }

    /// One attempt is one attempt of the first prompt and, if that accepts,
    /// a whole run of the second (see [`runs_to`]); the accepted pair is
    /// reshaped by [`FromOutput`].
    open spec fn post(
        self,
        pre: ConsoleView,
        fmt: (<A::FmtRules as View>::V, <B::FmtRules as View>::V),
        post_self: Self,
        post_con: ConsoleView,
        r: Result<Outcome<O>, EndOfInput>,
    ) -> bool {
        exists|a1: A, c1: ConsoleView, ra: Result<Outcome<A::Output>, EndOfInput>|
            {
                &&& #[trigger] self.first.post(pre, fmt.0, a1, c1, ra)
                &&& post_self.first == a1
                &&& pre.evolves_to(c1)
                &&& c1.wf()
                &&& match ra {
                    Result::Err(e) => post_self.second == self.second && post_con == c1 && r
                        == Result::<Outcome<O>, EndOfInput>::Err(e),
                    Result::Ok(Outcome::Retry) => post_self.second == self.second && post_con == c1
                        && r matches Ok(Outcome::Retry),
                    Result::Ok(Outcome::Accepted(a)) => exists|
                        b1: B,
                        rb: Result<B::Output, EndOfInput>,
                    |
                        {
                            &&& #[trigger] runs_to::<B>(self.second, c1, fmt.1, b1, post_con, rb)
                            &&& post_self.second == b1
                            &&& match rb {
                                Result::Ok(b) => r matches Ok(Outcome::Accepted(o)) && o
                                    == O::spec_from_output((a, b)),
                                Result::Err(e) => r == Result::<Outcome<O>, EndOfInput>::Err(e),
                            }
                        },
                }
            }
    }

    fn prompt_once(&mut self, con: &mut Console, fmt: &ThenFmtRules<A::FmtRules, B::FmtRules>) -> (r:
        Result<Outcome<O>, EndOfInput>) {
        prompt_twice(con, self, fmt)
    }
}

/// One attempt of a chain: the first prompt once and — only if it
/// accepted — the second prompt driven until it accepts.
pub fn prompt_twice<A: Promptable, B: Promptable, O: FromOutput<(A::Output, B::Output)>>(
    con: &mut Console,
    prompt: &mut Then<A, B, O>,
    fmt: &ThenFmtRules<A::FmtRules, B::FmtRules>,
) -> (r: Result<Outcome<O>, EndOfInput>)
    requires
        old(prompt).inv(),
        old(con).wf(),
    ensures
        final(prompt).inv(),
        final(con).wf(),
        old(con)@.evolves_to(final(con)@),
        old(prompt).post(old(con)@, fmt@, *final(prompt), final(con)@, r),
{
    let ghost pre_c = con@;
    let ra = prompt.first.prompt_once(con, &fmt.a_rules);
    let ghost g_ra = ra;
    let ghost a1 = prompt.first;
    let ghost c1 = con@;
    let a = match ra {
        Result::Ok(Outcome::Accepted(a)) => a,
        Result::Ok(Outcome::Retry) => {
            proof {
                assert(old(prompt).first.post(pre_c, fmt@.0, prompt.first, con@, g_ra));
            }
            return Result::Ok(Outcome::Retry);
        },
        Result::Err(e) => {
            proof {
                assert(old(prompt).first.post(pre_c, fmt@.0, prompt.first, con@, g_ra));
            }
            return Result::Err(e);
        },
    };
    let ghost b0 = prompt.second;
    let rb = run_loop(&mut prompt.second, con, &fmt.b_rules);
    proof {
        ConsoleView::lemma_evolves_transitive(pre_c, c1, con@);
    }
    match rb {
        Result::Ok(b) => {
            let ghost g_b = b;
            let o = O::from_output((a, b));
            proof {
                assert(runs_to::<B>(b0, c1, fmt@.1, prompt.second, con@, Result::Ok(g_b)));
                assert(old(prompt).first.post(pre_c, fmt@.0, a1, c1, g_ra));
            }
            Result::Ok(Outcome::Accepted(o))
        },
        Result::Err(e) => {
            proof {
                assert(runs_to::<B>(
                    b0,
                    c1,
                    fmt@.1,
                    prompt.second,
                    con@,
                    Result::<B::Output, EndOfInput>::Err(e),
                ));
                assert(old(prompt).first.post(pre_c, fmt@.0, a1, c1, g_ra));
            }
            Result::Err(e)
        },
    }
}

/// Law: flattening is total and lossless.  For a four-deep chain, the flat
/// tuple lists the four accepted values in declaration order; reshaping
/// never alters a component.
pub proof fn lemma_flatten_four<A, B, C, D>(a: A, b: B, c: C, d: D)
    ensures
        <(A, B, C, D) as FromOutput<(((A, B), C), D)>>::spec_from_output((((a, b), c), d)) == (
            a,
            b,
            c,
            d,
        ),
{
}

} // verus!
