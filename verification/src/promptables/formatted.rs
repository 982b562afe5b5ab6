//! Attaching a format override to a promptable.

use vstd::prelude::*;

use crate::EndOfInput;
use crate::Outcome;
use crate::Promptable;
use crate::console::Console;
use crate::console::ConsoleView;
use crate::format::Mergeable;

verus! {

/// Wraps a promptable together with format rules of its own; built by
/// [`Prompt::fmt`](crate::Prompt::fmt).  On each attempt the
/// attached rules are merged into the caller's, the attached ones winning
/// on conflicts, so the override closest to a prompt takes precedence.
pub struct Formatted<P: Promptable> {
    /// The wrapped promptable.
    pub prompt: P,
    /// The rules attached to it.
    pub rules: P::FmtRules,
}

impl<P: Promptable> Promptable for Formatted<P> {
    type Output = P::Output;

    type FmtRules = P::FmtRules;

    open spec fn inv(&self) -> bool {
        self.prompt.inv()
    }

    /// One attempt is the inner prompt's attempt under the merged rules,
    /// the attached ones taking precedence.
    open spec fn post(
        self,
        pre: ConsoleView,
        fmt: <P::FmtRules as View>::V,
        post_self: Self,
        post_con: ConsoleView,
        r: Result<Outcome<P::Output>, EndOfInput>,
    ) -> bool {
        &&& self.prompt.post(
            pre,
            <P::FmtRules as Mergeable>::spec_merge(self.rules@, fmt),
            post_self.prompt,
            post_con,
            r,
        )
        &&& post_self.rules@ == self.rules@
    }

    fn prompt_once(&mut self, con: &mut Console, fmt: &P::FmtRules) -> (r: Result<
        Outcome<P::Output>,
        EndOfInput,
    >) {
        let merged = self.rules.merge_with(fmt);
        self.prompt.prompt_once(con, &merged)
    }
}

} // verus!
