//! Password prompts: the secret is taken from the console's hidden lines.
//!
//! The actual no-echo capture from a terminal is square outside this
//! library's model: whatever performs it appends the captured line to the
//! console's hidden input (see [`Console::push_hidden_line`]), and the
//! prompt here consumes it, ignoring the visible input entirely.

use vstd::prelude::*;

use crate::EndOfInput;
use crate::Outcome;
use crate::Promptable;
use crate::console::Console;
use crate::console::ConsoleView;
use crate::format::Partial;
use crate::format::rules::WrittenFmtRules;
use crate::format::rules::WrittenRulesView;
use crate::promptables::written::WrittenInner;
use crate::promptables::written::consumed_console;
use crate::promptables::written::read_line_of;
use crate::promptables::written::written_render;
use crate::text::spec_trim;
use vstd::string::StrSliceExecFns;

verus! {

/// A password prompt; built by [`password()`].
pub struct Password {
    /// The pending-message state of the leaf.
    pub inner: WrittenInner,
}

/// A prompt that shows `msg` and reads hidden lines until a nonempty one is
/// captured.
pub fn password(msg: &str) -> (r: Password)
    ensures
        r.inner.msg_view() == Some(msg@),
        r.inv(),
{
    Password { inner: WrittenInner::new(msg) }
}

impl Promptable for Password {
    type Output = String;

    type FmtRules = WrittenFmtRules;

    open spec fn inv(&self) -> bool {
        true
    }

    /// One attempt renders the prompt, consumes one hidden line, and accepts
    /// it exactly when, trimmed, it is nonempty.
    open spec fn post(
        self,
        pre: ConsoleView,
        fmt: WrittenRulesView,
        post_self: Self,
        post_con: ConsoleView,
        r: Result<Outcome<String>, EndOfInput>,
    ) -> bool {
        let ex = WrittenFmtRules::spec_expand(fmt);
        &&& post_self.inner.msg_view() == (if ex.repeat_prompt {
            self.inner.msg_view()
        } else {
            None::<Seq<char>>
        })
        &&& post_con == consumed_console(pre, true, written_render(self.inner.msg_view(), ex))
        &&& match read_line_of(pre, true) {
            Some(l) => {
                let t = spec_trim(l);
                if t.len() > 0 {
                    r matches Ok(Outcome::Accepted(s)) && s@ == t
                } else {
                    r matches Ok(Outcome::Retry)
                }
            },
            None => r == Result::<Outcome<String>, EndOfInput>::Err(EndOfInput),
        }
    }

    fn prompt_once(&mut self, con: &mut Console, fmt: &WrittenFmtRules) -> (r: Result<
        Outcome<String>,
        EndOfInput,
    >) {
        let line = match self.inner.prompt_with(con, fmt, true) {
            Ok(l) => l,
            Err(e) => {
                return Result::Err(e);
            },
        };
        if line.as_str().unicode_len() == 0 {
            Result::Ok(Outcome::Retry)
        } else {
            Result::Ok(Outcome::Accepted(line))
        }
    }
}

} // verus!
