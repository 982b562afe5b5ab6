//! Yes/no prompts: one line is read and matched, without regard to ASCII
//! case, against the recognized yes and no tokens.

use vstd::prelude::*;

use crate::EndOfInput;
use crate::Outcome;
use crate::Promptable;
use crate::console::Console;
use crate::console::ConsoleView;
use crate::format::Partial;
use crate::format::rules::WrittenFmtRules;
use crate::format::rules::WrittenRulesView;
use crate::promptables::written::WrittenInner;
use crate::promptables::written::consumed_console;
use crate::promptables::written::read_line_of;
use crate::promptables::written::written_render;
use crate::text::eq_ignore_case;
use crate::text::spec_trim;
use crate::text::str_eq_ignore_case;

verus! {

/// The tokens accepted as "yes", up to ASCII case.
pub open spec fn is_true_input(s: Seq<char>) -> bool {
    ||| eq_ignore_case(s, "y"@)
    ||| eq_ignore_case(s, "ye"@)
    ||| eq_ignore_case(s, "yes"@)
    ||| eq_ignore_case(s, "yep"@)
    ||| eq_ignore_case(s, "true"@)
}

/// The tokens accepted as "no", up to ASCII case.
pub open spec fn is_false_input(s: Seq<char>) -> bool {
    ||| eq_ignore_case(s, "n"@)
    ||| eq_ignore_case(s, "no"@)
    ||| eq_ignore_case(s, "nop"@)
    ||| eq_ignore_case(s, "nope"@)
    ||| eq_ignore_case(s, "nopp"@)
    ||| eq_ignore_case(s, "nah"@)
    ||| eq_ignore_case(s, "false"@)
}

fn is_true_token(s: &str) -> (r: bool)
    ensures
        r == is_true_input(s@),
{
    str_eq_ignore_case(s, "y") || str_eq_ignore_case(s, "ye") || str_eq_ignore_case(s, "yes")
        || str_eq_ignore_case(s, "yep") || str_eq_ignore_case(s, "true")
}

fn is_false_token(s: &str) -> (r: bool)
    ensures
        r == is_false_input(s@),
{
    str_eq_ignore_case(s, "n") || str_eq_ignore_case(s, "no") || str_eq_ignore_case(s, "nop")
        || str_eq_ignore_case(s, "nope") || str_eq_ignore_case(s, "nopp") || str_eq_ignore_case(
        s,
        "nah",
    ) || str_eq_ignore_case(s, "false")
}

/// A yes/no prompt; built by [`bool()`].
pub struct Bool {
    /// The pending-message state of the leaf.
    pub inner: WrittenInner,
}

/// A prompt that shows `msg` and reads lines until one is a recognized yes
/// or no token (matched without regard to ASCII case).
pub fn bool(msg: &str) -> (r: Bool)
    ensures
        r.inner.msg_view() == Some(msg@),
        r.inv(),
{
    Bool { inner: WrittenInner::new(msg) }
}

impl Promptable for Bool {
    type Output = bool;

    type FmtRules = WrittenFmtRules;

    open spec fn inv(&self) -> bool {
        true
    }

    /// One attempt renders the prompt, consumes one line, and accepts
    /// exactly the yes tokens (as `true`) and the no tokens (as `false`).
    open spec fn post(
        self,
        pre: ConsoleView,
        fmt: WrittenRulesView,
        post_self: Self,
        post_con: ConsoleView,
        r: Result<Outcome<bool>, EndOfInput>,
    ) -> bool {
        let ex = WrittenFmtRules::spec_expand(fmt);
        &&& post_self.inner.msg_view() == (if ex.repeat_prompt {
            self.inner.msg_view()
        } else {
            None::<Seq<char>>
        })
        &&& post_con == consumed_console(pre, false, written_render(self.inner.msg_view(), ex))
        &&& match read_line_of(pre, false) {
            Some(l) => {
                let t = spec_trim(l);
                if is_true_input(t) {
                    r matches Ok(Outcome::Accepted(b)) && b == true
                } else if is_false_input(t) {
                    r matches Ok(Outcome::Accepted(b)) && b == false
                } else {
                    r matches Ok(Outcome::Retry)
                }
            },
            None => r == Result::<Outcome<bool>, EndOfInput>::Err(EndOfInput),
        }
    }

    fn prompt_once(&mut self, con: &mut Console, fmt: &WrittenFmtRules) -> (r: Result<
        Outcome<bool>,
        EndOfInput,
    >) {
        let line = match self.inner.prompt_with(con, fmt, false) {
            Ok(l) => l,
            Err(e) => {
                return Result::Err(e);
            },
        };
        if is_true_token(line.as_str()) {
            Result::Ok(Outcome::Accepted(true))
        } else if is_false_token(line.as_str()) {
            Result::Ok(Outcome::Accepted(false))
        } else {
            Result::Ok(Outcome::Retry)
        }
    }
}

} // verus!
