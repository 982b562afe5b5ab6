//! Free-text prompts: one line is read, trimmed and parsed into the
//! requested type.

use core::marker::PhantomData;

use vstd::prelude::*;
use vstd::string::*;

use crate::EndOfInput;
use crate::Outcome;
use crate::Promptable;
use crate::console::Console;
use crate::console::ConsoleView;
use crate::format::Partial;
use crate::format::rules::ExpandedWrittenRulesView;
use crate::format::rules::WrittenFmtRules;
use crate::format::rules::WrittenRulesView;
use crate::parse::FromInput;
use crate::text::spec_trim;
use crate::text::trim;

verus! {

/// The text one written-style attempt prints: the message block when a
/// pending message remains, then the input prefix.
pub open spec fn written_render(msg: Option<Seq<char>>, f: ExpandedWrittenRulesView) -> Seq<char> {
    (match msg {
        Some(m) => f.msg_prefix + m + (if f.break_line {
            "\n"@
        } else {
            Seq::<char>::empty()
        }),
        None => Seq::<char>::empty(),
    }) + f.input_prefix
}

/// The line an attempt on `c` reads, if one remains: the next hidden line
/// for a password prompt, the next visible line for every other prompt.
pub open spec fn read_line_of(c: ConsoleView, hidden: bool) -> Option<Seq<char>> {
    if hidden {
        if c.hidden_cursor < c.hidden.len() {
            Some(c.hidden[c.hidden_cursor])
        } else {
            None
        }
    } else {
        if c.cursor < c.input.len() {
            Some(c.input[c.cursor])
        } else {
            None
        }
    }
}

/// The console after one attempt that printed `rendered` and then read one
/// line (visible or hidden), if one remained.
pub open spec fn consumed_console(c: ConsoleView, hidden: bool, rendered: Seq<char>) -> ConsoleView {
    ConsoleView {
        output: c.output + rendered,
        cursor: if !hidden && c.cursor < c.input.len() {
            c.cursor + 1
        } else {
            c.cursor
        },
        hidden_cursor: if hidden && c.hidden_cursor < c.hidden.len() {
            c.hidden_cursor + 1
        } else {
            c.hidden_cursor
        },
        ..c
    }
}

/// The state every written-style leaf shares: its pending message.  The
/// message is consumed the first time it is shown, unless the resolved
/// `repeat_prompt` rule keeps it; only the input prefix repeats after that.
pub struct WrittenInner {
    /// The message still to be shown, if any.
    pub msg: Option<String>,
}

impl WrittenInner {
    /// The pending message as a mathematical value.
    pub open spec fn msg_view(&self) -> Option<Seq<char>> {
        self.msg.deep_view()
    }

    /// A leaf state whose pending message is `msg`.
    pub fn new(msg: &str) -> (r: Self)
        ensures
            r.msg_view() == Some(msg@),
    {
        WrittenInner { msg: Some(msg.to_owned()) }
    }

    /// Renders the prompt, consumes the pending message per the resolved
    /// `repeat_prompt` rule, and reads one line — the next hidden line when
    /// `hidden` is set, the next visible line otherwise — trimmed.
    pub fn prompt_with(&mut self, con: &mut Console, fmt: &WrittenFmtRules, hidden: bool) -> (r:
        Result<String, EndOfInput>)
        requires
            old(con).wf(),
        ensures
            final(con).wf(),
            old(con)@.evolves_to(final(con)@),
            ({
                let ex = WrittenFmtRules::spec_expand(fmt@);
                &&& final(self).msg_view() == (if ex.repeat_prompt {
                    old(self).msg_view()
                } else {
                    None::<Seq<char>>
                })
                &&& final(con)@ == consumed_console(
                    old(con)@,
                    hidden,
                    written_render(old(self).msg_view(), ex),
                )
                &&& match read_line_of(old(con)@, hidden) {
                    Some(l) => r matches Ok(s) && s@ == spec_trim(l),
                    None => r == Result::<String, EndOfInput>::Err(EndOfInput),
                }
            }),
    {
        let ex = fmt.expand();
        match &self.msg {
            Some(m) => {
                con.write_out(ex.msg_prefix.as_str());
                con.write_out(m.as_str());
                if ex.break_line {
                    con.write_out("\n");
                }
            },
            None => {},
        }
        if !ex.repeat_prompt {
            self.msg = None;
        }
        con.write_out(ex.input_prefix.as_str());
        proof {
            let ghost_rendered = written_render(old(self).msg_view(), ex@);
            assert(con@.output =~= old(con)@.output + ghost_rendered);
        }
        let line = if hidden {
            con.next_hidden()
        } else {
            con.next_line()
        };
        proof {
            assert(con@.output.take(old(con)@.output.len() as int) =~= old(con)@.output);
        }
        match line {
            Some(l) => Result::Ok(trim(l.as_str())),
            None => Result::Err(EndOfInput),
        }
    }

    /// As [`WrittenInner::prompt_with`], reading the next visible line.
    pub fn prompt(&mut self, con: &mut Console, fmt: &WrittenFmtRules) -> (r: Result<
        String,
        EndOfInput,
    >)
        requires
            old(con).wf(),
        ensures
            final(con).wf(),
            old(con)@.evolves_to(final(con)@),
            ({
                let ex = WrittenFmtRules::spec_expand(fmt@);
                &&& final(self).msg_view() == (if ex.repeat_prompt {
                    old(self).msg_view()
                } else {
                    None::<Seq<char>>
                })
                &&& final(con)@ == consumed_console(
                    old(con)@,
                    false,
                    written_render(old(self).msg_view(), ex),
                )
                &&& match read_line_of(old(con)@, false) {
                    Some(l) => r matches Ok(s) && s@ == spec_trim(l),
                    None => r == Result::<String, EndOfInput>::Err(EndOfInput),
                }
            }),
    {
        self.prompt_with(con, fmt, false)
    }
}

/// A free-text prompt resolving a value of type `T`; built by [`written()`].
pub struct Written<T> {
    /// The pending-message state of the leaf.
    pub inner: WrittenInner,
    /// Marks the output type, which leaves no trace in the state.
    pub _marker: PhantomData<T>,
}

/// A prompt that shows `msg` and reads lines until one parses as a `T`.
/// An empty (fully trimmed away) line is always rejected.
pub fn written<T: FromInput>(msg: &str) -> (r: Written<T>)
    ensures
        r.inner.msg_view() == Some(msg@),
        r.inv(),
{
    Written { inner: WrittenInner::new(msg), _marker: PhantomData }
}

impl<T: FromInput> Promptable for Written<T> {
    type Output = T;

    type FmtRules = WrittenFmtRules;

    open spec fn inv(&self) -> bool {
        true
    }

    /// One attempt renders the prompt, consumes one line, and accepts
    /// exactly when the trimmed line is nonempty and parses as a `T`.
    open spec fn post(
        self,
        pre: ConsoleView,
        fmt: WrittenRulesView,
        post_self: Self,
        post_con: ConsoleView,
        r: Result<Outcome<T>, EndOfInput>,
    ) -> bool {
        let ex = WrittenFmtRules::spec_expand(fmt);
        &&& post_self.inner.msg_view() == (if ex.repeat_prompt {
            self.inner.msg_view()
        } else {
            None::<Seq<char>>
        })
        &&& post_con == consumed_console(pre, false, written_render(self.inner.msg_view(), ex))
        &&& match read_line_of(pre, false) {
            Some(l) => {
                let t = spec_trim(l);
                match T::spec_parse(t) {
                    Some(v) => if t.len() > 0 {
                        r matches Ok(Outcome::Accepted(out)) && out@ == v
                    } else {
                        r matches Ok(Outcome::Retry)
                    },
                    None => r matches Ok(Outcome::Retry),
                }
            },
            None => r == Result::<Outcome<T>, EndOfInput>::Err(EndOfInput),
        }
    }

    fn prompt_once(&mut self, con: &mut Console, fmt: &WrittenFmtRules) -> (r: Result<
        Outcome<T>,
        EndOfInput,
    >) {
        let line = match self.inner.prompt_with(con, fmt, false) {
            Ok(l) => l,
            Err(e) => {
                return Result::Err(e);
            },
        };
        if line.as_str().unicode_len() == 0 {
            return Result::Ok(Outcome::Retry);
        }
        match T::parse_input(line.as_str()) {
            Some(v) => Result::Ok(Outcome::Accepted(v)),
            None => Result::Ok(Outcome::Retry),
        }
    }
}

/// Law: with the resolved `repeat_prompt` rule false, a written leaf's
/// introductory message is shown at most once.  Whatever the first
/// attempt's outcome, the leaf holds no pending message afterwards, and the
/// following attempt prints exactly the input prefix before reading.
pub proof fn lemma_written_message_shown_once<T: FromInput>(
    w: Written<T>,
    pre: ConsoleView,
    fmt: WrittenRulesView,
    w1: Written<T>,
    c1: ConsoleView,
    r1: Result<Outcome<T>, EndOfInput>,
    w2: Written<T>,
    c2: ConsoleView,
    r2: Result<Outcome<T>, EndOfInput>,
)
    requires
        WrittenFmtRules::spec_expand(fmt).repeat_prompt == false,
        w.post(pre, fmt, w1, c1, r1),
        w1.post(c1, fmt, w2, c2, r2),
    ensures
        w1.inner.msg_view() is None,
        c2.output == c1.output + WrittenFmtRules::spec_expand(fmt).input_prefix,
{
    let ex = WrittenFmtRules::spec_expand(fmt);
    assert(c2.output =~= c1.output + ex.input_prefix);
}

/// Law: with the resolved `repeat_prompt` rule true, a written leaf's
/// introductory message is shown on every attempt: the pending message is
/// never consumed, and each attempt prints the full message block again.
pub proof fn lemma_written_message_repeats<T: FromInput>(
    w: Written<T>,
    pre: ConsoleView,
    fmt: WrittenRulesView,
    w1: Written<T>,
    c1: ConsoleView,
    r1: Result<Outcome<T>, EndOfInput>,
)
    requires
        WrittenFmtRules::spec_expand(fmt).repeat_prompt == true,
        w.post(pre, fmt, w1, c1, r1),
    ensures
        w1.inner.msg_view() == w.inner.msg_view(),
        c1.output == pre.output + written_render(
            w.inner.msg_view(),
            WrittenFmtRules::spec_expand(fmt),
        ),
{
}

} // verus!
