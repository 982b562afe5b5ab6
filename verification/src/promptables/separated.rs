//! Prompts for any number of values of one type, separated by a given text.

use core::marker::PhantomData;

use vstd::prelude::*;
use vstd::string::StrSliceExecFns;

use crate::EndOfInput;
use crate::Outcome;
use crate::Promptable;
use crate::console::Console;
use crate::console::ConsoleView;
use crate::format::Partial;
use crate::format::rules::WrittenFmtRules;
use crate::format::rules::WrittenRulesView;
use crate::parse::FromInput;
use crate::promptables::written::WrittenInner;
use crate::promptables::written::consumed_console;
use crate::promptables::written::read_line_of;
use crate::promptables::written::written_render;
use crate::text::spec_split;
use crate::text::spec_trim;
use crate::text::split_str;
use crate::text::trim;

verus! {

/// The values the pieces of one line denote, each piece trimmed and parsed
/// as a `T`; nothing if any piece fails to parse.
pub open spec fn parsed_fields<T: FromInput>(parts: Seq<Seq<char>>) -> Option<Seq<T::V>>
    decreases parts.len(),
{
    if parts.len() == 0 {
        Some(Seq::<T::V>::empty())
    } else {
        match (T::spec_parse(spec_trim(parts[0])), parsed_fields::<T>(parts.skip(1))) {
            (Some(v), Some(rest)) => Some(seq![v] + rest),
            _ => None,
        }
    }
}

/// Trims and parses each piece from `i` on, as the separated prompt does.
fn parse_fields<T: FromInput>(parts: &Vec<String>, i: usize) -> (r: Option<Vec<T>>)
    requires
        i <= parts@.len(),
    ensures
        match (r, parsed_fields::<T>(parts.deep_view().skip(i as int))) {
            (Some(vs), Some(ws)) => vs@.len() == ws.len() && (forall|k: int|
                0 <= k < ws.len() ==> (#[trigger] vs@[k])@ == ws[k]),
            (None, None) => true,
            _ => false,
        },
    decreases parts@.len() - i,
{
    if i == parts.len() {
        proof {
            assert(parts.deep_view().skip(i as int) =~= Seq::<Seq<char>>::empty());
        }
        Some(Vec::new())
    } else {
        let t = trim(parts[i].as_str());
        proof {
            assert(parts.deep_view().skip(i as int)[0] == parts@[i as int]@);
            assert(parts.deep_view().skip(i as int).skip(1) =~= parts.deep_view().skip(i + 1));
        }
        match T::parse_input(t.as_str()) {
            Some(v) => match parse_fields::<T>(parts, i + 1) {
                Some(mut rest) => {
                    rest.insert(0, v);
                    Some(rest)
                },
                None => None,
            },
            None => None,
        }
    }
}

/// A prompt for any number of `T` values on one line; built by
/// [`separated()`].
pub struct Separated<T> {
    /// The pending-message state of the leaf.
    pub inner: WrittenInner,
    /// The text separating the values.
    pub sep: String,
    /// Marks the element type, which leaves no trace in the state.
    pub _marker: PhantomData<T>,
}

/// A prompt that shows `msg` and reads lines until one is a nonempty list
/// of `T` values separated by `sep`; each piece is trimmed before parsing.
pub fn separated<T: FromInput>(msg: &str, sep: &str) -> (r: Separated<T>)
    ensures
        r.inner.msg_view() == Some(msg@),
        r.sep@ == sep@,
        r.inv(),
{
    Separated { inner: WrittenInner::new(msg), sep: sep.to_owned(), _marker: PhantomData }
}

impl<T: FromInput> Promptable for Separated<T> {
    type Output = Vec<T>;

    type FmtRules = WrittenFmtRules;

    open spec fn inv(&self) -> bool {
        true
    }

    /// One attempt renders the prompt, consumes one line, and accepts
    /// exactly when the trimmed line is nonempty and every piece between
    /// occurrences of the separator parses as a `T`.
    open spec fn post(
        self,
        pre: ConsoleView,
        fmt: WrittenRulesView,
        post_self: Self,
        post_con: ConsoleView,
        r: Result<Outcome<Vec<T>>, EndOfInput>,
    ) -> bool {
        let ex = WrittenFmtRules::spec_expand(fmt);
        &&& post_self.inner.msg_view() == (if ex.repeat_prompt {
            self.inner.msg_view()
        } else {
            None::<Seq<char>>
        })
        &&& post_self.sep@ == self.sep@
        &&& post_con == consumed_console(pre, false, written_render(self.inner.msg_view(), ex))
        &&& match read_line_of(pre, false) {
            Some(l) => {
                let t = spec_trim(l);
                match parsed_fields::<T>(spec_split(t, self.sep@)) {
                    Some(ws) => if t.len() > 0 {
                        r matches Ok(Outcome::Accepted(vs)) && vs@.len() == ws.len() && (forall|
                            k: int,
                        |
                            0 <= k < ws.len() ==> (#[trigger] vs@[k])@ == ws[k])
                    } else {
                        r matches Ok(Outcome::Retry)
                    },
                    None => r matches Ok(Outcome::Retry),
                }
            },
            None => r == Result::<Outcome<Vec<T>>, EndOfInput>::Err(EndOfInput),
        }
    }

    fn prompt_once(&mut self, con: &mut Console, fmt: &WrittenFmtRules) -> (r: Result<
        Outcome<Vec<T>>,
        EndOfInput,
    >) {
        let line = match self.inner.prompt_with(con, fmt, false) {
            Ok(l) => l,
            Err(e) => {
                return Result::Err(e);
            },
        };
        if line.as_str().unicode_len() == 0 {
            return Result::Ok(Outcome::Retry);
        }
        let parts = split_str(line.as_str(), self.sep.as_str());
        proof {
            assert(parts.deep_view().skip(0) =~= parts.deep_view());
        }
        match parse_fields::<T>(&parts, 0) {
            Some(vs) => Result::Ok(Outcome::Accepted(vs)),
            None => Result::Ok(Outcome::Retry),
        }
    }
}

} // verus!
