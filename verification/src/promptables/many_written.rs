//! Prompts for a fixed number of written values of different types, all on
//! one line, separated by a given text.

use core::marker::PhantomData;

use vstd::prelude::*;

use crate::EndOfInput;
use crate::Outcome;
use crate::Promptable;
use crate::console::Console;
use crate::console::ConsoleView;
use crate::format::Partial;
use crate::format::rules::WrittenFmtRules;
use crate::format::rules::WrittenRulesView;
use crate::parse::FromInput;
use crate::promptables::written::WrittenInner;
use crate::promptables::written::consumed_console;
use crate::promptables::written::read_line_of;
use crate::promptables::written::written_render;
use crate::text::spec_split;
use crate::text::spec_trim;
use crate::text::split_str;
use crate::text::trim;

verus! {

/// A tuple of values parsed from the pieces of one line, one piece per
/// component, each trimmed first.  The output type of [`ManyWritten`].
pub trait FromFields: View + Sized {
    /// The tuple the pieces denote: the components in order, when the piece
    /// count matches the arity and every piece parses; nothing otherwise.
    spec fn spec_from_fields(fields: Seq<Seq<char>>) -> Option<Self::V>;

    /// Parses the pieces of one line.
    fn from_fields(fields: &Vec<String>) -> (r: Option<Self>)
        ensures
            (r is Some) == (Self::spec_from_fields(fields.deep_view()) is Some),
            r matches Some(v) ==> Self::spec_from_fields(fields.deep_view()) == Some(v@),
    ;
}

impl<A: FromInput, B: FromInput> FromFields for (A, B) {
    /// Two pieces, each trimmed and parsed as its component type.
    open spec fn spec_from_fields(fields: Seq<Seq<char>>) -> Option<(A::V, B::V)> {
        if fields.len() == 2 {
            match (A::spec_parse(spec_trim(fields[0])), B::spec_parse(spec_trim(fields[1]))) {
                (Some(a), Some(b)) => Some((a, b)),
                _ => None,
            }
        } else {
            None
        }
    }

    fn from_fields(fields: &Vec<String>) -> (r: Option<Self>) {
        if fields.len() != 2 {
            return None;
        }
        let a = A::parse_input(trim(fields[0].as_str()).as_str());
        let b = B::parse_input(trim(fields[1].as_str()).as_str());
        match (a, b) {
            (Some(a), Some(b)) => Some((a, b)),
            _ => None,
        }
    }
}

impl<A: FromInput, B: FromInput, C: FromInput> FromFields for (A, B, C) {
    /// Three pieces, each trimmed and parsed as its component type.
    open spec fn spec_from_fields(fields: Seq<Seq<char>>) -> Option<(A::V, B::V, C::V)> {
        if fields.len() == 3 {
            match (
                A::spec_parse(spec_trim(fields[0])),
                B::spec_parse(spec_trim(fields[1])),
                C::spec_parse(spec_trim(fields[2])),
            ) {
                (Some(a), Some(b), Some(c)) => Some((a, b, c)),
                _ => None,
            }
        } else {
            None
        }
    }

    fn from_fields(fields: &Vec<String>) -> (r: Option<Self>) {
        if fields.len() != 3 {
            return None;
        }
        let a = A::parse_input(trim(fields[0].as_str()).as_str());
        let b = B::parse_input(trim(fields[1].as_str()).as_str());
        let c = C::parse_input(trim(fields[2].as_str()).as_str());
        match (a, b, c) {
            (Some(a), Some(b), Some(c)) => Some((a, b, c)),
            _ => None,
        }
    }
}

impl<A: FromInput, B: FromInput, C: FromInput, D: FromInput> FromFields for (A, B, C, D) {
    /// Four pieces, each trimmed and parsed as its component type.
    open spec fn spec_from_fields(fields: Seq<Seq<char>>) -> Option<(A::V, B::V, C::V, D::V)> {
        if fields.len() == 4 {
            match (
                A::spec_parse(spec_trim(fields[0])),
                B::spec_parse(spec_trim(fields[1])),
                C::spec_parse(spec_trim(fields[2])),
                D::spec_parse(spec_trim(fields[3])),
            ) {
                (Some(a), Some(b), Some(c), Some(d)) => Some((a, b, c, d)),
                _ => None,
            }
        } else {
            None
        }
    }

    fn from_fields(fields: &Vec<String>) -> (r: Option<Self>) {
        if fields.len() != 4 {
            return None;
        }
        let a = A::parse_input(trim(fields[0].as_str()).as_str());
        let b = B::parse_input(trim(fields[1].as_str()).as_str());
        let c = C::parse_input(trim(fields[2].as_str()).as_str());
        let d = D::parse_input(trim(fields[3].as_str()).as_str());
        match (a, b, c, d) {
            (Some(a), Some(b), Some(c), Some(d)) => Some((a, b, c, d)),
            _ => None,
        }
    }
}

/// A prompt for a fixed number of written values of different types; built
/// by [`many_written()`].
pub struct ManyWritten<O> {
    /// The pending-message state of the leaf.
    pub inner: WrittenInner,
    /// The text separating the values.
    pub sep: String,
    /// Marks the output tuple type, which leaves no trace in the state.
    pub _marker: PhantomData<O>,
}

/// A prompt that shows `msg` and reads lines until one splits on `sep` into
/// exactly as many pieces as the output tuple `O` has components, each piece
/// (trimmed) parsing as its component.
pub fn many_written<O: FromFields>(msg: &str, sep: &str) -> (r: ManyWritten<O>)
    ensures
        r.inner.msg_view() == Some(msg@),
        r.sep@ == sep@,
        r.inv(),
{
    ManyWritten { inner: WrittenInner::new(msg), sep: sep.to_owned(), _marker: PhantomData }
}

impl<O: FromFields> Promptable for ManyWritten<O> {
    type Output = O;

    type FmtRules = WrittenFmtRules;

    open spec fn inv(&self) -> bool {
        true
    }

    /// One attempt renders the prompt, consumes one line, and accepts
    /// exactly when the line's pieces form the output tuple.
    open spec fn post(
        self,
        pre: ConsoleView,
        fmt: WrittenRulesView,
        post_self: Self,
        post_con: ConsoleView,
        r: Result<Outcome<O>, EndOfInput>,
    ) -> bool {
        let ex = WrittenFmtRules::spec_expand(fmt);
        &&& post_self.inner.msg_view() == (if ex.repeat_prompt {
            self.inner.msg_view()
        } else {
            None::<Seq<char>>
        })
        &&& post_self.sep@ == self.sep@
        &&& post_con == consumed_console(pre, false, written_render(self.inner.msg_view(), ex))
        &&& match read_line_of(pre, false) {
            Some(l) => {
                match O::spec_from_fields(spec_split(spec_trim(l), self.sep@)) {
                    Some(w) => r matches Ok(Outcome::Accepted(v)) && v@ == w,
                    None => r matches Ok(Outcome::Retry),
                }
            },
            None => r == Result::<Outcome<O>, EndOfInput>::Err(EndOfInput),
        }
    }

    fn prompt_once(&mut self, con: &mut Console, fmt: &WrittenFmtRules) -> (r: Result<
        Outcome<O>,
        EndOfInput,
    >) {
        let line = match self.inner.prompt_with(con, fmt, false) {
            Ok(l) => l,
            Err(e) => {
                return Result::Err(e);
            },
        };
        let parts = split_str(line.as_str(), self.sep.as_str());
        match O::from_fields(&parts) {
            Some(v) => Result::Ok(Outcome::Accepted(v)),
            None => Result::Ok(Outcome::Retry),
        }
    }
}

} // verus!
