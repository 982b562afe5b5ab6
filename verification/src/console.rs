//! Transcript model of the interactive console.
//!
//! A prompt pipeline consumes newline-terminated text lines and emits prompt
//! text.  Both sides are modelled as plain values: the lines the operator
//! types (visible ones, and hidden ones captured without echo) are held as
//! sequences with a cursor, and everything the pipeline prints accumulates in
//! an output string.  The bridge to real standard input and output lives
//! outside the library.

use vstd::prelude::*;

verus! {

/// The mathematical state of a [`Console`]: the typed lines, the two read
/// cursors, and the text printed so far.
pub ghost struct ConsoleView {
    /// The visible input lines, in the order they are typed.
    pub input: Seq<Seq<char>>,
    /// How many visible lines have been consumed.
    pub cursor: int,
    /// The hidden input lines (captured without echo), in order.
    pub hidden: Seq<Seq<char>>,
    /// How many hidden lines have been consumed.
    pub hidden_cursor: int,
    /// Everything printed so far.
    pub output: Seq<char>,
}

impl ConsoleView {
    /// Both cursors lie within their line sequences.
    pub open spec fn wf(self) -> bool {
        0 <= self.cursor <= self.input.len() && 0 <= self.hidden_cursor <= self.hidden.len()
    }

    /// How many lines (visible and hidden together) are still unread.
    pub open spec fn remaining(self) -> nat {
        ((if self.cursor <= self.input.len() {
            self.input.len() - self.cursor
        } else {
            0
        }) + (if self.hidden_cursor <= self.hidden.len() {
            self.hidden.len() - self.hidden_cursor
        } else {
            0
        })) as nat
    }

    /// What any single prompt attempt may do to the console: the line
    /// sequences stay what they are, the cursors only move forward, and the
    /// output is only appended to.
    pub open spec fn evolves_to(self, post: ConsoleView) -> bool {
        &&& post.input == self.input
        &&& post.hidden == self.hidden
        &&& self.cursor <= post.cursor
        &&& self.hidden_cursor <= post.hidden_cursor
        &&& self.output.len() <= post.output.len()
        &&& post.output.take(self.output.len() as int) == self.output
    }

    /// A console evolves to itself: the attempt that does nothing is allowed.
    pub proof fn lemma_evolves_reflexive(a: ConsoleView)
        ensures
            a.evolves_to(a),
    {
        assert(a.output.take(a.output.len() as int) =~= a.output);
    }

    /// Evolution chains: two successive attempts evolve the console as one.
    pub proof fn lemma_evolves_transitive(a: ConsoleView, b: ConsoleView, c: ConsoleView)
        requires
            a.evolves_to(b),
            b.evolves_to(c),
        ensures
            a.evolves_to(c),
    {
        assert(c.output.take(a.output.len() as int) =~= b.output.take(a.output.len() as int));
    }

    /// Consuming a line under evolution strictly shrinks what remains.
    pub proof fn lemma_progress_decreases(a: ConsoleView, b: ConsoleView)
        requires
            a.wf(),
            b.wf(),
            a.evolves_to(b),
            b.cursor > a.cursor || b.hidden_cursor > a.hidden_cursor,
        ensures
            b.remaining() < a.remaining(),
    {
    }
}

/// A console held as plain values: the input lines still to be read and the
/// text printed so far.  Tests and callers fill it with lines up front; an
/// interactive driver appends lines as the operator types them.
pub struct Console {
    input: Vec<String>,
    cursor: usize,
    hidden: Vec<String>,
    hidden_cursor: usize,
    output: String,
}

impl View for Console {
    type V = ConsoleView;

    closed spec fn view(&self) -> ConsoleView {
        ConsoleView {
            input: self.input.deep_view(),
            cursor: self.cursor as int,
            hidden: self.hidden.deep_view(),
            hidden_cursor: self.hidden_cursor as int,
            output: self.output@,
        }
    }
}

impl Console {
    /// The cursors lie within the line sequences.
    pub open spec fn wf(self) -> bool {
        self@.wf()
    }

    /// A console whose visible input is `input`, with no hidden lines.
    pub fn new(input: Vec<String>) -> (c: Console)
        ensures
            c.wf(),
            c@.input == input.deep_view(),
            c@.cursor == 0,
            c@.hidden == Seq::<Seq<char>>::empty(),
            c@.hidden_cursor == 0,
            c@.output == Seq::<char>::empty(),
    {
        let c = Console {
            input,
            cursor: 0,
            hidden: Vec::new(),
            hidden_cursor: 0,
            output: String::new(),
        };
        proof {
            assert(c@.hidden =~= Seq::<Seq<char>>::empty());
        }
        c
    }

    /// A console with both visible and hidden input lines.
    pub fn with_hidden(input: Vec<String>, hidden: Vec<String>) -> (c: Console)
        ensures
            c.wf(),
            c@.input == input.deep_view(),
            c@.cursor == 0,
            c@.hidden == hidden.deep_view(),
            c@.hidden_cursor == 0,
            c@.output == Seq::<char>::empty(),
    {
        Console { input, cursor: 0, hidden, hidden_cursor: 0, output: String::new() }
    }

    /// Appends one more visible line, as an interactive driver does when the
    /// operator types one.
    pub fn push_line(&mut self, line: String)
        requires
            old(self).wf(),
        ensures
            final(self).wf(),
            final(self)@ == (ConsoleView { input: old(self)@.input.push(line@), ..old(self)@ }),
    {
        self.input.push(line);
        proof {
            assert(self@.input =~= old(self)@.input.push(line@));
        }
    }

    /// Appends one more hidden line (one captured without echo).
    pub fn push_hidden_line(&mut self, line: String)
        requires
            old(self).wf(),
        ensures
            final(self).wf(),
            final(self)@ == (ConsoleView { hidden: old(self)@.hidden.push(line@), ..old(self)@ }),
    {
        self.hidden.push(line);
        proof {
            assert(self@.hidden =~= old(self)@.hidden.push(line@));
        }
    }

    /// How many visible lines have been consumed.
    pub fn cursor(&self) -> (r: usize)
        ensures
            r == self@.cursor,
    {
        self.cursor
    }

    /// How many hidden lines have been consumed.
    pub fn hidden_cursor(&self) -> (r: usize)
        ensures
            r == self@.hidden_cursor,
    {
        self.hidden_cursor
    }

    /// Everything printed so far.
    pub fn output_text(&self) -> (r: &str)
        ensures
            r@ == self@.output,
    {
        self.output.as_str()
    }

    /// Reads the next visible line, advancing the cursor; `None` when the
    /// visible input is exhausted.
    pub fn next_line(&mut self) -> (r: Option<String>)
        requires
            old(self).wf(),
        ensures
            final(self).wf(),
            old(self)@.evolves_to(final(self)@),
            final(self)@.hidden_cursor == old(self)@.hidden_cursor,
            final(self)@.output == old(self)@.output,
            if old(self)@.cursor < old(self)@.input.len() {
                &&& final(self)@.cursor == old(self)@.cursor + 1
                &&& (r matches Some(line) && line@ == old(self)@.input[old(self)@.cursor])
            } else {
                &&& final(self)@.cursor == old(self)@.cursor
                &&& r is None
            },
    {
        let r = if self.cursor < self.input.len() {
            let line = self.input[self.cursor].clone();
            self.cursor = self.cursor + 1;
            Some(line)
        } else {
            None
        };
        proof {
            assert(self@.output.take(old(self)@.output.len() as int) =~= old(self)@.output);
        }
        r
    }

    /// Reads the next hidden line, advancing the hidden cursor; `None` when
    /// the hidden input is exhausted.
    pub fn next_hidden(&mut self) -> (r: Option<String>)
        requires
            old(self).wf(),
        ensures
            final(self).wf(),
            old(self)@.evolves_to(final(self)@),
            final(self)@.cursor == old(self)@.cursor,
            final(self)@.output == old(self)@.output,
            if old(self)@.hidden_cursor < old(self)@.hidden.len() {
                &&& final(self)@.hidden_cursor == old(self)@.hidden_cursor + 1
                &&& (r matches Some(line) && line@ == old(self)@.hidden[old(self)@.hidden_cursor])
            } else {
                &&& final(self)@.hidden_cursor == old(self)@.hidden_cursor
                &&& r is None
            },
    {
        let r = if self.hidden_cursor < self.hidden.len() {
            let line = self.hidden[self.hidden_cursor].clone();
            self.hidden_cursor = self.hidden_cursor + 1;
            Some(line)
        } else {
            None
        };
        proof {
            assert(self@.output.take(old(self)@.output.len() as int) =~= old(self)@.output);
        }
        r
    }

    /// Appends `s` to the printed output.
    pub fn write_out(&mut self, s: &str)
        requires
            old(self).wf(),
        ensures
            final(self).wf(),
            old(self)@.evolves_to(final(self)@),
            final(self)@ == (ConsoleView { output: old(self)@.output + s@, ..old(self)@ }),
    {
        self.output.append(s);
        proof {
            assert(self@.output.take(old(self)@.output.len() as int) =~= old(self)@.output);
        }
    }
}

} // verus!
