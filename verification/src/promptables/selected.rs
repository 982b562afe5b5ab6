//! Selection prompts: a numbered list of items, of which the operator picks
//! one by typing its index.

use vstd::prelude::*;
use vstd::string::StrSliceExecFns;

use crate::EndOfInput;
use crate::Outcome;
use crate::Promptable;
use crate::console::Console;
use crate::console::ConsoleView;
use crate::format::Partial;
use crate::format::Position;
use crate::format::rules::ExpandedSelectedRulesView;
use crate::format::rules::SelectedFmtRules;
use crate::format::rules::SelectedRulesView;
use crate::promptables::written::consumed_console;
use crate::promptables::written::read_line_of;
use crate::text::parse_u64;
use crate::text::spec_parse_u64;
use crate::text::spec_trim;
use crate::text::trim;
use crate::text::uint_str;
use crate::text::uint_to_string;

verus! {

/// The numbered list block: one line per item, the item's one-based index
/// between the surrounds, then the item's text.
pub open spec fn list_lines(msgs: Seq<Seq<char>>, open: Seq<char>, close: Seq<char>) -> Seq<char>
    decreases msgs.len(),
{
    if msgs.len() == 0 {
        Seq::<char>::empty()
    } else {
        list_lines(msgs.drop_last(), open, close) + open + uint_str(msgs.len() as int) + close
            + msgs.last() + "\n"@
    }
}

/// The text one selection attempt prints: the title above the list on the
/// first attempt when the position says so, the list block while it is still
/// pending, the title below the list (or repeated on a retry), then the
/// input prefix.
pub open spec fn selected_render(
    title: Option<Seq<char>>,
    msgs: Option<Seq<Seq<char>>>,
    first: bool,
    ex: ExpandedSelectedRulesView,
) -> Seq<char> {
    let top = if ex.list_msg_pos == Position::Top && first {
        match title {
            Some(t) => ex.msg_prefix + t + "\n"@,
            None => Seq::<char>::empty(),
        }
    } else {
        Seq::<char>::empty()
    };
    let list = match msgs {
        Some(ms) => list_lines(ms, ex.list_surrounds.0, ex.list_surrounds.1),
        None => Seq::<char>::empty(),
    };
    let bottom = if ex.list_msg_pos == Position::Bottom || (!first && ex.repeat_prompt) {
        match title {
            Some(t) => ex.msg_prefix + t + (if ex.break_line {
                "\n"@
            } else {
                Seq::<char>::empty()
            }),
            None => Seq::<char>::empty(),
        }
    } else {
        Seq::<char>::empty()
    };
    top + list + bottom + ex.input_prefix
}

/// The pending title after one attempt: kept under `repeat_prompt`, and
/// otherwise consumed by whichever title block ran.
pub open spec fn title_after(
    title: Option<Seq<char>>,
    first: bool,
    ex: ExpandedSelectedRulesView,
) -> Option<Seq<char>> {
    if ex.repeat_prompt {
        title
    } else if (ex.list_msg_pos == Position::Top && first) || ex.list_msg_pos == Position::Bottom {
        None
    } else {
        title
    }
}

/// A selection prompt over values of type `T`; built by [`selected()`].
pub struct Selected<T> {
    /// The title still to be shown, if any.
    pub title: Option<String>,
    /// The item texts still to be listed; listed once, on the first attempt.
    pub msgs: Option<Vec<String>>,
    /// The selectable values, each until it is picked.
    pub values: Vec<Option<T>>,
    /// Whether no attempt has been made yet.
    pub is_first_prompt: bool,
}

/// A prompt that shows `title` and the numbered items of `list`, and reads
/// lines until one is the one-based index of an item; that item's value is
/// the result.
pub fn selected<T>(title: &str, list: Vec<(&str, T)>) -> (r: Selected<T>)
    ensures
        r.title.deep_view() == Some(title@),
        ({
            let g = list@;
            &&& (r.msgs matches Some(m) && m.deep_view() == Seq::new(g.len(), |i: int| g[i].0@))
            &&& r.values@ == Seq::new(g.len(), |i: int| Some(g[i].1))
        }),
        r.is_first_prompt == true,
        r.inv(),
{
    let ghost g = list@;
    let mut list = list;
    let mut msgs: Vec<String> = Vec::new();
    let mut values: Vec<Option<T>> = Vec::new();
    while list.len() > 0
        invariant
            msgs@.len() == values@.len(),
            values@.len() + list@.len() == g.len(),
            list@ == g.skip(values@.len() as int),
            forall|i: int| 0 <= i < values@.len() ==> (#[trigger] msgs.deep_view()[i]) == g[i].0@,
            forall|i: int| 0 <= i < values@.len() ==> (#[trigger] values@[i]) == Some(g[i].1),
        decreases list.len(),
    {
        let ghost done = values@.len() as int;
        let ghost pre_msgs = msgs.deep_view();
        let (m, v) = list.remove(0);
        proof {
            assert(g.skip(done)[0] == g[done]);
            assert(g.skip(done).skip(1) =~= g.skip(done + 1));
        }
        msgs.push(m.to_owned());
        values.push(Some(v));
        proof {
            assert(forall|i: int| 0 <= i < done ==> (#[trigger] msgs.deep_view()[i]) == pre_msgs[i]);
            assert(msgs.deep_view()[done] == m@);
        }
    }
    proof {
        assert(msgs.deep_view() =~= Seq::new(g.len(), |i: int| g[i].0@));
        assert(values@ =~= Seq::new(g.len(), |i: int| Some(g[i].1)));
    }
    Selected { title: Some(title.to_owned()), msgs: Some(msgs), values, is_first_prompt: true }
}

impl<T> Promptable for Selected<T> {
    type Output = T;

    type FmtRules = SelectedFmtRules;

    open spec fn inv(&self) -> bool {
        true
    }

    /// One attempt renders title, pending list and input prefix, consumes
    /// one line, and accepts exactly when the trimmed line is the one-based
    /// index of an item not yet picked; that item is then picked.
    open spec fn post(
        self,
        pre: ConsoleView,
        fmt: SelectedRulesView,
        post_self: Self,
        post_con: ConsoleView,
        r: Result<Outcome<T>, EndOfInput>,
    ) -> bool {
        let ex = SelectedFmtRules::spec_expand(fmt);
        let rendered = selected_render(
            self.title.deep_view(),
            self.msgs.deep_view(),
            self.is_first_prompt,
            ex,
        );
        &&& post_con == consumed_console(pre, false, rendered)
        &&& post_self.title.deep_view() == title_after(
            self.title.deep_view(),
            self.is_first_prompt,
            ex,
        )
        &&& post_self.msgs is None
        &&& post_self.is_first_prompt == false
        &&& match read_line_of(pre, false) {
            Some(l) => {
                match spec_parse_u64(spec_trim(l)) {
                    Some(i) => if 1 <= i && i <= self.values@.len() {
                        match self.values@[i - 1] {
                            Some(v) => {
                                &&& r matches Ok(Outcome::Accepted(out)) && out == v
                                &&& post_self.values@ == self.values@.update(
                                    i - 1,
                                    None::<T>,
                                )
                            },
                            None => {
                                &&& r matches Ok(Outcome::Retry)
                                &&& post_self.values@ == self.values@
                            },
                        }
                    } else {
                        r matches Ok(Outcome::Retry) && post_self.values@ == self.values@
                    },
                    None => r matches Ok(Outcome::Retry) && post_self.values@ == self.values@,
                }
            },
            None => r == Result::<Outcome<T>, EndOfInput>::Err(EndOfInput) && post_self.values@
                == self.values@,
        }
    }

    #[verifier::rlimit(60)]
    fn prompt_once(&mut self, con: &mut Console, fmt: &SelectedFmtRules) -> (r: Result<
        Outcome<T>,
        EndOfInput,
    >) {
        let ex = fmt.expand();
        let ghost pre_c = con@;
        let ghost top_part = (if ex@.list_msg_pos == Position::Top && old(self).is_first_prompt {
            match old(self).title.deep_view() {
                Some(t) => ex@.msg_prefix + t + "\n"@,
                None => Seq::<char>::empty(),
            }
        } else {
            Seq::<char>::empty()
        });
        let ghost list_part = (match old(self).msgs.deep_view() {
            Some(ms) => list_lines(ms, ex@.list_surrounds.0, ex@.list_surrounds.1),
            None => Seq::<char>::empty(),
        });
        let ghost bottom_part = (if ex@.list_msg_pos == Position::Bottom || (!old(
            self,
        ).is_first_prompt && ex@.repeat_prompt) {
            match old(self).title.deep_view() {
                Some(t) => ex@.msg_prefix + t + (if ex@.break_line {
                    "\n"@
                } else {
                    Seq::<char>::empty()
                }),
                None => Seq::<char>::empty(),
            }
        } else {
            Seq::<char>::empty()
        });
        let ghost rendered = selected_render(
            old(self).title.deep_view(),
            old(self).msgs.deep_view(),
            old(self).is_first_prompt,
            ex@,
        );

        // Title above the list, on the first attempt only.
        if ex.list_msg_pos == Position::Top && self.is_first_prompt {
            match &self.title {
                Some(t) => {
                    con.write_out(ex.msg_prefix.as_str());
                    con.write_out(t.as_str());
                    con.write_out("\n");
                },
                None => {},
            }
            if !ex.repeat_prompt {
                self.title = None;
            }
        }
        let ghost after_top = con@.output;
        proof {
            assert(after_top =~= pre_c.output + top_part);
        }

        // The numbered list, while it is still pending.
        let mut msgs_local: Option<Vec<String>> = None;
        core::mem::swap(&mut msgs_local, &mut self.msgs);
        match &msgs_local {
            Some(list) => {
                let ghost lv = list.deep_view();
                let ghost sn = con@;
                let mut k: usize = 0;
                while k < list.len()
                    invariant
                        con.wf(),
                        0 <= k <= list@.len(),
                        lv == list.deep_view(),
                        sn.wf(),
                        con@ == (ConsoleView {
                            output: sn.output + list_lines(
                                lv.take(k as int),
                                ex@.list_surrounds.0,
                                ex@.list_surrounds.1,
                            ),
                            ..sn
                        }),
                    decreases list@.len() - k,
                {
                    con.write_out(ex.list_surrounds.0.as_str());
                    let num = uint_to_string((k as u64) + 1);
                    con.write_out(num.as_str());
                    con.write_out(ex.list_surrounds.1.as_str());
                    con.write_out(list[k].as_str());
                    con.write_out("\n");
                    proof {
                        let t1 = lv.take(k + 1);
                        assert(t1.drop_last() =~= lv.take(k as int));
                        assert(t1.last() == lv[k as int]);
                        assert(con@.output =~= sn.output + list_lines(
                            t1,
                            ex@.list_surrounds.0,
                            ex@.list_surrounds.1,
                        ));
                    }
                    k = k + 1;
                }
                proof {
                    assert(lv.take(list@.len() as int) =~= lv);
                }
            },
            None => {},
        }
        let ghost after_list = con@.output;
        proof {
            assert(after_list =~= after_top + list_part);
        }

        // Title below the list, or repeated on a retry.
        let show_bottom = ex.list_msg_pos == Position::Bottom || (!self.is_first_prompt
            && ex.repeat_prompt);
        if show_bottom {
            match &self.title {
                Some(t) => {
                    con.write_out(ex.msg_prefix.as_str());
                    con.write_out(t.as_str());
                    if ex.break_line {
                        con.write_out("\n");
                    }
                },
                None => {},
            }
            if !ex.repeat_prompt {
                self.title = None;
            }
        }
        let ghost after_bottom = con@.output;
        proof {
            assert(after_bottom =~= after_list + bottom_part);
        }
        self.is_first_prompt = false;
        con.write_out(ex.input_prefix.as_str());
        proof {
            assert(rendered =~= top_part + list_part + bottom_part + ex@.input_prefix);
            assert(con@.output =~= pre_c.output + rendered);
        }

        let line = match con.next_line() {
            Some(l) => l,
            None => {
                proof {
                    assert(con@.output.take(pre_c.output.len() as int) =~= pre_c.output);
                }
                return Result::Err(EndOfInput);
            },
        };
        proof {
            assert(con@.output.take(pre_c.output.len() as int) =~= pre_c.output);
        }
        let t = trim(line.as_str());
        let i = match parse_u64(t.as_str()) {
            Some(i) => i,
            None => {
                return Result::Ok(Outcome::Retry);
            },
        };
        if i < 1 || i > self.values.len() as u64 {
            return Result::Ok(Outcome::Retry);
        }
        let idx: usize = (i - 1) as usize;
        let taken = self.values.remove(idx);
        self.values.insert(idx, None);
        proof {
            assert(self.values@ =~= old(self).values@.update(i - 1, None::<T>));
        }
        match taken {
            Some(v) => Result::Ok(Outcome::Accepted(v)),
            None => {
                proof {
                    assert(self.values@ =~= old(self).values@);
                }
                Result::Ok(Outcome::Retry)
            },
        }
    }
}

/// Law: a selection prompt over `n` items accepts exactly the inputs whose
/// trimmed text is the decimal index of an item still selectable, with the
/// one-based index between 1 and `n`; the accepted value is that item's,
/// and every other input is retried.
pub proof fn lemma_selected_bounds<T>(
    s: Selected<T>,
    pre: ConsoleView,
    fmt: SelectedRulesView,
    s1: Selected<T>,
    c1: ConsoleView,
    r: Result<Outcome<T>, EndOfInput>,
    line: Seq<char>,
)
    requires
        s.post(pre, fmt, s1, c1, r),
        read_line_of(pre, false) == Some(line),
    ensures
        match spec_parse_u64(spec_trim(line)) {
            Some(i) => {
                &&& (r matches Ok(Outcome::Accepted(v))) <==> (1 <= i <= s.values@.len()
                    && s.values@[i - 1] is Some)
                &&& (r matches Ok(Outcome::Accepted(v)) ==> Some(v) == s.values@[i - 1])
            },
            None => r matches Ok(Outcome::Retry),
        },
{
}

} // verus!
