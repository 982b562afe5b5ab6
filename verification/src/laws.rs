//! Laws that relate several prompt types: what holds of their combined
//! transitions, stated over the types' own attempt specifications.

use vstd::prelude::*;

use crate::EndOfInput;
use crate::Outcome;
use crate::Promptable;
use crate::console::ConsoleView;
use crate::format::Partial;
use crate::format::rules::WrittenFmtRules;
use crate::format::rules::WrittenRulesView;
use crate::parse::FromInput;
use crate::promptables::Until;
use crate::promptables::Written;
use crate::promptables::read_line_of;
use crate::runs_to;
use crate::text::spec_trim;

verus! {

/// Law: a predicate rejection downgrades the acceptance to a retry without
/// resetting the wrapped leaf's state.  For a filtered written leaf with
/// the resolved `repeat_prompt` rule false, any first attempt leaves the
/// leaf without a pending message — even when the predicate rejected a
/// parsed value — so the following attempt prints only the input prefix.
pub proof fn lemma_until_keeps_leaf_state<T: FromInput, F: Fn(&T) -> bool>(
    u: Until<Written<T>, F>,
    pre: ConsoleView,
    fmt: WrittenRulesView,
    u1: Until<Written<T>, F>,
    c1: ConsoleView,
    r1: Result<Outcome<T>, EndOfInput>,
    u2: Until<Written<T>, F>,
    c2: ConsoleView,
    r2: Result<Outcome<T>, EndOfInput>,
)
    requires
        WrittenFmtRules::spec_expand(fmt).repeat_prompt == false,
        u.post(pre, fmt, u1, c1, r1),
        u1.post(c1, fmt, u2, c2, r2),
    ensures
        u1.prompt.inner.msg_view() is None,
        c2.output == c1.output + WrittenFmtRules::spec_expand(fmt).input_prefix,
{
    let ex = WrittenFmtRules::spec_expand(fmt);
    assert(c2.output =~= c1.output + ex.input_prefix);
}

/// Law: the run-level specification pins results.  On a console whose next
/// line, trimmed, is nonempty and parses as a `T`, any run of a written
/// prompt returns exactly the value that line denotes.
pub proof fn lemma_written_run_pins_result<T: FromInput>(
    p: Written<T>,
    con: ConsoleView,
    fmt: WrittenRulesView,
    p2: Written<T>,
    con2: ConsoleView,
    r: Result<T, EndOfInput>,
)
    requires
        runs_to::<Written<T>>(p, con, fmt, p2, con2, r),
        con.wf(),
        con.cursor < con.input.len(),
        spec_trim(con.input[con.cursor]).len() > 0,
        T::spec_parse(spec_trim(con.input[con.cursor])) is Some,
    ensures
        r matches Ok(v) && T::spec_parse(spec_trim(con.input[con.cursor])) == Some(v@),
{
    let (p1, c1, r1) = choose|p1: Written<T>, c1: ConsoleView, r1: Result<Outcome<T>, EndOfInput>|
        {
            &&& #[trigger] p.post(con, fmt, p1, c1, r1)
            &&& con.evolves_to(c1)
            &&& c1.wf()
            &&& match r1 {
                Result::Err(e) => p2 == p1 && con2 == c1 && r == Result::<T, EndOfInput>::Err(e),
                Result::Ok(Outcome::Accepted(v)) => p2 == p1 && con2 == c1 && r == Result::<
                    T,
                    EndOfInput,
                >::Ok(v),
                Result::Ok(Outcome::Retry) => {
                    if c1.remaining() < con.remaining() {
                        runs_to(p1, c1, fmt, p2, con2, r)
                    } else {
                        p2 == p1 && con2 == c1 && r == Result::<T, EndOfInput>::Err(EndOfInput)
                    }
                },
            }
        };
    assert(read_line_of(con, false) == Some(con.input[con.cursor]));
    assert(r1 matches Result::Ok(Outcome::Accepted(v)) && T::spec_parse(
        spec_trim(con.input[con.cursor]),
    ) == Some(v@));
}

} // verus!
