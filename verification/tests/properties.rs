//! Scenario checks for the library's stated behavior: chain restarts,
//! flattening order, selection bounds, and message-repeat behavior.

use ineed::Outcome;
use ineed::Prompt;
use ineed::Promptable;
use ineed::console::Console;
use ineed::format::rules::SelectedFmtRules;

fn lines(xs: &[&str]) -> Vec<String> {
    let mut v = Vec::new();
    for x in xs {
        v.push(x.to_string());
    }
    v
}

#[test]
fn chain_asks_first_prompt_once_while_second_retries() {
    // The first prompt accepts at once; the second is retried twice within
    // the same chain attempt, so the first prompt's message is printed
    // exactly once while the second prompt's prefix repeats.
    let mut con = Console::new(lines(&["5", "invalid", "invalid", "7"]));
    let (a, b) = ineed::written::<i32>("A")
        .chain(ineed::written::<i32>("B"))
        .prompt_with(&mut con)
        .unwrap();
    assert_eq!((a, b), (5, 7));
    assert_eq!(con.output_text(), "- A\n> - B\n> > > ");
}

#[test]
fn chain_restarts_from_first_when_first_retries() {
    // An invalid answer to the first prompt retries the whole chain: the
    // first prompt is asked again before the second is ever reached.
    let mut con = Console::new(lines(&["bad", "1", "2"]));
    let (a, b) = ineed::written::<i32>("A")
        .chain(ineed::written::<i32>("B"))
        .prompt_with(&mut con)
        .unwrap();
    assert_eq!((a, b), (1, 2));
    assert_eq!(con.output_text(), "- A\n> > - B\n> ");
}

#[test]
fn four_deep_chain_flattens_in_declaration_order() {
    let mut con = Console::new(lines(&["a", "b", "c", "d"]));
    let (w1, w2, w3, w4) = ineed::written::<String>("W1")
        .chain(ineed::written::<String>("W2"))
        .chain(ineed::written::<String>("W3"))
        .chain(ineed::written::<String>("W4"))
        .prompt_with(&mut con)
        .unwrap();
    assert_eq!(
        (w1.as_str(), w2.as_str(), w3.as_str(), w4.as_str()),
        ("a", "b", "c", "d")
    );
}

#[test]
fn selection_rejects_out_of_range_and_accepts_each_index() {
    // Out-of-range and unparsable indices are all rejected...
    let mut p = ineed::selected("t", vec![("a", 10), ("b", 20), ("c", 30)]);
    let rules = SelectedFmtRules::default();
    for bad in ["0", "4", "-1", "abc"] {
        let mut con = Console::new(lines(&[bad]));
        let res = p.prompt_once(&mut con, &rules).unwrap();
        assert!(matches!(res, Outcome::Retry));
    }
    // ... and exactly the indices 1..=3 select the declared values.
    for (input, expected) in [("1", 10), ("2", 20), ("3", 30)] {
        let mut p = ineed::selected("t", vec![("a", 10), ("b", 20), ("c", 30)]);
        let mut con = Console::new(lines(&[input]));
        let res = p.prompt_with(&mut con).unwrap();
        assert_eq!(res, expected);
    }
}

#[test]
fn until_rejection_does_not_reset_leaf_message() {
    // Values parse fine but fail the predicate: the message must still be
    // shown exactly once, the downgrade behaving as any other retry.
    let mut con = Console::new(lines(&["1", "2", "10"]));
    let res = ineed::written::<i32>("msg")
        .until(|x| *x > 9)
        .prompt_with(&mut con)
        .unwrap();
    assert_eq!(res, 10);
    assert_eq!(con.output_text(), "- msg\n> > > ");
}

#[test]
fn repeat_prompt_false_shows_message_once() {
    let mut con = Console::new(lines(&["x", "y", "3"]));
    let res = ineed::written::<i32>("n").prompt_with(&mut con).unwrap();
    assert_eq!(res, 3);
    assert_eq!(con.output_text(), "- n\n> > > ");
}

#[test]
fn selection_item_is_picked_at_most_once() {
    let rules = SelectedFmtRules::default();
    let mut p = ineed::selected("t", vec![("a", 10), ("b", 20)]);
    let mut con = Console::new(lines(&["1", "1", "2"]));
    let first = p.prompt_once(&mut con, &rules).unwrap();
    assert!(matches!(first, Outcome::Accepted(10)));
    // The picked item is consumed: the same index is no longer selectable.
    let again = p.prompt_once(&mut con, &rules).unwrap();
    assert!(matches!(again, Outcome::Retry));
    let other = p.prompt_once(&mut con, &rules).unwrap();
    assert!(matches!(other, Outcome::Accepted(20)));
}
