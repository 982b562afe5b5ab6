//! The combinators: retry limits, mapping, filtering, and chaining.

use ineed::MaxTriesExceeded;
use ineed::Prompt;
use ineed::console::Console;

fn lines(xs: &[&str]) -> Vec<String> {
    let mut v = Vec::new();
    for x in xs {
        v.push(x.to_string());
    }
    v
}

#[test]
fn map_basic() {
    let mut con = Console::new(lines(&["3"]));
    let res = ineed::written::<i32>("")
        .map(|x| x + 3)
        .prompt_with(&mut con)
        .unwrap();
    assert_eq!(res, 6);
}

#[test]
fn good_input() {
    let mut con = Console::new(lines(&["3"]));
    let res = ineed::written::<i32>("foo")
        .max_tries(3)
        .prompt_with(&mut con)
        .unwrap();
    assert_eq!(res, Ok(3));
}

#[test]
fn good_input_before_max_tries() {
    let mut con = Console::new(lines(&["nop", "a", "3"]));
    let res = ineed::written::<i32>("foo")
        .max_tries(3)
        .prompt_with(&mut con)
        .unwrap();
    assert_eq!(res, Ok(3));
}

#[test]
fn max_tries_reached() {
    let mut con = Console::new(lines(&["nop", "a", "oo", "6"]));
    let res = ineed::written::<i32>("foo")
        .max_tries(3)
        .prompt_with(&mut con)
        .unwrap();
    assert_eq!(res, Err(MaxTriesExceeded));
    // The budget was spent on the three invalid lines; the valid one was
    // never reached.
    assert_eq!(con.cursor(), 3);
}

#[test]
fn until_basic() {
    let mut con = Console::new(lines(&["aa", "oo", "-6", "3", "4", "10"]));
    let res = ineed::written::<u32>("")
        .until(|x| *x > 9)
        .prompt_with(&mut con)
        .unwrap();
    assert_eq!(res, 10);
}

#[test]
fn written_then_selected() {
    let mut con = Console::new(lines(&["foobar", "2", "yes"]));
    let (foobar, int, bool) = ineed::written::<String>("")
        .chain(ineed::selected("", vec![("", 1000), ("", 2000)]))
        .chain(ineed::bool(""))
        .prompt_with(&mut con)
        .unwrap();

    assert_eq!((foobar.as_str(), int, bool), ("foobar", 2000, true));
}

#[test]
fn then_any_invalid_input() {
    let mut con = Console::new(lines(&[
        "foobar", "1", "caca", "foobar", "5", "no", "foobar", "1", "no",
    ]));
    let (foobar, int, bool) = ineed::written::<String>("")
        .chain(ineed::selected("", vec![("", 1000), ("", 2000)]))
        .chain(ineed::bool(""))
        .prompt_with(&mut con)
        .unwrap();

    assert_eq!((foobar.as_str(), int, bool), ("foobar", 1000, false));
}
