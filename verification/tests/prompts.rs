//! The leaf prompts, run on in-memory consoles.

use ineed::Outcome;
use ineed::Prompt;
use ineed::Promptable;
use ineed::console::Console;
use ineed::format::Partial;
use ineed::format::rules::SelectedFmtRules;
use ineed::format::rules::WrittenFmtRules;
use ineed::format::Position;
use ineed::prelude::FmtRule;

fn lines(xs: &[&str]) -> Vec<String> {
    let mut v = Vec::new();
    for x in xs {
        v.push(x.to_string());
    }
    v
}

#[test]
fn normal_str_input() {
    let mut con = Console::new(lines(&["hello"]));
    let res = ineed::written::<String>("foobar").prompt_with(&mut con).unwrap();
    assert_eq!(res, "hello");

    let default_fmt = WrittenFmtRules::default().expand();
    let expected_msg = format!(
        "{}foobar{}{}",
        default_fmt.msg_prefix,
        if default_fmt.break_line { "\n" } else { "" },
        default_fmt.input_prefix
    );
    assert_eq!(con.output_text(), expected_msg);
}

#[test]
fn normal_int_input() {
    let mut con = Console::new(lines(&["34"]));
    let res = ineed::written::<i32>("foobi").prompt_with(&mut con).unwrap();
    assert_eq!(res, 34);

    let default_fmt = WrittenFmtRules::default().expand();
    let expected_msg = format!(
        "{}foobi{}{}",
        default_fmt.msg_prefix,
        if default_fmt.break_line { "\n" } else { "" },
        default_fmt.input_prefix
    );
    assert_eq!(con.output_text(), expected_msg);
}

#[test]
fn repeat_5_times_int_input() {
    let mut con = Console::new(lines(&["nop", "nop", "nop", "nop", "23"]));
    let res = ineed::written::<i32>("googa").prompt_with(&mut con).unwrap();
    assert_eq!(res, 23);

    let default_fmt = WrittenFmtRules::default().expand();
    let expected_msg = format!(
        "{0}googa{1}{2}{3}{3}{3}{3}",
        default_fmt.msg_prefix,
        if default_fmt.break_line { "\n" } else { "" },
        default_fmt.input_prefix,
        if default_fmt.break_line {
            default_fmt.input_prefix.to_string()
        } else {
            format!("{}googa{}", default_fmt.msg_prefix, default_fmt.input_prefix)
        },
    );
    assert_eq!(con.output_text(), expected_msg);
}

#[test]
fn written_fully_customized_fmt_with_good_input() {
    let mut con = Console::new(lines(&["hello"]));
    let res = ineed::written::<String>("booga")
        .fmt(
            ineed::fmt()
                .break_line(false)
                .repeat_prompt(true)
                .msg_prefix("* ")
                .input_prefix(": "),
        )
        .prompt_with(&mut con)
        .unwrap();

    assert_eq!(res, "hello");
    assert_eq!(con.output_text(), "* booga: ");
}

#[test]
fn written_fully_customized_fmt_with_bad_input() {
    let mut con = Console::new(lines(&["hello", "hello", "hello", "hello", "2"]));
    let res = ineed::written::<i32>("booga")
        .fmt(
            ineed::fmt()
                .break_line(false)
                .repeat_prompt(true)
                .msg_prefix("* ")
                .input_prefix(": "),
        )
        .prompt_with(&mut con)
        .unwrap();

    assert_eq!(res, 2);
    assert_eq!(con.output_text(), "* booga: * booga: * booga: * booga: * booga: ");
}

fn test_input(input: &str, expected: bool) {
    let mut con = Console::new(lines(&[input]));
    let res = ineed::bool("").prompt_with(&mut con).unwrap();
    assert_eq!(res, expected);
}

fn test_invalid_input(input: &str) {
    let mut con = Console::new(lines(&[input]));
    let res = ineed::bool("")
        .prompt_once(&mut con, &WrittenFmtRules::default())
        .unwrap();
    assert!(matches!(res, Outcome::Retry));
}

#[test]
fn yes_inputs() {
    for input in ["y", "ye", "yes", "Y", "YeS", "yep"] {
        test_input(input, true);
    }
}

#[test]
fn no_inputs() {
    for input in ["n", "N", "no", "nop", "nOpE"] {
        test_input(input, false);
    }
}

#[test]
fn invalid_inputs() {
    for input in ["e", "a", "s", "p", "o"] {
        test_invalid_input(input);
        test_invalid_input(input.to_uppercase().as_str());
    }
}

#[test]
fn normal_input() {
    let mut con = Console::new(lines(&["3"]));
    let res = ineed::selected("booga", vec![("foo", 1000), ("bar", 2000), ("foobar", 3000)])
        .prompt_with(&mut con)
        .unwrap();
    assert_eq!(res, 3000);

    let default_fmt = SelectedFmtRules::default().expand();
    let title = format!("{}booga", default_fmt.msg_prefix);
    let expected_msg = format!(
        "{opt_title_top}\
        {open}1{close}foo\n\
        {open}2{close}bar\n\
        {open}3{close}foobar\n\
        {opt_title_bottom}{opt_nl}\
        {input_prefix}",
        opt_title_top = if let Position::Top = default_fmt.list_msg_pos {
            format!("{title}\n")
        } else {
            String::new()
        },
        open = default_fmt.list_surrounds.0,
        close = default_fmt.list_surrounds.1,
        opt_title_bottom = if let Position::Bottom = default_fmt.list_msg_pos {
            title.as_str()
        } else {
            ""
        },
        opt_nl = if default_fmt.break_line { "\n" } else { "" },
        input_prefix = default_fmt.input_prefix
    );
    assert_eq!(con.output_text(), expected_msg);
}

#[test]
fn repeat_5_times_input() {
    let mut con = Console::new(lines(&["boo", "400", "-43", "0", "1"]));
    let res = ineed::selected("booga", vec![("foo", 1000), ("bar", 2000), ("foobar", 3000)])
        .prompt_with(&mut con)
        .unwrap();
    assert_eq!(res, 1000);

    let default_fmt = SelectedFmtRules::default().expand();
    let title = format!("{}booga", default_fmt.msg_prefix);
    let expected_msg = format!(
        "{opt_title_top}\
        {open}1{close}foo\n\
        {open}2{close}bar\n\
        {open}3{close}foobar\n\
        {opt_title_bottom}{opt_nl}\
        {input_prefix}{input_prefix}{input_prefix}{input_prefix}{input_prefix}",
        opt_title_top = if let Position::Top = default_fmt.list_msg_pos {
            format!("{title}\n")
        } else {
            String::new()
        },
        open = default_fmt.list_surrounds.0,
        close = default_fmt.list_surrounds.1,
        opt_title_bottom = if let Position::Bottom = default_fmt.list_msg_pos {
            title.as_str()
        } else {
            ""
        },
        opt_nl = if default_fmt.break_line { "\n" } else { "" },
        input_prefix = default_fmt.input_prefix
    );
    assert_eq!(con.output_text(), expected_msg);
}

#[test]
fn custom_fmt_top_title_without_nl_repeat_prompt() {
    let mut con = Console::new(lines(&["boo", "bam", "bim", "1"]));
    let res = ineed::selected("booga", vec![("foo", 1000), ("bar", 2000), ("foobar", 3000)])
        .fmt(
            ineed::fmt()
                .list_msg_pos(Position::Top)
                .break_line(false)
                .repeat_prompt(true),
        )
        .prompt_with(&mut con)
        .unwrap();
    assert_eq!(res, 1000);

    let default_fmt = SelectedFmtRules::default().expand();
    let expected_msg = format!(
        "{msg_prefix}booga\n\
        {open}1{close}foo\n\
        {open}2{close}bar\n\
        {open}3{close}foobar\n\
        {input_prefix}\
        {msg_prefix}booga{input_prefix}\
        {msg_prefix}booga{input_prefix}\
        {msg_prefix}booga{input_prefix}",
        msg_prefix = default_fmt.msg_prefix,
        open = default_fmt.list_surrounds.0,
        close = default_fmt.list_surrounds.1,
        input_prefix = default_fmt.input_prefix
    );
    assert_eq!(con.output_text(), expected_msg);
}

#[test]
fn custom_fmt_top_title_with_nl_repeat_prompt() {
    let mut con = Console::new(lines(&["boo", "bam", "bim", "1"]));
    let res = ineed::selected("booga", vec![("foo", 1000), ("bar", 2000), ("foobar", 3000)])
        .fmt(
            ineed::fmt()
                .list_msg_pos(Position::Top)
                .break_line(true)
                .repeat_prompt(true),
        )
        .prompt_with(&mut con)
        .unwrap();
    assert_eq!(res, 1000);

    let default_fmt = SelectedFmtRules::default().expand();
    let expected_msg = format!(
        "{msg_prefix}booga\n\
        {open}1{close}foo\n\
        {open}2{close}bar\n\
        {open}3{close}foobar\n\
        {input_prefix}\
        {msg_prefix}booga\n{input_prefix}\
        {msg_prefix}booga\n{input_prefix}\
        {msg_prefix}booga\n{input_prefix}",
        msg_prefix = default_fmt.msg_prefix,
        open = default_fmt.list_surrounds.0,
        close = default_fmt.list_surrounds.1,
        input_prefix = default_fmt.input_prefix
    );
    assert_eq!(con.output_text(), expected_msg);
}

#[test]
fn selected_fully_customized_fmt_with_good_input() {
    let mut con = Console::new(lines(&["1"]));
    let res = ineed::selected("booga", vec![("foo", 1000), ("bar", 2000), ("foobar", 3000)])
        .fmt(
            ineed::fmt()
                .msg_prefix("-> ")
                .input_prefix(": ")
                .repeat_prompt(true)
                .break_line(false)
                .list_surrounds("<", "> ")
                .list_msg_pos(Position::Bottom),
        )
        .prompt_with(&mut con)
        .unwrap();
    assert_eq!(res, 1000);

    assert_eq!(
        con.output_text(),
        "<1> foo\n\
        <2> bar\n\
        <3> foobar\n\
        -> booga: "
    );
}

#[test]
fn selected_fully_customized_fmt_with_bad_input() {
    let mut con = Console::new(lines(&["bim", "0", "-1", "344", "1"]));
    let res = ineed::selected("booga", vec![("foo", 1000), ("bar", 2000), ("foobar", 3000)])
        .fmt(
            ineed::fmt()
                .msg_prefix("-> ")
                .input_prefix(": ")
                .repeat_prompt(true)
                .break_line(false)
                .list_surrounds("<", "> ")
                .list_msg_pos(Position::Bottom),
        )
        .prompt_with(&mut con)
        .unwrap();
    assert_eq!(res, 1000);

    assert_eq!(
        con.output_text(),
        "<1> foo\n\
        <2> bar\n\
        <3> foobar\n\
        -> booga: -> booga: -> booga: -> booga: -> booga: "
    );
}

#[test]
fn separated_all_good_inputs() {
    let mut con = Console::new(lines(&["1;2;3"]));
    let values: Vec<i32> = ineed::separated("", ";").prompt_with(&mut con).unwrap();
    assert_eq!(values, [1, 2, 3]);
}

#[test]
fn separated_trim_inputs() {
    let mut con = Console::new(lines(&[" 1 ;2   ;     3"]));
    let values: Vec<i32> = ineed::separated("", ";").prompt_with(&mut con).unwrap();
    assert_eq!(values, [1, 2, 3]);
}

#[test]
fn separated_any_invalid_input() {
    let mut con = Console::new(lines(&["foo;2;3", "1;bar;3", "1;2;foobar", "1;2;3"]));
    let values: Vec<i32> = ineed::separated("", ";").prompt_with(&mut con).unwrap();
    assert_eq!(values, [1, 2, 3]);
}

#[test]
fn many_written_all_good_inputs() {
    let mut con = Console::new(lines(&["foo, 1, true"]));
    let (str, i32, bool): (String, i32, bool) =
        ineed::many_written("msg", ", ").prompt_with(&mut con).unwrap();

    assert_eq!(str, "foo");
    assert_eq!(i32, 1);
    assert_eq!(bool, true);
}

#[test]
fn many_written_trim_inputs() {
    let mut con = Console::new(lines(&["foo, 1   ,    true"]));
    let (str, i32, bool): (String, i32, bool) =
        ineed::many_written("msg", ", ").prompt_with(&mut con).unwrap();

    assert_eq!(str, "foo");
    assert_eq!(i32, 1);
    assert_eq!(bool, true);
}

#[test]
fn many_written_any_invalid_input() {
    let mut con = Console::new(lines(&["foo, beg, true", "bar, 1, wow", "boor, 2, false"]));
    let (str, i32, bool): (String, i32, bool) =
        ineed::many_written("msg", ", ").prompt_with(&mut con).unwrap();

    assert_eq!(str, "boor");
    assert_eq!(i32, 2);
    assert_eq!(bool, false);
}

#[test]
fn password_reads_hidden_lines_only() {
    let mut con = Console::with_hidden(lines(&["visible"]), lines(&["", "s3cret"]));
    let res = ineed::password("pw").prompt_with(&mut con).unwrap();
    assert_eq!(res, "s3cret");
    assert_eq!(con.output_text(), "- pw\n> > ");
    // The visible line was never consumed.
    assert_eq!(con.cursor(), 0);
}

#[test]
fn exhausted_input_reports_end_of_input() {
    let mut con = Console::new(lines(&["nope"]));
    let res = ineed::written::<i32>("n").prompt_with(&mut con);
    assert_eq!(res, Err(ineed::EndOfInput));
}

#[test]
fn written_u8_range_bounds() {
    let mut con = Console::new(lines(&["256", "-1", "+12"]));
    let res = ineed::written::<u8>("byte").prompt_with(&mut con).unwrap();
    assert_eq!(res, 12);
}

#[test]
fn written_rejects_empty_line() {
    let mut con = Console::new(lines(&["", "   ", "ok"]));
    let res = ineed::written::<String>("s").prompt_with(&mut con).unwrap();
    assert_eq!(res, "ok");
}

#[test]
fn written_i32_range_bounds() {
    let mut con = Console::new(lines(&["2147483648", "-2147483649", "-2147483648"]));
    let res = ineed::written::<i32>("n").prompt_with(&mut con).unwrap();
    assert_eq!(res, -2147483648);
}

#[test]
fn written_u64_overflow_rejected() {
    let mut con = Console::new(lines(&["99999999999999999999999", "18446744073709551615"]));
    let res = ineed::written::<u64>("n").prompt_with(&mut con).unwrap();
    assert_eq!(res, 18446744073709551615);
}
