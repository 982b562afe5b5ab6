//! The types a written prompt can parse from one trimmed input line.

use vstd::prelude::*;

use crate::text::spec_parse_i64;
use crate::text::spec_parse_u64;
use crate::text::parse_i64;
use crate::text::parse_u64;
use crate::text::str_eq;

verus! {

/// A type a written prompt can resolve from one trimmed input line.
///
/// `spec_parse` fixes, for every line, whether the line is a valid rendering
/// of a value of the type and which value it denotes; `parse_input` computes
/// exactly that.
pub trait FromInput: View + Sized {
    /// The value that the line `s` denotes, if any.
    spec fn spec_parse(s: Seq<char>) -> Option<Self::V>;

    /// Parses one trimmed input line.
    fn parse_input(s: &str) -> (r: Option<Self>)
        ensures
            (r is Some) == (Self::spec_parse(s@) is Some),
            r matches Some(v) ==> Self::spec_parse(s@) == Some(v@),
    ;
}

impl FromInput for String {
    /// Every line denotes itself.
    open spec fn spec_parse(s: Seq<char>) -> Option<Seq<char>> {
        Some(s)
    }

    fn parse_input(s: &str) -> (r: Option<Self>) {
        Some(s.to_owned())
    }
}

impl FromInput for bool {
    /// Exactly the lines `true` and `false` denote a boolean.
    open spec fn spec_parse(s: Seq<char>) -> Option<bool> {
        if s == "true"@ {
            Some(true)
        } else if s == "false"@ {
            Some(false)
        } else {
            None
        }
    }

    fn parse_input(s: &str) -> (r: Option<Self>) {
        if str_eq(s, "true") {
            Some(true)
        } else if str_eq(s, "false") {
            Some(false)
        } else {
            None
        }
    }
}

impl FromInput for u64 {
    /// An optional `+` sign and decimal digits, within the type's range.
    open spec fn spec_parse(s: Seq<char>) -> Option<u64> {
        spec_parse_u64(s)
    }

    fn parse_input(s: &str) -> (r: Option<Self>) {
        parse_u64(s)
    }
}

impl FromInput for u32 {
    /// An optional `+` sign and decimal digits, within the type's range.
    open spec fn spec_parse(s: Seq<char>) -> Option<u32> {
        match spec_parse_u64(s) {
            Some(v) => if v <= u32::MAX {
                Some(v as u32)
            } else {
                None
            },
            None => None,
        }
    }

    fn parse_input(s: &str) -> (r: Option<Self>) {
        match parse_u64(s) {
            Some(v) => if v <= u32::MAX as u64 {
                Some(v as u32)
            } else {
                None
            },
            None => None,
        }
    }
}

impl FromInput for u8 {
    /// An optional `+` sign and decimal digits, within the type's range.
    open spec fn spec_parse(s: Seq<char>) -> Option<u8> {
        match spec_parse_u64(s) {
            Some(v) => if v <= u8::MAX {
                Some(v as u8)
            } else {
                None
            },
            None => None,
        }
    }

    fn parse_input(s: &str) -> (r: Option<Self>) {
        match parse_u64(s) {
            Some(v) => if v <= u8::MAX as u64 {
                Some(v as u8)
            } else {
                None
            },
            None => None,
        }
    }
}

impl FromInput for usize {
    /// An optional `+` sign and decimal digits, within the type's range.
    open spec fn spec_parse(s: Seq<char>) -> Option<usize> {
        match spec_parse_u64(s) {
            Some(v) => if v <= usize::MAX {
                Some(v as usize)
            } else {
                None
            },
            None => None,
        }
    }

    fn parse_input(s: &str) -> (r: Option<Self>) {
        match parse_u64(s) {
            Some(v) => if v <= usize::MAX as u64 {
                Some(v as usize)
            } else {
                None
            },
            None => None,
        }
    }
}

impl FromInput for i64 {
    /// An optional sign and decimal digits, within the type's range.
    open spec fn spec_parse(s: Seq<char>) -> Option<i64> {
        spec_parse_i64(s)
    }

    fn parse_input(s: &str) -> (r: Option<Self>) {
        parse_i64(s)
    }
}

impl FromInput for i32 {
    /// An optional sign and decimal digits, within the type's range.
    open spec fn spec_parse(s: Seq<char>) -> Option<i32> {
        match spec_parse_i64(s) {
            Some(v) => if i32::MIN <= v <= i32::MAX {
                Some(v as i32)
            } else {
                None
            },
            None => None,
        }
    }

    fn parse_input(s: &str) -> (r: Option<Self>) {
        match parse_i64(s) {
            Some(v) => if i32::MIN as i64 <= v && v <= i32::MAX as i64 {
                Some(v as i32)
            } else {
                None
            },
            None => None,
        }
    }
}

} // verus!
