//! Verified text utilities shared by the prompt kinds: whitespace trimming,
//! decimal parsing and rendering, case-insensitive comparison, and splitting
//! on a separator.
//!
//! Every raw input line is trimmed before parsing; selection prompts render
//! decimal indices; the yes/no prompt matches tokens without regard to ASCII
//! case; the multi-value prompts split one line on a separator string.

use vstd::prelude::*;
use vstd::string::*;

verus! {

// ---------------------------------------------------------------------------
// Whitespace and trimming
// ---------------------------------------------------------------------------
/// The whitespace characters that trimming removes.
pub open spec fn is_space(c: char) -> bool {
    c == ' ' || c == '\t' || c == '\n' || c == '\r'
}

/// `s` without its leading whitespace.
pub open spec fn trim_front(s: Seq<char>) -> Seq<char>
    decreases s.len(),
{
    if s.len() > 0 && is_space(s[0]) {
        trim_front(s.skip(1))
    } else {
        s
    }
}

/// `s` without its trailing whitespace.
pub open spec fn trim_back(s: Seq<char>) -> Seq<char>
    decreases s.len(),
{
    if s.len() > 0 && is_space(s.last()) {
        trim_back(s.drop_last())
    } else {
        s
    }
}

/// `s` without leading and trailing whitespace.
pub open spec fn spec_trim(s: Seq<char>) -> Seq<char> {
    trim_back(trim_front(s))
}

proof fn lemma_trim_front_skip(s: Seq<char>, k: int)
    requires
        0 <= k <= s.len(),
        forall|i: int| 0 <= i < k ==> is_space(s[i]),
    ensures
        trim_front(s) == trim_front(s.skip(k)),
    decreases k,
{
    if k > 0 {
        assert(s.skip(1).skip(k - 1) =~= s.skip(k));
        lemma_trim_front_skip(s.skip(1), k - 1);
    } else {
        assert(s.skip(0) =~= s);
    }
}

proof fn lemma_trim_back_take(s: Seq<char>, k: int)
    requires
        0 <= k <= s.len(),
        forall|i: int| k <= i < s.len() ==> is_space(s[i]),
    ensures
        trim_back(s) == trim_back(s.take(k)),
    decreases s.len() - k,
{
    if k < s.len() {
        assert(s.drop_last() =~= s.take(s.len() - 1));
        lemma_trim_back_take(s.take(s.len() - 1), k);
        assert(s.take(s.len() - 1).take(k) =~= s.take(k));
    } else {
        assert(s.take(k) =~= s);
    }
}

/// Removes leading and trailing whitespace, as applied to every raw line.
pub(crate) fn trim(s: &str) -> (r: String)
    ensures
        r@ == spec_trim(s@),
{
    let n = s.unicode_len();
    let mut start: usize = 0;
    loop
        invariant
            n == s@.len(),
            0 <= start <= n,
            forall|i: int| 0 <= i < start ==> is_space(s@[i]),
        ensures
            0 <= start <= n,
            forall|i: int| 0 <= i < start ==> is_space(s@[i]),
            start == n || !is_space(s@[start as int]),
        decreases n - start,
    {
        if start >= n {
            break;
        }
        let c = s.get_char(start);
        if !(c == ' ' || c == '\t' || c == '\n' || c == '\r') {
            break;
        }
        start = start + 1;
    }
    let mut end: usize = n;
    loop
        invariant
            n == s@.len(),
            0 <= start <= end <= n,
            forall|i: int| end <= i < n ==> is_space(s@[i]),
        ensures
            0 <= start <= end <= n,
            forall|i: int| end <= i < n ==> is_space(s@[i]),
            end == start || !is_space(s@[end - 1]),
        decreases end,
    {
        if end <= start {
            break;
        }
        let c = s.get_char(end - 1);
        if !(c == ' ' || c == '\t' || c == '\n' || c == '\r') {
            break;
        }
        end = end - 1;
    }
    proof {
        lemma_trim_front_skip(s@, start as int);
        let t = s@.skip(start as int);
        if t.len() > 0 && is_space(t[0]) {
            assert(t[0] == s@[start as int]);
            assert(false);
        }
        assert(trim_front(s@) == t);
        lemma_trim_back_take(t, end - start);
        assert(t.take(end - start) =~= s@.subrange(start as int, end as int));
        let u = s@.subrange(start as int, end as int);
        if u.len() > 0 && is_space(u.last()) {
            assert(u.last() == s@[end - 1]);
            assert(false);
        }
        assert(spec_trim(s@) == u);
    }
    s.substring_char(start, end).to_owned()
}

// ---------------------------------------------------------------------------
// Decimal digits and integer parsing
// ---------------------------------------------------------------------------
/// Whether `c` is a decimal digit.
pub open spec fn is_digit(c: char) -> bool {
    48 <= c as u32 <= 57
}

/// The numeric value of the digit `c`.
pub open spec fn digit_val(c: char) -> int {
    c as u32 - 48
}

/// Whether every character of `s` is a decimal digit.
pub open spec fn all_digits(s: Seq<char>) -> bool {
    forall|i: int| 0 <= i < s.len() ==> is_digit(#[trigger] s[i])
}

/// The value of the digit string `s`, most significant digit first.
pub open spec fn uint_val(s: Seq<char>) -> int
    decreases s.len(),
{
    if s.len() == 0 {
        0
    } else {
        uint_val(s.drop_last()) * 10 + digit_val(s.last())
    }
}

proof fn lemma_uint_val_nonneg(s: Seq<char>)
    requires
        all_digits(s),
    ensures
        uint_val(s) >= 0,
    decreases s.len(),
{
    if s.len() > 0 {
        lemma_uint_val_nonneg(s.drop_last());
    }
}

proof fn lemma_uint_val_monotone(s: Seq<char>, k: int)
    requires
        all_digits(s),
        0 <= k <= s.len(),
    ensures
        uint_val(s.take(k)) <= uint_val(s),
    decreases s.len() - k,
{
    if k < s.len() {
        lemma_uint_val_monotone(s, k + 1);
        let t = s.take(k + 1);
        assert(t.drop_last() =~= s.take(k));
        assert(all_digits(t.drop_last()));
        lemma_uint_val_nonneg(t.drop_last());
        assert(uint_val(t) == uint_val(s.take(k)) * 10 + digit_val(t.last()));
        assert(uint_val(s.take(k)) <= uint_val(t));
    } else {
        assert(s.take(k) =~= s);
    }
}

/// What parsing an unsigned decimal number returns: the digits' value when
/// the text (after an optional leading `+`) is one or more digits and the
/// value fits in a `u64`; nothing otherwise.
pub open spec fn spec_parse_u64(s: Seq<char>) -> Option<u64> {
    let ds = if s.len() > 0 && s[0] == '+' {
        s.skip(1)
    } else {
        s
    };
    if ds.len() > 0 && all_digits(ds) && uint_val(ds) <= u64::MAX {
        Some(uint_val(ds) as u64)
    } else {
        None
    }
}

/// What parsing a signed decimal number returns: the digits' value after an
/// optional `+` or `-` sign, when it fits in an `i64`; nothing otherwise.
pub open spec fn spec_parse_i64(s: Seq<char>) -> Option<i64> {
    let neg = s.len() > 0 && s[0] == '-';
    let ds = if s.len() > 0 && (s[0] == '+' || s[0] == '-') {
        s.skip(1)
    } else {
        s
    };
    if ds.len() > 0 && all_digits(ds) {
        if neg && -uint_val(ds) >= i64::MIN {
            Some((-uint_val(ds)) as i64)
        } else if !neg && uint_val(ds) <= i64::MAX {
            Some(uint_val(ds) as i64)
        } else {
            None
        }
    } else {
        None
    }
}

/// Parses the characters of `s` from `start` on as a run of decimal digits.
fn parse_digits(s: &str, start: usize) -> (r: Option<u64>)
    requires
        start <= s@.len(),
    ensures
        ({
            let ds = s@.skip(start as int);
            match r {
                Some(v) => ds.len() > 0 && all_digits(ds) && uint_val(ds) == v,
                None => ds.len() == 0 || !all_digits(ds) || uint_val(ds) > u64::MAX,
            }
        }),
{
    let ghost ds = s@.skip(start as int);
    let n = s.unicode_len();
    if start >= n {
        return None;
    }
    let mut i: usize = start;
    let mut acc: u64 = 0;
    while i < n
        invariant
            n == s@.len(),
            start <= i <= n,
            ds == s@.skip(start as int),
            forall|j: int| start <= j < i ==> is_digit(#[trigger] s@[j]),
            acc == uint_val(s@.subrange(start as int, i as int)),
        decreases n - i,
    {
        let c = s.get_char(i);
        let v = c as u32;
        if v < 48 || v > 57 {
            proof {
                assert(ds[i - start] == s@[i as int]);
                assert(!all_digits(ds));
            }
            return None;
        }
        let d = (v - 48) as u64;
        let ghost pre = s@.subrange(start as int, i as int);
        let ghost ext = s@.subrange(start as int, i + 1);
        proof {
            assert(ext.drop_last() =~= pre);
            assert(ext.last() == s@[i as int]);
            assert(uint_val(ext) == uint_val(pre) * 10 + digit_val(s@[i as int]));
        }
        if acc > (u64::MAX - d) / 10 {
            proof {
                vstd::arithmetic::div_mod::lemma_fundamental_div_mod(
                    (u64::MAX - d) as int,
                    10,
                );
                vstd::arithmetic::div_mod::lemma_mod_bound((u64::MAX - d) as int, 10);
                assert(uint_val(ext) > u64::MAX);
                if all_digits(ds) {
                    assert(ext =~= ds.take(i + 1 - start));
                    lemma_uint_val_monotone(ds, i + 1 - start);
                }
            }
            return None;
        }
        proof {
            vstd::arithmetic::div_mod::lemma_fundamental_div_mod((u64::MAX - d) as int, 10);
            vstd::arithmetic::div_mod::lemma_mod_bound((u64::MAX - d) as int, 10);
            assert(acc * 10 + d <= u64::MAX);
        }
        acc = acc * 10 + d;
        i = i + 1;
    }
    proof {
        assert(s@.subrange(start as int, n as int) =~= ds);
    }
    Some(acc)
}

/// Parses an unsigned decimal number, as the selection and the written
/// prompts do; see [`spec_parse_u64`].
pub(crate) fn parse_u64(s: &str) -> (r: Option<u64>)
    ensures
        r == spec_parse_u64(s@),
{
    let n = s.unicode_len();
    let start: usize = if n > 0 && s.get_char(0) == '+' {
        1
    } else {
        0
    };
    let r = parse_digits(s, start);
    proof {
        assert(s@.skip(0) =~= s@);
        let ds = s@.skip(start as int);
        if r is Some {
            lemma_uint_val_nonneg(ds);
        }
    }
    r
}

/// Parses a signed decimal number; see [`spec_parse_i64`].
pub(crate) fn parse_i64(s: &str) -> (r: Option<i64>)
    ensures
        r == spec_parse_i64(s@),
{
    let n = s.unicode_len();
    let mut neg = false;
    let mut start: usize = 0;
    if n > 0 {
        let c = s.get_char(0);
        if c == '-' {
            neg = true;
            start = 1;
        } else if c == '+' {
            start = 1;
        }
    }
    proof {
        assert(s@.skip(0) =~= s@);
    }
    let mag = match parse_digits(s, start) {
        Some(v) => v,
        None => {
            return None;
        },
    };
    proof {
        lemma_uint_val_nonneg(s@.skip(start as int));
    }
    if neg {
        if mag <= 9223372036854775807u64 {
            Some(-(mag as i64))
        } else if mag == 9223372036854775808u64 {
            Some(i64::MIN)
        } else {
            None
        }
    } else {
        if mag <= 9223372036854775807u64 {
            Some(mag as i64)
        } else {
            None
        }
    }
}

// ---------------------------------------------------------------------------
// Case-insensitive comparison and plain equality
// ---------------------------------------------------------------------------
/// The scalar value of `c` with an ASCII capital letter folded to lower
/// case.  Characters outside `A`..`Z` are left as they are.
pub open spec fn lower_scalar(c: char) -> int {
    if 65 <= c as u32 <= 90 {
        c as u32 + 32
    } else {
        c as u32 as int
    }
}

/// Whether `a` and `b` are the same text up to ASCII case.
pub open spec fn eq_ignore_case(a: Seq<char>, b: Seq<char>) -> bool {
    a.len() == b.len() && forall|i: int|
        0 <= i < a.len() ==> lower_scalar(#[trigger] a[i]) == lower_scalar(b[i])
}

/// Compares two strings without regard to ASCII case.
pub(crate) fn str_eq_ignore_case(a: &str, b: &str) -> (r: bool)
    ensures
        r == eq_ignore_case(a@, b@),
{
    let na = a.unicode_len();
    let nb = b.unicode_len();
    if na != nb {
        return false;
    }
    let mut i: usize = 0;
    while i < na
        invariant
            na == a@.len(),
            na == b@.len(),
            0 <= i <= na,
            forall|j: int| 0 <= j < i ==> lower_scalar(#[trigger] a@[j]) == lower_scalar(b@[j]),
        decreases na - i,
    {
        let ca = a.get_char(i) as u32;
        let cb = b.get_char(i) as u32;
        let la = if 65 <= ca && ca <= 90 {
            ca + 32
        } else {
            ca
        };
        let lb = if 65 <= cb && cb <= 90 {
            cb + 32
        } else {
            cb
        };
        if la != lb {
            return false;
        }
        i = i + 1;
    }
    true
}

/// Compares two strings for equality, character by character.
pub(crate) fn str_eq(a: &str, b: &str) -> (r: bool)
    ensures
        r == (a@ == b@),
{
    let na = a.unicode_len();
    let nb = b.unicode_len();
    if na != nb {
        return false;
    }
    let mut i: usize = 0;
    while i < na
        invariant
            na == a@.len(),
            na == b@.len(),
            0 <= i <= na,
            forall|j: int| 0 <= j < i ==> #[trigger] a@[j] == b@[j],
        decreases na - i,
    {
        if a.get_char(i) != b.get_char(i) {
            return false;
        }
        i = i + 1;
    }
    proof {
        assert(a@ =~= b@);
    }
    true
}

// ---------------------------------------------------------------------------
// Decimal rendering
// ---------------------------------------------------------------------------
/// The decimal digit character for the value `d`.
pub open spec fn digit_char(d: int) -> char {
    seq!['0', '1', '2', '3', '4', '5', '6', '7', '8', '9'][d]
}

/// The decimal rendering of `n`, most significant digit first.
pub open spec fn uint_str(n: int) -> Seq<char>
    decreases n,
{
    if n < 10 {
        seq![digit_char(n)]
    } else {
        uint_str(n / 10) + seq![digit_char(n % 10)]
    }
}

/// The one-character string for the digit value `d`.
fn digit_str(d: u64) -> (r: &'static str)
    requires
        d < 10,
    ensures
        r@ == seq![digit_char(d as int)],
{
    if d == 0 {
        proof {
            reveal_strlit("0");
            assert("0"@ =~= seq![digit_char(0)]);
        }
        "0"
    } else if d == 1 {
        proof {
            reveal_strlit("1");
            assert("1"@ =~= seq![digit_char(1)]);
        }
        "1"
    } else if d == 2 {
        proof {
            reveal_strlit("2");
            assert("2"@ =~= seq![digit_char(2)]);
        }
        "2"
    } else if d == 3 {
        proof {
            reveal_strlit("3");
            assert("3"@ =~= seq![digit_char(3)]);
        }
        "3"
    } else if d == 4 {
        proof {
            reveal_strlit("4");
            assert("4"@ =~= seq![digit_char(4)]);
        }
        "4"
    } else if d == 5 {
        proof {
            reveal_strlit("5");
            assert("5"@ =~= seq![digit_char(5)]);
        }
        "5"
    } else if d == 6 {
        proof {
            reveal_strlit("6");
            assert("6"@ =~= seq![digit_char(6)]);
        }
        "6"
    } else if d == 7 {
        proof {
            reveal_strlit("7");
            assert("7"@ =~= seq![digit_char(7)]);
        }
        "7"
    } else if d == 8 {
        proof {
            reveal_strlit("8");
            assert("8"@ =~= seq![digit_char(8)]);
        }
        "8"
    } else {
        proof {
            reveal_strlit("9");
            assert("9"@ =~= seq![digit_char(9)]);
        }
        "9"
    }
}

/// Renders `n` in decimal, as the selection prompt numbers its items.
pub(crate) fn uint_to_string(n: u64) -> (r: String)
    ensures
        r@ == uint_str(n as int),
    decreases n,
{
    if n < 10 {
        digit_str(n).to_owned()
    } else {
        let mut s = uint_to_string(n / 10);
        s.append(digit_str(n % 10));
        s
    }
}

// ---------------------------------------------------------------------------
// Splitting on a separator
// ---------------------------------------------------------------------------
/// Whether `sep` occurs in `s` at position `i`.
pub open spec fn matches_at(s: Seq<char>, sep: Seq<char>, i: int) -> bool {
    0 <= i && i + sep.len() <= s.len() && s.subrange(i, i + sep.len()) == sep
}

/// The position of the first occurrence of `sep` in `s`, if any.  An empty
/// separator never occurs.
pub open spec fn find_sep(s: Seq<char>, sep: Seq<char>) -> Option<int>
    decreases s.len(),
{
    if sep.len() == 0 || s.len() < sep.len() {
        None
    } else if s.subrange(0, sep.len() as int) == sep {
        Some(0)
    } else {
        match find_sep(s.skip(1), sep) {
            Some(j) => Some(j + 1),
            None => None,
        }
    }
}

proof fn lemma_find_sep_some(s: Seq<char>, sep: Seq<char>)
    ensures
        find_sep(s, sep) matches Some(i) ==> {
            &&& sep.len() >= 1
            &&& matches_at(s, sep, i)
            &&& forall|j: int| 0 <= j < i ==> !matches_at(s, sep, j)
        },
    decreases s.len(),
{
    if sep.len() == 0 || s.len() < sep.len() {
    } else if s.subrange(0, sep.len() as int) == sep {
    } else {
        lemma_find_sep_some(s.skip(1), sep);
        match find_sep(s.skip(1), sep) {
            Some(j0) => {
                let i = j0 + 1;
                assert(find_sep(s, sep) == Some(i));
                assert(s.skip(1).subrange(i - 1, i - 1 + sep.len()) =~= s.subrange(
                    i,
                    i + sep.len(),
                ));
                assert(matches_at(s, sep, i));
                assert forall|j: int| 0 <= j < i implies !matches_at(s, sep, j) by {
                    if j == 0 {
                        assert(s.subrange(0, sep.len() as int) != sep);
                    } else {
                        assert(!matches_at(s.skip(1), sep, j - 1));
                        if matches_at(s, sep, j) {
                            assert(s.skip(1).subrange(j - 1, j - 1 + sep.len()) =~= s.subrange(
                                j,
                                j + sep.len(),
                            ));
                            assert(false);
                        }
                    }
                }
            },
            None => {},
        }
    }
}

proof fn lemma_find_sep_first(s: Seq<char>, sep: Seq<char>, k: int)
    requires
        sep.len() >= 1,
        matches_at(s, sep, k),
        forall|j: int| 0 <= j < k ==> !matches_at(s, sep, j),
    ensures
        find_sep(s, sep) == Some(k),
    decreases s.len(),
{
    if k == 0 {
        assert(s.subrange(0, sep.len() as int) == sep);
    } else {
        if s.subrange(0, sep.len() as int) == sep {
            assert(matches_at(s, sep, 0));
            assert(false);
        }
        assert(s.skip(1).subrange(k - 1, k - 1 + sep.len()) =~= s.subrange(k, k + sep.len()));
        assert(matches_at(s.skip(1), sep, k - 1));
        assert forall|j: int| 0 <= j < k - 1 implies !matches_at(s.skip(1), sep, j) by {
            if matches_at(s.skip(1), sep, j) {
                assert(s.skip(1).subrange(j, j + sep.len()) =~= s.subrange(j + 1, j + 1 + sep.len()));
                assert(matches_at(s, sep, j + 1));
                assert(false);
            }
        }
        lemma_find_sep_first(s.skip(1), sep, k - 1);
    }
}

proof fn lemma_find_sep_none(s: Seq<char>, sep: Seq<char>)
    requires
        forall|j: int| !matches_at(s, sep, j),
    ensures
        find_sep(s, sep) is None,
    decreases s.len(),
{
    if sep.len() == 0 || s.len() < sep.len() {
    } else {
        if s.subrange(0, sep.len() as int) == sep {
            assert(matches_at(s, sep, 0));
            assert(false);
        }
        assert forall|j: int| !matches_at(s.skip(1), sep, j) by {
            if matches_at(s.skip(1), sep, j) {
                assert(s.skip(1).subrange(j, j + sep.len()) =~= s.subrange(j + 1, j + 1 + sep.len()));
                assert(matches_at(s, sep, j + 1));
                assert(false);
            }
        }
        lemma_find_sep_none(s.skip(1), sep);
    }
}

/// How one line is cut at every occurrence of the separator: the pieces
/// between occurrences, in order.  A line with no occurrence (in particular
/// any line, for an empty separator) is one piece.
pub open spec fn spec_split(s: Seq<char>, sep: Seq<char>) -> Seq<Seq<char>>
    decreases s.len(),
    via spec_split_decreases
{
    match find_sep(s, sep) {
        None => seq![s],
        Some(i) => seq![s.take(i)] + spec_split(s.skip(i + sep.len()), sep),
    }
}

#[via_fn]
proof fn spec_split_decreases(s: Seq<char>, sep: Seq<char>) {
    lemma_find_sep_some(s, sep);
}

/// Whether `sep` occurs in `s` at character position `i`.
fn substr_eq_at(s: &str, i: usize, sep: &str) -> (r: bool)
    requires
        i + sep@.len() <= s@.len(),
    ensures
        r == (s@.subrange(i as int, i + sep@.len()) == sep@),
{
    let n = s.unicode_len();
    let m = sep.unicode_len();
    let mut j: usize = 0;
    while j < m
        invariant
            n == s@.len(),
            m == sep@.len(),
            i + m <= n,
            0 <= j <= m,
            forall|k: int| 0 <= k < j ==> #[trigger] s@[i + k] == sep@[k],
        decreases m - j,
    {
        if s.get_char(i + j) != sep.get_char(j) {
            proof {
                if s@.subrange(i as int, i + sep@.len()) == sep@ {
                    assert(s@.subrange(i as int, i + sep@.len())[j as int] == s@[i + j]);
                    assert(false);
                }
            }
            return false;
        }
        j = j + 1;
    }
    proof {
        assert forall|k: int| 0 <= k < sep@.len() implies s@.subrange(i as int, i + sep@.len())[k]
            == sep@[k] by {
            assert(s@[i + k] == sep@[k]);
        }
        assert(s@.subrange(i as int, i + sep@.len()) =~= sep@);
    }
    true
}

/// The position of the first occurrence of `sep` in `s`, if any.
fn find_in(s: &str, sep: &str) -> (r: Option<usize>)
    requires
        sep@.len() >= 1,
    ensures
        match r {
            Some(i) => find_sep(s@, sep@) == Some(i as int),
            None => find_sep(s@, sep@) is None,
        },
{
    let n = s.unicode_len();
    let m = sep.unicode_len();
    if m > n {
        return None;
    }
    let mut i: usize = 0;
    while i <= n - m
        invariant
            n == s@.len(),
            m == sep@.len(),
            1 <= m <= n,
            0 <= i <= n - m + 1,
            forall|j: int| 0 <= j < i ==> !matches_at(s@, sep@, j),
        decreases n - i,
    {
        if substr_eq_at(s, i, sep) {
            proof {
                lemma_find_sep_first(s@, sep@, i as int);
            }
            return Some(i);
        }
        i = i + 1;
    }
    proof {
        assert forall|j: int| !matches_at(s@, sep@, j) by {
            if matches_at(s@, sep@, j) {
                assert(0 <= j < i);
                assert(false);
            }
        }
        lemma_find_sep_none(s@, sep@);
    }
    None
}

/// Splits `s` at every occurrence of `sep`; see [`spec_split`].
pub(crate) fn split_str(s: &str, sep: &str) -> (r: Vec<String>)
    ensures
        r.deep_view() == spec_split(s@, sep@),
    decreases s@.len(),
{
    let m = sep.unicode_len();
    if m == 0 {
        let mut v: Vec<String> = Vec::new();
        v.push(s.to_owned());
        proof {
            assert(v.deep_view() =~= seq![s@]);
        }
        return v;
    }
    match find_in(s, sep) {
        None => {
            let mut v: Vec<String> = Vec::new();
            v.push(s.to_owned());
            proof {
                assert(v.deep_view() =~= seq![s@]);
            }
            v
        },
        Some(i) => {
            proof {
                lemma_find_sep_some(s@, sep@);
            }
            let n = s.unicode_len();
            let head = s.substring_char(0, i).to_owned();
            let rest = s.substring_char(i + m, n);
            let mut tail = split_str(rest, sep);
            let mut v: Vec<String> = Vec::new();
            v.push(head);
            v.append(&mut tail);
            proof {
                assert(rest@ =~= s@.skip(i + sep@.len()));
                assert(head@ =~= s@.take(i as int));
                assert(v.deep_view() =~= seq![s@.take(i as int)] + spec_split(
                    s@.skip(i + sep@.len()),
                    sep@,
                ));
            }
            v
        },
    }
}

} // verus!
