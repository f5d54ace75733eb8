//! Small text routines: decimal rendering, ASCII case-insensitive comparison
//! and the blank test of `str::trim().is_empty()`.

use vstd::prelude::*;
use vstd::string::StringExecFns;
use vstd::string::StrSliceExecFns;

verus! {

/// The decimal digit character of `d` (`0 <= d < 10`).
pub open spec fn digit_char(d: int) -> char {
    if d == 0 { '0' }
    else if d == 1 { '1' }
    else if d == 2 { '2' }
    else if d == 3 { '3' }
    else if d == 4 { '4' }
    else if d == 5 { '5' }
    else if d == 6 { '6' }
    else if d == 7 { '7' }
    else if d == 8 { '8' }
    else { '9' }
}

/// The decimal digits of `n`, most significant first, without leading zeros.
pub open spec fn digits_text(n: nat) -> Seq<char>
    decreases n,
{
    if n < 10 {
        seq![digit_char(n as int)]
    } else {
        digits_text(n / 10) + seq![digit_char((n % 10) as int)]
    }
}

/// The decimal text of `v`, as `{}` formats an integer.
pub open spec fn decimal_text(v: int) -> Seq<char> {
    if v < 0 {
        seq!['-'] + digits_text((-v) as nat)
    } else {
        digits_text(v as nat)
    }
}

fn digit_str(d: u64) -> (text: &'static str)
    requires
        d < 10,
    ensures
        text@ == seq![digit_char(d as int)],
{
    proof {
        reveal_strlit("0");
        reveal_strlit("1");
        reveal_strlit("2");
        reveal_strlit("3");
        reveal_strlit("4");
        reveal_strlit("5");
        reveal_strlit("6");
        reveal_strlit("7");
        reveal_strlit("8");
        reveal_strlit("9");
    }
    if d == 0 { "0" }
    else if d == 1 { "1" }
    else if d == 2 { "2" }
    else if d == 3 { "3" }
    else if d == 4 { "4" }
    else if d == 5 { "5" }
    else if d == 6 { "6" }
    else if d == 7 { "7" }
    else if d == 8 { "8" }
    else { "9" }
}

fn digits(n: u64) -> (text: String)
    ensures
        text@ == digits_text(n as nat),
    decreases n,
{
    if n < 10 {
        String::from_str(digit_str(n))
    } else {
        let mut text = digits(n / 10);
        text.append(digit_str(n % 10));
        text
    }
}

/// Renders `v` in decimal.
pub fn decimal(v: i32) -> (text: String)
    ensures
        text@ == decimal_text(v as int),
{
    if v < 0 {
        let wide: i64 = v as i64;
        let magnitude: u64 = (0i64 - wide) as u64;
        let mut text = String::from_str("-");
        proof {
            reveal_strlit("-");
        }
        let rest = digits(magnitude);
        text.append(rest.as_str());
        text
    } else {
        digits(v as u64)
    }
}

/// `b` with ASCII upper-case letters mapped to lower case.
pub open spec fn ascii_lower(b: u8) -> u8 {
    if 65 <= b <= 90 {
        (b + 32) as u8
    } else {
        b
    }
}

/// Byte strings equal up to ASCII case, as `str::eq_ignore_ascii_case` compares.
pub open spec fn eq_ignore_ascii_case(a: Seq<u8>, b: Seq<u8>) -> bool {
    &&& a.len() == b.len()
    &&& forall|i: int| 0 <= i < a.len() ==> ascii_lower(#[trigger] a[i]) == ascii_lower(b[i])
}

fn to_ascii_lower(b: u8) -> (lower: u8)
    ensures
        lower == ascii_lower(b),
{
    if 65 <= b && b <= 90 {
        b + 32
    } else {
        b
    }
}

/// Compares two byte strings up to ASCII case.
pub fn bytes_eq_ignore_ascii_case(a: &[u8], b: &[u8]) -> (equal: bool)
    ensures
        equal == eq_ignore_ascii_case(a@, b@),
{
    if a.len() != b.len() {
        return false;
    }
    let mut i: usize = 0;
    while i < a.len()
        invariant
            i <= a@.len(),
            a@.len() == b@.len(),
            forall|j: int| 0 <= j < i ==> ascii_lower(#[trigger] a@[j]) == ascii_lower(b@[j]),
        decreases a@.len() - i,
    {
        if to_ascii_lower(a[i]) != to_ascii_lower(b[i]) {
            return false;
        }
        i += 1;
    }
    true
}

/// Unicode White_Space, as `char::is_whitespace` decides it.
pub open spec fn is_white_space(c: char) -> bool {
    let u = c as u32;
    ||| 0x9 <= u <= 0xD
    ||| u == 0x20
    ||| u == 0x85
    ||| u == 0xA0
    ||| u == 0x1680
    ||| 0x2000 <= u <= 0x200A
    ||| u == 0x2028
    ||| u == 0x2029
    ||| u == 0x202F
    ||| u == 0x205F
    ||| u == 0x3000
}

/// Decides Unicode White_Space.
pub fn is_whitespace(c: char) -> (white: bool)
    ensures
        white == is_white_space(c),
{
    let u = c as u32;
    (0x9 <= u && u <= 0xD) || u == 0x20 || u == 0x85 || u == 0xA0 || u == 0x1680 || (0x2000 <= u
        && u <= 0x200A) || u == 0x2028 || u == 0x2029 || u == 0x202F || u == 0x205F || u == 0x3000
}

/// Text that `trim()` leaves empty: every character is white space.
pub open spec fn is_blank_text(s: Seq<char>) -> bool {
    forall|i: int| 0 <= i < s.len() ==> is_white_space(#[trigger] s[i])
}

/// Whether `s.trim()` is empty.
pub fn is_blank(s: &str) -> (blank: bool)
    ensures
        blank == is_blank_text(s@),
{
    let n = s.unicode_len();
    let mut i: usize = 0;
    while i < n
        invariant
            n == s@.len(),
            i <= n,
            forall|j: int| 0 <= j < i ==> is_white_space(#[trigger] s@[j]),
        decreases n - i,
    {
        if !is_whitespace(s.get_char(i)) {
            return false;
        }
        i += 1;
    }
    true
}


/// Lower-casing maps exactly the ASCII capitals `A..=Z` to `a..=z` and keeps
/// every other byte.
pub proof fn lemma_ascii_lower(b: u8)
    ensures
        65 <= b <= 90 ==> ascii_lower(b) == b + 32,
        !(65 <= b <= 90) ==> ascii_lower(b) == b,
{
}

/// Two byte strings match up to ASCII case exactly when lower-casing every
/// byte, from the first to the last, makes them equal; a difference after
/// lower-casing at any position rules a match out.
pub proof fn lemma_eq_ignore_ascii_case_is_lowered_equality(a: Seq<u8>, b: Seq<u8>)
    ensures
        eq_ignore_ascii_case(a, b) <==> a.map_values(
            |x: u8|
                if 65 <= x <= 90 {
                    (x + 32) as u8
                } else {
                    x
                },
        ) == b.map_values(
            |x: u8|
                if 65 <= x <= 90 {
                    (x + 32) as u8
                } else {
                    x
                },
        ),
        forall|i: int|
            0 <= i < a.len() && i < b.len() && #[trigger] ascii_lower(a[i]) != ascii_lower(b[i])
                ==> !eq_ignore_ascii_case(a, b),
{
    let lower = |x: u8|
        if 65 <= x <= 90 {
            (x + 32) as u8
        } else {
            x
        };
    let la = a.map_values(lower);
    let lb = b.map_values(lower);
    assert(la.len() == a.len() && lb.len() == b.len());
    if eq_ignore_ascii_case(a, b) {
        assert forall|i: int| 0 <= i < la.len() implies la[i] == lb[i] by {
            assert(ascii_lower(a[i]) == ascii_lower(b[i]));
        }
        assert(la =~= lb);
    }
    if la == lb {
        assert forall|i: int| 0 <= i < a.len() implies ascii_lower(#[trigger] a[i]) == ascii_lower(
            b[i],
        ) by {
            assert(la[i] == lower(a[i]));
            assert(lb[i] == lower(b[i]));
        }
    }
}

/// The number that a string of decimal digits spells.
pub open spec fn digits_value(s: Seq<char>) -> int
    decreases s.len(),
{
    if s.len() == 0 {
        0
    } else {
        digits_value(s.drop_last()) * 10 + (s.last() as int - '0' as int)
    }
}

/// The number that a decimal text spells, with an optional leading `-`.
pub open spec fn decimal_value(s: Seq<char>) -> int {
    if s.len() > 0 && s[0] == '-' {
        -digits_value(s.drop_first())
    } else {
        digits_value(s)
    }
}

proof fn lemma_digit_char(d: int)
    requires
        0 <= d < 10,
    ensures
        digit_char(d) as int - '0' as int == d,
        '0' <= digit_char(d) <= '9',
        d != 0 ==> digit_char(d) != '0',
{
}

proof fn lemma_digits_text_round_trip(n: nat)
    ensures
        digits_text(n).len() >= 1,
        digits_value(digits_text(n)) == n,
        forall|i: int| 0 <= i < digits_text(n).len() ==> '0' <= #[trigger] digits_text(n)[i] <= '9',
        n > 0 ==> digits_text(n)[0] != '0',
    decreases n,
{
    if n < 10 {
        lemma_digit_char(n as int);
        let s = digits_text(n);
        assert(s.drop_last() =~= Seq::<char>::empty());
        assert(digits_value(s.drop_last()) == 0);
        assert(s.last() == digit_char(n as int));
    } else {
        lemma_digit_char((n % 10) as int);
        lemma_digits_text_round_trip(n / 10);
        let head = digits_text(n / 10);
        let s = digits_text(n);
        assert(s.drop_last() =~= head);
        assert(s[0] == head[0]);
        assert(n == (n / 10) * 10 + n % 10) by (nonlinear_arith);
        assert(s.last() == digit_char((n % 10) as int));
        assert(digits_value(s) == digits_value(head) * 10 + (s.last() as int - '0' as int));
        assert forall|i: int| 0 <= i < s.len() implies '0' <= #[trigger] s[i] <= '9' by {
            if i < head.len() {
                assert(s[i] == head[i]);
            }
        }
    }
}

/// Decimal rendering is read back as the same number: the text is an optional
/// `-` followed by decimal digits, without leading zeros, that spell the value.
pub proof fn lemma_decimal_text_round_trip(v: int)
    ensures
        decimal_value(decimal_text(v)) == v,
        v >= 0 ==> forall|i: int|
            0 <= i < decimal_text(v).len() ==> '0' <= #[trigger] decimal_text(v)[i] <= '9',
        v < 0 ==> decimal_text(v)[0] == '-',
        v != 0 ==> decimal_text(v)[if v < 0 {
            1int
        } else {
            0int
        }] != '0',
{
    if v < 0 {
        lemma_digits_text_round_trip((-v) as nat);
        let s = decimal_text(v);
        assert(s.drop_first() =~= digits_text((-v) as nat));
    } else {
        lemma_digits_text_round_trip(v as nat);
    }
}

} // verus!
