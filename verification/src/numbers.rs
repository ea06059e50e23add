//! Numbers as text: decimal and hexadecimal forms, and the grammars that the
//! standard number parsers accept.
use vstd::prelude::*;

use crate::text::chars_of;

verus! {

/// The decimal digit with the value `d`.
pub open spec fn digit_char(d: nat) -> char {
    (48 + d) as char
}

/// The decimal form of a natural number.
pub open spec fn dec(n: nat) -> Seq<char>
    decreases n,
{
    if n < 10 {
        seq![digit_char(n)]
    } else {
        dec(n / 10).push(digit_char(n % 10))
    }
}

/// The decimal form of an integer.
pub open spec fn dec_int(n: int) -> Seq<char> {
    if n < 0 {
        seq!['-'] + dec((-n) as nat)
    } else {
        dec(n as nat)
    }
}

fn digit(d: u8) -> (r: char)
    requires
        d < 10,
    ensures
        r == digit_char(d as nat),
{
    (48 + d) as char
}

/// The decimal form of an unsigned integer.
pub fn decimal(n: u64) -> (r: String)
    ensures
        r@ == dec(n as nat),
    decreases n,
{
    let mut out = if n < 10 {
        String::new()
    } else {
        decimal(n / 10)
    };
    out.push(digit((n % 10) as u8));
    assert(n < 10 ==> out@ =~= dec(n as nat));
    out
}

/// The decimal form of a signed integer.
pub fn decimal_signed(n: i64) -> (r: String)
    ensures
        r@ == dec_int(n as int),
{
    if n >= 0 {
        return decimal(n as u64);
    }
    let mut out = String::new();
    out.push('-');
    let magnitude: u64 = if n == i64::MIN {
        9223372036854775808
    } else {
        (-n) as u64
    };
    out.push_str(decimal(magnitude).as_str());
    assert(out@ =~= dec_int(n as int));
    out
}

/// The decimal form of a 128-bit unsigned integer.
pub fn decimal_large(n: u128) -> (r: String)
    ensures
        r@ == dec(n as nat),
    decreases n,
{
    let mut out = if n < 10 {
        String::new()
    } else {
        decimal_large(n / 10)
    };
    out.push(digit((n % 10) as u8));
    assert(n < 10 ==> out@ =~= dec(n as nat));
    out
}

/// The decimal form of a 128-bit signed integer.
pub fn decimal_wide(n: i128) -> (r: String)
    ensures
        r@ == dec_int(n as int),
{
    if n >= 0 {
        return decimal_large(n as u128);
    }
    let mut out = String::new();
    out.push('-');
    let magnitude: u128 = if n == i128::MIN {
        170141183460469231731687303715884105728
    } else {
        (-n) as u128
    };
    out.push_str(decimal_large(magnitude).as_str());
    assert(out@ =~= dec_int(n as int));
    out
}

/// The decimal form of a number, filled up with zeros to `width` digits.
pub open spec fn padded(n: nat, width: nat) -> Seq<char> {
    zeros((width - dec(n).len()) as int) + dec(n)
}

/// A run of zeros.
pub open spec fn zeros(count: int) -> Seq<char>
    decreases count,
{
    if count <= 0 {
        Seq::empty()
    } else {
        zeros(count - 1).push('0')
    }
}

/// The decimal form of an integer, filled up with zeros behind its sign to
/// `width` characters.
pub open spec fn padded_int(n: int, width: nat) -> Seq<char> {
    if n < 0 {
        seq!['-'] + padded((-n) as nat, (width - 1) as nat)
    } else {
        padded(n as nat, width)
    }
}

/// The decimal form of an integer, filled up with zeros behind its sign to
/// `width` characters.
pub fn decimal_padded_signed(n: i16, width: usize) -> (r: String)
    requires
        width > 0,
    ensures
        r@ == padded_int(n as int, width as nat),
{
    if n >= 0 {
        return decimal_padded(n as u64, width);
    }
    let mut out = String::new();
    out.push('-');
    out.push_str(decimal_padded((-(n as i64)) as u64, width - 1).as_str());
    assert(out@ =~= padded_int(n as int, width as nat));
    out
}

/// The decimal form of a number, filled up with zeros to `width` digits.
pub fn decimal_padded(n: u64, width: usize) -> (r: String)
    ensures
        r@ == padded(n as nat, width as nat),
{
    let digits = chars_of(decimal(n).as_str());
    let mut out = String::new();
    let count: usize = if digits.len() < width {
        width - digits.len()
    } else {
        0
    };
    let mut i: usize = 0;
    assert(out@ =~= zeros(0));
    while i < count
        invariant
            i <= count,
            out@ == zeros(i as int),
        decreases count - i,
    {
        out.push('0');
        i = i + 1;
    }
    assert(out@ == zeros((width - dec(n as nat).len()) as int));
    out.push_str(decimal(n).as_str());
    out
}

pub open spec fn is_digit(c: char) -> bool {
    '0' <= c && c <= '9'
}

pub fn digit_at(s: &Vec<char>, i: usize) -> (r: bool)
    requires
        i < s@.len(),
    ensures
        r == is_digit(s@[i as int]),
{
    '0' <= s[i] && s[i] <= '9'
}

/// The first position from `i` on that holds no decimal digit.
pub open spec fn digits_end(s: Seq<char>, i: int) -> int
    decreases s.len() - i,
{
    if 0 <= i < s.len() && is_digit(s[i]) {
        digits_end(s, i + 1)
    } else {
        i
    }
}

pub fn skip_digits(s: &Vec<char>, from: usize) -> (r: usize)
    requires
        from <= s@.len(),
    ensures
        r == digits_end(s@, from as int),
        from <= r <= s@.len(),
{
    let mut i: usize = from;
    while i < s.len() && digit_at(s, i)
        invariant
            from <= i <= s@.len(),
            digits_end(s@, i as int) == digits_end(s@, from as int),
        decreases s@.len() - i,
    {
        i = i + 1;
    }
    i
}

/// Whether a sign stands at position `i`.
pub open spec fn sign_at(s: Seq<char>, i: int) -> bool {
    0 <= i < s.len() && (s[i] == '+' || s[i] == '-')
}

/// The value of the digits of `s` before position `n`, read as decimal.
pub open spec fn digits_value(s: Seq<char>, from: int, n: int) -> int
    decreases n - from,
{
    if n <= from {
        0
    } else {
        digits_value(s, from, n - 1) * 10 + (s[n - 1] as int - 48)
    }
}

/// What parsing the text as an unsigned integer of at most `max` gives: an
/// optional plus sign, then one digit or more.
pub open spec fn parsed_unsigned(s: Seq<char>, max: int) -> Option<int> {
    let from: int = if s.len() > 0 && s[0] == '+' {
        1
    } else {
        0
    };
    if from < s.len() && digits_end(s, from) == s.len() && digits_value(s, from, s.len() as int)
        <= max {
        Some(digits_value(s, from, s.len() as int))
    } else {
        None
    }
}

proof fn lemma_digits_value_grows(s: Seq<char>, from: int, n: int, m: int)
    requires
        from <= n <= m <= s.len(),
        0 <= from,
        forall|i: int| from <= i < m ==> is_digit(s[i]),
    ensures
        0 <= digits_value(s, from, n) <= digits_value(s, from, m),
    decreases m - from,
{
    if n < m {
        lemma_digits_value_grows(s, from, n, m - 1);
        assert(is_digit(s[m - 1]));
    } else if from < n {
        lemma_digits_value_grows(s, from, n - 1, n - 1);
        assert(is_digit(s[n - 1]));
    }
}

proof fn lemma_digits_end(s: Seq<char>, i: int)
    requires
        0 <= i <= s.len(),
    ensures
        i <= digits_end(s, i) <= s.len(),
        forall|k: int| i <= k < digits_end(s, i) ==> is_digit(s[k]),
    decreases s.len() - i,
{
    if i < s.len() && is_digit(s[i]) {
        lemma_digits_end(s, i + 1);
    }
}

/// Parses text as an unsigned integer of at most `max`.
pub fn parse_unsigned(text: &str, max: u64) -> (r: Option<u64>)
    ensures
        match r {
            Some(n) => parsed_unsigned(text@, max as int) == Some(n as int),
            None => parsed_unsigned(text@, max as int) is None,
        },
{
    let s = chars_of(text);
    let from: usize = if s.len() > 0 && s[0] == '+' {
        1
    } else {
        0
    };
    if from >= s.len() {
        return None;
    }
    let end: usize = skip_digits(&s, from);
    if end != s.len() {
        return None;
    }
    proof {
        lemma_digits_end(s@, from as int);
    }
    let mut n: u64 = 0;
    let mut i: usize = from;
    while i < s.len()
        invariant
            from <= i <= s@.len(),
            forall|k: int| from <= k < s@.len() ==> is_digit(s@[k]),
            n == digits_value(s@, from as int, i as int),
            n <= max,
            s@ == text@,
            from < s@.len(),
            digits_end(s@, from as int) == s@.len(),
            from == (if s@.len() > 0 && s@[0] == '+' {
                1int
            } else {
                0
            }),
        decreases s@.len() - i,
    {
        assert(is_digit(s@[i as int]));
        let d: u64 = (s[i] as u32 - 48) as u64;
        proof {
            lemma_digits_value_grows(s@, from as int, i + 1, s@.len() as int);
        }
        if n > max / 10 {
            return None;
        }
        let ten: u64 = n * 10;
        if d > max - ten {
            return None;
        }
        n = ten + d;
        i = i + 1;
    }
    Some(n)
}

/// What parsing the text as a signed 64-bit integer gives: an optional sign,
/// then one digit or more.
pub open spec fn parsed_signed(s: Seq<char>) -> Option<int> {
    if s.len() > 0 && s[0] == '-' {
        let n = digits_value(s, 1, s.len() as int);
        if 1 < s.len() && digits_end(s, 1) == s.len() && n <= 9223372036854775808 {
            Some(-n)
        } else {
            None
        }
    } else {
        parsed_unsigned(s, i64::MAX as int)
    }
}

proof fn lemma_digits_shift(s: Seq<char>, n: int)
    requires
        1 <= n <= s.len(),
    ensures
        digits_value(s, 1, n) == digits_value(s.skip(1), 0, n - 1),
    decreases n,
{
    if n > 1 {
        lemma_digits_shift(s, n - 1);
        assert(s.skip(1)[n - 2] == s[n - 1]);
    }
}

proof fn lemma_digits_end_shift(s: Seq<char>, i: int)
    requires
        1 <= i <= s.len(),
    ensures
        digits_end(s, i) == digits_end(s.skip(1), i - 1) + 1,
    decreases s.len() - i,
{
    if i < s.len() {
        assert(s.skip(1)[i - 1] == s[i]);
        if is_digit(s[i]) {
            lemma_digits_end_shift(s, i + 1);
        }
    }
}

/// Parses text as a signed 64-bit integer.
pub fn parse_signed(text: &str) -> (r: Option<i64>)
    ensures
        match r {
            Some(n) => parsed_signed(text@) == Some(n as int),
            None => parsed_signed(text@) is None,
        },
{
    let s = chars_of(text);
    if s.len() > 0 && s[0] == '-' {
        let rest = crate::text::slice_string(&s, 1, s.len());
        proof {
            assert(rest@ =~= s@.skip(1));
            lemma_digits_shift(s@, s@.len() as int);
            lemma_digits_end_shift(s@, 1);
        }
        if s.len() > 1 && s[1] == '+' {
            return None;
        }
        match parse_unsigned(rest.as_str(), 9223372036854775808) {
            Some(n) => {
                if n == 9223372036854775808 {
                    Some(i64::MIN)
                } else {
                    Some(-(n as i64))
                }
            },
            None => None,
        }
    } else {
        match parse_unsigned(text, 9223372036854775807) {
            Some(n) => Some(n as i64),
            None => None,
        }
    }
}

// ---------------------------------------------------------------------------
// Floating-point literals
// ---------------------------------------------------------------------------

/// Whether the text from position `i` on is the exponent part of a literal, or
/// nothing.
pub open spec fn is_exponent(s: Seq<char>, i: int) -> bool {
    i == s.len() || (0 <= i < s.len() && (s[i] == 'e' || s[i] == 'E') && {
        let from = if sign_at(s, i + 1) {
            i + 2
        } else {
            i + 1
        };
        from < s.len() && digits_end(s, from) == s.len()
    })
}

/// Whether the text from position `i` on is an unsigned decimal literal:
/// digits with an optional point, at least one digit, an optional exponent.
pub open spec fn is_decimal_literal(s: Seq<char>, i: int) -> bool {
    let a = digits_end(s, i);
    if 0 <= a < s.len() && s[a] == '.' {
        let b = digits_end(s, a + 1);
        (a > i || b > a + 1) && is_exponent(s, b)
    } else {
        a > i && is_exponent(s, a)
    }
}

/// Whether the text is a floating-point literal as the standard parser reads
/// it: an optional sign, then `inf`, `infinity` or `nan` in any letter case, or
/// a decimal literal.
pub open spec fn is_float_literal(s: Seq<char>) -> bool {
    let i: int = if sign_at(s, 0) {
        1
    } else {
        0
    };
    let word = crate::text::ascii_lower(s.skip(i));
    word == "inf"@ || word == "infinity"@ || word == "nan"@ || is_decimal_literal(s, i)
}

fn sign(s: &Vec<char>, i: usize) -> (r: bool)
    ensures
        r == sign_at(s@, i as int),
{
    i < s.len() && (s[i] == '+' || s[i] == '-')
}

fn exponent(s: &Vec<char>, i: usize) -> (r: bool)
    requires
        i <= s@.len(),
    ensures
        r == is_exponent(s@, i as int),
{
    if i == s.len() {
        return true;
    }
    if s[i] != 'e' && s[i] != 'E' {
        return false;
    }
    let from: usize = if sign(s, i + 1) {
        i + 2
    } else {
        i + 1
    };
    from < s.len() && skip_digits(s, from) == s.len()
}

fn decimal_literal(s: &Vec<char>, i: usize) -> (r: bool)
    requires
        i <= s@.len(),
    ensures
        r == is_decimal_literal(s@, i as int),
{
    let a: usize = skip_digits(s, i);
    if a < s.len() && s[a] == '.' {
        let b: usize = skip_digits(s, a + 1);
        (a > i || b > a + 1) && exponent(s, b)
    } else {
        a > i && exponent(s, a)
    }
}

/// Whether the text is a floating-point literal.
pub fn float_literal(text: &str) -> (r: bool)
    ensures
        r == is_float_literal(text@),
{
    let s = chars_of(text);
    let i: usize = if sign(&s, 0) {
        1
    } else {
        0
    };
    let rest = crate::text::slice_string(&s, i, s.len());
    assert(rest@ =~= s@.skip(i as int));
    let word = crate::text::to_ascii_lower(rest.as_str());
    crate::text::same(word.as_str(), "inf") || crate::text::same(word.as_str(), "infinity")
        || crate::text::same(word.as_str(), "nan") || decimal_literal(&s, i)
}

// ---------------------------------------------------------------------------
// Hexadecimal
// ---------------------------------------------------------------------------

/// The lower-case hexadecimal digit with the value `d`.
pub open spec fn hex_char(d: int) -> char {
    if d < 10 {
        (48 + d) as char
    } else {
        (87 + d) as char
    }
}

/// Each byte as two lower-case hexadecimal digits.
pub open spec fn hex(bytes: Seq<u8>) -> Seq<char>
    decreases bytes.len(),
{
    if bytes.len() == 0 {
        Seq::empty()
    } else {
        hex(bytes.drop_last()) + seq![
            hex_char(bytes.last() as int / 16),
            hex_char(bytes.last() as int % 16),
        ]
    }
}

fn hex_digit(d: u8) -> (r: char)
    requires
        d < 16,
    ensures
        r == hex_char(d as int),
{
    if d < 10 {
        (48 + d) as char
    } else {
        (87 + d) as char
    }
}

/// Each byte as two lower-case hexadecimal digits.
pub fn hex_of(bytes: &Vec<u8>) -> (r: String)
    ensures
        r@ == hex(bytes@),
{
    let mut out = String::new();
    let mut i: usize = 0;
    while i < bytes.len()
        invariant
            i <= bytes@.len(),
            out@ == hex(bytes@.take(i as int)),
        decreases bytes@.len() - i,
    {
        let ghost more = bytes@.take(i + 1);
        assert(more.drop_last() =~= bytes@.take(i as int));
        assert(more.last() == bytes@[i as int]);
        let ghost before = out@;
        out.push(hex_digit(bytes[i] / 16));
        out.push(hex_digit(bytes[i] % 16));
        assert(out@ =~= before + seq![
            hex_char(bytes@[i as int] as int / 16),
            hex_char(bytes@[i as int] as int % 16),
        ]);
        i = i + 1;
    }
    assert(bytes@.take(i as int) =~= bytes@);
    out
}

/// The hexadecimal form of a natural number, in small letters.
pub open spec fn hex_number(n: nat) -> Seq<char>
    decreases n,
{
    if n < 16 {
        seq![hex_char(n as int)]
    } else {
        hex_number(n / 16).push(hex_char((n % 16) as int))
    }
}

/// The hexadecimal form of an unsigned integer, in small letters.
pub fn hexadecimal(n: u128) -> (r: String)
    ensures
        r@ == hex_number(n as nat),
    decreases n,
{
    let mut out = if n < 16 {
        String::new()
    } else {
        hexadecimal(n / 16)
    };
    out.push(hex_digit((n % 16) as u8));
    assert(n < 16 ==> out@ =~= hex_number(n as nat));
    out
}

// ---------------------------------------------------------------------------
// Laws
// ---------------------------------------------------------------------------

proof fn lemma_digits_value_prefix(s: Seq<char>, t: Seq<char>, from: int, n: int)
    requires
        0 <= from,
        n <= s.len(),
        n <= t.len(),
        forall|i: int| 0 <= i < n ==> s[i] == t[i],
    ensures
        digits_value(s, from, n) == digits_value(t, from, n),
    decreases n - from,
{
    if n > from {
        lemma_digits_value_prefix(s, t, from, n - 1);
    }
}

/// The decimal text of a number is made of digits, without leading zeros, and is read
/// back as the number.
pub proof fn law_decimal(n: nat)
    ensures
        dec(n).len() > 0,
        forall|i: int| 0 <= i < dec(n).len() ==> '0' <= #[trigger] dec(n)[i] && dec(n)[i] <= '9',
        digits_value(dec(n), 0, dec(n).len() as int) == n,
        n == 0 ==> dec(n).len() == 1,
        n > 0 ==> dec(n)[0] != '0',
    decreases n,
{
    if n >= 10 {
        let m = n / 10;
        law_decimal(m);
        let s = dec(m);
        let t = dec(n);
        assert(t == s.push(digit_char(n % 10)));
        lemma_digits_value_prefix(s, t, 0, s.len() as int);
        assert(t[t.len() - 1] as int - 48 == n % 10);
        assert(digits_value(t, 0, t.len() as int) == digits_value(t, 0, t.len() - 1) * 10 + (t[
            t.len() - 1] as int - 48));
        assert(t[0] == s[0]);
        assert forall|i: int| 0 <= i < t.len() implies '0' <= #[trigger] t[i] && t[i] <= '9' by {
            if i < s.len() {
                assert(t[i] == s[i]);
            }
        }
    } else {
        let t = dec(n);
        assert(t =~= seq![digit_char(n)]);
        assert(digits_value(t, 0, 0) == 0);
        assert(digits_value(t, 0, 1) == digits_value(t, 0, 0) * 10 + (t[0] as int - 48));
    }
}

/// What digits stand for: each is worth ten times the one behind it.
pub proof fn law_digits_value(s: Seq<char>, from: int, n: int)
    requires
        0 <= from < n <= s.len(),
    ensures
        digits_value(s, from, n) == 10 * digits_value(s, from, n - 1) + (s[n - 1] as int
            - '0' as int),
        digits_value(s, from, from) == 0,
{
}

/// Two numbers with one text are one number; a negative number has a minus sign in
/// front of its digits.
pub proof fn law_decimal_signed(n: int)
    ensures
        n >= 0 ==> dec_int(n) == dec(n as nat),
        n < 0 ==> dec_int(n).len() > 1 && dec_int(n)[0] == '-' && dec_int(n).skip(1) == dec(
            (-n) as nat,
        ),
{
    law_decimal(if n < 0 { (-n) as nat } else { n as nat });
    if n < 0 {
        assert(dec_int(n).skip(1) =~= dec((-n) as nat));
    }
}

proof fn lemma_all_digits(s: Seq<char>, i: int)
    requires
        0 <= i <= s.len(),
        forall|k: int| i <= k < s.len() ==> '0' <= #[trigger] s[k] && s[k] <= '9',
    ensures
        digits_end(s, i) == s.len(),
    decreases s.len() - i,
{
    if i < s.len() {
        lemma_all_digits(s, i + 1);
    }
}

/// Digits behind a text stand for what they stand for alone.
pub proof fn lemma_digits_value_behind(s: Seq<char>, a: int, n: int)
    requires
        0 <= a <= s.len(),
        0 <= n <= s.len() - a,
    ensures
        digits_value(s, a, a + n) == digits_value(s.skip(a), 0, n),
    decreases n,
{
    if n > 0 {
        lemma_digits_value_behind(s, a, n - 1);
        assert(s.skip(a)[n - 1] == s[a + n - 1]);
    }
}

/// Reading undoes writing: the text of a number that is not too large is read as the
/// number.
pub proof fn law_read_decimal(n: nat, max: int)
    ensures
        parsed_unsigned(dec(n), max) == if n <= max {
            Some(n as int)
        } else {
            None::<int>
        },
{
    law_decimal(n);
    lemma_all_digits(dec(n), 0);
    assert('0' <= dec(n)[0]);
}

/// Reading undoes writing for signed numbers of 64 bits.
pub proof fn law_read_signed(n: i64)
    ensures
        parsed_signed(dec_int(n as int)) == Some(n as int),
{
    let m: nat = if n < 0 {
        (-n) as nat
    } else {
        n as nat
    };
    law_decimal(m);
    let s = dec_int(n as int);
    if n < 0 {
        assert(s.skip(1) =~= dec(m));
        assert forall|k: int| 1 <= k < s.len() implies '0' <= #[trigger] s[k] && s[k] <= '9' by {
            assert(s[k] == dec(m)[k - 1]);
        }
        lemma_all_digits(s, 1);
        lemma_digits_value_behind(s, 1, s.len() - 1);
    } else {
        assert('0' <= s[0]);
        law_read_decimal(m, i64::MAX as int);
    }
}

/// Only digits are read as a number, with a sign in front at most.
pub proof fn law_read_digits_only(s: Seq<char>, max: int, i: int)
    requires
        0 <= i < s.len(),
        !('0' <= s[i] && s[i] <= '9'),
        i > 0 || s[i] != '+',
    ensures
        parsed_unsigned(s, max) is None,
{
    let from: int = if s[0] == '+' {
        1
    } else {
        0
    };
    lemma_digits_stop(s, from, i);
}

proof fn lemma_digits_stop(s: Seq<char>, from: int, i: int)
    requires
        0 <= from <= i < s.len(),
        !is_digit(s[i]),
    ensures
        digits_end(s, from) <= i,
    decreases i - from,
{
    if from < i {
        if is_digit(s[from]) {
            lemma_digits_stop(s, from + 1, i);
        }
    }
}

/// A number below a hundred, written with two digits.
pub proof fn law_two_digits(n: nat)
    requires
        n < 100,
    ensures
        padded(n, 2).len() == 2,
        forall|i: int| 0 <= i < 2 ==> '0' <= #[trigger] padded(n, 2)[i] && padded(n, 2)[i] <= '9',
        (padded(n, 2)[0] as int - '0' as int) * 10 + (padded(n, 2)[1] as int - '0' as int) == n,
{
    reveal_with_fuel(dec, 3);
    reveal_with_fuel(zeros, 3);
    if n < 10 {
        assert(padded(n, 2) =~= seq!['0', digit_char(n)]);
    } else {
        assert(dec(n) =~= seq![digit_char(n / 10), digit_char(n % 10)]);
        assert(padded(n, 2) =~= dec(n));
    }
}

/// A number below ten thousand, written with four digits.
pub proof fn law_four_digits(n: nat)
    requires
        n < 10000,
    ensures
        padded(n, 4).len() == 4,
        forall|i: int| 0 <= i < 4 ==> '0' <= #[trigger] padded(n, 4)[i] && padded(n, 4)[i] <= '9',
        (padded(n, 4)[0] as int - '0' as int) * 1000 + (padded(n, 4)[1] as int - '0' as int) * 100
            + (padded(n, 4)[2] as int - '0' as int) * 10 + (padded(n, 4)[3] as int - '0' as int)
            == n,
{
    reveal_with_fuel(dec, 5);
    reveal_with_fuel(zeros, 5);
    if n < 10 {
        assert(padded(n, 4) =~= seq!['0', '0', '0', digit_char(n)]);
    } else if n < 100 {
        assert(dec(n) =~= seq![digit_char(n / 10), digit_char(n % 10)]);
        assert(padded(n, 4) =~= seq!['0', '0', digit_char(n / 10), digit_char(n % 10)]);
    } else if n < 1000 {
        let a = n / 10;
        assert(dec(a) =~= seq![digit_char(a / 10), digit_char(a % 10)]);
        assert(dec(n) =~= seq![digit_char(a / 10), digit_char(a % 10), digit_char(n % 10)]);
        assert(padded(n, 4) =~= seq![
            '0',
            digit_char(a / 10),
            digit_char(a % 10),
            digit_char(n % 10),
        ]);
    } else {
        let a = n / 10;
        let b = a / 10;
        assert(dec(b) =~= seq![digit_char(b / 10), digit_char(b % 10)]);
        assert(dec(a) =~= seq![digit_char(b / 10), digit_char(b % 10), digit_char(a % 10)]);
        assert(dec(n) =~= seq![
            digit_char(b / 10),
            digit_char(b % 10),
            digit_char(a % 10),
            digit_char(n % 10),
        ]);
        assert(padded(n, 4) =~= dec(n));
    }
}

proof fn lemma_zeros(count: int)
    ensures
        zeros(count).len() == if count > 0 {
            count
        } else {
            0
        },
        forall|i: int| 0 <= i < zeros(count).len() ==> #[trigger] zeros(count)[i] == '0',
        digits_value(zeros(count), 0, zeros(count).len() as int) == 0,
    decreases count,
{
    if count > 0 {
        lemma_zeros(count - 1);
        let s = zeros(count - 1);
        lemma_digits_value_prefix(s, zeros(count), 0, s.len() as int);
    }
}

proof fn lemma_digits_value_zeros(z: Seq<char>, s: Seq<char>, n: int)
    requires
        forall|i: int| 0 <= i < z.len() ==> #[trigger] z[i] == '0',
        digits_value(z, 0, z.len() as int) == 0,
        0 <= n <= s.len(),
    ensures
        digits_value(z + s, 0, z.len() + n) == digits_value(s, 0, n),
    decreases n,
{
    if n > 0 {
        lemma_digits_value_zeros(z, s, n - 1);
        assert((z + s)[z.len() + n - 1] == s[n - 1]);
    } else {
        lemma_digits_value_prefix(z, z + s, 0, z.len() as int);
    }
}

/// Padding adds zeros in front up to the width and no further, and leaves what the
/// digits stand for.
pub proof fn law_padded(n: nat, width: nat)
    ensures
        padded(n, width).len() == if dec(n).len() < width {
            width
        } else {
            dec(n).len()
        },
        digits_value(padded(n, width), 0, padded(n, width).len() as int) == n,
        forall|i: int|
            0 <= i < padded(n, width).len() ==> '0' <= #[trigger] padded(n, width)[i] && padded(
                n,
                width,
            )[i] <= '9',
{
    law_decimal(n);
    let k = (width - dec(n).len()) as int;
    lemma_zeros(k);
    lemma_digits_value_zeros(zeros(k), dec(n), dec(n).len() as int);
    let t = padded(n, width);
    assert forall|i: int| 0 <= i < t.len() implies '0' <= #[trigger] t[i] && t[i] <= '9' by {
        if i < zeros(k).len() {
            assert(t[i] == zeros(k)[i]);
        } else {
            assert(t[i] == dec(n)[i - zeros(k).len()]);
        }
    }
}

/// The hexadecimal text of bytes has two digits for each byte, the higher half first,
/// digits below ten as digits and the others as small letters.
pub proof fn law_hex(bytes: Seq<u8>, i: int)
    requires
        0 <= i < bytes.len(),
    ensures
        hex(bytes).len() == 2 * bytes.len(),
        ({
            let high = hex(bytes)[2 * i] as int;
            let low = hex(bytes)[2 * i + 1] as int;
            let h = if high < 58 {
                high - '0' as int
            } else {
                high - 'a' as int + 10
            };
            let l = if low < 58 {
                low - '0' as int
            } else {
                low - 'a' as int + 10
            };
            &&& '0' as int <= high <= '9' as int || 'a' as int <= high <= 'f' as int
            &&& '0' as int <= low <= '9' as int || 'a' as int <= low <= 'f' as int
            &&& 0 <= h < 16
            &&& 0 <= l < 16
            &&& h * 16 + l == bytes[i]
        }),
    decreases bytes.len(),
{
    let before = bytes.drop_last();
    lemma_hex_len(before);
    lemma_hex_len(bytes);
    let t = hex(before) + seq![
        hex_char(bytes.last() as int / 16),
        hex_char(bytes.last() as int % 16),
    ];
    assert(hex(bytes) == t);
    if i < before.len() {
        law_hex(before, i);
        assert(t[2 * i] == hex(before)[2 * i]);
        assert(t[2 * i + 1] == hex(before)[2 * i + 1]);
    } else {
        assert(t[2 * i] == hex_char(bytes.last() as int / 16));
        assert(t[2 * i + 1] == hex_char(bytes.last() as int % 16));
    }
}

proof fn lemma_hex_len(bytes: Seq<u8>)
    ensures
        hex(bytes).len() == 2 * bytes.len(),
    decreases bytes.len(),
{
    if bytes.len() > 0 {
        lemma_hex_len(bytes.drop_last());
    }
}

/// Whole numbers and decimal fractions, with or without a sign, are numbers.
pub proof fn law_number_literals(a: nat, b: nat, negative: bool)
    ensures
        ({
            let sign = if negative {
                seq!['-']
            } else {
                Seq::empty()
            };
            &&& is_float_literal(sign + dec(a))
            &&& is_float_literal(sign + dec(a) + seq!['.'] + dec(b))
        }),
{
    let sign = if negative {
        seq!['-']
    } else {
        Seq::empty()
    };
    let i = sign.len() as int;
    law_decimal(a);
    law_decimal(b);
    let s = sign + dec(a);
    let t = sign + dec(a) + seq!['.'] + dec(b);
    let p = i + dec(a).len();
    assert(s[i] == dec(a)[0] && t[i] == dec(a)[0]);
    assert('0' <= dec(a)[0]);
    assert(sign_at(s, 0) == negative);
    assert(sign_at(t, 0) == negative);
    assert forall|k: int| i <= k < s.len() implies '0' <= #[trigger] s[k] && s[k] <= '9' by {
        assert(s[k] == dec(a)[k - i]);
    }
    lemma_all_digits(s, i);
    assert forall|k: int| i <= k < p implies is_digit(#[trigger] t[k]) by {
        assert(t[k] == dec(a)[k - i]);
    }
    assert(t[p] == '.');
    lemma_digits_up_to(t, i, p);
    assert forall|k: int| p + 1 <= k < t.len() implies '0' <= #[trigger] t[k] && t[k] <= '9' by {
        assert(t[k] == dec(b)[k - p - 1]);
    }
    lemma_all_digits(t, p + 1);
}

proof fn lemma_digits_up_to(s: Seq<char>, i: int, p: int)
    requires
        0 <= i <= p < s.len(),
        forall|k: int| i <= k < p ==> is_digit(#[trigger] s[k]),
        !is_digit(s[p]),
    ensures
        digits_end(s, i) == p,
    decreases p - i,
{
    if i < p {
        lemma_digits_up_to(s, i + 1, p);
    }
}

/// A text that holds a letter other than those of an exponent, or any other sign, is
/// no number, unless it names an infinity or no number at all.
pub proof fn law_no_number_literal(s: Seq<char>, i: int)
    requires
        0 <= i < s.len(),
        !('0' <= s[i] && s[i] <= '9'),
        s[i] != '+' && s[i] != '-' && s[i] != '.' && s[i] != 'e' && s[i] != 'E',
        s[i] != 'i' && s[i] != 'I' && s[i] != 'n' && s[i] != 'N' && s[i] != 'f' && s[i] != 'F',
        s[i] != 't' && s[i] != 'T' && s[i] != 'y' && s[i] != 'Y' && s[i] != 'a' && s[i] != 'A',
    ensures
        !is_float_literal(s),
{
    let from: int = if sign_at(s, 0) {
        1
    } else {
        0
    };
    let word = crate::text::ascii_lower(s.skip(from));
    assert(i >= from);
    assert(word[i - from] == crate::text::ascii_lower_char(s[i]));
    reveal_strlit("inf");
    reveal_strlit("infinity");
    reveal_strlit("nan");
    let c = crate::text::ascii_lower_char(s[i]);
    assert(c != 'i' && c != 'n' && c != 'f' && c != 't' && c != 'y' && c != 'a');
    assert forall|k: int| 0 <= k < "infinity"@.len() implies #[trigger] "infinity"@[k] != c by {}
    assert forall|k: int| 0 <= k < "inf"@.len() implies #[trigger] "inf"@[k] != c by {}
    assert forall|k: int| 0 <= k < "nan"@.len() implies #[trigger] "nan"@[k] != c by {}
    lemma_digits_stop(s, from, i);
    let a = digits_end(s, from);
    lemma_digits_end(s, from);
    if 0 <= a < s.len() && s[a] == '.' {
        lemma_digits_stop(s, a + 1, i);
        let b = digits_end(s, a + 1);
        lemma_digits_end(s, a + 1);
        lemma_no_exponent(s, b, i);
    } else {
        lemma_no_exponent(s, a, i);
    }
}

proof fn lemma_no_exponent(s: Seq<char>, b: int, i: int)
    requires
        0 <= b <= i < s.len(),
        !is_digit(s[i]),
        s[i] != '+' && s[i] != '-' && s[i] != 'e' && s[i] != 'E',
    ensures
        !is_exponent(s, b),
{
    let from = if sign_at(s, b + 1) {
        b + 2
    } else {
        b + 1
    };
    if from <= i {
        lemma_digits_stop(s, from, i);
    }
}

/// The words for what is no finite number read as numbers too, in any case and behind a sign.
pub proof fn law_number_words(word: Seq<char>)
    requires
        crate::text::ascii_lower(word) == "inf"@ || crate::text::ascii_lower(word) == "infinity"@
            || crate::text::ascii_lower(word) == "nan"@,
    ensures
        is_float_literal(word),
        is_float_literal(seq!['-'] + word),
{
    reveal_strlit("inf");
    reveal_strlit("infinity");
    reveal_strlit("nan");
    let low = crate::text::ascii_lower(word);
    assert(low.len() == word.len() && low.len() > 0);
    assert(low[0] == 'i' || low[0] == 'n');
    assert(low[0] == crate::text::ascii_lower_char(word[0]));
    assert(word.skip(0) =~= word);
    assert((seq!['-'] + word).skip(1) =~= word);
}

/// A number in hexadecimal ends with the digit of its remainder by sixteen, behind the digits of
/// its quotient; a number below sixteen is one digit.
pub proof fn law_hex_number(n: nat)
    ensures
        n < 16 ==> hex_number(n).len() == 1,
        n >= 16 ==> hex_number(n).len() == hex_number(n / 16).len() + 1 && hex_number(n).drop_last()
            == hex_number(n / 16),
        ({
            let c = hex_number(n).last() as int;
            let d = if c < 58 {
                c - '0' as int
            } else {
                c - 'a' as int + 10
            };
            &&& '0' as int <= c <= '9' as int || 'a' as int <= c <= 'f' as int
            &&& d == n % 16
        }),
{
    if n >= 16 {
        assert(hex_number(n).drop_last() =~= hex_number(n / 16));
    }
}

/// A sign without digits is no number, nor is the empty text; a plus in front changes nothing.
pub proof fn law_lone_signs(n: nat)
    requires
        n <= i64::MAX,
    ensures
        parsed_signed(Seq::empty()) is None,
        parsed_signed(seq!['-']) is None,
        parsed_signed(seq!['+']) is None,
        parsed_signed(seq!['+'] + dec(n)) == Some(n as int),
{
    law_decimal(n);
    let s = seq!['+'] + dec(n);
    assert(s.skip(1) =~= dec(n));
    assert forall|k: int| 1 <= k < s.len() implies '0' <= #[trigger] s[k] && s[k] <= '9' by {
        assert(s[k] == dec(n)[k - 1]);
    }
    lemma_all_digits(s, 1);
    lemma_digits_value_behind(s, 1, s.len() - 1);
}

/// A number may leave out the digits before its point or those behind it, not both; it may have
/// an exponent.
pub proof fn law_points_and_exponents(a: nat, b: nat)
    ensures
        is_float_literal(seq!['.'] + dec(b)),
        is_float_literal(dec(a) + seq!['.']),
        !is_float_literal(seq!['.']),
        is_float_literal(dec(a) + seq!['e'] + dec(b)),
        is_float_literal(dec(a) + seq!['E', '-'] + dec(b)),
        !is_float_literal(dec(a) + seq!['e']),
{
    law_decimal(a);
    law_decimal(b);
    reveal_strlit("inf");
    reveal_strlit("infinity");
    reveal_strlit("nan");
    let n = dec(a).len() as int;
    let s = seq!['.'] + dec(b);
    assert forall|k: int| 1 <= k < s.len() implies '0' <= #[trigger] s[k] && s[k] <= '9' by {
        assert(s[k] == dec(b)[k - 1]);
    }
    assert(s[0] == '.');
    lemma_all_digits(s, 1);
    assert(!sign_at(s, 0));
    let t = dec(a) + seq!['.'];
    assert forall|k: int| 0 <= k < n implies is_digit(#[trigger] t[k]) by {
        assert(t[k] == dec(a)[k]);
    }
    assert(t[n] == '.' && t[0] == dec(a)[0]);
    lemma_digits_up_to(t, 0, n);
    assert(!sign_at(t, 0));
    let p = seq!['.'];
    assert(p[0] == '.' && !sign_at(p, 0));
    assert(crate::text::ascii_lower(p.skip(0)).len() == 1);
    assert("inf"@.len() == 3 && "infinity"@.len() == 8 && "nan"@.len() == 3);
    let u = dec(a) + seq!['e'] + dec(b);
    assert forall|k: int| 0 <= k < n implies is_digit(#[trigger] u[k]) by {
        assert(u[k] == dec(a)[k]);
    }
    assert(u[n] == 'e' && u[0] == dec(a)[0]);
    lemma_digits_up_to(u, 0, n);
    assert forall|k: int| n + 1 <= k < u.len() implies '0' <= #[trigger] u[k] && u[k] <= '9' by {
        assert(u[k] == dec(b)[k - n - 1]);
    }
    lemma_all_digits(u, n + 1);
    assert(u[n + 1] == dec(b)[0]);
    assert(!sign_at(u, n + 1) && !sign_at(u, 0));
    let v = dec(a) + seq!['E', '-'] + dec(b);
    assert forall|k: int| 0 <= k < n implies is_digit(#[trigger] v[k]) by {
        assert(v[k] == dec(a)[k]);
    }
    assert(v[n] == 'E' && v[n + 1] == '-' && v[0] == dec(a)[0]);
    lemma_digits_up_to(v, 0, n);
    assert forall|k: int| n + 2 <= k < v.len() implies '0' <= #[trigger] v[k] && v[k] <= '9' by {
        assert(v[k] == dec(b)[k - n - 2]);
    }
    lemma_all_digits(v, n + 2);
    assert(sign_at(v, n + 1) && !sign_at(v, 0));
    let w = dec(a) + seq!['e'];
    assert forall|k: int| 0 <= k < n implies is_digit(#[trigger] w[k]) by {
        assert(w[k] == dec(a)[k]);
    }
    assert(w[n] == 'e' && w[0] == dec(a)[0]);
    lemma_digits_up_to(w, 0, n);
    assert(!sign_at(w, 0));
    let low = crate::text::ascii_lower(w.skip(0));
    assert(low[0] == crate::text::ascii_lower_char(w[0]));
    assert('0' <= low[0] && low[0] <= '9');
}

} // verus!
