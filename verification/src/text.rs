//! Text as sequences of characters: decimal numbers read and written,
//! padding to a column width, and the few `String` operations the rest of
//! the crate builds on.

use vstd::prelude::*;

verus! {

/// `String::push` appends one character.
pub assume_specification[ String::push ](s: &mut String, c: char)
    ensures
        final(s)@ == old(s)@.push(c),
;

/// `String::pop` removes the last character and returns it, or returns
/// `None` and changes nothing when the string is empty.
pub assume_specification[ String::pop ](s: &mut String) -> (r: Option<char>)
    ensures
        old(s)@.len() == 0 ==> r is None && final(s)@ == old(s)@,
        old(s)@.len() > 0 ==> r == Some(old(s)@.last()) && final(s)@ == old(s)@.drop_last(),
;

/// The characters of `s`, in order.
pub fn chars_of(s: &str) -> (v: Vec<char>)
    ensures
        v@ == s@,
{
    let mut v: Vec<char> = Vec::new();
    for c in it: s.chars()
        invariant
            v@ == it.seq().take(it.index() as int),
            it.seq() == s@,
    {
        v.push(c);
    }
    v
}

/// The characters `v[from..to]` as a `String`.
pub fn string_of(v: &Vec<char>, from: usize, to: usize) -> (s: String)
    requires
        from <= to <= v.len(),
    ensures
        s@ == v@.subrange(from as int, to as int),
{
    let mut s = String::new();
    let mut i: usize = from;
    while i < to
        invariant
            from <= i <= to <= v.len(),
            s@ == v@.subrange(from as int, i as int),
        decreases to - i,
    {
        s.push(v[i]);
        i += 1;
    }
    s
}

/// Appends every character of `tail` to `s`.
pub fn push_all(s: &mut String, tail: &Vec<char>)
    ensures
        final(s)@ == old(s)@ + tail@,
{
    let mut i: usize = 0;
    while i < tail.len()
        invariant
            i <= tail.len(),
            s@ == old(s)@ + tail@.take(i as int),
        decreases tail.len() - i,
    {
        s.push(tail[i]);
        i += 1;
    }
}

/// Whether `c` is one of the ten ASCII digits.
pub open spec fn is_digit(c: char) -> bool {
    '0' <= c <= '9'
}

/// The number a digit stands for.
pub open spec fn digit_value(c: char) -> nat {
    (c as nat - '0' as nat) as nat
}

/// The digit that stands for `d`, for `d` below ten.
pub open spec fn digit_char(d: nat) -> char {
    (d + '0' as nat) as char
}

/// Whether every character of `s` is a digit.
pub open spec fn all_digits(s: Seq<char>) -> bool {
    forall|i: int| 0 <= i < s.len() ==> is_digit(#[trigger] s[i])
}

/// The number that a string of digits denotes, most significant digit
/// first. Leading zeros do not count; the empty string denotes 0.
pub open spec fn digits_value(s: Seq<char>) -> nat
    decreases s.len(),
{
    if s.len() == 0 {
        0
    } else {
        digits_value(s.drop_last()) * 10 + digit_value(s.last())
    }
}

/// The decimal digits of `n`, without leading zeros.
pub open spec fn nat_text(n: nat) -> Seq<char>
    decreases n,
{
    if n < 10 {
        seq![digit_char(n)]
    } else {
        nat_text(n / 10).push(digit_char(n % 10))
    }
}

/// The decimal text of `v`: a minus sign for a negative number, then the
/// digits of its magnitude.
pub open spec fn int_text(v: int) -> Seq<char> {
    if v < 0 {
        seq!['-'] + nat_text((-v) as nat)
    } else {
        nat_text(v as nat)
    }
}

/// What an unsigned decimal number reads as: an optional `+`, then at least
/// one digit. Anything else is not a number.
pub open spec fn parse_nat(s: Seq<char>) -> Option<nat> {
    let body = if s.len() > 0 && s[0] == '+' {
        s.skip(1)
    } else {
        s
    };
    if body.len() > 0 && all_digits(body) {
        Some(digits_value(body))
    } else {
        None
    }
}

/// What a signed decimal number reads as: an optional `+` or `-`, then at
/// least one digit. Anything else is not a number.
pub open spec fn parse_int(s: Seq<char>) -> Option<int> {
    if s.len() > 0 && s[0] == '-' {
        let body = s.skip(1);
        if body.len() > 0 && all_digits(body) {
            Some(-(digits_value(body) as int))
        } else {
            None
        }
    } else {
        match parse_nat(s) {
            Some(n) => Some(n as int),
            None => None,
        }
    }
}

/// A signed decimal number that fits in eight bits.
pub open spec fn parse_i8(s: Seq<char>) -> Option<i8> {
    match parse_int(s) {
        Some(v) => if i8::MIN <= v <= i8::MAX {
            Some(v as i8)
        } else {
            None
        },
        None => None,
    }
}

/// An unsigned decimal number that fits in a machine word.
pub open spec fn parse_usize(s: Seq<char>) -> Option<usize> {
    match parse_nat(s) {
        Some(n) => if n <= usize::MAX {
            Some(n as usize)
        } else {
            None
        },
        None => None,
    }
}

/// `true` and `false`, spelled exactly so, are the two truth values.
pub open spec fn parse_bool(s: Seq<char>) -> Option<bool> {
    if s == bool_text(true) {
        Some(true)
    } else if s == bool_text(false) {
        Some(false)
    } else {
        None
    }
}

/// How a truth value is spelled.
pub open spec fn bool_text(b: bool) -> Seq<char> {
    if b {
        seq!['t', 'r', 'u', 'e']
    } else {
        seq!['f', 'a', 'l', 's', 'e']
    }
}

/// A string of digits that denotes at most `limit`.
pub open spec fn digits_within(s: Seq<char>, limit: nat) -> Option<nat> {
    if s.len() > 0 && all_digits(s) && digits_value(s) <= limit {
        Some(digits_value(s))
    } else {
        None
    }
}

/// Dropping digits from the end never makes the number larger.
pub proof fn lemma_digits_value_prefix(s: Seq<char>, k: int)
    requires
        0 <= k <= s.len(),
    ensures
        digits_value(s.take(k)) <= digits_value(s),
    decreases s.len(),
{
    if k == s.len() {
        assert(s.take(k) =~= s);
    } else {
        assert(s.drop_last().take(k) =~= s.take(k));
        lemma_digits_value_prefix(s.drop_last(), k);
    }
}

/// The digits of a number are digits, at least one of them, and denote it.
pub proof fn lemma_nat_text(n: nat)
    ensures
        nat_text(n).len() > 0,
        all_digits(nat_text(n)),
        digits_value(nat_text(n)) == n,
    decreases n,
{
    if n < 10 {
        let s = nat_text(n);
        assert(digits_value(s.drop_last()) == 0);
    } else {
        lemma_nat_text(n / 10);
        let s = nat_text(n);
        assert(s.drop_last() =~= nat_text(n / 10));
        assert forall|i: int| 0 <= i < s.len() implies is_digit(#[trigger] s[i]) by {}
    }
}

/// Reading what was written gives the number back.
pub proof fn lemma_parse_int_text(v: int)
    ensures
        parse_int(int_text(v)) == Some(v),
        int_text(v).len() > 0,
        forall|i: int|
            0 <= i < int_text(v).len() ==> is_digit(#[trigger] int_text(v)[i]) || (i == 0
                && int_text(v)[i] == '-'),
{
    if v < 0 {
        let n = (-v) as nat;
        lemma_nat_text(n);
        let s = int_text(v);
        assert(s.skip(1) =~= nat_text(n));
        assert forall|i: int| 0 <= i < s.len() implies is_digit(#[trigger] s[i]) || (i == 0
            && s[i] == '-') by {}
    } else {
        lemma_nat_text(v as nat);
    }
}

/// Reads the digits `s[from..to]` as a number no larger than `limit`.
pub fn read_digits(s: &Vec<char>, from: usize, to: usize, limit: u64) -> (r: Option<u64>)
    requires
        from <= to <= s.len(),
    ensures
        match digits_within(s@.subrange(from as int, to as int), limit as nat) {
            Some(n) => r == Some(n as u64),
            None => r is None,
        },
{
    let ghost body = s@.subrange(from as int, to as int);
    if from == to {
        return None;
    }
    let mut acc: u128 = 0;
    let mut i: usize = from;
    while i < to
        invariant
            from <= i <= to <= s.len(),
            body == s@.subrange(from as int, to as int),
            all_digits(body.take(i - from)),
            acc == digits_value(body.take(i - from)),
            acc <= limit,
        decreases to - i,
    {
        let c = s[i];
        let ghost next = body.take(i - from + 1);
        proof {
            assert(next.drop_last() =~= body.take(i - from));
        }
        if !(c >= '0' && c <= '9') {
            proof {
                assert(!is_digit(body[i - from]));
            }
            return None;
        }
        let d: u128 = (c as u32 - '0' as u32) as u128;
        acc = acc * 10 + d;
        if acc > limit as u128 {
            proof {
                lemma_digits_value_prefix(body, i - from + 1);
            }
            return None;
        }
        proof {
            assert forall|k: int| 0 <= k < next.len() implies is_digit(#[trigger] next[k]) by {}
        }
        i += 1;
    }
    proof {
        assert(body.take(to - from) =~= body);
    }
    Some(acc as u64)
}

/// Reads `s[from..to]` as a signed decimal number of eight bits.
pub fn read_i8(s: &Vec<char>, from: usize, to: usize) -> (r: Option<i8>)
    requires
        from <= to <= s.len(),
    ensures
        r == parse_i8(s@.subrange(from as int, to as int)),
{
    let ghost whole = s@.subrange(from as int, to as int);
    if from == to {
        return None;
    }
    let first = s[from];
    if first == '-' {
        assert(whole.skip(1) =~= s@.subrange(from + 1, to as int));
        match read_digits(s, from + 1, to, 128) {
            Some(n) => {
                let v: i16 = 0 - (n as i16);
                Some(v as i8)
            },
            None => None,
        }
    } else {
        let start: usize = if first == '+' {
            from + 1
        } else {
            from
        };
        assert(whole.skip(1) =~= s@.subrange(from + 1, to as int));
        match read_digits(s, start, to, 127) {
            Some(n) => Some(n as i8),
            None => None,
        }
    }
}

/// Reads `s[from..to]` as an unsigned decimal number of a machine word.
pub fn read_usize(s: &Vec<char>, from: usize, to: usize) -> (r: Option<usize>)
    requires
        from <= to <= s.len(),
    ensures
        r == parse_usize(s@.subrange(from as int, to as int)),
{
    let ghost whole = s@.subrange(from as int, to as int);
    if from == to {
        return None;
    }
    let start: usize = if s[from] == '+' {
        from + 1
    } else {
        from
    };
    assert(whole.skip(1) =~= s@.subrange(from + 1, to as int));
    match read_digits(s, start, to, usize::MAX as u64) {
        Some(n) => Some(n as usize),
        None => None,
    }
}

/// Reads `s[from..to]` as `true` or `false`.
pub fn read_bool(s: &Vec<char>, from: usize, to: usize) -> (r: Option<bool>)
    requires
        from <= to <= s.len(),
    ensures
        r == parse_bool(s@.subrange(from as int, to as int)),
{
    let ghost whole = s@.subrange(from as int, to as int);
    let n = to - from;
    if n == 4 && s[from] == 't' && s[from + 1] == 'r' && s[from + 2] == 'u' && s[from + 3]
        == 'e' {
        assert(whole =~= bool_text(true));
        Some(true)
    } else if n == 5 && s[from] == 'f' && s[from + 1] == 'a' && s[from + 2] == 'l' && s[from
        + 3] == 's' && s[from + 4] == 'e' {
        assert(whole =~= bool_text(false));
        Some(false)
    } else {
        proof {
            if whole == bool_text(true) {
                assert(whole.len() == 4);
                assert(whole[0] == 't' && whole[1] == 'r' && whole[2] == 'u' && whole[3] == 'e');
            }
            if whole == bool_text(false) {
                assert(whole.len() == 5);
                assert(whole[0] == 'f' && whole[1] == 'a' && whole[2] == 'l' && whole[3] == 's'
                    && whole[4] == 'e');
            }
        }
        None
    }
}

/// Appends the decimal digits of `n` to `out`.
pub fn push_nat(out: &mut String, n: u64)
    ensures
        final(out)@ == old(out)@ + nat_text(n as nat),
    decreases n,
{
    if n >= 10 {
        push_nat(out, n / 10);
    }
    let d: u8 = (n % 10) as u8;
    out.push((('0' as u8) + d) as char);
    assert(out@ =~= old(out)@ + nat_text(n as nat));
}

/// Appends the decimal text of `v` to `out`.
pub fn push_int(out: &mut String, v: i64)
    ensures
        final(out)@ == old(out)@ + int_text(v as int),
{
    if v < 0 {
        out.push('-');
        let magnitude: u64 = (0 - (v as i128)) as u64;
        push_nat(out, magnitude);
    } else {
        push_nat(out, v as u64);
    }
}

/// Appends the spelling of `b` to `out`.
pub fn push_bool(out: &mut String, b: bool)
    ensures
        final(out)@ == old(out)@ + bool_text(b),
{
    if b {
        out.push('t');
        out.push('r');
        out.push('u');
        out.push('e');
    } else {
        out.push('f');
        out.push('a');
        out.push('l');
        out.push('s');
        out.push('e');
    }
}

/// `n` blanks.
pub open spec fn spaces(n: nat) -> Seq<char> {
    Seq::new(n, |i: int| ' ')
}

/// `s` moved to the right edge of a column `width` wide: blanks in front
/// make up the width. Text as wide as the column or wider stays as it is.
pub open spec fn right_aligned(s: Seq<char>, width: nat) -> Seq<char> {
    if s.len() >= width {
        s
    } else {
        spaces((width - s.len()) as nat) + s
    }
}

/// `s` in the middle of a column `width` wide. Where the blanks cannot be
/// shared evenly, the extra one goes behind the text. Text as wide as the
/// column or wider stays as it is.
pub open spec fn centered(s: Seq<char>, width: nat) -> Seq<char> {
    if s.len() >= width {
        s
    } else {
        let pad = (width - s.len()) as nat;
        spaces(pad / 2) + s + spaces((pad + 1) / 2)
    }
}

/// Appends `n` blanks to `out`.
pub fn push_spaces(out: &mut String, n: usize)
    ensures
        final(out)@ == old(out)@ + spaces(n as nat),
{
    let mut i: usize = 0;
    while i < n
        invariant
            i <= n,
            out@ == old(out)@ + spaces(i as nat),
        decreases n - i,
    {
        out.push(' ');
        i += 1;
    }
}

/// `s` right-aligned in a column of `width` characters.
pub fn align_right(s: &str, width: usize) -> (out: String)
    ensures
        out@ == right_aligned(s@, width as nat),
{
    let chars = chars_of(s);
    let mut out = String::new();
    if chars.len() < width {
        push_spaces(&mut out, width - chars.len());
    }
    push_all(&mut out, &chars);
    assert(out@ =~= right_aligned(s@, width as nat));
    out
}

/// `s` centred in a column of `width` characters.
pub fn align_center(s: &str, width: usize) -> (out: String)
    ensures
        out@ == centered(s@, width as nat),
{
    let chars = chars_of(s);
    let mut out = String::new();
    if chars.len() < width {
        let pad: usize = width - chars.len();
        push_spaces(&mut out, pad / 2);
        push_all(&mut out, &chars);
        push_spaces(&mut out, pad - pad / 2);
    } else {
        push_all(&mut out, &chars);
    }
    assert(out@ =~= centered(s@, width as nat));
    out
}

} // verus!
