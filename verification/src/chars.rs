//! Conversions between strings and character vectors, and decimal numerals.

use vstd::prelude::*;

verus! {

/// Calls `String::push`, which appends one character to the end of the
/// string and leaves the characters before it as they were.
#[verifier::external_body]
pub(crate) fn append_char(s: &mut String, c: char)
    ensures
        final(s)@ == old(s)@.push(c),
{
    s.push(c)
}

/// The character sequences held by a sequence of vectors.
pub open spec fn views(lines: Seq<Vec<char>>) -> Seq<Seq<char>> {
    lines.map_values(|line: Vec<char>| line@)
}

/// Collects the characters of a vector into a string.
pub fn to_str(s: &Vec<char>) -> (r: String)
    ensures
        r@ == s@,
{
    let mut r = String::new();
    let mut i: usize = 0;
    while i < s.len()
        invariant
            i <= s.len(),
            r@ == s@.take(i as int),
        decreases s.len() - i,
    {
        append_char(&mut r, s[i]);
        i = i + 1;
    }
    r
}

/// Collects the characters of a string into a vector.
pub fn to_vec(s: &str) -> (r: Vec<char>)
    ensures
        r@ == s@,
{
    let mut r: Vec<char> = Vec::new();
    for c in it: s.chars()
        invariant
            r@ == it.seq().take(it.index() as int),
            it.seq() == s@,
    {
        r.push(c);
    }
    r
}

/// Appends the characters of `tail` to `text`.
pub fn extend(text: &mut Vec<char>, tail: &Vec<char>)
    ensures
        final(text)@ == old(text)@ + tail@,
{
    let mut i: usize = 0;
    while i < tail.len()
        invariant
            i <= tail.len(),
            text@ == old(text)@ + tail@.take(i as int),
        decreases tail.len() - i,
    {
        text.push(tail[i]);
        i = i + 1;
    }
}

/// Copies the characters `line[from..to]`.
pub fn slice(line: &Vec<char>, from: usize, to: usize) -> (r: Vec<char>)
    requires
        from <= to <= line@.len(),
    ensures
        r@ == line@.subrange(from as int, to as int),
{
    let mut r: Vec<char> = Vec::new();
    let mut i: usize = from;
    while i < to
        invariant
            from <= i <= to <= line@.len(),
            r@ == line@.subrange(from as int, i as int),
        decreases to - i,
    {
        r.push(line[i]);
        i = i + 1;
    }
    r
}

/// The character that writes the digit `d`.
pub open spec fn digit_char(d: nat) -> char {
    if d == 0 {
        '0'
    } else if d == 1 {
        '1'
    } else if d == 2 {
        '2'
    } else if d == 3 {
        '3'
    } else if d == 4 {
        '4'
    } else if d == 5 {
        '5'
    } else if d == 6 {
        '6'
    } else if d == 7 {
        '7'
    } else if d == 8 {
        '8'
    } else {
        '9'
    }
}

/// The decimal numeral of `n`, most significant digit first, without sign,
/// padding or leading zeros.
pub open spec fn decimal(n: nat) -> Seq<char>
    decreases n,
{
    if n < 10 {
        seq![digit_char(n)]
    } else {
        decimal(n / 10).push(digit_char(n % 10))
    }
}

fn digit(d: u8) -> (c: char)
    requires
        d < 10,
    ensures
        c == digit_char(d as nat),
{
    if d == 0 {
        '0'
    } else if d == 1 {
        '1'
    } else if d == 2 {
        '2'
    } else if d == 3 {
        '3'
    } else if d == 4 {
        '4'
    } else if d == 5 {
        '5'
    } else if d == 6 {
        '6'
    } else if d == 7 {
        '7'
    } else if d == 8 {
        '8'
    } else {
        '9'
    }
}

/// Writes `n` as a decimal numeral.
pub fn decimal_digits(n: u128) -> (r: Vec<char>)
    ensures
        r@ == decimal(n as nat),
{
    // Least significant digit first, then reversed.
    let mut low_first: Vec<char> = Vec::new();
    let mut rest: u128 = n;
    while rest >= 10
        invariant
            decimal(n as nat) == decimal(rest as nat) + low_first@.reverse(),
        decreases rest,
    {
        low_first.push(digit((rest % 10) as u8));
        rest = rest / 10;
    }
    low_first.push(digit(rest as u8));
    let mut r: Vec<char> = Vec::new();
    let mut i: usize = low_first.len();
    while i > 0
        invariant
            i <= low_first@.len(),
            r@ == low_first@.reverse().take(low_first@.len() - i),
        decreases i,
    {
        i = i - 1;
        r.push(low_first[i]);
    }
    r
}

} // verus!
