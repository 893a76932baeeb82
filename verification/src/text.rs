//! Decimal text: writing numbers with zero padding and reading them back.

use vstd::prelude::*;

verus! {

/// The character that stands for the decimal digit `d`.
pub open spec fn digit_char(d: int) -> char {
    if d == 0 {
        '0'
    } else if d == 1 {
        '1'
    } else if d == 2 {
        '2'
    } else if d == 3 {
        '3'
    } else if d == 4 {
        '4'
    } else if d == 5 {
        '5'
    } else if d == 6 {
        '6'
    } else if d == 7 {
        '7'
    } else if d == 8 {
        '8'
    } else {
        '9'
    }
}

/// The value of a decimal digit character, if it is one.
pub open spec fn digit_value(c: char) -> Option<int> {
    if c == '0' {
        Some(0)
    } else if c == '1' {
        Some(1)
    } else if c == '2' {
        Some(2)
    } else if c == '3' {
        Some(3)
    } else if c == '4' {
        Some(4)
    } else if c == '5' {
        Some(5)
    } else if c == '6' {
        Some(6)
    } else if c == '7' {
        Some(7)
    } else if c == '8' {
        Some(8)
    } else if c == '9' {
        Some(9)
    } else {
        None
    }
}

/// `n` in decimal, with zeros in front until it has at least `width` digits.
/// Zero is written with one digit even where `width` is 0.
pub open spec fn padded(n: nat, width: nat) -> Seq<char>
    decreases n + width,
{
    if n < 10 && width <= 1 {
        seq![digit_char(n as int)]
    } else {
        padded(n / 10, if width > 0 { (width - 1) as nat } else { 0 }).push(
            digit_char((n % 10) as int),
        )
    }
}

/// `n` in decimal with no padding.
pub open spec fn decimal(n: nat) -> Seq<char> {
    padded(n, 1)
}

/// The number that a run of decimal digits stands for; the empty run stands
/// for 0. `None` where some character is no digit.
pub open spec fn digits_number(s: Seq<char>) -> Option<nat>
    decreases s.len(),
{
    if s.len() == 0 {
        Some(0)
    } else {
        match (digits_number(s.drop_last()), digit_value(s.last())) {
            (Some(v), Some(d)) => Some((v * 10 + d) as nat),
            _ => None,
        }
    }
}

/// What an unsigned 8-bit number reads as: an optional `+`, then one or more
/// decimal digits whose value is at most 255. Anything else is no number.
pub open spec fn parse_u8(s: Seq<char>) -> Option<u8> {
    if s.len() > 0 && s[0] == '+' {
        digits_u8(s.skip(1))
    } else {
        digits_u8(s)
    }
}

/// What a run of one or more decimal digits reads as, where its value is at
/// most 255.
pub open spec fn digits_u8(s: Seq<char>) -> Option<u8> {
    if s.len() == 0 {
        None
    } else {
        match digits_number(s) {
            Some(v) => if v <= 255 {
                Some(v as u8)
            } else {
                None
            },
            None => None,
        }
    }
}

/// Every character of a padded number is a digit, there is at least one and
/// at least `width` of them, and read back they give the number.
pub proof fn lemma_padded_reads_back(n: nat, width: nat)
    ensures
        padded(n, width).len() >= 1,
        padded(n, width).len() >= width,
        forall|i: int|
            0 <= i < padded(n, width).len() ==> digit_value(#[trigger] padded(n, width)[i])
                is Some,
        digits_number(padded(n, width)) == Some(n),
    decreases n + width,
{
    if n < 10 && width <= 1 {
        assert(digits_number(padded(n, width).drop_last()) == Some(0nat));
    } else {
        let w: nat = if width > 0 { (width - 1) as nat } else { 0 };
        lemma_padded_reads_back(n / 10, w);
        assert(padded(n, width).drop_last() =~= padded(n / 10, w));
    }
}

/// The one-character text of a decimal digit.
pub fn digit_str(d: u8) -> (r: &'static str)
    requires
        d < 10,
    ensures
        r@ == seq![digit_char(d as int)],
{
    proof {
        reveal_strlit("0");
        reveal_strlit("1");
        reveal_strlit("2");
        reveal_strlit("3");
        reveal_strlit("4");
        reveal_strlit("5");
        reveal_strlit("6");
        reveal_strlit("7");
        reveal_strlit("8");
        reveal_strlit("9");
    }
    if d == 0 {
        "0"
    } else if d == 1 {
        "1"
    } else if d == 2 {
        "2"
    } else if d == 3 {
        "3"
    } else if d == 4 {
        "4"
    } else if d == 5 {
        "5"
    } else if d == 6 {
        "6"
    } else if d == 7 {
        "7"
    } else if d == 8 {
        "8"
    } else {
        "9"
    }
}

/// Appends `n` in decimal to `out`, zero-padded to at least `width` digits.
pub fn push_padded(out: &mut String, n: u32, width: u32)
    ensures
        final(out)@ == old(out)@ + padded(n as nat, width as nat),
    decreases n + width,
{
    if n >= 10 || width > 1 {
        let rest: u32 = if width > 0 {
            width - 1
        } else {
            0
        };
        push_padded(out, n / 10, rest);
    }
    out.append(digit_str((n % 10) as u8));
}

/// The value of a decimal digit character.
pub fn char_digit(c: char) -> (r: Option<u8>)
    ensures
        match r {
            Some(d) => digit_value(c) == Some(d as int),
            None => digit_value(c) is None,
        },
{
    if c == '0' {
        Some(0)
    } else if c == '1' {
        Some(1)
    } else if c == '2' {
        Some(2)
    } else if c == '3' {
        Some(3)
    } else if c == '4' {
        Some(4)
    } else if c == '5' {
        Some(5)
    } else if c == '6' {
        Some(6)
    } else if c == '7' {
        Some(7)
    } else if c == '8' {
        Some(8)
    } else if c == '9' {
        Some(9)
    } else {
        None
    }
}

/// The characters of `s`, in order.
pub fn chars_of(s: &str) -> (r: Vec<char>)
    ensures
        r@ == s@,
{
    broadcast use vstd::string::group_string_axioms;

    let mut out: Vec<char> = Vec::new();
    for c in it: s.chars()
        invariant
            it.seq() == s@,
            out@ == it.seq().take(it.index()),
    {
        out.push(c);
    }
    out
}

/// Reads the characters of `chars` from `from` up to `to` as an unsigned
/// 8-bit number.
pub fn parse_u8_in(chars: &Vec<char>, from: usize, to: usize) -> (r: Option<u8>)
    requires
        from <= to <= chars.len(),
    ensures
        r == parse_u8(chars@.subrange(from as int, to as int)),
{
    let ghost token = chars@.subrange(from as int, to as int);
    let start: usize = if from < to && chars[from] == '+' {
        from + 1
    } else {
        from
    };
    let ghost body = chars@.subrange(start as int, to as int);
    proof {
        if start > from {
            assert(token.skip(1) =~= body);
        }
    }
    if start == to {
        return None;
    }
    let mut value: u32 = 0;
    let mut i: usize = start;
    while i < to
        invariant
            start <= i <= to <= chars.len(),
            body == chars@.subrange(start as int, to as int),
            parse_u8(chars@.subrange(from as int, to as int)) == digits_u8(body),
            value <= 256,
            match digits_number(chars@.subrange(start as int, i as int)) {
                Some(v) => if v <= 255 {
                    value == v
                } else {
                    value == 256
                },
                None => false,
            },
        decreases to - i,
    {
        proof {
            assert(chars@.subrange(start as int, i + 1).drop_last() =~= chars@.subrange(
                start as int,
                i as int,
            ));
        }
        match char_digit(chars[i]) {
            None => {
                proof {
                    lemma_digits_number_prefix(body, i + 1 - start);
                }
                return None;
            },
            Some(d) => {
                if value <= 255 {
                    value = value * 10 + d as u32;
                    if value > 255 {
                        value = 256;
                    }
                }
            },
        }
        i = i + 1;
    }
    if value <= 255 {
        Some(value as u8)
    } else {
        None
    }
}

/// Where a prefix of `s` is no run of digits, `s` is none either.
proof fn lemma_digits_number_prefix(s: Seq<char>, n: int)
    requires
        0 <= n <= s.len(),
        digits_number(s.take(n)) is None,
    ensures
        digits_number(s) is None,
    decreases s.len() - n,
{
    if n < s.len() {
        assert(s.take(n + 1).drop_last() =~= s.take(n));
        lemma_digits_number_prefix(s, n + 1);
    } else {
        assert(s.take(n) =~= s);
    }
}

} // verus!
