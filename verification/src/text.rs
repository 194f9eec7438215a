//! Characters, digits and small string-building helpers shared by the
//! formatter and the parser.

use vstd::prelude::*;

verus! {

/// The decimal digit character for `d` (`0 <= d <= 9`).
pub open spec fn digit_char(d: int) -> char {
    if d == 0 {
        '0'
    } else if d == 1 {
        '1'
    } else if d == 2 {
        '2'
    } else if d == 3 {
        '3'
    } else if d == 4 {
        '4'
    } else if d == 5 {
        '5'
    } else if d == 6 {
        '6'
    } else if d == 7 {
        '7'
    } else if d == 8 {
        '8'
    } else {
        '9'
    }
}

/// The lowercase hexadecimal digit character for `d` (`0 <= d <= 15`).
pub open spec fn hex_digit_char(d: int) -> char {
    if d < 10 {
        digit_char(d)
    } else if d == 10 {
        'a'
    } else if d == 11 {
        'b'
    } else if d == 12 {
        'c'
    } else if d == 13 {
        'd'
    } else if d == 14 {
        'e'
    } else {
        'f'
    }
}

/// The decimal spelling of a non-negative integer, without sign or padding.
pub open spec fn dec_of(n: int) -> Seq<char>
    decreases n,
{
    if n < 10 {
        seq![digit_char(n)]
    } else {
        dec_of(n / 10).push(digit_char(n % 10))
    }
}

/// Two lowercase hexadecimal digits for a byte value (`0 <= n <= 255`).
pub open spec fn hex2_of(n: int) -> Seq<char> {
    seq![hex_digit_char(n / 16), hex_digit_char(n % 16)]
}

pub fn digit(d: u16) -> (c: char)
    requires
        d <= 9,
    ensures
        c == digit_char(d as int),
{
    match d {
        0 => '0',
        1 => '1',
        2 => '2',
        3 => '3',
        4 => '4',
        5 => '5',
        6 => '6',
        7 => '7',
        8 => '8',
        _ => '9',
    }
}

fn hex_digit(d: u8) -> (c: char)
    requires
        d <= 15,
    ensures
        c == hex_digit_char(d as int),
{
    match d {
        0 => '0',
        1 => '1',
        2 => '2',
        3 => '3',
        4 => '4',
        5 => '5',
        6 => '6',
        7 => '7',
        8 => '8',
        9 => '9',
        10 => 'a',
        11 => 'b',
        12 => 'c',
        13 => 'd',
        14 => 'e',
        _ => 'f',
    }
}

/// Renders a number below 1000 in decimal; channels, hues and percentages
/// all fit this range.
pub fn dec_str(n: u16) -> (s: Vec<char>)
    requires
        n < 1000,
    ensures
        s@ == dec_of(n as int),
{
    let mut s: Vec<char> = Vec::new();
    if n >= 100 {
        s.push(digit(n / 100));
        s.push(digit((n / 10) % 10));
        s.push(digit(n % 10));
        proof {
            reveal_with_fuel(dec_of, 3);
            assert(n / 10 / 10 == n / 100) by (nonlinear_arith)
                requires n < 1000;
            assert(10 <= n / 10 < 100) by (nonlinear_arith)
                requires 100 <= n < 1000;
            assert(s@ =~= dec_of(n as int));
        }
    } else if n >= 10 {
        s.push(digit(n / 10));
        s.push(digit(n % 10));
        proof {
            reveal_with_fuel(dec_of, 2);
            assert(s@ =~= dec_of(n as int));
        }
    } else {
        s.push(digit(n));
        proof {
            assert(s@ =~= dec_of(n as int));
        }
    }
    s
}

/// Renders a byte as two lowercase hexadecimal digits.
pub fn hex2_str(n: u8) -> (s: Vec<char>)
    ensures
        s@ == hex2_of(n as int),
{
    let mut s: Vec<char> = Vec::new();
    s.push(hex_digit(n / 16));
    s.push(hex_digit(n % 16));
    proof {
        assert(s@ =~= hex2_of(n as int));
    }
    s
}

/// Collects the characters of a string slice into a vector.
pub fn chars_vec(s: &str) -> (v: Vec<char>)
    ensures
        v@ == s@,
{
    let n = s.unicode_len();
    let mut v: Vec<char> = Vec::new();
    let mut i: usize = 0;
    while i < n
        invariant
            n == s@.len(),
            i <= n,
            v@ == s@.subrange(0, i as int),
        decreases n - i,
    {
        let c = s.get_char(i);
        v.push(c);
        proof {
            assert(v@ =~= s@.subrange(0, i + 1 as int));
        }
        i = i + 1;
    }
    proof {
        assert(v@ =~= s@);
    }
    v
}

/// Relies on `String::push`: appends a single character to the string.
#[verifier::external_body]
fn push_char(s: &mut String, c: char)
    ensures
        final(s)@ == old(s)@.push(c),
{
    s.push(c);
}

/// Collects a vector of characters into a `String`.
pub fn chars_to_string(v: &Vec<char>) -> (s: String)
    ensures
        s@ == v@,
{
    let mut s = String::new();
    let mut i: usize = 0;
    while i < v.len()
        invariant
            i <= v@.len(),
            s@ == v@.subrange(0, i as int),
        decreases v@.len() - i,
    {
        push_char(&mut s, v[i]);
        proof {
            assert(s@ =~= v@.subrange(0, i + 1 as int));
        }
        i = i + 1;
    }
    proof {
        assert(s@ =~= v@);
    }
    s
}

/// Appends every character of `piece` to `out`.
pub fn extend_chars(out: &mut Vec<char>, piece: &Vec<char>)
    ensures
        final(out)@ == old(out)@ + piece@,
{
    let mut i: usize = 0;
    while i < piece.len()
        invariant
            i <= piece@.len(),
            out@ == old(out)@ + piece@.subrange(0, i as int),
        decreases piece@.len() - i,
    {
        out.push(piece[i]);
        proof {
            assert(out@ =~= old(out)@ + piece@.subrange(0, i + 1 as int));
        }
        i = i + 1;
    }
    proof {
        assert(out@ =~= old(out)@ + piece@);
    }
}

/// Replaces `buf[start..end]` with `replacement`, keeping everything
/// before `start` and from `end` on unchanged.
pub fn substitute(buf: &mut Vec<char>, replacement: &Vec<char>, start: usize, end: usize)
    requires
        start <= end,
        end <= old(buf)@.len(),
    ensures
        final(buf)@ == old(buf)@.subrange(0, start as int) + replacement@ + old(buf)@.subrange(
            end as int,
            old(buf)@.len() as int,
        ),
{
    let mut out: Vec<char> = Vec::new();
    let mut i: usize = 0;
    while i < start
        invariant
            i <= start,
            start <= end <= buf@.len(),
            buf == old(buf),
            out@ == buf@.subrange(0, i as int),
        decreases start - i,
    {
        out.push(buf[i]);
        proof {
            assert(out@ =~= buf@.subrange(0, i + 1 as int));
        }
        i = i + 1;
    }
    extend_chars(&mut out, replacement);
    let mut j: usize = end;
    while j < buf.len()
        invariant
            end <= j <= buf@.len(),
            start <= end <= buf@.len(),
            buf == old(buf),
            out@ == buf@.subrange(0, start as int) + replacement@ + buf@.subrange(
                end as int,
                j as int,
            ),
        decreases buf@.len() - j,
    {
        out.push(buf[j]);
        proof {
            assert(out@ =~= buf@.subrange(0, start as int) + replacement@ + buf@.subrange(
                end as int,
                j + 1 as int,
            ));
        }
        j = j + 1;
    }
    *buf = out;
}

} // verus!
