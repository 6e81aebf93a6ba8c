//! Writing numbers as text: decimal, zero- or space-padded, and hexadecimal.

use vstd::prelude::*;
use vstd::string::StringExecFns;

verus! {

/// The character of the digit `d` (`0`..`f`), in upper case if `upper`.
pub open spec fn digit_char(d: nat, upper: bool) -> char {
    if d < 10 {
        (('0' as u8) + d) as char
    } else if upper {
        (('A' as u8) + d - 10) as char
    } else {
        (('a' as u8) + d - 10) as char
    }
}

/// The digits of `n` in base `base`, most significant first, without leading
/// zeros (`0` is written as one digit).
pub open spec fn digits(n: nat, base: nat, upper: bool) -> Seq<char>
    decreases n,
{
    if base < 2 || n < base {
        seq![digit_char(n, upper)]
    } else {
        proof {
            vstd::arithmetic::div_mod::lemma_div_decreases(n as int, base as int);
        }
        digits(n / base, base, upper).push(digit_char(n % base, upper))
    }
}

/// `s` preceded by as many `fill` characters as make it `width` long.
pub open spec fn pad_left(s: Seq<char>, width: nat, fill: char) -> Seq<char> {
    if s.len() >= width {
        s
    } else {
        Seq::new((width - s.len()) as nat, |i: int| fill) + s
    }
}

/// The digit `d` as a string of one character.
fn digit_str(d: u8, upper: bool) -> (r: &'static str)
    requires
        d < 16,
    ensures
        r@ == seq![digit_char(d as nat, upper)],
{
    proof {
        reveal_strlit("0");
        reveal_strlit("1");
        reveal_strlit("2");
        reveal_strlit("3");
        reveal_strlit("4");
        reveal_strlit("5");
        reveal_strlit("6");
        reveal_strlit("7");
        reveal_strlit("8");
        reveal_strlit("9");
        reveal_strlit("A");
        reveal_strlit("B");
        reveal_strlit("C");
        reveal_strlit("D");
        reveal_strlit("E");
        reveal_strlit("F");
        reveal_strlit("a");
        reveal_strlit("b");
        reveal_strlit("c");
        reveal_strlit("d");
        reveal_strlit("e");
        reveal_strlit("f");
    }
    match d {
        0 => "0",
        1 => "1",
        2 => "2",
        3 => "3",
        4 => "4",
        5 => "5",
        6 => "6",
        7 => "7",
        8 => "8",
        9 => "9",
        10 => if upper { "A" } else { "a" },
        11 => if upper { "B" } else { "b" },
        12 => if upper { "C" } else { "c" },
        13 => if upper { "D" } else { "d" },
        14 => if upper { "E" } else { "e" },
        _ => if upper { "F" } else { "f" },
    }
}

/// Appends the digits of `n` in base `base` to `out`.
pub fn append_digits(out: &mut String, n: u64, base: u64, upper: bool)
    requires
        base == 10 || base == 16,
    ensures
        final(out)@ == old(out)@ + digits(n as nat, base as nat, upper),
    decreases n,
{
    if n < base {
        out.append(digit_str(n as u8, upper));
    } else {
        proof {
            vstd::arithmetic::div_mod::lemma_div_decreases(n as int, base as int);
        }
        append_digits(out, n / base, base, upper);
        out.append(digit_str((n % base) as u8, upper));
    }
}

/// Appends `fill` to `out` `count` times.
pub fn append_fill(out: &mut String, fill: &str, count: usize)
    requires
        fill@.len() == 1,
    ensures
        final(out)@ == old(out)@ + Seq::new(count as nat, |i: int| fill@[0]),
{
    let mut i: usize = 0;
    while i < count
        invariant
            i <= count,
            fill@.len() == 1,
            out@ == old(out)@ + Seq::new(i as nat, |j: int| fill@[0]),
        decreases count - i,
    {
        out.append(fill);
        i += 1;
        assert(out@ =~= old(out)@ + Seq::new(i as nat, |j: int| fill@[0]));
    }
}

/// The number of digits of `n` in base `base`.
pub fn digit_count(n: u64, base: u64) -> (r: u64)
    requires
        base == 10 || base == 16,
    ensures
        r == digits(n as nat, base as nat, false).len(),
        r <= (if n == 0 { 1 } else { n }),
    decreases n,
{
    if n < base {
        1
    } else {
        proof {
            vstd::arithmetic::div_mod::lemma_div_decreases(n as int, base as int);
            vstd::arithmetic::div_mod::lemma_div_non_zero(n as int, base as int);
        }
        digit_count(n / base, base) + 1
    }
}

/// Appends `n` in decimal to `out`, padded on the left with `fill` to `width`
/// characters.
pub fn append_padded_decimal(out: &mut String, n: u64, width: usize, fill: &str)
    requires
        fill@.len() == 1,
    ensures
        final(out)@ == old(out)@ + pad_left(digits(n as nat, 10, false), width as nat, fill@[0]),
{
    let count = digit_count(n, 10);
    let ghost ds = digits(n as nat, 10, false);
    if count < width as u64 {
        append_fill(out, fill, width - count as usize);
    }
    append_digits(out, n, 10, false);
    assert(out@ =~= old(out)@ + pad_left(ds, width as nat, fill@[0]));
}

} // verus!
