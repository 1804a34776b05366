//! Text and byte encodings of numbers, used in replies and seeds.
use vstd::arithmetic::power::{lemma_pow1, lemma_pow_adds, pow};
use vstd::prelude::*;

verus! {

/// The character of a decimal digit.
pub open spec fn digit_char(d: nat) -> char {
    (('0' as nat) + d) as char
}

/// The decimal notation of `n`, without leading zeros.
pub open spec fn decimal(n: nat) -> Seq<char>
    decreases n,
{
    if n < 10 {
        seq![digit_char(n)]
    } else {
        decimal(n / 10).push(digit_char(n % 10))
    }
}

fn digit_text(d: u64) -> (text: &'static str)
    requires
        d < 10,
    ensures
        text@ == seq![digit_char(d as nat)],
{
    proof {
        reveal_strlit("0");
        reveal_strlit("1");
        reveal_strlit("2");
        reveal_strlit("3");
        reveal_strlit("4");
        reveal_strlit("5");
        reveal_strlit("6");
        reveal_strlit("7");
        reveal_strlit("8");
        reveal_strlit("9");
    }
    match d {
        0 => "0",
        1 => "1",
        2 => "2",
        3 => "3",
        4 => "4",
        5 => "5",
        6 => "6",
        7 => "7",
        8 => "8",
        _ => "9",
    }
}

/// Writes `n` in decimal.
pub fn decimal_text(n: u64) -> (text: String)
    ensures
        text@ == decimal(n as nat),
    decreases n,
{
    if n < 10 {
        digit_text(n).to_owned()
    } else {
        let head = decimal_text(n / 10);
        head.concat(digit_text(n % 10))
    }
}

/// Puts `prefix` in front of the decimal notation of `n`.
pub fn numbered(prefix: &str, n: u64) -> (text: String)
    ensures
        text@ == prefix@ + decimal(n as nat),
{
    let digits = decimal_text(n);
    prefix.to_owned().concat(digits.as_str())
}

/// Joins two pieces of text.
pub fn joined(head: &str, tail: &str) -> (text: String)
    ensures
        text@ == head@ + tail@,
{
    head.to_owned().concat(tail)
}

/// The number that `bytes` stand for, most significant byte first.
pub open spec fn big_endian(bytes: Seq<u8>) -> nat
    decreases bytes.len(),
{
    if bytes.len() == 0 {
        0
    } else {
        256 * big_endian(bytes.drop_last()) + bytes.last() as nat
    }
}

fn big_endian_bytes(n: usize, width: usize) -> (bytes: Vec<u8>)
    requires
        n < pow(256, width as nat),
    ensures
        bytes@.len() == width,
        big_endian(bytes@) == n,
    decreases width,
{
    if width == 0 {
        proof {
            reveal(pow);
        }
        Vec::new()
    } else {
        proof {
            lemma_pow1(256);
            lemma_pow_adds(256, 1, (width - 1) as nat);
        }
        let mut bytes = big_endian_bytes(n / 256, width - 1);
        let ghost front = bytes@;
        bytes.push((n % 256) as u8);
        assert(bytes@.drop_last() =~= front);
        bytes
    }
}

/// Writes `n` as the bytes of a machine word, most significant byte first.
pub fn word_bytes(n: usize) -> (bytes: Vec<u8>)
    ensures
        bytes@.len() == usize::BITS / 8,
        big_endian(bytes@) == n,
{
    proof {
        assert(pow(256, 4) == 0x1_0000_0000) by {
            reveal_with_fuel(pow, 5);
        }
        assert(pow(256, 8) == 0x1_0000_0000_0000_0000) by {
            reveal_with_fuel(pow, 9);
        }
    }
    big_endian_bytes(n, (usize::BITS / 8) as usize)
}

/// A number has one notation of a given width: bytes of equal length that stand
/// for the same number are the same bytes.
pub proof fn big_endian_is_unique(a: Seq<u8>, b: Seq<u8>)
    requires
        a.len() == b.len(),
        big_endian(a) == big_endian(b),
    ensures
        a == b,
    decreases a.len(),
{
    if a.len() > 0 {
        big_endian_is_unique(a.drop_last(), b.drop_last());
        assert(a =~= a.drop_last().push(a.last()));
        assert(b =~= b.drop_last().push(b.last()));
    } else {
        assert(a =~= b);
    }
}

/// The decimal notation ends in the digit of the units, and what stands before
/// it is the notation of the tens; a number below ten is its one digit.
pub proof fn decimal_is_written_digit_by_digit(n: nat)
    ensures
        decimal(n).len() > 0,
        decimal(n).last() == "0123456789"@[(n % 10) as int],
        n < 10 ==> decimal(n).len() == 1,
        n >= 10 ==> decimal(n).drop_last() == decimal(n / 10),
{
    reveal_strlit("0123456789");
    if n >= 10 {
        assert(decimal(n).drop_last() =~= decimal(n / 10));
    }
}

/// Different numbers are written differently, and no number above zero is
/// written with a zero in front.
pub proof fn decimal_is_unique(m: nat, n: nat)
    ensures
        decimal(m) == decimal(n) ==> m == n,
        m > 0 ==> decimal(m)[0] != '0',
    decreases m,
{
    decimal_is_written_digit_by_digit(m);
    decimal_is_written_digit_by_digit(n);
    reveal_strlit("0123456789");
    decimal_is_longer_above_ten(m);
    decimal_is_longer_above_ten(n);
    if m >= 10 {
        decimal_is_unique(m / 10, n / 10);
        assert(decimal(m)[0] == decimal(m / 10)[0]);
    }
}

proof fn decimal_is_longer_above_ten(n: nat)
    ensures
        n >= 10 ==> decimal(n).len() > 1,
{
    decimal_is_written_digit_by_digit(n);
    if n >= 10 {
        decimal_is_written_digit_by_digit(n / 10);
        assert(decimal(n).drop_last().len() > 0);
    }
}

/// Each further byte multiplies what the bytes before it stand for by 256; no
/// bytes stand for zero, and one byte stands for itself.
pub proof fn big_endian_grows_by_bytes(bytes: Seq<u8>, next: u8)
    ensures
        big_endian(Seq::<u8>::empty()) == 0,
        big_endian(seq![next]) == next,
        big_endian(bytes.push(next)) == 256 * big_endian(bytes) + next,
{
    assert(bytes.push(next).drop_last() =~= bytes);
    assert(seq![next].drop_last() =~= Seq::<u8>::empty());
    reveal_with_fuel(big_endian, 2);
}

} // verus!
