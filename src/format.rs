//! Text formatting of byte counts, fixed-point percentages and durations.
use vstd::prelude::*;

verus! {

pub const KB: u64 = 1024;

pub const MB: u64 = KB * 1024;

pub const GB: u64 = MB * 1024;

/// The character of a decimal digit.
pub open spec fn digit_char(d: nat) -> char {
    seq!['0', '1', '2', '3', '4', '5', '6', '7', '8', '9'][d as int]
}

/// Decimal notation of `n`, without leading zeros ("0" for zero).
pub open spec fn decimal(n: nat) -> Seq<char>
    decreases n,
{
    if n < 10 {
        seq![digit_char(n)]
    } else {
        decimal(n / 10).push(digit_char(n % 10))
    }
}

/// `num / den` rounded to the nearest integer, ties to the even neighbour.
pub open spec fn round_half_even(num: nat, den: nat) -> nat {
    let q = num / den;
    let r = num % den;
    if 2 * r > den || (2 * r == den && q % 2 == 1) {
        q + 1
    } else {
        q
    }
}

/// A count of hundredths written with two decimals: `1234` is "12.34".
pub open spec fn hundredths_text(h: nat) -> Seq<char> {
    decimal(h / 100) + seq!['.', digit_char((h % 100) / 10), digit_char(h % 10)]
}

/// `bytes / 2^shift` with two decimals, rounded to the nearest hundredth.
pub open spec fn scaled_text(bytes: nat, shift: nat) -> Seq<char> {
    hundredths_text(round_half_even(bytes * 100, vstd::arithmetic::power2::pow2(shift)))
}

/// Byte count on the 1024-based scale B / KB / MB / GB.
pub open spec fn bytes_text(bytes: nat) -> Seq<char> {
    if bytes >= GB {
        scaled_text(bytes, 30) + seq![' ', 'G', 'B']
    } else if bytes >= MB {
        scaled_text(bytes, 20) + seq![' ', 'M', 'B']
    } else if bytes >= KB {
        scaled_text(bytes, 10) + seq![' ', 'K', 'B']
    } else {
        decimal(bytes) + seq![' ', 'B']
    }
}

/// Whole hours and the remaining whole minutes: "1h5m".
pub open spec fn duration_text(seconds: nat) -> Seq<char> {
    decimal(seconds / 3600) + seq!['h'] + decimal((seconds % 3600) / 60) + seq!['m']
}

/// The character contents of a sequence of strings.
pub open spec fn strings_view(v: Seq<String>) -> Seq<Seq<char>> {
    v.map_values(|s: String| s@)
}

/// Strings joined with single spaces.
pub open spec fn joined(s: Seq<Seq<char>>) -> Seq<char>
    decreases s.len(),
{
    if s.len() == 0 {
        Seq::empty()
    } else if s.len() == 1 {
        s[0]
    } else {
        joined(s.drop_last()) + seq![' '] + s.last()
    }
}

/// Relies on String::push: the character is appended at the end.
#[verifier::external_body]
pub(crate) fn push_char(s: &mut String, c: char)
    ensures
        final(s)@ == old(s)@.push(c),
{
    s.push(c)
}

fn digit(d: u128) -> (c: char)
    requires
        d < 10,
    ensures
        c == digit_char(d as nat),
{
    match d {
        0 => '0',
        1 => '1',
        2 => '2',
        3 => '3',
        4 => '4',
        5 => '5',
        6 => '6',
        7 => '7',
        8 => '8',
        _ => '9',
    }
}

/// Appends the decimal notation of `n`.
pub fn push_decimal(s: &mut String, n: u128)
    ensures
        final(s)@ == old(s)@ + decimal(n as nat),
    decreases n,
{
    if n >= 10 {
        push_decimal(s, n / 10);
    }
    push_char(s, digit(n % 10));
    assert(s@ =~= old(s)@ + decimal(n as nat));
}

/// Appends a count of hundredths with two decimals ("12.34").
pub fn push_hundredths(s: &mut String, h: u128)
    ensures
        final(s)@ == old(s)@ + hundredths_text(h as nat),
{
    push_decimal(s, h / 100);
    push_char(s, '.');
    push_char(s, digit((h % 100) / 10));
    push_char(s, digit(h % 10));
    assert(final(s)@ =~= old(s)@ + hundredths_text(h as nat));
}

/// `num / den` rounded to the nearest integer, ties to even.
fn div_round_half_even(num: u128, den: u128) -> (r: u128)
    requires
        den > 0,
        num < 0x1_0000_0000_0000_0000_0000_0000_0000_0000 - 1,
    ensures
        r == round_half_even(num as nat, den as nat),
{
    let q = num / den;
    let rem = num % den;
    assert(q <= num) by (nonlinear_arith)
        requires
            den > 0,
            q == num / den,
    ;
    if rem > den - rem || (rem == den - rem && q % 2 == 1) {
        q + 1
    } else {
        q
    }
}

/// Appends `bytes / 2^shift` rounded to two decimals.
fn push_scaled(s: &mut String, bytes: u64, shift: u32)
    requires
        shift == 10 || shift == 20 || shift == 30,
    ensures
        final(s)@ == old(s)@ + scaled_text(bytes as nat, shift as nat),
{
    let den: u128 = if shift == 10 {
        1024
    } else if shift == 20 {
        1024 * 1024
    } else {
        1024 * 1024 * 1024
    };
    proof {
        vstd::arithmetic::power2::lemma2_to64();
    }
    let h = div_round_half_even(bytes as u128 * 100, den);
    push_hundredths(s, h);
}

/// Formats a byte count on the 1024-based scale with two decimals above bytes:
/// `1023` is "1023 B", `1024` is "1.00 KB", `3 * 1024 * 1024` is "3.00 MB".
pub fn format_bytes(bytes: u64) -> (r: String)
    ensures
        r@ == bytes_text(bytes as nat),
{
    let mut s = String::new();
    if bytes >= GB {
        push_scaled(&mut s, bytes, 30);
        push_char(&mut s, ' ');
        push_char(&mut s, 'G');
    } else if bytes >= MB {
        push_scaled(&mut s, bytes, 20);
        push_char(&mut s, ' ');
        push_char(&mut s, 'M');
    } else if bytes >= KB {
        push_scaled(&mut s, bytes, 10);
        push_char(&mut s, ' ');
        push_char(&mut s, 'K');
    } else {
        push_decimal(&mut s, bytes as u128);
        push_char(&mut s, ' ');
    }
    push_char(&mut s, 'B');
    assert(s@ =~= bytes_text(bytes as nat));
    s
}

/// Formats a duration in seconds as whole hours and minutes ("2h5m").
pub fn format_duration(seconds: u64) -> (r: String)
    ensures
        r@ == duration_text(seconds as nat),
{
    let mut s = String::new();
    push_decimal(&mut s, (seconds / 3600) as u128);
    push_char(&mut s, 'h');
    push_decimal(&mut s, ((seconds % 3600) / 60) as u128);
    push_char(&mut s, 'm');
    assert(s@ =~= duration_text(seconds as nat));
    s
}

/// Joins strings with single spaces.
pub fn join_spaced(v: &Vec<String>) -> (r: String)
    ensures
        r@ == joined(strings_view(v@)),
{
    let mut s = String::new();
    let mut i: usize = 0;
    while i < v.len()
        invariant
            i <= v.len(),
            s@ == joined(strings_view(v@.take(i as int))),
        decreases v.len() - i,
    {
        if i > 0 {
            push_char(&mut s, ' ');
        }
        s.append(v[i].as_str());
        proof {
            let t = strings_view(v@.take(i + 1));
            assert(t.drop_last() =~= strings_view(v@.take(i as int)));
            assert(t.last() == v@[i as int]@);
            assert(s@ =~= joined(t));
        }
        i = i + 1;
    }
    assert(v@.take(v.len() as int) =~= v@);
    s
}

} // verus!
