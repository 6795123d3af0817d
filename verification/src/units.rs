//! Human-readable byte sizes with one decimal, rounded as Rust's `{:.1}` rounds
//! (to the nearest tenth, ties to even).
use vstd::prelude::*;
use crate::text::{append_str, decimal, digit_char, push_char, push_decimal};

verus! {

/// `m / den` in tenths, rounded to the nearest tenth with ties to even.
pub open spec fn tenths_rounded(m: nat, den: nat) -> nat
    recommends
        den > 0,
{
    let q = (m * 10) / den;
    let r = (m * 10) % den;
    if 2 * r > den || (2 * r == den && q % 2 == 1) {
        q + 1
    } else {
        q
    }
}

/// A count of tenths written as `whole.tenth`.
pub open spec fn one_decimal(tenths: nat) -> Seq<char> {
    decimal(tenths / 10) + seq!['.', digit_char(tenths % 10)]
}

/// `m / den` with one decimal.
pub open spec fn scaled(m: nat, den: nat) -> Seq<char> {
    one_decimal(tenths_rounded(m, den))
}

pub fn push_scaled(s: &mut String, m: u64, den: u64)
    requires
        den > 0,
    ensures
        final(s)@ == old(s)@ + scaled(m as nat, den as nat),
{
    let x: u128 = (m as u128) * 10;
    let q: u128 = x / (den as u128);
    let r: u128 = x % (den as u128);
    let t: u128 = if 2 * r > den as u128 || (2 * r == den as u128 && q % 2 == 1) { q + 1 } else { q };
    assert(t == tenths_rounded(m as nat, den as nat));
    assert(t <= 10 * (m as u128) + 1) by (nonlinear_arith)
        requires
            x == (m as u128) * 10,
            q == x / (den as u128),
            den > 0,
            t <= q + 1,
    ;
    let whole: u64 = (t / 10) as u64;
    let frac: u64 = (t % 10) as u64;
    push_decimal(s, whole);
    push_char(s, '.');
    push_char(s, crate::text::digit_for(frac));
    assert(old(s)@ + decimal(whole as nat) + seq!['.'] + seq![digit_char(frac as nat)] =~= old(s)@ + scaled(
        m as nat,
        den as nat,
    ));
}


/// A byte count as `N B`, `x.y KB`, `x.y MB` or `x.y GB` (binary multiples), with `sep`
/// between number and unit.
pub open spec fn byte_size_text(size: nat, sep: Seq<char>) -> Seq<char> {
    if size < 1024 {
        decimal(size) + sep + seq!['B']
    } else if size < 1048576 {
        scaled(size, 1024) + sep + seq!['K', 'B']
    } else if size < 1073741824 {
        scaled(size, 1048576) + sep + seq!['M', 'B']
    } else {
        scaled(size, 1073741824) + sep + seq!['G', 'B']
    }
}

/// Appends the size text of `size`.
pub fn push_byte_size(s: &mut String, size: u64, sep: &str)
    ensures
        final(s)@ == old(s)@ + byte_size_text(size as nat, sep@),
{
    let ghost s0 = s@;
    if size < 1024 {
        push_decimal(s, size);
        append_str(s, sep);
        push_char(s, 'B');
        assert(s@ =~= s0 + byte_size_text(size as nat, sep@));
    } else if size < 1048576 {
        push_scaled(s, size, 1024);
        append_str(s, sep);
        push_char(s, 'K');
        push_char(s, 'B');
        assert(s@ =~= s0 + byte_size_text(size as nat, sep@));
    } else if size < 1073741824 {
        push_scaled(s, size, 1048576);
        append_str(s, sep);
        push_char(s, 'M');
        push_char(s, 'B');
        assert(s@ =~= s0 + byte_size_text(size as nat, sep@));
    } else {
        push_scaled(s, size, 1073741824);
        append_str(s, sep);
        push_char(s, 'G');
        push_char(s, 'B');
        assert(s@ =~= s0 + byte_size_text(size as nat, sep@));
    }
}

} // verus!
