//! Decimal text rendering for the dashboard labels. Quantities arrive as
//! scaled integers (tenths); a value whose fractional digit is zero is
//! printed without it, matching how the labels have always looked.

use vstd::prelude::*;

verus! {

/// Decimal digits of a non-negative number, most significant first.
pub open spec fn dec_str(n: int) -> Seq<u8>
    recommends
        n >= 0,
    decreases n,
{
    if n < 10 {
        seq![(48 + n) as u8]
    } else {
        dec_str(n / 10).push((48 + n % 10) as u8)
    }
}

/// Decimal digits with a leading minus sign for negative numbers.
pub open spec fn int_str(i: int) -> Seq<u8> {
    if i < 0 {
        seq![45u8] + dec_str(-i)
    } else {
        dec_str(i)
    }
}

/// Rendering of a quantity held in tenths: the whole part, then `.` and
/// the tenths digit unless that digit is zero.
pub open spec fn deci_str(d: int) -> Seq<u8> {
    let m = if d < 0 { -d } else { d };
    let sign: Seq<u8> = if d < 0 { seq![45u8] } else { Seq::empty() };
    if m % 10 == 0 {
        sign + dec_str(m / 10)
    } else {
        sign + dec_str(m / 10) + seq![46u8] + dec_str(m % 10)
    }
}

/// Digits of `n`, most significant first.
pub fn u64_dec(n: u64) -> (r: Vec<u8>)
    ensures
        r@ == dec_str(n as int),
    decreases n,
{
    if n < 10 {
        let mut v: Vec<u8> = Vec::new();
        v.push(48 + n as u8);
        proof {
            assert(v@ =~= dec_str(n as int));
        }
        v
    } else {
        let mut v = u64_dec(n / 10);
        v.push(48 + (n % 10) as u8);
        v
    }
}

/// Signed decimal rendering.
pub fn i64_text(i: i64) -> (r: Vec<u8>)
    requires
        i64::MIN < i,
    ensures
        r@ == int_str(i as int),
{
    if i < 0 {
        let mut v: Vec<u8> = Vec::new();
        v.push(45);
        let mut digits = u64_dec((-i) as u64);
        v.append(&mut digits);
        proof {
            assert(v@ =~= int_str(i as int));
        }
        v
    } else {
        u64_dec(i as u64)
    }
}

/// Renders a quantity held in tenths, dropping a zero fractional digit:
/// 215 becomes `21.5`, 210 becomes `21`, -5 becomes `-0.5`.
pub fn deci_text(d: i64) -> (r: Vec<u8>)
    requires
        i64::MIN < d,
    ensures
        r@ == deci_str(d as int),
{
    let m: u64 = if d < 0 { (-d) as u64 } else { d as u64 };
    let mut v: Vec<u8> = Vec::new();
    if d < 0 {
        v.push(45);
    }
    let mut whole = u64_dec(m / 10);
    v.append(&mut whole);
    if m % 10 != 0 {
        v.push(46);
        let mut frac = u64_dec(m % 10);
        v.append(&mut frac);
    }
    proof {
        assert(v@ =~= deci_str(d as int));
    }
    v
}

/// Appends a borrowed byte string onto a growing label.
pub fn append_bytes(dst: &mut Vec<u8>, src: &[u8])
    ensures
        final(dst)@ == old(dst)@ + src@,
{
    let mut i: usize = 0;
    while i < src.len()
        invariant
            i <= src@.len(),
            dst@ == old(dst)@ + src@.subrange(0, i as int),
        decreases src@.len() - i,
    {
        let b = src[i];
        dst.push(b);
        proof {
            assert(old(dst)@ + src@.subrange(0, i as int + 1) =~= (old(dst)@ + src@.subrange(
                0,
                i as int,
            )).push(src@[i as int]));
        }
        i = i + 1;
    }
    proof {
        assert(src@.subrange(0, src@.len() as int) =~= src@);
    }
}

} // verus!
