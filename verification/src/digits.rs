//! ASCII renderings of machine integers, used by the kernel's diagnostics.

use vstd::prelude::*;

verus! {

/// Decimal digits of `n`, most significant first, as ASCII bytes.
pub open spec fn dec_rep(n: nat) -> Seq<u8>
    decreases n,
{
    if n < 10 {
        seq![(48 + n) as u8]
    } else {
        dec_rep(n / 10) + seq![(48 + n % 10) as u8]
    }
}

/// Decimal digits of `n` with a leading minus sign for negative values.
pub open spec fn dec_rep_signed(n: int) -> Seq<u8> {
    if n < 0 {
        seq![45u8] + dec_rep((-n) as nat)
    } else {
        dec_rep(n as nat)
    }
}

/// ASCII digit for one hexadecimal place: `0`-`9` then `a`-`f`.
pub open spec fn hex_digit(d: nat) -> u8 {
    if d < 10 {
        (48 + d) as u8
    } else {
        (87 + d) as u8
    }
}

/// Hexadecimal digits of `n`, most significant first, as ASCII bytes.
pub open spec fn hex_rep(n: nat) -> Seq<u8>
    decreases n,
{
    if n < 16 {
        seq![hex_digit(n)]
    } else {
        hex_rep(n / 16) + seq![hex_digit(n % 16)]
    }
}

/// `0x`-prefixed hexadecimal rendering, as the kernel prints addresses.
pub open spec fn hex_rep_prefixed(n: nat) -> Seq<u8> {
    seq![48u8, 120u8] + hex_rep(n)
}

/// Appends the decimal rendering of `n` to `out`.
pub fn push_dec(out: &mut Vec<u8>, n: usize)
    ensures
        final(out)@ == old(out)@ + dec_rep(n as nat),
    decreases n,
{
    if n < 10 {
        out.push((48 + n) as u8);
        assert(out@ =~= old(out)@ + dec_rep(n as nat));
    } else {
        proof {
            assert(n / 10 < n) by (nonlinear_arith)
                requires
                    n >= 10,
            ;
        }
        push_dec(out, n / 10);
        out.push((48 + (n % 10)) as u8);
        assert(out@ =~= old(out)@ + dec_rep(n as nat));
    }
}

/// Appends the signed decimal rendering of `v` to `out`.
pub fn push_dec_signed(out: &mut Vec<u8>, v: i32)
    ensures
        final(out)@ == old(out)@ + dec_rep_signed(v as int),
{
    if v < 0 {
        out.push(45u8);
        let magnitude: i64 = -(v as i64);
        push_dec(out, magnitude as usize);
        assert(out@ =~= old(out)@ + dec_rep_signed(v as int));
    } else {
        push_dec(out, v as usize);
    }
}

/// Appends the `0x`-prefixed hexadecimal rendering of `n` to `out`.
pub fn push_hex(out: &mut Vec<u8>, n: usize)
    ensures
        final(out)@ == old(out)@ + hex_rep_prefixed(n as nat),
{
    out.push(48u8);
    out.push(120u8);
    push_hex_digits(out, n);
    assert(out@ =~= old(out)@ + hex_rep_prefixed(n as nat));
}

/// Appends the bare hexadecimal digits of `n` to `out`.
fn push_hex_digits(out: &mut Vec<u8>, n: usize)
    ensures
        final(out)@ == old(out)@ + hex_rep(n as nat),
    decreases n,
{
    if n < 16 {
        let d = n as u8;
        if d < 10 {
            out.push(48 + d);
        } else {
            out.push(87 + d);
        }
        assert(out@ =~= old(out)@ + hex_rep(n as nat));
    } else {
        proof {
            assert(n / 16 < n) by (nonlinear_arith)
                requires
                    n >= 16,
            ;
        }
        push_hex_digits(out, n / 16);
        let d = (n % 16) as u8;
        if d < 10 {
            out.push(48 + d);
        } else {
            out.push(87 + d);
        }
        assert(out@ =~= old(out)@ + hex_rep(n as nat));
    }
}

} // verus!
