use vstd::prelude::*;
use vstd::string::StringSliceAdditionalSpecFns;

verus! {

/// The bytes of a string.
pub open spec fn lit(s: &str) -> Seq<u8> {
    s.spec_bytes()
}

/// The lowercase hexadecimal digit for `d < 16`.
pub open spec fn hex_digit(d: nat) -> u8 {
    if d < 10 {
        (48 + d) as u8
    } else {
        (87 + d) as u8
    }
}

/// `v` in lowercase hexadecimal, without leading zeros.
pub open spec fn hex(v: nat) -> Seq<u8>
    decreases v,
{
    if v < 16 {
        seq![hex_digit(v)]
    } else {
        hex(v / 16).push(hex_digit(v % 16))
    }
}

/// `v` in decimal, without leading zeros.
pub open spec fn dec(v: nat) -> Seq<u8>
    decreases v,
{
    if v < 10 {
        seq![(48 + v) as u8]
    } else {
        dec(v / 10).push((48 + v % 10) as u8)
    }
}

/// `s` padded with leading `0`s to sixteen bytes.
pub open spec fn zpad16(s: Seq<u8>) -> Seq<u8> {
    if s.len() >= 16 {
        s
    } else {
        Seq::new((16 - s.len()) as nat, |i: int| 48u8) + s
    }
}

pub fn put_str(out: &mut Vec<u8>, s: &str)
    ensures
        final(out)@ == old(out)@ + lit(s),
{
    let b = s.as_bytes();
    out.extend_from_slice(b);
    assert(final(out)@ =~= old(out)@ + lit(s));
}

pub fn hex_digit_byte(d: u64) -> (r: u8)
    requires
        d < 16,
    ensures
        r == hex_digit(d as nat),
{
    if d < 10 {
        (48 + d) as u8
    } else {
        (87 + d) as u8
    }
}

pub fn put_hex(out: &mut Vec<u8>, v: u64)
    ensures
        final(out)@ == old(out)@ + hex(v as nat),
    decreases v,
{
    if v < 16 {
        out.push(hex_digit_byte(v));
        assert(final(out)@ =~= old(out)@ + hex(v as nat));
    } else {
        put_hex(out, v / 16);
        out.push(hex_digit_byte(v % 16));
        assert(final(out)@ =~= old(out)@ + hex(v as nat));
    }
}

pub fn put_dec(out: &mut Vec<u8>, v: u64)
    ensures
        final(out)@ == old(out)@ + dec(v as nat),
    decreases v,
{
    if v < 10 {
        out.push((48 + v) as u8);
        assert(final(out)@ =~= old(out)@ + dec(v as nat));
    } else {
        put_dec(out, v / 10);
        out.push((48 + v % 10) as u8);
        assert(final(out)@ =~= old(out)@ + dec(v as nat));
    }
}

/// Sixteen to the power `k`.
pub open spec fn p16(k: nat) -> nat
    decreases k,
{
    if k == 0 {
        1
    } else {
        16 * p16((k - 1) as nat)
    }
}

pub proof fn lemma_hex_len(v: nat, k: nat)
    requires
        1 <= k,
        v < p16(k),
    ensures
        1 <= hex(v).len() <= k,
    decreases k,
{
    if v >= 16 {
        if k == 1 {
            assert(p16(1) == 16) by {
                reveal_with_fuel(p16, 2);
            }
        } else {
            let b = p16((k - 1) as nat);
            assert(v / 16 < b) by (nonlinear_arith)
                requires
                    v < 16 * b,
            ;
            lemma_hex_len(v / 16, (k - 1) as nat);
        }
    }
}

pub fn put_hex16(out: &mut Vec<u8>, v: u64)
    ensures
        final(out)@ == old(out)@ + zpad16(hex(v as nat)),
{
    let mut h: Vec<u8> = Vec::new();
    put_hex(&mut h, v);
    proof {
        assert(p16(16) == 0x1_0000_0000_0000_0000) by {
            reveal_with_fuel(p16, 17);
        }
        lemma_hex_len(v as nat, 16);
        assert(h@ =~= hex(v as nat));
    }
    let mut k: usize = h.len();
    let ghost o0 = out@;
    while k < 16
        invariant
            h@ == hex(v as nat),
            h@.len() <= k <= 16,
            out@ == o0 + Seq::new((k - h@.len()) as nat, |i: int| 48u8),
        decreases 16 - k,
    {
        out.push(48u8);
        assert(out@ =~= o0 + Seq::new((k + 1 - h@.len()) as nat, |i: int| 48u8));
        k = k + 1;
    }
    out.extend_from_slice(h.as_slice());
    assert(out@ =~= o0 + zpad16(hex(v as nat)));
}

/// `v` in decimal with a leading `-` when negative.
pub open spec fn sdec(v: int) -> Seq<u8> {
    if v < 0 {
        seq![45u8] + dec((-v) as nat)
    } else {
        dec(v as nat)
    }
}

/// `v` in hexadecimal with the `0x` prefix.
pub open spec fn hex0x(v: nat) -> Seq<u8> {
    seq![48u8, 120u8] + hex(v)
}

/// `s` padded with leading `0`s to `w` bytes.
pub open spec fn zpad(w: nat, s: Seq<u8>) -> Seq<u8> {
    if s.len() >= w {
        s
    } else {
        Seq::new((w - s.len()) as nat, |i: int| 48u8) + s
    }
}

pub fn put_sdec(out: &mut Vec<u8>, v: i64)
    ensures
        final(out)@ == old(out)@ + sdec(v as int),
{
    if v < 0 {
        out.push(45u8);
        let m: u64 = (0i128 - (v as i128)) as u64;
        put_dec(out, m);
        assert(final(out)@ =~= old(out)@ + sdec(v as int));
    } else {
        put_dec(out, v as u64);
    }
}

pub fn put_hex0x(out: &mut Vec<u8>, v: u64)
    ensures
        final(out)@ == old(out)@ + hex0x(v as nat),
{
    out.push(48u8);
    out.push(120u8);
    put_hex(out, v);
    assert(final(out)@ =~= old(out)@ + hex0x(v as nat));
}

/// Writes `0x` and then `v` in hexadecimal with at least `w` digits.
pub fn put_hex0x_pad(out: &mut Vec<u8>, v: u64, w: usize)
    ensures
        final(out)@ == old(out)@ + seq![48u8, 120u8] + zpad(w as nat, hex(v as nat)),
{
    let mut h: Vec<u8> = Vec::new();
    put_hex(&mut h, v);
    assert(h@ =~= hex(v as nat));
    out.push(48u8);
    out.push(120u8);
    let ghost o0 = out@;
    let mut k: usize = h.len();
    while k < w
        invariant
            h@ == hex(v as nat),
            h@.len() <= k,
            k <= w || k == h@.len(),
            out@ == o0 + Seq::new((k - h@.len()) as nat, |i: int| 48u8),
        decreases w - k,
    {
        out.push(48u8);
        assert(out@ =~= o0 + Seq::new((k + 1 - h@.len()) as nat, |i: int| 48u8));
        k = k + 1;
    }
    out.extend_from_slice(h.as_slice());
    assert(out@ =~= old(out)@ + seq![48u8, 120u8] + zpad(w as nat, hex(v as nat)));
}

} // verus!
