//! Little-endian integers over byte sequences.
use vstd::prelude::*;
use vstd::arithmetic::div_mod::lemma_fundamental_div_mod_converse;

verus! {

/// `256` raised to the power `n`.
pub open spec fn pow256(n: nat) -> nat
    decreases n,
{
    if n == 0 {
        1
    } else {
        256 * pow256((n - 1) as nat)
    }
}

/// The unsigned value of `b` read as a little-endian integer.
pub open spec fn le_value(b: Seq<u8>) -> nat
    decreases b.len(),
{
    if b.len() == 0 {
        0
    } else {
        b[0] as nat + 256 * le_value(b.drop_first())
    }
}

/// The `n` low bytes of `v`, least significant first.
pub open spec fn le_bytes(v: nat, n: nat) -> Seq<u8>
    decreases n,
{
    if n == 0 {
        Seq::empty()
    } else {
        seq![(v % 256) as u8] + le_bytes(v / 256, (n - 1) as nat)
    }
}

/// An integer width in bytes that the format uses.
pub open spec fn valid_width(w: nat) -> bool {
    w == 1 || w == 2 || w == 4 || w == 8
}

/// Two's-complement reading of an unsigned `w`-byte value.
pub open spec fn to_signed(raw: nat, w: nat) -> int {
    if raw >= pow256(w) / 2 {
        raw - pow256(w)
    } else {
        raw as int
    }
}

/// Two's-complement writing of a signed value into `w` bytes.
pub open spec fn from_signed(v: int, w: nat) -> nat {
    if v < 0 {
        (v + pow256(w)) as nat
    } else {
        v as nat
    }
}

/// A signed value that `w` bytes can hold.
pub open spec fn signed_fits(v: int, w: nat) -> bool {
    -(pow256(w) / 2) <= v < pow256(w) / 2
}

pub proof fn lemma_pow256_values()
    ensures
        pow256(1) == 256,
        pow256(2) == 0x1_0000,
        pow256(4) == 0x1_0000_0000,
        pow256(8) == 0x1_0000_0000_0000_0000,
{
    reveal_with_fuel(pow256, 9);
}

pub proof fn lemma_pow256_monotone(a: nat, b: nat)
    requires
        a <= b,
    ensures
        pow256(a) <= pow256(b),
    decreases b,
{
    if b > a {
        lemma_pow256_monotone(a, (b - 1) as nat);
    }
}

/// A little-endian value is below `256` to the power of its length.
pub proof fn lemma_le_value_bound(b: Seq<u8>)
    ensures
        le_value(b) < pow256(b.len()),
    decreases b.len(),
{
    if b.len() > 0 {
        lemma_le_value_bound(b.drop_first());
    }
}

/// Encoding a decoded little-endian value gives the bytes back.
pub proof fn lemma_le_round_trip(b: Seq<u8>)
    ensures
        le_bytes(le_value(b), b.len()) == b,
    decreases b.len(),
{
    if b.len() > 0 {
        let rest = le_value(b.drop_first());
        lemma_fundamental_div_mod_converse(le_value(b) as int, 256, rest as int, b[0] as int);
        lemma_le_round_trip(b.drop_first());
        assert(le_bytes(le_value(b), b.len()) =~= b);
    }
}

/// Writing a signed value and reading it back gives the raw bytes' value.
pub proof fn lemma_signed_round_trip(raw: nat, w: nat)
    requires
        valid_width(w),
        raw < pow256(w),
    ensures
        from_signed(to_signed(raw, w), w) == raw,
        signed_fits(to_signed(raw, w), w),
{
    lemma_pow256_values();
}

/// Reads `n` bytes of `buf` at `off` as a little-endian unsigned integer.
pub fn read_le(buf: &Vec<u8>, off: usize, n: usize) -> (r: u64)
    requires
        n <= 8,
        off + n <= buf@.len(),
    ensures
        r as nat == le_value(buf@.subrange(off as int, off + n)),
{
    let mut acc: u64 = 0;
    let mut k: usize = n;
    let len: usize = buf.len();
    proof {
        lemma_pow256_values();
    }
    while k > 0
        invariant
            k <= n <= 8,
            off + n <= buf@.len(),
            len == buf@.len(),
            acc as nat == le_value(buf@.subrange(off + k, off + n)),
            pow256(8) == 0x1_0000_0000_0000_0000,
        decreases k,
    {
        let ghost tail = buf@.subrange(off + k, off + n);
        let ghost whole = buf@.subrange(off + k - 1, off + n);
        assert(whole.drop_first() =~= tail);
        proof {
            lemma_le_value_bound(tail);
            lemma_pow256_monotone(tail.len(), 7);
            reveal_with_fuel(pow256, 8);
        }
        let idx: usize = off + (k - 1);
        let byte: u8 = buf[idx];
        k = k - 1;
        acc = byte as u64 + 256 * acc;
    }
    assert(buf@.subrange(off + k, off + n) =~= buf@.subrange(off as int, off + n));
    acc
}

/// Appends the `n` low bytes of `v` to `out`, least significant first.
pub fn push_le(out: &mut Vec<u8>, v: u64, n: usize)
    requires
        n <= 8,
    ensures
        final(out)@ == old(out)@ + le_bytes(v as nat, n as nat),
{
    let mut x: u64 = v;
    let mut k: usize = 0;
    while k < n
        invariant
            k <= n,
            out@ + le_bytes(x as nat, (n - k) as nat) == old(out)@ + le_bytes(v as nat, n as nat),
        decreases n - k,
    {
        let ghost before = out@;
        let ghost rest = le_bytes(x as nat, (n - k) as nat);
        assert(rest == seq![(x as nat % 256) as u8] + le_bytes(x as nat / 256, (n - k - 1) as nat));
        out.push((x % 256) as u8);
        assert(out@ + le_bytes(x as nat / 256, (n - k - 1) as nat) =~= before + rest);
        x = x / 256;
        k = k + 1;
    }
    assert(le_bytes(x as nat, 0) =~= Seq::<u8>::empty());
    assert(out@ =~= out@ + le_bytes(x as nat, 0));
}

} // verus!
