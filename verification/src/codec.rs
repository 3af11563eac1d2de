//! Little-endian integer fields inside fixed-layout account records.
//!
//! The pool record and the instruction payloads are packed byte strings with
//! documented field offsets. The readers and writers here are bounds-checked
//! and proved inverse to one another, replacing any address-cast view of the
//! raw bytes.

use vstd::prelude::*;

verus! {

/// `256^n`, the number of values an `n`-byte field can hold.
pub open spec fn pow256(n: nat) -> int
    decreases n,
{
    if n == 0 {
        1
    } else {
        256 * pow256((n - 1) as nat)
    }
}

/// The unsigned integer a little-endian byte string denotes.
pub open spec fn le_bytes_to_int(s: Seq<u8>) -> int
    decreases s.len(),
{
    if s.len() == 0 {
        0
    } else {
        s[0] + 256 * le_bytes_to_int(s.drop_first())
    }
}

/// The `n`-byte little-endian byte string denoting `v`.
pub open spec fn int_to_le_bytes(v: int, n: nat) -> Seq<u8>
    decreases n,
{
    if n == 0 {
        Seq::empty()
    } else {
        seq![(v % 256) as u8] + int_to_le_bytes(v / 256, (n - 1) as nat)
    }
}

/// The field widths in use and the values they bound.
pub proof fn lemma_pow256_values()
    ensures
        pow256(1) == 0x100,
        pow256(2) == 0x10000,
        pow256(4) == 0x100000000,
        pow256(7) == 0x100000000000000,
        pow256(8) == 0x10000000000000000,
{
    reveal_with_fuel(pow256, 9);
}

/// A little-endian byte string denotes a value below `256^len`.
pub proof fn lemma_le_bytes_to_int_bound(s: Seq<u8>)
    ensures
        0 <= le_bytes_to_int(s) < pow256(s.len()),
    decreases s.len(),
{
    if s.len() > 0 {
        lemma_le_bytes_to_int_bound(s.drop_first());
    }
}

/// Encoding then decoding gives back the value.
pub proof fn lemma_le_round_trip(v: int, n: nat)
    requires
        0 <= v < pow256(n),
    ensures
        le_bytes_to_int(int_to_le_bytes(v, n)) == v,
    decreases n,
{
    if n > 0 {
        let e = int_to_le_bytes(v, n);
        assert(e == seq![(v % 256) as u8] + int_to_le_bytes(v / 256, (n - 1) as nat));
        assert(e.drop_first() =~= int_to_le_bytes(v / 256, (n - 1) as nat));
        lemma_le_round_trip(v / 256, (n - 1) as nat);
    }
}

/// The encoding has exactly `n` bytes.
pub proof fn lemma_int_to_le_bytes_len(v: int, n: nat)
    ensures
        int_to_le_bytes(v, n).len() == n,
    decreases n,
{
    if n > 0 {
        lemma_int_to_le_bytes_len(v / 256, (n - 1) as nat);
    }
}

/// Decoding then encoding gives back the byte string.
pub proof fn lemma_le_bytes_round_trip(s: Seq<u8>)
    ensures
        int_to_le_bytes(le_bytes_to_int(s), s.len()) =~= s,
    decreases s.len(),
{
    if s.len() > 0 {
        let v = le_bytes_to_int(s);
        lemma_le_bytes_to_int_bound(s.drop_first());
        assert(v == s[0] + 256 * le_bytes_to_int(s.drop_first()));
        assert(v % 256 == s[0] && v / 256 == le_bytes_to_int(s.drop_first())) by {
            vstd::arithmetic::div_mod::lemma_fundamental_div_mod_converse(
                v,
                256,
                le_bytes_to_int(s.drop_first()),
                s[0] as int,
            );
        }
        lemma_le_bytes_round_trip(s.drop_first());
        lemma_int_to_le_bytes_len(le_bytes_to_int(s.drop_first()), (s.len() - 1) as nat);
        assert(int_to_le_bytes(v, s.len()) == seq![(v % 256) as u8] + int_to_le_bytes(
            v / 256,
            (s.len() - 1) as nat,
        ));
    }
}

/// Reads the `n`-byte little-endian unsigned field at `offset`.
pub fn read_le(bytes: &[u8], offset: usize, n: usize) -> (r: u64)
    requires
        n <= 8,
        offset + n <= bytes@.len(),
    ensures
        r == le_bytes_to_int(bytes@.subrange(offset as int, offset + n)),
{
    let len = bytes.len();
    let mut r: u64 = 0;
    let mut i: usize = n;
    proof {
        assert(bytes@.subrange(offset + n, offset + n) =~= Seq::<u8>::empty());
    }
    while i > 0
        invariant
            i <= n <= 8,
            offset + n <= len == bytes@.len(),
            r == le_bytes_to_int(bytes@.subrange(offset + i, offset + n)),
            r < pow256((n - i) as nat),
        decreases i,
    {
        let ghost pre = bytes@.subrange(offset + i, offset + n);
        proof {
            assert(pow256((n - i) as nat) <= pow256(7)) by {
                lemma_pow256_le((n - i) as nat, 7);
            }
            lemma_pow256_values();
        }
        i = i - 1;
        let b = bytes[offset + i];
        proof {
            let cur = bytes@.subrange(offset + i, offset + n);
            assert(cur[0] == bytes@[offset + i]);
            assert(cur.drop_first() =~= pre);
            assert(le_bytes_to_int(cur) == b + 256 * le_bytes_to_int(pre));
        }
        r = r * 256 + (b as u64);
    }
    proof {
        assert(bytes@.subrange(offset as int, offset + n) =~= bytes@.subrange(
            offset + 0,
            offset + n,
        ));
    }
    r
}

/// `pow256` is monotone in its exponent.
proof fn lemma_pow256_le(a: nat, b: nat)
    requires
        a <= b,
    ensures
        pow256(a) <= pow256(b),
    decreases b,
{
    if a < b {
        lemma_pow256_le(a, (b - 1) as nat);
        assert(pow256(b) == 256 * pow256((b - 1) as nat));
        assert(pow256((b - 1) as nat) >= 1) by {
            lemma_pow256_le(0, (b - 1) as nat);
        }
    }
}

/// Copies a byte slice into an owned vector.
pub fn copy_bytes(b: &[u8]) -> (r: Vec<u8>)
    ensures
        r@ == b@,
{
    let len = b.len();
    let mut r: Vec<u8> = Vec::new();
    let mut i: usize = 0;
    while i < len
        invariant
            i <= len == b@.len(),
            r@ == b@.subrange(0, i as int),
        decreases len - i,
    {
        r.push(b[i]);
        proof {
            assert(r@ =~= b@.subrange(0, i + 1));
        }
        i += 1;
    }
    proof {
        assert(b@.subrange(0, len as int) =~= b@);
    }
    r
}

/// Appends a byte slice.
pub fn append_bytes(out: &mut Vec<u8>, b: &[u8])
    ensures
        final(out)@ == old(out)@ + b@,
{
    let len = b.len();
    let mut i: usize = 0;
    while i < len
        invariant
            i <= len == b@.len(),
            out@ == old(out)@ + b@.subrange(0, i as int),
        decreases len - i,
    {
        out.push(b[i]);
        proof {
            assert(out@ =~= old(out)@ + b@.subrange(0, i + 1));
        }
        i += 1;
    }
    proof {
        assert(b@.subrange(0, len as int) =~= b@);
    }
}

/// Reads the eight-byte little-endian field at `offset`.
pub fn read_u64_le(bytes: &[u8], offset: usize) -> (r: u64)
    requires
        offset + 8 <= bytes@.len(),
    ensures
        r == le_bytes_to_int(bytes@.subrange(offset as int, offset + 8)),
{
    read_le(bytes, offset, 8)
}

/// Reads the four-byte little-endian field at `offset`.
pub fn read_u32_le(bytes: &[u8], offset: usize) -> (r: u32)
    requires
        offset + 4 <= bytes@.len(),
    ensures
        r == le_bytes_to_int(bytes@.subrange(offset as int, offset + 4)),
{
    let r = read_le(bytes, offset, 4);
    proof {
        lemma_le_bytes_to_int_bound(bytes@.subrange(offset as int, offset + 4));
        lemma_pow256_values();
    }
    r as u32
}

/// Appends the `n`-byte little-endian encoding of `v` to `out`.
pub fn write_le(out: &mut Vec<u8>, v: u64, n: usize)
    requires
        n <= 8,
        v < pow256(n as nat),
    ensures
        final(out)@ == old(out)@ + int_to_le_bytes(v as int, n as nat),
{
    let mut x: u64 = v;
    let mut i: usize = 0;
    while i < n
        invariant
            i <= n <= 8,
            out@ == old(out)@ + int_to_le_bytes(v as int, i as nat),
            x == le_div_pow(v as int, i as nat),
            int_to_le_bytes(v as int, n as nat) == int_to_le_bytes(v as int, i as nat)
                + int_to_le_bytes(x as int, (n - i) as nat),
        decreases n - i,
    {
        let b: u8 = (x % 256) as u8;
        proof {
            lemma_int_to_le_bytes_len(v as int, i as nat);
            assert(int_to_le_bytes(x as int, (n - i) as nat) == seq![(x as int % 256) as u8]
                + int_to_le_bytes(x as int / 256, (n - i - 1) as nat));
            assert(int_to_le_bytes(v as int, (i + 1) as nat) =~= int_to_le_bytes(v as int, i as nat)
                + seq![(x as int % 256) as u8]) by {
                lemma_take_one_more(v as int, i as nat, (i + 1) as nat);
            }
            assert(int_to_le_bytes(v as int, n as nat) =~= int_to_le_bytes(
                v as int,
                (i + 1) as nat,
            ) + int_to_le_bytes(x as int / 256, (n - i - 1) as nat));
        }
        out.push(b);
        x = x / 256;
        i = i + 1;
    }
    proof {
        lemma_int_to_le_bytes_len(x as int, (n - i) as nat);
        assert(int_to_le_bytes(x as int, (n - i) as nat) =~= Seq::<u8>::empty());
        assert(out@ =~= old(out)@ + int_to_le_bytes(v as int, n as nat));
    }
}

/// `v` integer-divided by `256^i`.
pub open spec fn le_div_pow(v: int, i: nat) -> int
    decreases i,
{
    if i == 0 {
        v
    } else {
        le_div_pow(v, (i - 1) as nat) / 256
    }
}

/// Extending an encoding by one byte appends the next base-256 digit.
proof fn lemma_take_one_more(v: int, i: nat, j: nat)
    requires
        j == i + 1,
    ensures
        int_to_le_bytes(v, j) =~= int_to_le_bytes(v, i) + seq![(le_div_pow(v, i) % 256) as u8],
    decreases i,
{
    if i == 0 {
        assert(int_to_le_bytes(v, 1) == seq![(v % 256) as u8] + int_to_le_bytes(v / 256, 0));
    } else {
        lemma_take_one_more(v / 256, (i - 1) as nat, i);
        assert(le_div_pow(v, i) == le_div_pow(v / 256, (i - 1) as nat)) by {
            lemma_le_div_pow_shift(v, i);
        }
        assert(int_to_le_bytes(v, j) == seq![(v % 256) as u8] + int_to_le_bytes(
            v / 256,
            (j - 1) as nat,
        ));
        assert(int_to_le_bytes(v, i) == seq![(v % 256) as u8] + int_to_le_bytes(
            v / 256,
            (i - 1) as nat,
        ));
    }
}

/// Dividing first by 256 commutes with `le_div_pow`.
proof fn lemma_le_div_pow_shift(v: int, i: nat)
    requires
        i >= 1,
    ensures
        le_div_pow(v, i) == le_div_pow(v / 256, (i - 1) as nat),
    decreases i,
{
    reveal_with_fuel(le_div_pow, 3);
    if i > 1 {
        lemma_le_div_pow_shift(v, (i - 1) as nat);
    }
}

/// Appends the eight-byte little-endian encoding of `v` to `out`.
pub fn write_u64_le(out: &mut Vec<u8>, v: u64)
    ensures
        final(out)@ == old(out)@ + int_to_le_bytes(v as int, 8),
{
    proof {
        lemma_pow256_values();
    }
    write_le(out, v, 8)
}

} // verus!
