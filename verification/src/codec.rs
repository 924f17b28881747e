//! Binary codec primitives.
//!
//! Device register images are sequences of big-endian 32-bit quadlets.  The
//! spec functions here define what a quadlet holds at a byte position of an
//! image; the executable functions read and write single quadlets of a byte
//! buffer, and the writers promise exactly which bytes they touch and what a
//! read of the rewritten quadlet yields.

use vstd::prelude::*;

verus! {

/// The big-endian 32-bit value held at byte position `pos` of `s`.
pub open spec fn quadlet_at(s: Seq<u8>, pos: int) -> u32 {
    ((s[pos] as u32) << 24) | ((s[pos + 1] as u32) << 16) | ((s[pos + 2] as u32) << 8) | (s[pos
        + 3] as u32)
}

/// A boolean flag occupies a full quadlet: zero is false, nonzero is true.
pub open spec fn bool_at(s: Seq<u8>, pos: int) -> bool {
    quadlet_at(s, pos) != 0
}

/// The canonical encoding of a boolean flag quadlet.
pub open spec fn bool_to_quadlet(b: bool) -> u32 {
    if b {
        1u32
    } else {
        0u32
    }
}

/// The signed 32-bit value held at byte position `pos` of `s`.
pub open spec fn i32_at(s: Seq<u8>, pos: int) -> i32 {
    quadlet_at(s, pos) as i32
}

/// Casting a signed quadlet value to its unsigned bit pattern and back is
/// the identity.
pub proof fn lemma_i32_cast_roundtrip(val: i32)
    ensures
        ((val as u32) as i32) == val,
{
    assert(((val as u32) as i32) == val) by (bit_vector);
}

/// Read the big-endian quadlet at byte position `pos`.
pub fn read_quadlet(raw: &Vec<u8>, pos: usize) -> (r: u32)
    requires
        pos + 4 <= raw@.len(),
    ensures
        r == quadlet_at(raw@, pos as int),
{
    let n: usize = raw.len();
    let b0 = raw[pos];
    let b1 = raw[pos + 1];
    let b2 = raw[pos + 2];
    let b3 = raw[pos + 3];
    ((b0 as u32) << 24) | ((b1 as u32) << 16) | ((b2 as u32) << 8) | (b3 as u32)
}

/// Write `val` as a big-endian quadlet at byte position `pos`: only the four
/// bytes of that quadlet change, and they read back as `val`.
pub fn write_quadlet(raw: &mut Vec<u8>, pos: usize, val: u32)
    requires
        pos + 4 <= old(raw)@.len(),
    ensures
        final(raw)@.len() == old(raw)@.len(),
        forall|i: int|
            0 <= i < old(raw)@.len() && !(pos <= i < pos + 4) ==> final(raw)@[i] == old(raw)@[i],
        quadlet_at(final(raw)@, pos as int) == val,
{
    proof {
        assert(((val >> 24) & 0xff) < 256 && ((val >> 16) & 0xff) < 256 && ((val >> 8) & 0xff)
            < 256 && (val & 0xff) < 256) by (bit_vector);
    }
    let n: usize = raw.len();
    let b0 = ((val >> 24) & 0xff) as u8;
    let b1 = ((val >> 16) & 0xff) as u8;
    let b2 = ((val >> 8) & 0xff) as u8;
    let b3 = (val & 0xff) as u8;
    raw.set(pos, b0);
    raw.set(pos + 1, b1);
    raw.set(pos + 2, b2);
    raw.set(pos + 3, b3);
    proof {
        assert(((b0 as u32) << 24) | ((b1 as u32) << 16) | ((b2 as u32) << 8) | (b3 as u32)
            == val) by (bit_vector)
            requires
                b0 == ((val >> 24) & 0xff) as u8,
                b1 == ((val >> 16) & 0xff) as u8,
                b2 == ((val >> 8) & 0xff) as u8,
                b3 == (val & 0xff) as u8,
        ;
    }
}

/// A quadlet value determines its four bytes: two images whose quadlets
/// at `pos` read equal are byte-identical there.
pub proof fn lemma_quadlet_bytes_equal(s1: Seq<u8>, s2: Seq<u8>, pos: int)
    requires
        quadlet_at(s1, pos) == quadlet_at(s2, pos),
    ensures
        forall|i: int| pos <= i < pos + 4 ==> s1[i] == s2[i],
{
    let a0 = s1[pos];
    let a1 = s1[pos + 1];
    let a2 = s1[pos + 2];
    let a3 = s1[pos + 3];
    let b0 = s2[pos];
    let b1 = s2[pos + 1];
    let b2 = s2[pos + 2];
    let b3 = s2[pos + 3];
    assert(a0 == b0 && a1 == b1 && a2 == b2 && a3 == b3) by (bit_vector)
        requires
            ((a0 as u32) << 24) | ((a1 as u32) << 16) | ((a2 as u32) << 8) | (a3 as u32) == ((
            b0 as u32) << 24) | ((b1 as u32) << 16) | ((b2 as u32) << 8) | (b3 as u32),
    ;
    assert forall|i: int| pos <= i < pos + 4 implies s1[i] == s2[i] by {
        if i == pos {
            assert(s1[i] == a0 && s2[i] == b0);
        } else if i == pos + 1 {
            assert(s1[i] == a1 && s2[i] == b1);
        } else if i == pos + 2 {
            assert(s1[i] == a2 && s2[i] == b2);
        } else {
            assert(s1[i] == a3 && s2[i] == b3);
        }
    }
}

/// The big-endian 16-bit value held at byte position `pos` of `s`.
pub open spec fn u16_at(s: Seq<u8>, pos: int) -> u16 {
    ((s[pos] as u16) << 8) | (s[pos + 1] as u16)
}

/// The signed big-endian 16-bit value held at byte position `pos` of `s`.
pub open spec fn i16_at(s: Seq<u8>, pos: int) -> i16 {
    u16_at(s, pos) as i16
}

/// Casting a signed 16-bit value to its unsigned bit pattern and back is
/// the identity.
pub proof fn lemma_i16_cast_roundtrip(val: i16)
    ensures
        ((val as u16) as i16) == val,
{
    assert(((val as u16) as i16) == val) by (bit_vector);
}

/// Read the signed big-endian 16-bit value at byte position `pos`.
pub fn read_i16_be(raw: &Vec<u8>, pos: usize) -> (r: i16)
    requires
        pos + 2 <= raw@.len(),
    ensures
        r == i16_at(raw@, pos as int),
{
    let n: usize = raw.len();
    let b0 = raw[pos];
    let b1 = raw[pos + 1];
    (((b0 as u16) << 8) | (b1 as u16)) as i16
}

/// Append the big-endian encoding of a signed 16-bit value: two bytes grow
/// the buffer and read back as the value.
pub fn push_i16_be(raw: &mut Vec<u8>, val: i16)
    ensures
        final(raw)@.len() == old(raw)@.len() + 2,
        forall|i: int| 0 <= i < old(raw)@.len() ==> final(raw)@[i] == old(raw)@[i],
        i16_at(final(raw)@, old(raw)@.len() as int) == val,
{
    let u = val as u16;
    proof {
        assert(((u >> 8) & 0xff) < 256 && (u & 0xff) < 256) by (bit_vector);
    }
    let b0 = ((u >> 8) & 0xff) as u8;
    let b1 = (u & 0xff) as u8;
    raw.push(b0);
    raw.push(b1);
    proof {
        assert(((b0 as u16) << 8) | (b1 as u16) == u) by (bit_vector)
            requires
                b0 == ((u >> 8) & 0xff) as u8,
                b1 == (u & 0xff) as u8,
        ;
        lemma_i16_cast_roundtrip(val);
    }
}

/// A fresh all-zero buffer of `n` bytes, the scratch a segment write is
/// built into.
pub fn zeroed_vec(n: usize) -> (r: Vec<u8>)
    ensures
        r@.len() == n,
        forall|i: int| 0 <= i < n ==> r@[i] == 0u8,
{
    let mut v: Vec<u8> = Vec::new();
    let mut k: usize = 0;
    while k < n
        invariant
            0 <= k <= n,
            v@.len() == k,
            forall|i: int| 0 <= i < k ==> v@[i] == 0u8,
        decreases n - k,
    {
        v.push(0);
        k = k + 1;
    }
    v
}

/// Read the flag quadlet at `pos`: any nonzero quadlet counts as true.
pub fn read_bool_quadlet(raw: &Vec<u8>, pos: usize) -> (r: bool)
    requires
        pos + 4 <= raw@.len(),
    ensures
        r == bool_at(raw@, pos as int),
{
    read_quadlet(raw, pos) != 0
}

/// Write the canonical encoding of flag `b` at `pos`: only that quadlet
/// changes, and it reads back as `b`.
pub fn write_bool_quadlet(raw: &mut Vec<u8>, pos: usize, b: bool)
    requires
        pos + 4 <= old(raw)@.len(),
    ensures
        final(raw)@.len() == old(raw)@.len(),
        forall|i: int|
            0 <= i < old(raw)@.len() && !(pos <= i < pos + 4) ==> final(raw)@[i] == old(raw)@[i],
        quadlet_at(final(raw)@, pos as int) == bool_to_quadlet(b),
        bool_at(final(raw)@, pos as int) == b,
{
    write_quadlet(raw, pos, if b { 1 } else { 0 });
}

/// Read the signed quadlet at `pos`.
pub fn read_i32_quadlet(raw: &Vec<u8>, pos: usize) -> (r: i32)
    requires
        pos + 4 <= raw@.len(),
    ensures
        r == i32_at(raw@, pos as int),
{
    read_quadlet(raw, pos) as i32
}

/// Write the signed quadlets of `vals` consecutively starting at `pos`:
/// value `k` lands at `pos + 4 * k`, no byte outside the block changes, and
/// each value reads back unchanged.
pub fn i32_block_build(vals: &Vec<i32>, raw: &mut Vec<u8>, pos: usize)
    requires
        pos + vals@.len() * 4 <= old(raw)@.len(),
    ensures
        final(raw)@.len() == old(raw)@.len(),
        forall|i: int|
            0 <= i < old(raw)@.len() && !(pos <= i < pos + vals@.len() * 4) ==> final(raw)@[i]
                == old(raw)@[i],
        forall|k: int| 0 <= k < vals@.len() ==> i32_at(final(raw)@, pos + 4 * k) == vals@[k],
{
    let n: usize = raw.len();
    let count: usize = vals.len();
    let mut k: usize = 0;
    while k < count
        invariant
            n == old(raw)@.len(),
            count == vals@.len(),
            0 <= k <= count,
            pos + count * 4 <= raw@.len(),
            raw@.len() == old(raw)@.len(),
            forall|i: int|
                0 <= i < old(raw)@.len() && !(pos <= i < pos + k * 4) ==> raw@[i] == old(raw)@[i],
            forall|j: int| 0 <= j < k ==> i32_at(raw@, pos + 4 * j) == vals@[j],
        decreases count - k,
    {
        write_i32_quadlet(raw, pos + 4 * k, vals[k]);
        k = k + 1;
    }
}

/// Read `count` consecutive signed quadlets starting at `pos` into `vals`,
/// replacing its contents; value `k` comes from `pos + 4 * k`.
pub fn i32_block_parse(vals: &mut Vec<i32>, raw: &Vec<u8>, pos: usize, count: usize)
    requires
        pos + count * 4 <= raw@.len(),
    ensures
        final(vals)@.len() == count,
        forall|k: int| 0 <= k < count ==> final(vals)@[k] == i32_at(raw@, pos + 4 * k),
{
    let n: usize = raw.len();
    vals.clear();
    let mut k: usize = 0;
    while k < count
        invariant
            n == raw@.len(),
            pos + count * 4 <= raw@.len(),
            0 <= k <= count,
            vals@.len() == k,
            forall|j: int| 0 <= j < k ==> vals@[j] == i32_at(raw@, pos + 4 * j),
        decreases count - k,
    {
        vals.push(read_i32_quadlet(raw, pos + 4 * k));
        k = k + 1;
    }
}

/// Write `val` as a big-endian signed quadlet at `pos`: only that quadlet
/// changes, and it reads back as `val`.
pub fn write_i32_quadlet(raw: &mut Vec<u8>, pos: usize, val: i32)
    requires
        pos + 4 <= old(raw)@.len(),
    ensures
        final(raw)@.len() == old(raw)@.len(),
        forall|i: int|
            0 <= i < old(raw)@.len() && !(pos <= i < pos + 4) ==> final(raw)@[i] == old(raw)@[i],
        quadlet_at(final(raw)@, pos as int) == val as u32,
        i32_at(final(raw)@, pos as int) == val,
{
    write_quadlet(raw, pos, val as u32);
    proof {
        lemma_i32_cast_roundtrip(val);
    }
}

} // verus!
