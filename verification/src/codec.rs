//! Little-endian byte codec for the fixed-width record layouts.
//!
//! Every structured field of a record is either a 32-byte identifier or a
//! `u64` stored as eight little-endian bytes. The spec functions here give
//! the byte image of a `u64` and the value read back from eight bytes, and
//! the executable readers and writers are proved against them.

use vstd::prelude::*;

use crate::pubkey::Pubkey;

verus! {

/// The eight little-endian bytes of `v`, least significant first.
pub open spec fn le8(v: u64) -> Seq<u8> {
    seq![
        (v & 0xff) as u8,
        ((v >> 8) & 0xff) as u8,
        ((v >> 16) & 0xff) as u8,
        ((v >> 24) & 0xff) as u8,
        ((v >> 32) & 0xff) as u8,
        ((v >> 40) & 0xff) as u8,
        ((v >> 48) & 0xff) as u8,
        ((v >> 56) & 0xff) as u8,
    ]
}

/// The `u64` encoded by eight little-endian bytes.
pub open spec fn le8_val(s: Seq<u8>) -> u64
    recommends
        s.len() >= 8,
{
    (s[0] as u64) | ((s[1] as u64) << 8) | ((s[2] as u64) << 16) | ((s[3] as u64) << 24)
        | ((s[4] as u64) << 32) | ((s[5] as u64) << 40) | ((s[6] as u64) << 48)
        | ((s[7] as u64) << 56)
}

/// Reading back the bytes of `v` yields `v`.
pub proof fn lemma_le8_round_trip(v: u64)
    ensures
        le8_val(le8(v)) == v,
{
    assert(((v & 0xff) as u8 as u64) | ((((v >> 8) & 0xff) as u8 as u64) << 8)
        | ((((v >> 16) & 0xff) as u8 as u64) << 16) | ((((v >> 24) & 0xff) as u8 as u64) << 24)
        | ((((v >> 32) & 0xff) as u8 as u64) << 32) | ((((v >> 40) & 0xff) as u8 as u64) << 40)
        | ((((v >> 48) & 0xff) as u8 as u64) << 48) | ((((v >> 56) & 0xff) as u8 as u64) << 56)
        == v) by (bit_vector);
}

/// Appends the eight little-endian bytes of `v` to `out`.
pub fn append_u64_le(out: &mut Vec<u8>, v: u64)
    ensures
        final(out)@ == old(out)@ + le8(v),
{
    out.push((v & 0xff) as u8);
    out.push(((v >> 8) & 0xff) as u8);
    out.push(((v >> 16) & 0xff) as u8);
    out.push(((v >> 24) & 0xff) as u8);
    out.push(((v >> 32) & 0xff) as u8);
    out.push(((v >> 40) & 0xff) as u8);
    out.push(((v >> 48) & 0xff) as u8);
    out.push(((v >> 56) & 0xff) as u8);
    assert(out@ =~= old(out)@ + le8(v));
}

/// Reads the `u64` stored little-endian at `data[off .. off + 8]`.
pub fn read_u64_le(data: &[u8], off: usize) -> (v: u64)
    requires
        off + 8 <= data@.len(),
    ensures
        v == le8_val(data@.subrange(off as int, off + 8)),
{
    let n: usize = data.len();
    let ghost s = data@.subrange(off as int, off + 8);
    assert(forall|i: int| 0 <= i < 8 ==> s[i] == data@[off + i]);
    assert(off + 8 <= n);
    (data[off] as u64) | ((data[off + 1] as u64) << 8) | ((data[off + 2] as u64) << 16)
        | ((data[off + 3] as u64) << 24) | ((data[off + 4] as u64) << 32)
        | ((data[off + 5] as u64) << 40) | ((data[off + 6] as u64) << 48)
        | ((data[off + 7] as u64) << 56)
}

/// Appends the 32 bytes of identifier `k` to `out`.
pub fn append_key(out: &mut Vec<u8>, k: &Pubkey)
    ensures
        final(out)@ == old(out)@ + k@,
{
    let mut i: usize = 0;
    while i < 32
        invariant
            i <= 32,
            out@ == old(out)@ + k@.take(i as int),
        decreases 32 - i,
    {
        out.push(k.bytes[i]);
        assert(out@ =~= old(out)@ + k@.take(i + 1));
        i += 1;
    }
    assert(k@.take(32) =~= k@);
}

/// Reads the 32-byte identifier stored at `data[off .. off + 32]`.
pub fn read_key(data: &[u8], off: usize) -> (k: Pubkey)
    requires
        off + 32 <= data@.len(),
    ensures
        k@ == data@.subrange(off as int, off + 32),
{
    let n: usize = data.len();
    let mut bytes: [u8; 32] = [0u8; 32];
    let mut i: usize = 0;
    while i < 32
        invariant
            i <= 32,
            off + 32 <= n == data@.len(),
            forall|j: int| 0 <= j < i ==> bytes@[j] == data@[off + j],
        decreases 32 - i,
    {
        bytes[i] = data[off + i];
        i += 1;
    }
    let k = Pubkey { bytes };
    assert(k@ =~= data@.subrange(off as int, off + 32));
    k
}

/// Appends `src[from ..]` to `out`.
pub fn append_tail(out: &mut Vec<u8>, src: &[u8], from: usize)
    requires
        from <= src@.len(),
    ensures
        final(out)@ == old(out)@ + src@.skip(from as int),
{
    let n: usize = src.len();
    let mut i: usize = from;
    while i < n
        invariant
            from <= i <= n == src@.len(),
            out@ == old(out)@ + src@.subrange(from as int, i as int),
        decreases n - i,
    {
        out.push(src[i]);
        assert(out@ =~= old(out)@ + src@.subrange(from as int, i + 1));
        i += 1;
    }
    assert(src@.subrange(from as int, n as int) =~= src@.skip(from as int));
}

} // verus!
