//! Byte buffers handed across the enclave boundary: what a copy into a
//! buffer leaves there, what a read of a prefix gives back, and which region
//! is handed to C for a possibly empty slice.
use vstd::prelude::*;

verus! {

/// What a buffer holds after `src` was copied over its first `src.len()`
/// bytes.
pub open spec fn overwrite_prefix(dst: Seq<u8>, src: Seq<u8>) -> Seq<u8> {
    src + dst.skip(src.len() as int)
}

/// Copies `src` over the first `src.len()` bytes of `dst` and leaves the rest
/// of `dst` as it was (a bounded `copy_nonoverlapping`).
pub fn copy_into(dst: &mut Vec<u8>, src: &[u8])
    requires
        src@.len() <= old(dst)@.len(),
    ensures
        final(dst)@ == overwrite_prefix(old(dst)@, src@),
{
    let n = src.len();
    for i in 0..n
        invariant
            n == src@.len(),
            n <= old(dst)@.len(),
            dst@.len() == old(dst)@.len(),
            forall|j: int| 0 <= j < i ==> dst@[j] == src@[j],
            forall|j: int| i <= j < dst@.len() ==> dst@[j] == old(dst)@[j],
    {
        dst.set(i, src[i]);
    }
    assert(dst@ =~= overwrite_prefix(old(dst)@, src@));
}

/// A read of a buffer's first `src.len()` bytes gives back what was copied
/// there; the copy leaves the buffer's size and the rest of it as they were.
pub proof fn lemma_read_back_written(dst: Seq<u8>, src: Seq<u8>)
    requires
        src.len() <= dst.len(),
    ensures
        overwrite_prefix(dst, src).take(src.len() as int) == src,
        overwrite_prefix(dst, src).skip(src.len() as int) == dst.skip(src.len() as int),
        overwrite_prefix(dst, src).len() == dst.len(),
{
    assert(overwrite_prefix(dst, src).take(src.len() as int) =~= src);
    assert(overwrite_prefix(dst, src).skip(src.len() as int) =~= dst.skip(src.len() as int));
}

/// A fresh vector holding the first `len` bytes of `buf`.
pub fn read_prefix(buf: &[u8], len: usize) -> (out: Vec<u8>)
    requires
        len <= buf@.len(),
    ensures
        out@ == buf@.take(len as int),
{
    let mut out: Vec<u8> = Vec::with_capacity(len);
    for i in 0..len
        invariant
            len <= buf@.len(),
            out@ == buf@.take(i as int),
    {
        out.push(buf[i]);
        assert(buf@.take(i + 1) == buf@.take(i as int).push(buf@[i as int]));
    }
    out
}

/// A buffer of `len` zero bytes.
pub fn zeroed(len: usize) -> (out: Vec<u8>)
    ensures
        out@ == Seq::new(len as nat, |i: int| 0u8),
{
    let mut out: Vec<u8> = Vec::with_capacity(len);
    for i in 0..len
        invariant
            out@ == Seq::new(i as nat, |j: int| 0u8),
    {
        out.push(0u8);
    }
    out
}

/// `bytes` followed by zeros up to `len` bytes in all.
pub open spec fn zero_padded(bytes: Seq<u8>, len: nat) -> Seq<u8> {
    bytes + Seq::new((len - bytes.len()) as nat, |i: int| 0u8)
}

/// A buffer of `len` bytes that starts with `bytes` and is zero after them.
pub fn padded(bytes: &[u8], len: usize) -> (out: Vec<u8>)
    requires
        bytes@.len() <= len,
    ensures
        out@ == zero_padded(bytes@, len as nat),
        out@.len() == len,
{
    let mut out = zeroed(len);
    copy_into(&mut out, bytes);
    assert(out@ =~= zero_padded(bytes@, len as nat));
    out
}

/// Which region's address is handed to C for a slice.
pub enum CRegion<'a, T> {
    /// The slice itself, which is not empty.
    Data(&'a [T]),
    /// A one-element static placeholder: the slice is empty, and the address
    /// of an empty Rust slice is not a valid C pointer.
    Placeholder,
}

/// Chooses the region whose address is handed to C for `data`: `data`
/// itself where it has elements, the placeholder where it is empty. A
/// region handed over as data is never empty.
pub fn c_region<'a, T>(data: &'a [T]) -> (region: CRegion<'a, T>)
    ensures
        data@.len() > 0 <==> region matches CRegion::Data(r),
        region matches CRegion::Data(r) ==> r == data && r@.len() > 0,
{
    if data.is_empty() {
        CRegion::Placeholder
    } else {
        CRegion::Data(data)
    }
}

} // verus!
