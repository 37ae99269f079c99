//! The part of a file that one read request returns.

use vstd::prelude::*;

verus! {

/// Where in a file of `len` bytes a read at `offset` begins: at `offset`, or at
/// the end of the file if `offset` lies beyond it.
pub open spec fn window_start(len: int, offset: int) -> int {
    if offset < len {
        offset
    } else {
        len
    }
}

/// Where a read of `size` bytes at `offset` ends in a file of `len` bytes.
pub open spec fn window_end(len: int, offset: int, size: int) -> int {
    if offset + size < len {
        offset + size
    } else {
        len
    }
}

/// The bytes that a read of `size` bytes at `offset` returns from a file that
/// holds `contents`: the bytes from `offset` on, `size` of them or as many as
/// the file still has.
pub open spec fn window(contents: Seq<u8>, offset: int, size: int) -> Seq<u8>
    recommends
        0 <= offset,
        0 <= size,
{
    contents.subrange(
        window_start(contents.len() as int, offset),
        window_end(contents.len() as int, offset, size),
    )
}

/// Copies out of `contents` the bytes that a read of `size` bytes at `offset`
/// returns.
pub fn read_window(contents: &Vec<u8>, offset: u64, size: u32) -> (data: Vec<u8>)
    ensures
        data@ == window(contents@, offset as int, size as int),
{
    let len: usize = contents.len();
    let start: usize = if offset < len as u64 {
        offset as usize
    } else {
        len
    };
    let end: usize = if size as u64 >= (len - start) as u64 {
        len
    } else {
        start + size as usize
    };
    let mut data: Vec<u8> = Vec::new();
    let mut i: usize = start;
    while i < end
        invariant
            start <= i <= end <= len,
            len == contents.len(),
            data@ == contents@.subrange(start as int, i as int),
        decreases end - i,
    {
        data.push(contents[i]);
        i = i + 1;
        assert(data@ =~= contents@.subrange(start as int, i as int));
    }
    assert(data@ =~= window(contents@, offset as int, size as int));
    data
}

/// A read returns `size` bytes, or as many as lie between `offset` and the end
/// of the file, whichever is fewer, and none when `offset` is at or beyond the
/// end.
pub proof fn lemma_window_len(contents: Seq<u8>, offset: int, size: int)
    requires
        0 <= offset,
        0 <= size,
    ensures
        window(contents, offset, size).len() == vstd::math::min(
            size,
            vstd::math::max(0, contents.len() - offset),
        ),
        offset >= contents.len() ==> window(contents, offset, size) == Seq::<u8>::empty(),
{
    assert(offset >= contents.len() ==> window(contents, offset, size) =~= Seq::<u8>::empty());
}

/// The bytes that a read returns are the file's own, in order, from `offset` on.
pub proof fn lemma_window_bytes(contents: Seq<u8>, offset: int, size: int, i: int)
    requires
        0 <= offset,
        0 <= size,
        0 <= i < window(contents, offset, size).len(),
    ensures
        offset + i < contents.len(),
        i < size,
        window(contents, offset, size)[i] == contents[offset + i],
{
}

} // verus!
