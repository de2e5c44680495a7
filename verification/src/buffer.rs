//! Host-owned byte buffers, as the adapters describe them, and the copy of
//! what the host has filled into native memory.
use vstd::prelude::*;

verus! {

/// A window of `byte_length` bytes, `byte_offset` bytes into the backing
/// storage `storage` that the host owns. Handing a window to a host request
/// gives the storage away: the value is moved, and only what the host hands
/// back is used again.
#[derive(Debug)]
pub struct ByteView<B> {
    pub storage: B,
    pub byte_offset: u32,
    pub byte_length: u32,
}

/// What the host hands back from a read into a window: the storage that now
/// backs the data, its whole length, and the bytes that were filled in.
#[derive(Debug)]
pub struct FilledView<B> {
    pub storage: B,
    pub storage_len: u32,
    pub bytes: Vec<u8>,
}

/// The smaller of two lengths.
pub open spec fn spec_min(a: int, b: int) -> int {
    if a <= b {
        a
    } else {
        b
    }
}

impl<B> ByteView<B> {
    /// The window cut down to its first `len` bytes; a window that is
    /// already shorter stays as it is.
    pub open spec fn spec_limit(self, len: u32) -> Self {
        ByteView {
            storage: self.storage,
            byte_offset: self.byte_offset,
            byte_length: if len < self.byte_length {
                len
            } else {
                self.byte_length
            },
        }
    }

    /// The window cut down to its first `len` bytes.
    pub fn limit(self, len: u32) -> (view: Self)
        ensures
            view == self.spec_limit(len),
    {
        let byte_length: u32 = if len < self.byte_length {
            len
        } else {
            self.byte_length
        };
        ByteView { storage: self.storage, byte_offset: self.byte_offset, byte_length }
    }
}

impl<B> FilledView<B> {
    /// The window over the whole of the storage that came back.
    pub open spec fn spec_whole(self) -> ByteView<B> {
        ByteView { storage: self.storage, byte_offset: 0, byte_length: self.storage_len }
    }

    /// The window of the given place and size on the storage that came back.
    pub open spec fn spec_anchored(self, byte_offset: u32, byte_length: u32) -> ByteView<B> {
        ByteView { storage: self.storage, byte_offset, byte_length }
    }
}

/// The destination after the first `min(filled, destination)` bytes have
/// been copied over its start.
pub open spec fn spec_copy_filled(dst: Seq<u8>, filled: Seq<u8>) -> Seq<u8> {
    let n = spec_min(filled.len() as int, dst.len() as int);
    filled.subrange(0, n) + dst.subrange(n, dst.len() as int)
}

/// Copies the filled bytes over the start of `dst`, as many as fit, and
/// returns how many were copied. The rest of `dst` is left as it was.
pub fn copy_filled(dst: &mut [u8], filled: &[u8]) -> (copied: usize)
    ensures
        copied == spec_min(filled@.len() as int, old(dst)@.len() as int),
        final(dst)@ == spec_copy_filled(old(dst)@, filled@),
{
    let n: usize = if filled.len() <= dst.len() {
        filled.len()
    } else {
        dst.len()
    };
    let mut i: usize = 0;
    while i < n
        invariant
            i <= n,
            n <= filled@.len(),
            n <= dst@.len(),
            dst@.len() == old(dst)@.len(),
            forall|j: int| 0 <= j < i ==> dst@[j] == filled@[j],
            forall|j: int| i <= j < dst@.len() ==> dst@[j] == old(dst)@[j],
        decreases n - i,
    {
        dst[i] = filled[i];
        i = i + 1;
    }
    assert(dst@ =~= spec_copy_filled(old(dst)@, filled@));
    n
}

/// No byte is lost or made up. Where what the host filled fits into the
/// destination, all of it is copied: the destination starts with exactly the
/// filled bytes, and what lies behind them is as it was. A destination that
/// is shorter than what was filled holds the start of it.
pub proof fn lemma_copy_filled(dst: Seq<u8>, filled: Seq<u8>)
    ensures
        spec_copy_filled(dst, filled).len() == dst.len(),
        filled.len() <= dst.len() ==> spec_copy_filled(dst, filled).subrange(
            0,
            filled.len() as int,
        ) == filled,
        filled.len() <= dst.len() ==> spec_copy_filled(dst, filled).subrange(
            filled.len() as int,
            dst.len() as int,
        ) == dst.subrange(filled.len() as int, dst.len() as int),
        filled.len() >= dst.len() ==> spec_copy_filled(dst, filled) == filled.subrange(
            0,
            dst.len() as int,
        ),
{
    let copied = spec_copy_filled(dst, filled);
    if filled.len() <= dst.len() {
        assert(copied.subrange(0, filled.len() as int) =~= filled);
        assert(copied.subrange(filled.len() as int, dst.len() as int) =~= dst.subrange(
            filled.len() as int,
            dst.len() as int,
        ));
    }
    if filled.len() >= dst.len() {
        assert(copied =~= filled.subrange(0, dst.len() as int));
    }
}

} // verus!
