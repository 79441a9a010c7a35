//! Byte buffers whose first byte lies on a sector boundary.
//!
//! Direct I/O wants the memory it reads from to start at a multiple of the
//! sector size. An allocator promises no such alignment, so the buffer takes
//! 511 bytes more than it was asked for and uses the window that starts at
//! the first sector boundary inside the allocation.

use vstd::prelude::*;
use crate::error::{Error, ErrorKind, ErrorView};
use crate::text::{decimal, decimal_string};

verus! {

/// The size of a storage sector in bytes.
pub const SECTOR_SIZE: usize = 512;

/// The first sector boundary at or after `addr`.
pub open spec fn align_up(addr: int) -> int {
    ((addr + 511) / 512) * 512
}

/// The distance from `addr` to the first sector boundary at or after it.
pub open spec fn sector_offset(addr: int) -> int {
    align_up(addr) - addr
}

/// Whether `addr` lies on a sector boundary.
pub open spec fn is_sector_aligned(addr: int) -> bool {
    addr % 512 == 0
}

/// The offset is the smallest step from `addr` to a sector boundary: it is
/// less than a sector, it reaches a boundary, no address before that is on
/// one, and it is zero exactly when `addr` is on a boundary already.
pub proof fn lemma_sector_offset(addr: int)
    ensures
        0 <= sector_offset(addr) < 512,
        is_sector_aligned(addr + sector_offset(addr)),
        forall|a: int|
            addr <= a < addr + sector_offset(addr) ==> !#[trigger] is_sector_aligned(a),
        is_sector_aligned(addr) <==> sector_offset(addr) == 0,
        sector_offset(addr) == (512 - addr % 512) % 512,
{
}

/// Computes the distance from `addr` to the first sector boundary at or
/// after it.
pub fn offset_to_sector(addr: usize) -> (offset: usize)
    ensures
        offset == sector_offset(addr as int),
{
    let rem: usize = addr % SECTOR_SIZE;
    if rem == 0 {
        0
    } else {
        SECTOR_SIZE - rem
    }
}

/// The address of the first byte of the vector's buffer, as `Vec::as_ptr`
/// reports it. The number depends on the allocator, so nothing is claimed of
/// it.
#[verifier::external_body]
fn buffer_address(v: &Vec<u8>) -> (addr: usize) {
    v.as_ptr() as usize
}

/// The part of the vector from index `from` up to `to`, to write to, as
/// `&mut v[from..to]` gives it (`IndexMut::index_mut` of `Vec` with a range).
/// The part holds those bytes of the vector; a slice keeps its length
/// whatever is written to it; and afterwards the vector holds what it held
/// before, with the part replaced by what was written. The range is asked to
/// lie within the vector: there the call does not panic, so that it never
/// unwinds.
#[verifier::external_body]
fn window_mut(v: &mut Vec<u8>, from: usize, to: usize) -> (w: &mut [u8])
    requires
        from <= to <= old(v)@.len(),
    ensures
        w@ == old(v)@.subrange(from as int, to as int),
        final(w)@.len() == w@.len(),
        final(v)@ == old(v)@.subrange(0, from as int) + final(w)@ + old(v)@.subrange(
            to as int,
            old(v)@.len() as int,
        ),
    no_unwind
{
    &mut v[from..to]
}

/// A buffer of bytes that starts on a sector boundary.
pub struct AlignedBuf {
    buf: Vec<u8>,
    offset: usize,
    len: usize,
    /// Where the allocation of `buf` was found to start when the buffer was
    /// made. The allocation is never resized, so it stays there.
    base: Ghost<int>,
}

impl View for AlignedBuf {
    type V = Seq<u8>;

    /// The bytes of the aligned window.
    open spec fn view(&self) -> Seq<u8> {
        self.backing().subrange(self.offset(), self.offset() + self.requested_length())
    }
}

impl AlignedBuf {
    /// The bytes of the whole allocation.
    pub closed spec fn backing(&self) -> Seq<u8> {
        self.buf@
    }

    /// The address at which the allocation starts.
    pub closed spec fn base_address(&self) -> int {
        self.base@
    }

    /// Where the aligned window starts within the allocation.
    pub closed spec fn offset(&self) -> int {
        self.offset as int
    }

    /// The length that the buffer was made with.
    pub closed spec fn requested_length(&self) -> int {
        self.len as int
    }

    /// The address of the first byte of the aligned window.
    pub open spec fn start_address(&self) -> int {
        self.base_address() + self.offset()
    }

    /// What holds of every buffer: the length is a whole number of sectors,
    /// the allocation is 511 bytes longer, and the window starts at the
    /// first sector boundary of the allocation.
    pub open spec fn wf(&self) -> bool {
        &&& 0 <= self.base_address()
        &&& 0 <= self.requested_length()
        &&& self.requested_length() % 512 == 0
        &&& self.backing().len() == self.requested_length() + 511
        &&& self.offset() == sector_offset(self.base_address())
    }

    /// Every buffer that a program holds is well formed.
    #[verifier::type_invariant]
    spec fn always_wf(&self) -> bool {
        self.wf()
    }

    /// Whether `after` is `self` once `bytes` have been written through the
    /// mutable view: the window holds `bytes`, and nothing else has changed.
    pub open spec fn written(&self, bytes: Seq<u8>, after: &AlignedBuf) -> bool {
        &&& after.base_address() == self.base_address()
        &&& after.offset() == self.offset()
        &&& after.requested_length() == self.requested_length()
        &&& after.backing() == self.backing().subrange(0, self.offset()) + bytes
            + self.backing().subrange(
            self.offset() + self.requested_length(),
            self.backing().len() as int,
        )
    }

    /// Makes a zeroed buffer of `len` bytes that starts on a sector boundary.
    ///
    /// A length that is not a whole number of sectors is refused before
    /// anything is allocated.
    pub fn new(len: usize) -> (r: Result<AlignedBuf, Error>)
        requires
            len + 511 <= isize::MAX,
        ensures
            r is Err <==> len % 512 != 0,
            r matches Err(e) ==> e@ == (ErrorView {
                kind: ErrorKind::InvalidInput,
                cause: decimal(len as nat),
                os_code: None,
                context: Seq::empty(),
            }),
            r matches Ok(b) ==> {
                &&& b.wf()
                &&& b.requested_length() == len
                &&& b.backing() == Seq::new((len + 511) as nat, |i: int| 0u8)
                &&& b@ == Seq::new(len as nat, |i: int| 0u8)
                &&& is_sector_aligned(b.start_address())
            },
    {
        if len % SECTOR_SIZE != 0 {
            let cause = decimal_string(len as u64);
            return Err(Error::new(ErrorKind::InvalidInput, cause.as_str()));
        }
        let v: Vec<u8> = vec![0u8; len + 511];
        let pos = buffer_address(&v);
        let offset = offset_to_sector(pos);
        let b = AlignedBuf { buf: v, offset, len, base: Ghost(pos as int) };
        proof {
            lemma_sector_offset(pos as int);
        }
        Ok(b)
    }

    /// The aligned window, to read from.
    pub fn as_ref(&self) -> (r: &[u8])
        ensures
            self.wf(),
            r@ == self@,
    {
        proof {
            use_type_invariant(self);
            lemma_sector_offset(self.base@);
        }
        &self.buf[self.offset..self.offset + self.len]
    }

    /// The aligned window, to write to. What is written through it is what
    /// the buffer holds afterwards; the length and the place of the window
    /// stay as they are.
    pub fn as_mut_ref(&mut self) -> (r: &mut [u8])
        ensures
            old(self).wf(),
            r@ == old(self)@,
            final(r)@.len() == r@.len(),
            old(self).written(final(r)@, final(self)),
            final(self).wf(),
            final(self)@ == final(r)@,
    {
        proof {
            use_type_invariant(&*self);
            lemma_sector_offset(self.base@);
        }
        window_mut(&mut self.buf, self.offset, self.offset + self.len)
    }
}

/// The window of a buffer lies within its allocation, has the length that
/// the buffer was made with, and starts on a sector boundary: the first one
/// at or after the start of the allocation.
pub proof fn lemma_window(b: AlignedBuf)
    requires
        b.wf(),
    ensures
        0 <= b.offset() < 512,
        b.offset() + b.requested_length() <= b.backing().len(),
        b@.len() == b.requested_length(),
        is_sector_aligned(b.start_address()),
        forall|a: int|
            b.base_address() <= a < b.start_address() ==> !#[trigger] is_sector_aligned(a),
{
    lemma_sector_offset(b.base_address());
}

/// After a write through the mutable view the buffer is still well formed,
/// starts at the same aligned address, has the same length, and its
/// read-only view holds exactly the bytes that were written.
pub proof fn lemma_write_then_read(before: AlignedBuf, bytes: Seq<u8>, after: AlignedBuf)
    requires
        before.wf(),
        bytes.len() == before@.len(),
        before.written(bytes, &after),
    ensures
        after.wf(),
        after@ == bytes,
        after@.len() == before@.len(),
        after.start_address() == before.start_address(),
        is_sector_aligned(after.start_address()),
{
    lemma_sector_offset(before.base_address());
}

} // verus!
