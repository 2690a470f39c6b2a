//! Guest-physical memory: addresses, the capability traits through which
//! memory and devices are accessed, and the byte-level model that every
//! memory contract is stated over.

use vstd::prelude::*;

pub mod memoryaddr;
pub mod memorymap;

pub use memoryaddr::MemoryAddr;

verus! {

/// Errors raised by the guest-memory layer.
#[derive(Clone, Copy, Debug, PartialEq, Eq, Structural)]
pub enum Error {
    /// An access whose address range exceeds the region's size.
    OutOfBounds,
    /// A byte source could not supply the bytes asked of it.
    ReadFailed,
    /// A byte sink could not take the bytes handed to it.
    WriteFailed,
}

/// Number of bytes a buffer of length `buf_len` exchanges with a region of
/// length `mem_len` at offset `off`: the smaller of the buffer length and the
/// space left in the region from `off` on.
pub open spec fn copy_len(mem_len: int, off: int, buf_len: int) -> int {
    if buf_len <= mem_len - off {
        buf_len
    } else {
        mem_len - off
    }
}

/// The buffer after a read from `mem` at `off`: the first `copy_len` bytes
/// come from memory, the rest keep their old values.
pub open spec fn read_into(mem: Seq<u8>, off: int, buf: Seq<u8>) -> Seq<u8> {
    Seq::new(
        buf.len(),
        |k: int|
            if k < copy_len(mem.len() as int, off, buf.len() as int) {
                mem[off + k]
            } else {
                buf[k]
            },
    )
}

/// The region after writing `src` at `off`, truncated to the space available:
/// bytes inside the window take their values from `src`, all others are kept.
pub open spec fn overwritten(mem: Seq<u8>, off: int, src: Seq<u8>) -> Seq<u8> {
    Seq::new(
        mem.len(),
        |k: int|
            if off <= k < off + copy_len(mem.len() as int, off, src.len() as int) {
                src[k - off]
            } else {
                mem[k]
            },
    )
}

/// Capability of anything that can be read and written at an offset: guest
/// memory itself, and every device on a bus. Addresses are already relative
/// to the start of the object. What a call returns depends on the
/// implementing device; each implementation states its own contract.
pub trait Addressable {
    /// Read from the object into `buf`, starting at `addr`. The number of
    /// bytes read is returned.
    fn read(&self, buf: &mut Vec<u8>, addr: MemoryAddr) -> Result<usize, Error>;

    /// Write `buf` to the object, starting at `addr`. The number of bytes
    /// written is returned.
    fn write(&mut self, buf: &[u8], addr: MemoryAddr) -> Result<usize, Error>;
}

/// A fixed-size region of guest memory. Its observable state is the byte
/// sequence `contents()`; the region is created once and never resized.
pub trait Region: Addressable {
    /// The bytes the region holds.
    spec fn contents(&self) -> Seq<u8>;

    /// Region length in bytes.
    fn size(&self) -> (n: usize)
        ensures
            n == self.contents().len(),
    ;

    /// Copy exactly `count` bytes from the byte source `src` into the region
    /// starting at `addr`. Fails `OutOfBounds`, changing nothing, if the
    /// window `[addr, addr + count)` does not lie inside the region; fails
    /// `ReadFailed`, changing nothing, if the source holds fewer than `count`
    /// bytes.
    fn read_from(&mut self, addr: MemoryAddr, src: &[u8], count: usize) -> (r: Result<
        usize,
        Error,
    >)
        ensures
            final(self).contents().len() == old(self).contents().len(),
            addr.0 + count > old(self).contents().len() ==> r == Err::<usize, Error>(
                Error::OutOfBounds,
            ) && final(self).contents() == old(self).contents(),
            addr.0 + count <= old(self).contents().len() && src@.len() < count ==> r == Err::<
                usize,
                Error,
            >(Error::ReadFailed) && final(self).contents() == old(self).contents(),
            addr.0 + count <= old(self).contents().len() && src@.len() >= count ==> r == Ok::<
                usize,
                Error,
            >(count) && final(self).contents() == overwritten(
                old(self).contents(),
                addr.0 as int,
                src@.subrange(0, count as int),
            ),
    ;
}

/// Guest-physical memory proper: the region a kernel is loaded into and that
/// the hypervisor maps into the guest.
pub trait Memory: Region {

}

} // verus!
