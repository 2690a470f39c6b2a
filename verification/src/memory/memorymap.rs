//! The concrete guest-memory region: one contiguous, zero-initialized,
//! fixed-size run of bytes, owned for the life of the VM.

use vstd::prelude::*;
use vstd::pervasive::VecAdditionalExecFns;

use crate::memory::{copy_len, overwritten, read_into, Addressable, Error, Memory, MemoryAddr,
    Region};

verus! {

/// The single backing region: owns its bytes, checks every access against its
/// fixed size, and never hands out an unchecked path to them.
pub struct RegionMmap {
    bytes: Vec<u8>,
}

impl RegionMmap {
    /// Create a zero-filled region of exactly `size` bytes.
    pub fn new(size: usize) -> (r: Result<RegionMmap, Error>)
        ensures
            r matches Ok(m) && m.contents() == Seq::new(size as nat, |_k: int| 0u8),
    {
        let mut bytes: Vec<u8> = Vec::new();
        while bytes.len() < size
            invariant
                bytes@.len() <= size,
                forall|k: int| 0 <= k < bytes@.len() ==> bytes@[k] == 0u8,
            decreases size - bytes@.len(),
        {
            bytes.push(0u8);
        }
        proof {
            assert(bytes@ =~= Seq::new(size as nat, |_k: int| 0u8));
        }
        Ok(RegionMmap { bytes })
    }

    /// Borrow the region's bytes, e.g. to hand their host address to the
    /// hypervisor's memory-region registration.
    pub fn as_slice(&self) -> (r: &[u8])
        ensures
            r@ == self.contents(),
    {
        self.bytes.as_slice()
    }

    fn check_bounds(&self, addr: &MemoryAddr) -> (r: Result<(), Error>)
        ensures
            r == Ok::<(), Error>(()) <==> addr.0 < self.contents().len(),
            r is Err ==> r == Err::<(), Error>(Error::OutOfBounds),
    {
        if addr.0 >= self.bytes.len() {
            return Err(Error::OutOfBounds);
        }
        Ok(())
    }
}

impl Addressable for RegionMmap {
    fn read(&self, buf: &mut Vec<u8>, addr: MemoryAddr) -> (r: Result<usize, Error>)
        ensures
            final(buf)@.len() == old(buf)@.len(),
            addr.0 >= self.contents().len() ==> r == Err::<usize, Error>(Error::OutOfBounds)
                && final(buf)@ == old(buf)@,
            addr.0 < self.contents().len() ==> r == Ok::<usize, Error>(
                copy_len(self.contents().len() as int, addr.0 as int, old(buf)@.len() as int)
                    as usize,
            ) && final(buf)@ == read_into(self.contents(), addr.0 as int, old(buf)@),
    {
        self.check_bounds(&addr)?;
        let avail = self.bytes.len() - addr.0;
        let n = if buf.len() <= avail {
            buf.len()
        } else {
            avail
        };
        let mut k: usize = 0;
        while k < n
            invariant
                k <= n,
                n == copy_len(self.bytes@.len() as int, addr.0 as int, old(buf)@.len() as int),
                addr.0 + n <= self.bytes@.len(),
                self.bytes@.len() <= usize::MAX,
                n <= buf@.len(),
                buf@.len() == old(buf)@.len(),
                forall|i: int| 0 <= i < k ==> buf@[i] == self.bytes@[addr.0 + i],
                forall|i: int| k <= i < buf@.len() ==> buf@[i] == old(buf)@[i],
            decreases n - k,
        {
            let b = self.bytes[addr.0 + k];
            buf.set(k, b);
            k += 1;
        }
        proof {
            assert(buf@ =~= read_into(self.contents(), addr.0 as int, old(buf)@));
        }
        Ok(n)
    }

    fn write(&mut self, buf: &[u8], addr: MemoryAddr) -> (r: Result<usize, Error>)
        ensures
            final(self).contents().len() == old(self).contents().len(),
            addr.0 >= old(self).contents().len() ==> r == Err::<usize, Error>(Error::OutOfBounds)
                && final(self).contents() == old(self).contents(),
            addr.0 < old(self).contents().len() ==> r == Ok::<usize, Error>(
                copy_len(old(self).contents().len() as int, addr.0 as int, buf@.len() as int)
                    as usize,
            ) && final(self).contents() == overwritten(old(self).contents(), addr.0 as int, buf@),
    {
        self.check_bounds(&addr)?;
        let avail = self.bytes.len() - addr.0;
        let n = if buf.len() <= avail {
            buf.len()
        } else {
            avail
        };
        let mut k: usize = 0;
        while k < n
            invariant
                k <= n,
                n == copy_len(old(self).bytes@.len() as int, addr.0 as int, buf@.len() as int),
                addr.0 + n <= self.bytes@.len(),
                self.bytes@.len() <= usize::MAX,
                n <= buf@.len(),
                self.bytes@.len() == old(self).bytes@.len(),
                forall|i: int| 0 <= i < k ==> self.bytes@[addr.0 + i] == buf@[i],
                forall|i: int|
                    0 <= i < self.bytes@.len() && !(addr.0 <= i < addr.0 + k) ==> self.bytes@[i]
                        == old(self).bytes@[i],
            decreases n - k,
        {
            let b = buf[k];
            self.bytes.set(addr.0 + k, b);
            k += 1;
        }
        proof {
            assert(self.bytes@ =~= overwritten(old(self).bytes@, addr.0 as int, buf@));
        }
        Ok(n)
    }
}

impl Region for RegionMmap {
    closed spec fn contents(&self) -> Seq<u8> {
        self.bytes@
    }

    fn size(&self) -> (n: usize) {
        self.bytes.len()
    }

    fn read_from(&mut self, addr: MemoryAddr, src: &[u8], count: usize) -> (r: Result<
        usize,
        Error,
    >) {
        if count > self.bytes.len() || addr.0 > self.bytes.len() - count {
            return Err(Error::OutOfBounds);
        }
        if src.len() < count {
            return Err(Error::ReadFailed);
        }
        let mut k: usize = 0;
        while k < count
            invariant
                k <= count,
                addr.0 + count <= self.bytes@.len(),
                self.bytes@.len() <= usize::MAX,
                count <= src@.len(),
                self.bytes@.len() == old(self).bytes@.len(),
                forall|i: int| 0 <= i < k ==> self.bytes@[addr.0 + i] == src@[i],
                forall|i: int|
                    0 <= i < self.bytes@.len() && !(addr.0 <= i < addr.0 + k) ==> self.bytes@[i]
                        == old(self).bytes@[i],
            decreases count - k,
        {
            let b = src[k];
            self.bytes.set(addr.0 + k, b);
            k += 1;
        }
        proof {
            assert(self.bytes@ =~= overwritten(
                old(self).bytes@,
                addr.0 as int,
                src@.subrange(0, count as int),
            ));
        }
        Ok(count)
    }
}

/// Guest memory as the VM sees it: a thin owner around the backing region.
pub struct MemoryMmap {
    region: RegionMmap,
}

impl MemoryMmap {
    /// Create a zero-filled guest memory of exactly `size` bytes.
    pub fn new(size: usize) -> (r: Result<MemoryMmap, Error>)
        ensures
            r matches Ok(m) && m.contents() == Seq::new(size as nat, |_k: int| 0u8),
    {
        let region = RegionMmap::new(size)?;
        Ok(MemoryMmap { region })
    }

    /// Borrow the region's bytes, e.g. to hand their host address to the
    /// hypervisor's memory-region registration.
    pub fn as_slice(&self) -> (r: &[u8])
        ensures
            r@ == self.contents(),
    {
        self.region.as_slice()
    }
}

impl Addressable for MemoryMmap {
    fn read(&self, buf: &mut Vec<u8>, addr: MemoryAddr) -> (r: Result<usize, Error>)
        ensures
            final(buf)@.len() == old(buf)@.len(),
            addr.0 >= self.contents().len() ==> r == Err::<usize, Error>(Error::OutOfBounds)
                && final(buf)@ == old(buf)@,
            addr.0 < self.contents().len() ==> r == Ok::<usize, Error>(
                copy_len(self.contents().len() as int, addr.0 as int, old(buf)@.len() as int)
                    as usize,
            ) && final(buf)@ == read_into(self.contents(), addr.0 as int, old(buf)@),
    {
        self.region.read(buf, addr)
    }

    fn write(&mut self, buf: &[u8], addr: MemoryAddr) -> (r: Result<usize, Error>)
        ensures
            final(self).contents().len() == old(self).contents().len(),
            addr.0 >= old(self).contents().len() ==> r == Err::<usize, Error>(Error::OutOfBounds)
                && final(self).contents() == old(self).contents(),
            addr.0 < old(self).contents().len() ==> r == Ok::<usize, Error>(
                copy_len(old(self).contents().len() as int, addr.0 as int, buf@.len() as int)
                    as usize,
            ) && final(self).contents() == overwritten(old(self).contents(), addr.0 as int, buf@),
    {
        self.region.write(buf, addr)
    }
}

impl Region for MemoryMmap {
    closed spec fn contents(&self) -> Seq<u8> {
        self.region.contents()
    }

    fn size(&self) -> (n: usize) {
        self.region.size()
    }

    fn read_from(&mut self, addr: MemoryAddr, src: &[u8], count: usize) -> (r: Result<
        usize,
        Error,
    >) {
        self.region.read_from(addr, src, count)
    }
}

impl Memory for MemoryMmap {

}

} // verus!
