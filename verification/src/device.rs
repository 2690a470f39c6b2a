//! The address-range dispatch bus: non-overlapping (range -> device)
//! bindings that route an absolute guest address to the owning device and a
//! device-local offset.

use vstd::prelude::*;

pub mod legacy;

use crate::device::legacy::Serial;
use crate::memory;
use crate::memory::memorymap::MemoryMmap;
use crate::memory::{copy_len, overwritten, read_into, Addressable, MemoryAddr, Region};

verus! {

/// Errors raised by bus registration and dispatch.
#[derive(Clone, Copy, Debug, PartialEq, Eq, Structural)]
pub enum Error {
    /// The device covering the address rejected the read.
    ReadFailed,
    /// The device covering the address rejected the write.
    WriteFailed,
    /// No registered range covers the address.
    MissingDevice,
    /// The range to register overlaps one already registered.
    Overlap,
}

/// The memory range a device answers to on a bus: start address and length,
/// for the half-open interval `[start, start + length)`.
#[derive(Clone, Copy, Debug)]
pub struct Range(pub MemoryAddr, pub usize);

impl Range {
    /// Mathematical contents of the range: `start <= a < start + length`.
    pub open spec fn contains(self, a: int) -> bool {
        self.0.0 <= a < self.0.0 + self.1
    }

    /// Two ranges overlap when some address lies in both.
    pub open spec fn overlaps(self, other: Range) -> bool {
        exists|a: int| self.contains(a) && other.contains(a)
    }

    /// Whether `addr` lies within the range.
    pub fn contains_addr(&self, addr: &MemoryAddr) -> (r: bool)
        ensures
            r == self.contains(addr.0 as int),
    {
        self.0.0 <= addr.0 && addr.0 - self.0.0 < self.1
    }

    /// Whether this range and `other` share an address.
    fn overlaps_range(&self, other: &Range) -> (r: bool)
        ensures
            r == self.overlaps(*other),
    {
        let r = self.1 > 0 && other.1 > 0 && (if other.0.0 >= self.0.0 {
            other.0.0 - self.0.0 < self.1
        } else {
            self.0.0 - other.0.0 < other.1
        });
        proof {
            if r {
                let w: int = if other.0.0 >= self.0.0 {
                    other.0.0 as int
                } else {
                    self.0.0 as int
                };
                assert(self.contains(w) && other.contains(w));
            }
        }
        r
    }
}

/// Spec-level state of a device on a bus: the state dispatch contracts are
/// stated over.
pub enum DevView {
    /// A memory-backed device holding these bytes.
    Mem(Seq<u8>),
    /// The serial stub, which holds no state.
    Ser,
}

/// A device that can sit on a bus, as one of the concrete peripherals.
pub enum Device {
    /// Guest memory exposed as a memory-mapped device over its full size.
    Memory(MemoryMmap),
    /// The serial-port stub.
    Serial(Serial),
}

impl View for Device {
    type V = DevView;

    open spec fn view(&self) -> DevView {
        match *self {
            Device::Memory(m) => DevView::Mem(m.contents()),
            Device::Serial(_) => DevView::Ser,
        }
    }
}

impl Addressable for Device {
    fn read(&self, buf: &mut Vec<u8>, addr: MemoryAddr) -> (r: Result<usize, memory::Error>)
        ensures
            final(buf)@.len() == old(buf)@.len(),
            self@ matches DevView::Ser ==> r == Ok::<usize, memory::Error>(0usize) && final(buf)@
                == old(buf)@,
            self@ matches DevView::Mem(c) ==> {
                &&& addr.0 >= c.len() ==> r == Err::<usize, memory::Error>(
                    memory::Error::OutOfBounds,
                ) && final(buf)@ == old(buf)@
                &&& addr.0 < c.len() ==> r == Ok::<usize, memory::Error>(
                    copy_len(c.len() as int, addr.0 as int, old(buf)@.len() as int) as usize,
                ) && final(buf)@ == read_into(c, addr.0 as int, old(buf)@)
            },
    {
        match self {
            Device::Memory(m) => m.read(buf, addr),
            Device::Serial(s) => s.read(buf, addr),
        }
    }

    fn write(&mut self, buf: &[u8], addr: MemoryAddr) -> (r: Result<usize, memory::Error>)
        ensures
            old(self)@ matches DevView::Ser ==> r == Ok::<usize, memory::Error>(0usize)
                && final(self)@ == old(self)@,
            old(self)@ matches DevView::Mem(c) ==> {
                &&& addr.0 >= c.len() ==> r == Err::<usize, memory::Error>(
                    memory::Error::OutOfBounds,
                ) && final(self)@ == old(self)@
                &&& addr.0 < c.len() ==> r == Ok::<usize, memory::Error>(
                    copy_len(c.len() as int, addr.0 as int, buf@.len() as int) as usize,
                ) && final(self)@ == DevView::Mem(overwritten(c, addr.0 as int, buf@))
            },
    {
        match self {
            Device::Memory(m) => m.write(buf, addr),
            Device::Serial(s) => s.write(buf, addr),
        }
    }
}

/// Whether some registered range covers address `a`.
pub open spec fn covers(bv: Seq<(Range, DevView)>, a: int) -> bool {
    exists|i: int| 0 <= i < bv.len() && bv[i].0.contains(a)
}

/// The index of the binding whose range covers `a`; meaningful when `covers`
/// holds, and unique because registered ranges never overlap.
pub open spec fn index_at(bv: Seq<(Range, DevView)>, a: int) -> int {
    choose|i: int| 0 <= i < bv.len() && bv[i].0.contains(a)
}

/// What dispatching a read at absolute address `a` yields: the buffer as the
/// covering device leaves it, or the error dispatch reports.
pub open spec fn read_outcome(bv: Seq<(Range, DevView)>, a: int, buf: Seq<u8>) -> Result<
    Seq<u8>,
    Error,
> {
    if !covers(bv, a) {
        Err(Error::MissingDevice)
    } else {
        let i = index_at(bv, a);
        let off = a - bv[i].0.0.0;
        match bv[i].1 {
            DevView::Ser => Ok(buf),
            DevView::Mem(c) => if off >= c.len() {
                Err(Error::ReadFailed)
            } else {
                Ok(read_into(c, off, buf))
            },
        }
    }
}

/// What dispatching a write at absolute address `a` yields: the bus state as
/// the covering device leaves it, or the error dispatch reports.
pub open spec fn write_outcome(bv: Seq<(Range, DevView)>, a: int, buf: Seq<u8>) -> Result<
    Seq<(Range, DevView)>,
    Error,
> {
    if !covers(bv, a) {
        Err(Error::MissingDevice)
    } else {
        let i = index_at(bv, a);
        let off = a - bv[i].0.0.0;
        match bv[i].1 {
            DevView::Ser => Ok(bv),
            DevView::Mem(c) => if off >= c.len() {
                Err(Error::WriteFailed)
            } else {
                Ok(bv.update(i, (bv[i].0, DevView::Mem(overwritten(c, off, buf)))))
            },
        }
    }
}

/// A bus of similarly related devices: dispatches an absolute address to the
/// device registered over it. No two registered ranges overlap.
pub struct Bus {
    devices: Vec<(Range, Device)>,
}

impl View for Bus {
    type V = Seq<(Range, DevView)>;

    closed spec fn view(&self) -> Seq<(Range, DevView)> {
        self.devices@.map_values(|rd: (Range, Device)| (rd.0, rd.1@))
    }
}

impl Bus {
    #[verifier::type_invariant]
    spec fn wf(self) -> bool {
        forall|i: int, j: int|
            0 <= i < j < self.devices@.len() ==> !self.devices@[i].0.overlaps(
                self.devices@[j].0,
            )
    }

    proof fn lemma_view_parts(self)
        ensures
            self@.len() == self.devices@.len(),
            forall|i: int|
                0 <= i < self.devices@.len() ==> (#[trigger] self@[i]).0 == self.devices@[i].0,
            forall|i: int|
                0 <= i < self.devices@.len() ==> (#[trigger] self@[i]).1 == self.devices@[i].1@,
    {
    }

    /// Any two indices whose ranges cover the same address are equal, because
    /// registered ranges never overlap.
    proof fn lemma_unique_cover(self, a: int, i: int)
        requires
            self.wf(),
            0 <= i < self@.len(),
            self@[i].0.contains(a),
        ensures
            covers(self@, a),
            index_at(self@, a) == i,
    {
        self.lemma_view_parts();
        assert(covers(self@, a));
        let j = index_at(self@, a);
        assert(0 <= j < self@.len() && self@[j].0.contains(a));
        if i != j {
            assert(self.devices@[i].0.contains(a) && self.devices@[j].0.contains(a));
            if i < j {
                assert(self.devices@[i].0.overlaps(self.devices@[j].0));
            } else {
                assert(self.devices@[j].0.overlaps(self.devices@[i].0));
            }
            assert(false);
        }
    }

    /// Create an empty bus.
    pub fn new() -> (r: Bus)
        ensures
            r@ == Seq::<(Range, DevView)>::empty(),
    {
        let b = Bus { devices: Vec::new() };
        proof {
            assert(b@ =~= Seq::<(Range, DevView)>::empty());
        }
        b
    }

    /// Register `dev` under `range`. Fails, changing nothing, if `range`
    /// overlaps a range already registered: the bus never silently overwrites
    /// or shadows a binding.
    pub fn insert(&mut self, range: Range, dev: Device) -> (r: Result<(), Error>)
        ensures
            (exists|i: int| 0 <= i < old(self)@.len() && old(self)@[i].0.overlaps(range)) ==> r
                == Err::<(), Error>(Error::Overlap) && final(self)@ == old(self)@,
            !(exists|i: int| 0 <= i < old(self)@.len() && old(self)@[i].0.overlaps(range)) ==> r
                == Ok::<(), Error>(()) && final(self)@ == old(self)@.push((range, dev@)),
    {
        proof {
            use_type_invariant(&*self);
            old(self).lemma_view_parts();
        }
        let mut devices: Vec<(Range, Device)> = Vec::new();
        core::mem::swap(&mut devices, &mut self.devices);
        let n = devices.len();
        let mut k: usize = 0;
        let mut found: bool = false;
        while k < n
            invariant
                k <= n,
                n == devices@.len(),
                devices@ == old(self).devices@,
                found <==> exists|i: int| 0 <= i < k && devices@[i].0.overlaps(range),
            decreases n - k,
        {
            if devices[k].0.overlaps_range(&range) {
                found = true;
            }
            k += 1;
        }
        proof {
            old(self).lemma_view_parts();
            if found {
                let i = choose|i: int| 0 <= i < n && devices@[i].0.overlaps(range);
                assert(old(self)@[i].0 == devices@[i].0);
                assert(old(self)@[i].0.overlaps(range));
            } else {
                assert forall|i: int|
                    0 <= i < old(self)@.len() implies !(#[trigger] old(self)@[i]).0.overlaps(
                    range,
                ) by {
                    assert(old(self)@[i].0 == old(self).devices@[i].0);
                }
            }
        }
        if !found {
            devices.push((range, dev));
        }
        proof {
            if !found {
                assert forall|i: int, j: int|
                    0 <= i < j < devices@.len() implies !devices@[i].0.overlaps(
                    devices@[j].0,
                ) by {
                    if j == devices@.len() - 1 {
                        assert(devices@[j].0 == range);
                        assert(!devices@[i].0.overlaps(range));
                    } else {
                        assert(!old(self).devices@[i].0.overlaps(old(self).devices@[j].0));
                    }
                }
            }
        }
        core::mem::swap(&mut devices, &mut self.devices);
        if found {
            Err(Error::Overlap)
        } else {
            proof {
                assert(self@ =~= old(self)@.push((range, dev@)));
            }
            Ok(())
        }
    }

    /// Dispatch a read: find the device whose range covers `addr` and read
    /// from it at the offset within its range. Fails `MissingDevice`,
    /// touching nothing, if no registered range covers `addr`; a failure of
    /// the device itself is reported as `ReadFailed`.
    pub fn read(&self, addr: MemoryAddr, bs: &mut Vec<u8>) -> (r: Result<(), Error>)
        ensures
            match read_outcome(self@, addr.0 as int, old(bs)@) {
                Ok(s) => r == Ok::<(), Error>(()) && final(bs)@ == s,
                Err(e) => r == Err::<(), Error>(e) && final(bs)@ == old(bs)@,
            },
    {
        proof {
            use_type_invariant(self);
            self.lemma_view_parts();
        }
        let n = self.devices.len();
        let mut k: usize = 0;
        while k < n
            invariant
                k <= n,
                n == self.devices@.len(),
                self.wf(),
                bs@ == old(bs)@,
                forall|i: int| 0 <= i < k ==> !self.devices@[i].0.contains(addr.0 as int),
            decreases n - k,
        {
            proof {
                self.lemma_view_parts();
            }
            if self.devices[k].0.contains_addr(&addr) {
                let offset = MemoryAddr(addr.0 - self.devices[k].0.0.0);
                proof {
                    self.lemma_unique_cover(addr.0 as int, k as int);
                }
                let outcome = self.devices[k].1.read(bs, offset);
                match outcome {
                    Ok(_) => {
                        return Ok(());
                    },
                    Err(_) => {
                        return Err(Error::ReadFailed);
                    },
                }
            }
            k += 1;
        }
        proof {
            self.lemma_view_parts();
            assert forall|i: int|
                0 <= i < self@.len() implies !(#[trigger] self@[i]).0.contains(addr.0 as int) by {
                assert(self@[i].0 == self.devices@[i].0);
            }
            assert(!covers(self@, addr.0 as int));
        }
        Err(Error::MissingDevice)
    }

    /// Dispatch a write: find the device whose range covers `addr` and write
    /// through it at the offset within its range. Fails `MissingDevice`,
    /// changing nothing, if no registered range covers `addr`; a failure of
    /// the device itself is reported as `WriteFailed`.
    pub fn write(&mut self, addr: MemoryAddr, bs: &[u8]) -> (r: Result<(), Error>)
        ensures
            match write_outcome(old(self)@, addr.0 as int, bs@) {
                Ok(bv) => r == Ok::<(), Error>(()) && final(self)@ == bv,
                Err(e) => r == Err::<(), Error>(e) && final(self)@ == old(self)@,
            },
    {
        proof {
            use_type_invariant(&*self);
            old(self).lemma_view_parts();
        }
        let mut devices: Vec<(Range, Device)> = Vec::new();
        core::mem::swap(&mut devices, &mut self.devices);
        let n = devices.len();
        let mut k: usize = 0;
        while k < n
            invariant
                k <= n,
                n == devices@.len(),
                devices@ == old(self).devices@,
                self.devices@.len() == 0,
                old(self).wf(),
                forall|i: int| 0 <= i < k ==> !devices@[i].0.contains(addr.0 as int),
            decreases n - k,
        {
            if devices[k].0.contains_addr(&addr) {
                let offset = MemoryAddr(addr.0 - devices[k].0.0.0);
                proof {
                    old(self).lemma_unique_cover(addr.0 as int, k as int);
                }
                let (rg, mut dev) = devices.remove(k);
                let outcome = dev.write(bs, offset);
                devices.insert(k, (rg, dev));
                proof {
                    assert(devices@ =~= old(self).devices@.update(
                        k as int,
                        (rg, devices@[k as int].1),
                    ));
                    assert forall|i: int, j: int|
                        0 <= i < j < devices@.len() implies !devices@[i].0.overlaps(
                        devices@[j].0,
                    ) by {
                        assert(!old(self).devices@[i].0.overlaps(old(self).devices@[j].0));
                        assert(devices@[i].0 == old(self).devices@[i].0);
                        assert(devices@[j].0 == old(self).devices@[j].0);
                    }
                }
                core::mem::swap(&mut devices, &mut self.devices);
                proof {
                    self.lemma_view_parts();
                    old(self).lemma_view_parts();
                    match write_outcome(old(self)@, addr.0 as int, bs@) {
                        Ok(bv) => {
                            assert(self@ =~= bv);
                        },
                        Err(_) => {
                            assert(self@ =~= old(self)@);
                        },
                    }
                }
                match outcome {
                    Ok(_) => {
                        return Ok(());
                    },
                    Err(_) => {
                        return Err(Error::WriteFailed);
                    },
                }
            }
            k += 1;
        }
        core::mem::swap(&mut devices, &mut self.devices);
        proof {
            self.lemma_view_parts();
            old(self).lemma_view_parts();
            assert forall|i: int|
                0 <= i < self@.len() implies !(#[trigger] self@[i]).0.contains(addr.0 as int) by {
                assert(self@[i].0 == self.devices@[i].0);
            }
            assert(!covers(self@, addr.0 as int));
            assert(self@ =~= old(self)@);
        }
        Err(Error::MissingDevice)
    }
}

} // verus!
