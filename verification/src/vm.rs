//! The vCPU side of the monitor: the register state a boot needs, the exit
//! events a hypervisor reports, and the dispatch step that routes each I/O
//! exit to the matching bus. The hypervisor calls themselves (creating VM
//! and vCPU handles, installing registers, blocking until the next exit) are
//! performed by the surrounding host program, which feeds each exit to
//! [`Vcpu::handle_exit`] and applies what it returns.

use vstd::prelude::*;

use crate::device::{read_outcome, write_outcome, Bus, DevView, Range};
use crate::memory::MemoryAddr;

verus! {

/// Errors raised while configuring or running a vCPU.
#[derive(Clone, Copy, Debug, PartialEq, Eq, Structural)]
pub enum Error {
    /// A hypervisor capability call failed.
    Kvm,
    /// The vCPU handle could not be created.
    VcpuFd,
    /// The blocking run call itself failed.
    VcpuFailedRun,
    /// Register state could not be read or written.
    VcpuRegisters,
    /// The vCPU stopped for a reason this core does not model (a halt, or
    /// any unrecognized exit).
    VcpuUnhandled,
    /// An I/O exit could not be served by the matching bus.
    VcpuFailedIO,
}

/// A segment register: flat base and limit plus the descriptor flags.
#[derive(Clone, Copy, Debug, PartialEq, Eq, Structural)]
pub struct Segment {
    pub base: u64,
    pub limit: u32,
    pub selector: u16,
    pub type_: u8,
    pub present: u8,
    pub dpl: u8,
    pub db: u8,
    pub s: u8,
    pub l: u8,
    pub g: u8,
    pub avl: u8,
    pub unusable: u8,
}

/// A descriptor-table register: table base address and byte limit.
#[derive(Clone, Copy, Debug, PartialEq, Eq, Structural)]
pub struct Dtable {
    pub base: u64,
    pub limit: u16,
}

/// The all-zero segment value.
pub open spec fn spec_zero_segment() -> Segment {
    Segment {
        base: 0,
        limit: 0,
        selector: 0,
        type_: 0,
        present: 0,
        dpl: 0,
        db: 0,
        s: 0,
        l: 0,
        g: 0,
        avl: 0,
        unusable: 0,
    }
}

/// The special-register state this core computes for a vCPU: the
/// descriptor-table register and the segment registers, all set identically
/// to the flat code/data descriptors.
#[derive(Clone, Copy, Debug, PartialEq, Eq, Structural)]
pub struct Sregs {
    pub gdt: Dtable,
    pub cs: Segment,
    pub ss: Segment,
    pub ds: Segment,
    pub es: Segment,
    pub fs: Segment,
    pub gs: Segment,
}

impl Sregs {
    /// An all-zero special-register state, to be filled in by the
    /// descriptor-table builder.
    pub fn new() -> (r: Sregs)
        ensures
            r.gdt == (Dtable { base: 0, limit: 0 }),
            r.cs == spec_zero_segment(),
            r.ss == spec_zero_segment(),
            r.ds == spec_zero_segment(),
            r.es == spec_zero_segment(),
            r.fs == spec_zero_segment(),
            r.gs == spec_zero_segment(),
    {
        let z = Segment {
            base: 0,
            limit: 0,
            selector: 0,
            type_: 0,
            present: 0,
            dpl: 0,
            db: 0,
            s: 0,
            l: 0,
            g: 0,
            avl: 0,
            unusable: 0,
        };
        Sregs { gdt: Dtable { base: 0, limit: 0 }, cs: z, ss: z, ds: z, es: z, fs: z, gs: z }
    }
}

/// The general-purpose register state this core computes for booting a
/// loaded kernel: only the instruction pointer is determined here.
#[derive(Clone, Copy, Debug, PartialEq, Eq, Structural)]
pub struct Regs {
    pub rip: u64,
}

/// One exit reported by the hypervisor's blocking run call, reduced to
/// plain values: the two port-I/O and two memory-mapped-I/O events with
/// their address and either the data the guest wrote or the byte count it
/// asked for, plus the halt and catch-all events.
pub enum VcpuExit {
    /// The guest read from a port: port number and byte count wanted.
    IoIn(u16, usize),
    /// The guest wrote to a port: port number and the bytes written.
    IoOut(u16, Vec<u8>),
    /// The guest read a memory-mapped address: address and byte count.
    MmioRead(usize, usize),
    /// The guest wrote a memory-mapped address: address and the bytes.
    MmioWrite(usize, Vec<u8>),
    /// The guest executed a halt.
    Hlt,
    /// Any exit reason this core does not model.
    Other,
}

fn zero_vec(n: usize) -> (r: Vec<u8>)
    ensures
        r@ == Seq::new(n as nat, |_i: int| 0u8),
{
    let mut r: Vec<u8> = Vec::new();
    while r.len() < n
        invariant
            r@.len() <= n,
            forall|k: int| 0 <= k < r@.len() ==> r@[k] == 0u8,
        decreases n - r@.len(),
    {
        r.push(0u8);
    }
    proof {
        assert(r@ =~= Seq::new(n as nat, |_i: int| 0u8));
    }
    r
}

/// The exit-handling half of a virtual cpu: holds the memory-mapped and
/// port I/O buses and turns each hypervisor exit into the matching bus
/// operation. The blocking run call lives with the host program, which
/// feeds every exit it receives to [`Vcpu::handle_exit`], copies returned
/// bytes back into the hypervisor's buffer, and runs again.
pub struct Vcpu {
    mmio_bus: Bus,
    pio_bus: Bus,
}

impl Vcpu {
    /// The memory-mapped I/O bus's registered devices.
    pub closed spec fn mmio(self) -> Seq<(Range, DevView)> {
        self.mmio_bus@
    }

    /// The port I/O bus's registered devices.
    pub closed spec fn pio(self) -> Seq<(Range, DevView)> {
        self.pio_bus@
    }

    /// Create a virtual cpu with the provided I/O buses.
    pub fn new(mmio_bus: Bus, pio_bus: Bus) -> (r: Vcpu)
        ensures
            r.mmio() == mmio_bus@,
            r.pio() == pio_bus@,
    {
        Vcpu { mmio_bus, pio_bus }
    }

    /// The register state that boots a kernel loaded at `kernel_start`: the
    /// instruction pointer set there, everything else left for the host
    /// program's defaults.
    pub fn configure_kernel_load(&self, kernel_start: MemoryAddr) -> (r: Regs)
        ensures
            r.rip == kernel_start.0 as u64,
    {
        Regs { rip: kernel_start.0 as u64 }
    }

    /// Serve one hypervisor exit.
    ///
    /// A port or memory-mapped read is dispatched on the matching bus into a
    /// zeroed buffer of the requested length, which is returned for the host
    /// program to hand back to the guest; a write is dispatched with the
    /// guest's bytes and returns no data. Any bus failure is fatal to this
    /// step and reported as `VcpuFailedIO`; a halt, or an exit this core
    /// does not model, is `VcpuUnhandled`.
    pub fn handle_exit(&mut self, exit: VcpuExit) -> (r: Result<Option<Vec<u8>>, Error>)
        ensures
            exit matches VcpuExit::Hlt ==> r == Err::<Option<Vec<u8>>, Error>(Error::VcpuUnhandled)
                && final(self).mmio() == old(self).mmio() && final(self).pio() == old(self).pio(),
            exit matches VcpuExit::Other ==> r == Err::<Option<Vec<u8>>, Error>(
                Error::VcpuUnhandled,
            ) && final(self).mmio() == old(self).mmio() && final(self).pio() == old(self).pio(),
            exit matches VcpuExit::IoIn(port, len) ==> final(self).mmio() == old(self).mmio()
                && final(self).pio() == old(self).pio() && (match read_outcome(
                old(self).pio(),
                port as int,
                Seq::new(len as nat, |_i: int| 0u8),
            ) {
                Ok(s) => r matches Ok(o) && o matches Some(v) && v@ == s,
                Err(_) => r == Err::<Option<Vec<u8>>, Error>(Error::VcpuFailedIO),
            }),
            exit matches VcpuExit::IoOut(port, data) ==> final(self).mmio() == old(self).mmio() && (
            match write_outcome(old(self).pio(), port as int, data@) {
                Ok(bv) => r == Ok::<Option<Vec<u8>>, Error>(None) && final(self).pio() == bv,
                Err(_) => r == Err::<Option<Vec<u8>>, Error>(Error::VcpuFailedIO) && final(self).pio() == old(self).pio(),
            }),
            exit matches VcpuExit::MmioRead(addr, len) ==> final(self).mmio() == old(self).mmio()
                && final(self).pio() == old(self).pio() && (match read_outcome(
                old(self).mmio(),
                addr as int,
                Seq::new(len as nat, |_i: int| 0u8),
            ) {
                Ok(s) => r matches Ok(o) && o matches Some(v) && v@ == s,
                Err(_) => r == Err::<Option<Vec<u8>>, Error>(Error::VcpuFailedIO),
            }),
            exit matches VcpuExit::MmioWrite(addr, data) ==> final(self).pio() == old(self).pio()
                && (match write_outcome(old(self).mmio(), addr as int, data@) {
                Ok(bv) => r == Ok::<Option<Vec<u8>>, Error>(None) && final(self).mmio() == bv,
                Err(_) => r == Err::<Option<Vec<u8>>, Error>(Error::VcpuFailedIO) && final(self).mmio() == old(self).mmio(),
            }),
    {
        match exit {
            VcpuExit::IoIn(port, len) => {
                let mut buf = zero_vec(len);
                match self.pio_bus.read(MemoryAddr(port as usize), &mut buf) {
                    Ok(_) => Ok(Some(buf)),
                    Err(_) => Err(Error::VcpuFailedIO),
                }
            },
            VcpuExit::IoOut(port, data) => {
                match self.pio_bus.write(MemoryAddr(port as usize), data.as_slice()) {
                    Ok(_) => Ok(None),
                    Err(_) => Err(Error::VcpuFailedIO),
                }
            },
            VcpuExit::MmioRead(addr, len) => {
                let mut buf = zero_vec(len);
                match self.mmio_bus.read(MemoryAddr(addr), &mut buf) {
                    Ok(_) => Ok(Some(buf)),
                    Err(_) => Err(Error::VcpuFailedIO),
                }
            },
            VcpuExit::MmioWrite(addr, data) => {
                match self.mmio_bus.write(MemoryAddr(addr), data.as_slice()) {
                    Ok(_) => Ok(None),
                    Err(_) => Err(Error::VcpuFailedIO),
                }
            },
            VcpuExit::Hlt => Err(Error::VcpuUnhandled),
            VcpuExit::Other => Err(Error::VcpuUnhandled),
        }
    }
}

} // verus!
