//! The boot-image loader: parses the kernel image header at its fixed
//! offset, validates it, streams the kernel payload into guest memory, and
//! installs the flat descriptor table a 32-bit protected-mode boot needs.

use vstd::prelude::*;

pub mod gdt;

use crate::memory;
use crate::memory::{overwritten, Memory, MemoryAddr};
use crate::vm::{Dtable, Sregs};

verus! {

/// Errors raised while loading a kernel image or installing the descriptor
/// table.
#[derive(Clone, Copy, Debug, PartialEq, Eq, Structural)]
pub enum Error {
    /// The image's total length could not be determined.
    KernelSeekEnd,
    /// The image could not be positioned at the header offset.
    KernelSeekHdr,
    /// Copying the kernel payload into guest memory failed; carries the
    /// memory layer's error.
    KernelMemoryLoad(memory::Error),
    /// The header's magic field does not identify a kernel boot header.
    InvalidImage,
    /// The image, though its header is valid, ends inside its own setup
    /// sectors, so it holds no kernel payload.
    TruncatedImage,
    /// The image ends before the fixed-size header could be read whole.
    ReadStruct,
    /// A descriptor-table entry could not be written into guest memory.
    GDTEntryWrite,
}

/// File offset of the boot header.
pub const K_HDR_OFFSET: u16 = 0x01F1;

/// Value the header's magic field must hold ("HdrS").
pub const K_HDR_MAGIC: u32 = 0x5372_6448;

/// Guest address every kernel is loaded at, regardless of what the image
/// requested.
pub const K_BZ_LOAD_ADDR: u32 = 0x0010_0000;

/// Offset into the loaded image at which the 32-bit entry code begins.
pub const K_64BIT_OFFSET: u16 = 0x0200;

/// Byte size of the fixed boot-header structure.
pub const K_HDR_SIZE: u16 = 0x77;

/// Guest address the descriptor table is written at.
pub const GDT_BASE: u16 = 0x0500;

/// The header's magic field: a little-endian doubleword at file offset
/// 0x202.
pub open spec fn spec_magic(img: Seq<u8>) -> u32 {
    (img[0x202] as u32) | ((img[0x203] as u32) << 8) | ((img[0x204] as u32) << 16) | ((
    img[0x205] as u32) << 24)
}

/// The header's count of 512-byte setup sectors, at file offset 0x1F1.
pub open spec fn spec_setup_sects(img: Seq<u8>) -> u8 {
    img[0x1F1]
}

/// Bytes taken by the boot sector and setup sectors together; a zero sector
/// count stands for the legacy value 4.
pub open spec fn spec_setup_size(img: Seq<u8>) -> int {
    if spec_setup_sects(img) == 0 {
        (4int + 1) * 512
    } else {
        (spec_setup_sects(img) as int + 1) * 512
    }
}

/// Bytes of kernel payload following the setup sectors.
pub open spec fn spec_kernel_size(img: Seq<u8>) -> int {
    img.len() - spec_setup_size(img)
}

/// Addresses derived once while loading: where the kernel begins, where
/// execution enters it, and where its payload ends.
#[derive(Clone, Copy, Debug, PartialEq, Eq, Structural)]
pub struct LoadInfo {
    pub kernel_start: MemoryAddr,
    pub entry_point: MemoryAddr,
    pub heap_end: MemoryAddr,
}

/// Load the kernel image into guest memory.
///
/// The header is read at its fixed offset and the magic field checked; the
/// setup sectors are skipped (a zero sector count standing for the legacy
/// value 4); the payload after them is copied whole to the fixed load
/// address; and the derived addresses are returned. An image that ends
/// inside the header fails `ReadStruct`; a wrong magic fails `InvalidImage`;
/// an image shorter than its own setup sectors fails `TruncatedImage`; a
/// payload that would not fit in guest memory fails `KernelMemoryLoad`. On
/// every failure guest memory is left unchanged.
pub fn load_kernel<M: Memory>(mem: &mut M, image: &Vec<u8>) -> (r: Result<LoadInfo, Error>)
    ensures
        final(mem).contents().len() == old(mem).contents().len(),
        image@.len() < K_HDR_OFFSET + K_HDR_SIZE ==> r == Err::<LoadInfo, Error>(Error::ReadStruct)
            && final(mem).contents() == old(mem).contents(),
        image@.len() >= K_HDR_OFFSET + K_HDR_SIZE && spec_magic(image@) != K_HDR_MAGIC ==> r
            == Err::<LoadInfo, Error>(Error::InvalidImage) && final(mem).contents() == old(mem).contents(),
        image@.len() >= K_HDR_OFFSET + K_HDR_SIZE && spec_magic(image@) == K_HDR_MAGIC && image@.len()
            < spec_setup_size(image@) ==> r == Err::<LoadInfo, Error>(Error::TruncatedImage) && final(mem).contents() == old(mem).contents(),
        image@.len() >= K_HDR_OFFSET + K_HDR_SIZE && spec_magic(image@) == K_HDR_MAGIC && image@.len()
            >= spec_setup_size(image@) && K_BZ_LOAD_ADDR + spec_kernel_size(image@) > old(mem).contents().len() ==> r == Err::<LoadInfo, Error>(
            Error::KernelMemoryLoad(memory::Error::OutOfBounds),
        ) && final(mem).contents() == old(mem).contents(),
        image@.len() >= K_HDR_OFFSET + K_HDR_SIZE && spec_magic(image@) == K_HDR_MAGIC && image@.len()
            >= spec_setup_size(image@) && K_BZ_LOAD_ADDR + spec_kernel_size(image@) <= old(mem).contents().len() ==> (r matches Ok(info) && info.kernel_start.0 == K_BZ_LOAD_ADDR
            && info.entry_point.0 == K_BZ_LOAD_ADDR + K_64BIT_OFFSET && info.heap_end.0
            == K_BZ_LOAD_ADDR + spec_kernel_size(image@) && final(mem).contents() == overwritten(
            old(mem).contents(),
            K_BZ_LOAD_ADDR as int,
            image@.subrange(spec_setup_size(image@), image@.len() as int),
        )),
{
    let total = image.len();
    // The size call pins the region length to a machine word, which bounds
    // the heap-end arithmetic below.
    let _region_size: usize = mem.size();
    if total < K_HDR_OFFSET as usize + K_HDR_SIZE as usize {
        return Err(Error::ReadStruct);
    }
    let magic = (image[0x202] as u32) | ((image[0x203] as u32) << 8) | ((image[0x204] as u32) << 16)
        | ((image[0x205] as u32) << 24);
    if magic != K_HDR_MAGIC {
        return Err(Error::InvalidImage);
    }
    let sects = image[0x1F1];
    let setup_size: usize = if sects == 0 {
        (4 + 1) * 512
    } else {
        (sects as usize + 1) * 512
    };
    if total < setup_size {
        return Err(Error::TruncatedImage);
    }
    let kernel_size = total - setup_size;
    let src = vstd::slice::slice_subrange(image.as_slice(), setup_size, total);
    match mem.read_from(MemoryAddr(K_BZ_LOAD_ADDR as usize), src, kernel_size) {
        Ok(_) => {},
        Err(e) => {
            proof {
                assert(src@.len() == kernel_size);
            }
            return Err(Error::KernelMemoryLoad(e));
        },
    }
    proof {
        assert(src@.subrange(0, kernel_size as int) =~= image@.subrange(
            spec_setup_size(image@),
            image@.len() as int,
        ));
    }
    let info = LoadInfo {
        kernel_start: MemoryAddr(K_BZ_LOAD_ADDR as usize),
        entry_point: MemoryAddr(K_BZ_LOAD_ADDR as usize + K_64BIT_OFFSET as usize),
        heap_end: MemoryAddr(K_BZ_LOAD_ADDR as usize + kernel_size),
    };
    Ok(info)
}

/// The legacy-sectors rule changes nothing but the header byte it reads: an
/// image whose setup-sector count is zero has the same setup size, kernel
/// size, magic and kernel payload as the same image with the count set to
/// 4, so the loader treats the two identically.
pub proof fn lemma_legacy_setup_sects(img: Seq<u8>)
    requires
        img.len() >= K_HDR_OFFSET + K_HDR_SIZE,
        img[0x1F1] == 0,
    ensures
        spec_setup_size(img) == spec_setup_size(img.update(0x1F1, 4u8)),
        spec_kernel_size(img) == spec_kernel_size(img.update(0x1F1, 4u8)),
        spec_magic(img) == spec_magic(img.update(0x1F1, 4u8)),
        img.len() >= spec_setup_size(img) ==> img.update(0x1F1, 4u8).subrange(
            spec_setup_size(img),
            img.len() as int,
        ) == img.subrange(spec_setup_size(img), img.len() as int),
{
    if img.len() >= spec_setup_size(img) {
        assert(img.update(0x1F1, 4u8).subrange(spec_setup_size(img), img.len() as int)
            =~= img.subrange(spec_setup_size(img), img.len() as int));
    }
}

/// The three descriptors of the flat table — null, code, data — in their
/// packed 8-byte forms, back to back, each in the standard in-memory
/// descriptor order, least significant byte first.
pub open spec fn spec_gdt_bytes() -> Seq<u8> {
    spec_le_bytes(gdt::spec_pack(0, 0, 0, 0)) + spec_le_bytes(
        gdt::spec_pack(0, 0xffff_ffff, 0x9a, 0xcf),
    ) + spec_le_bytes(gdt::spec_pack(0, 0xffff_ffff, 0x92, 0xcf))
}

/// The eight bytes of a doubleword-pair value, least significant first.
pub open spec fn spec_le_bytes(v: u64) -> Seq<u8> {
    seq![
        (v & 0xff) as u8,
        ((v >> 8) & 0xff) as u8,
        ((v >> 16) & 0xff) as u8,
        ((v >> 24) & 0xff) as u8,
        ((v >> 32) & 0xff) as u8,
        ((v >> 40) & 0xff) as u8,
        ((v >> 48) & 0xff) as u8,
        ((v >> 56) & 0xff) as u8,
    ]
}

fn u64_le_bytes(v: u64) -> (r: Vec<u8>)
    ensures
        r@ == spec_le_bytes(v),
{
    proof {
        assert(((v >> 56) & 0xff) < 256 && ((v >> 48) & 0xff) < 256 && ((v >> 40) & 0xff) < 256 && ((
        v >> 32) & 0xff) < 256 && ((v >> 24) & 0xff) < 256 && ((v >> 16) & 0xff) < 256 && ((v >> 8)
            & 0xff) < 256 && (v & 0xff) < 256) by (bit_vector);
    }
    let mut r: Vec<u8> = Vec::new();
    r.push((v & 0xff) as u8);
    r.push(((v >> 8) & 0xff) as u8);
    r.push(((v >> 16) & 0xff) as u8);
    r.push(((v >> 24) & 0xff) as u8);
    r.push(((v >> 32) & 0xff) as u8);
    r.push(((v >> 40) & 0xff) as u8);
    r.push(((v >> 48) & 0xff) as u8);
    r.push(((v >> 56) & 0xff) as u8);
    proof {
        assert(r@ =~= spec_le_bytes(v));
    }
    r
}

fn write_gdt_entry<M: Memory>(mem: &mut M, entry: &gdt::Entry, addr: MemoryAddr) -> (r: Result<
    (),
    Error,
>)
    requires
        addr.0 + 8 <= old(mem).contents().len(),
    ensures
        r == Ok::<(), Error>(()),
        final(mem).contents() == overwritten(
            old(mem).contents(),
            addr.0 as int,
            spec_le_bytes(gdt::spec_pack_fields(*entry)),
        ),
{
    let packed = entry.pack();
    let bs = u64_le_bytes(packed);
    let outcome = mem.read_from(addr, bs.as_slice(), 8);
    proof {
        assert(bs@.subrange(0, 8) =~= bs@);
    }
    match outcome {
        Ok(_) => Ok(()),
        Err(_) => Err(Error::GDTEntryWrite),
    }
}

/// Write the flat descriptor table — null, code and data descriptors — into
/// guest memory at the fixed table base, and fill in the special-register
/// state a vCPU needs to run against it: the descriptor-table register, the
/// code segment from the code descriptor under its table selector, and
/// every data segment register identically from the data descriptor under
/// its. Fails `GDTEntryWrite`, changing nothing, if the table does not fit
/// in guest memory.
pub fn configure_gdt_table<M: Memory>(mem: &mut M, sregs: &mut Sregs) -> (r: Result<(), Error>)
    ensures
        final(mem).contents().len() == old(mem).contents().len(),
        old(mem).contents().len() < GDT_BASE + 24 ==> r == Err::<(), Error>(Error::GDTEntryWrite)
            && final(mem).contents() == old(mem).contents() && *final(sregs) == *old(sregs),
        old(mem).contents().len() >= GDT_BASE + 24 ==> r == Ok::<(), Error>(()) && final(mem).contents() == overwritten(old(mem).contents(), GDT_BASE as int, spec_gdt_bytes()) && final(sregs).gdt == (Dtable { base: GDT_BASE as u64, limit: 23 }) && final(sregs).cs
            == gdt::spec_segment_of(0, 0xffff_ffff, 0x9a, 0xcf, 0x08) && final(sregs).ss
            == gdt::spec_segment_of(0, 0xffff_ffff, 0x92, 0xcf, 0x10) && final(sregs).ds == final(sregs).ss && final(sregs).es == final(sregs).ss && final(sregs).fs == final(sregs).ss && final(sregs).gs == final(sregs).ss,
{
    let sz = mem.size();
    if sz < GDT_BASE as usize + 24 {
        return Err(Error::GDTEntryWrite);
    }
    let null_entry = gdt::Entry::new(0, 0, 0, 0);
    let code_entry = gdt::Entry::new(0, 0xffff_ffff, 0x9a, 0xcf);
    let data_entry = gdt::Entry::new(0, 0xffff_ffff, 0x92, 0xcf);
    write_gdt_entry(mem, &null_entry, MemoryAddr(GDT_BASE as usize))?;
    write_gdt_entry(mem, &code_entry, MemoryAddr(GDT_BASE as usize + 8))?;
    write_gdt_entry(mem, &data_entry, MemoryAddr(GDT_BASE as usize + 16))?;
    proof {
        assert(mem.contents() =~= overwritten(
            old(mem).contents(),
            GDT_BASE as int,
            spec_gdt_bytes(),
        ));
    }
    sregs.gdt = Dtable { base: GDT_BASE as u64, limit: 24 - 1 };
    sregs.cs = code_entry.segment(0x08);
    let data_seg = data_entry.segment(0x10);
    sregs.ss = data_seg;
    sregs.ds = data_seg;
    sregs.es = data_seg;
    sregs.fs = data_seg;
    sregs.gs = data_seg;
    Ok(())
}

} // verus!
