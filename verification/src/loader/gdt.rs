//! Segment descriptors for a flat 32-bit descriptor table: construction,
//! packing into the 8-byte binary descriptor form, and the segment-register
//! value each descriptor induces.

use vstd::prelude::*;

use crate::vm::Segment;

verus! {

/// The packed 8-byte descriptor for the given base, limit, access byte and
/// granularity byte, per the standard segment-descriptor bit layout: base
/// split into low word, middle and high byte; the low word of the limit;
/// the access byte; and a flags byte joining the high nibble of the
/// granularity byte with bits 19:16 of the limit.
pub open spec fn spec_pack(base: u32, limit: u32, access: u8, gran: u8) -> u64 {
    (((base as u64) >> 24) << 56) | ((((gran as u64) & 0xf0) | (((limit as u64) >> 16) & 0x0f))
        << 48) | ((access as u64) << 40) | ((((base as u64) >> 16) & 0xff) << 32) | (((base as u64)
        & 0xffff) << 16) | ((limit as u64) & 0xffff)
}

/// The packed descriptor as a function of an entry's stored fields.
pub open spec fn spec_pack_fields(e: Entry) -> u64 {
    ((e.base_high as u64) << 56) | ((e.gran as u64) << 48) | ((e.access as u64) << 40) | ((
    e.base_middle as u64) << 32) | ((e.base_low as u64) << 16) | (e.limit_low as u64)
}

/// The segment-register value a descriptor with these construction
/// parameters induces when installed under `selector`: flat base and limit,
/// with the present bit, descriptor type, segment type and privilege level
/// drawn from the access byte, and operand size and granularity from the
/// granularity byte.
pub open spec fn spec_segment_of(base: u32, limit: u32, access: u8, gran: u8, selector: u16) -> Segment {
    Segment {
        base: base as u64,
        limit: limit,
        selector: selector,
        type_: access & 0x0f,
        present: access >> 7,
        dpl: (access & 0x60) >> 5,
        db: (gran & 0x40) >> 6,
        s: (access & 0x10) >> 4,
        l: 0,
        g: gran >> 7,
        avl: 0,
        unusable: 0,
    }
}

/// One descriptor-table entry, holding its construction parameters alongside
/// the split fields of the packed form; `gran` is the packed flags byte,
/// granularity nibble over limit bits 19:16.
pub struct Entry {
    pub base: u32,
    pub limit: u32,
    pub limit_low: u16,
    pub base_low: u16,
    pub base_middle: u8,
    pub access: u8,
    pub gran: u8,
    pub base_high: u8,
}

impl Entry {
    /// Build an entry for a segment with the given base, limit, access byte
    /// and granularity byte; the flags byte keeps the granularity byte's
    /// high nibble and takes bits 19:16 of the limit as its low nibble.
    pub fn new(base: u32, limit: u32, access: u8, gran: u8) -> (r: Entry)
        ensures
            r.base == base,
            r.limit == limit,
            r.access == access,
            r.gran == (gran & 0xf0) | (((limit >> 16) & 0x0f) as u8),
            r.limit_low == (limit & 0xffff) as u16,
            r.base_low == (base & 0xffff) as u16,
            r.base_middle == ((base >> 16) & 0xff) as u8,
            r.base_high == ((base >> 24) & 0xff) as u8,
            r.gran & 0x40 == gran & 0x40,
            r.gran >> 7 == gran >> 7,
            spec_pack_fields(r) == spec_pack(base, limit, access, gran),
    {
        proof {
            assert((limit & 0xffff) < 0x10000 && (base & 0xffff) < 0x10000 && ((base >> 16) & 0xff)
                < 0x100 && ((base >> 24) & 0xff) < 0x100 && ((limit >> 16) & 0x0f) < 0x100)
                by (bit_vector);
        }
        let r = Entry {
            base,
            limit,
            limit_low: (limit & 0xffff) as u16,
            base_low: (base & 0xffff) as u16,
            base_middle: ((base >> 16) & 0xff) as u8,
            access,
            gran: (gran & 0xf0) | (((limit >> 16) & 0x0f) as u8),
            base_high: ((base >> 24) & 0xff) as u8,
        };
        proof {
            let g = r.gran;
            assert(g == (gran & 0xf0) | (((limit >> 16) & 0x0f) as u8) ==> g & 0x40 == gran & 0x40
                && g >> 7 == gran >> 7) by (bit_vector);
            let bh = r.base_high;
            let a = r.access;
            let bm = r.base_middle;
            let bl = r.base_low;
            let ll = r.limit_low;
            assert(bh == ((base >> 24) & 0xff) as u8 && g == (gran & 0xf0) | (((limit >> 16)
                & 0x0f) as u8) && a == access && bm == ((base >> 16) & 0xff) as u8 && bl == (base
                & 0xffff) as u16 && ll == (limit & 0xffff) as u16 ==> ((bh as u64) << 56) | ((
            g as u64) << 48) | ((a as u64) << 40) | ((bm as u64) << 32) | ((bl as u64) << 16) | (
            ll as u64) == (((base as u64) >> 24) << 56) | ((((gran as u64) & 0xf0) | (((
            limit as u64) >> 16) & 0x0f)) << 48) | ((access as u64) << 40) | ((((base as u64) >> 16)
                & 0xff) << 32) | (((base as u64) & 0xffff) << 16) | ((limit as u64) & 0xffff))
                by (bit_vector);
        }
        r
    }

    /// The entry in its packed 8-byte binary descriptor form.
    pub fn pack(&self) -> (r: u64)
        ensures
            r == spec_pack_fields(*self),
    {
        ((self.base_high as u64) << 56) | ((self.gran as u64) << 48) | ((self.access as u64) << 40)
            | ((self.base_middle as u64) << 32) | ((self.base_low as u64) << 16)
            | (self.limit_low as u64)
    }

    /// The segment-register value this entry induces when its descriptor is
    /// installed under `selector`.
    pub fn segment(&self, selector: u16) -> (r: Segment)
        ensures
            r == spec_segment_of(self.base, self.limit, self.access, self.gran, selector),
    {
        Segment {
            base: self.base as u64,
            limit: self.limit,
            selector,
            type_: self.get_type(),
            present: self.get_p(),
            dpl: self.get_dpl(),
            db: self.get_d(),
            s: self.get_dt(),
            l: 0,
            g: self.get_g(),
            avl: 0,
            unusable: 0,
        }
    }

    /// Is the segment present?
    fn get_p(&self) -> (r: u8)
        ensures
            r == self.access >> 7,
    {
        self.access >> 7
    }

    /// Descriptor privilege level (ring 0-3).
    fn get_dpl(&self) -> (r: u8)
        ensures
            r == (self.access & 0x60) >> 5,
    {
        (self.access & 0x60) >> 5
    }

    /// Descriptor type.
    fn get_dt(&self) -> (r: u8)
        ensures
            r == (self.access & 0x10) >> 4,
    {
        (self.access & 0x10) >> 4
    }

    /// Segment type.
    fn get_type(&self) -> (r: u8)
        ensures
            r == self.access & 0x0f,
    {
        self.access & 0x0f
    }

    /// Granularity (0 = byte, 1 = 4 KiB pages).
    fn get_g(&self) -> (r: u8)
        ensures
            r == self.gran >> 7,
    {
        self.gran >> 7
    }

    /// Operand size (0 = 16 bit, 1 = 32 bit).
    fn get_d(&self) -> (r: u8)
        ensures
            r == (self.gran & 0x40) >> 6,
    {
        (self.gran & 0x40) >> 6
    }
}

} // verus!
