//! The loader protocol: the service-function table and the platform
//! descriptor it points at.
//!
//! A loader hands the entry stub one address, the service-function table: an
//! ordered table of host-service function addresses that the core only
//! forwards and never mutates.  One fixed slot of that table carries the
//! address of the platform descriptor, a record of machine-word fields at
//! fixed offsets — a binding contract between loader and binary.  In this
//! model memory is a vector of machine words and an address is a word index.

use vstd::prelude::*;

verus! {

/// The slot of the service-function table that carries the platform
/// descriptor's address: byte offset 72, the tenth word.
pub const DESCRIPTOR_SLOT: usize = 9;

/// Word offsets of the platform descriptor's fields from its base address.
/// Byte offsets 0, 8, 16, 24, 32 and 40 of the loader protocol.
pub const DESC_RELOC_TABLE_BASE: usize = 0;

pub const DESC_FLAGS: usize = 1;

pub const DESC_LEADING_UNUSED: usize = 2;

pub const DESC_IMAGE_BASE: usize = 3;

pub const DESC_RELOC_OFFSET: usize = 4;

pub const DESC_RELOC_SIZE: usize = 5;

/// The number of descriptor words the bootstrap consumes.
pub const DESC_WORDS: usize = 6;

/// The flag bit that disables the stack-probe shim.
pub const FLAG_NO_STACK_PROBE: u64 = 1;

/// The platform descriptor, read once at bootstrap and handed opaquely
/// onward: where the relocation metadata lies, how the image was placed,
/// and the behaviour flags.
#[derive(Clone, Copy, PartialEq, Eq, Structural, Debug)]
pub struct PlatformDescriptor {
    /// Carrier of the relocation-table base address.
    pub reloc_table_base: u64,
    /// Behaviour flags; bit 0 set disables the stack-probe shim.
    pub flags: u64,
    /// Leading bytes of the placed image that hold no image data.
    pub leading_unused: u64,
    /// The image's link-time base address.
    pub image_base: u64,
    /// Offset of the relocation table within the image.
    pub reloc_offset: u64,
    /// Size of the relocation table.
    pub reloc_size: u64,
}

/// Whether a descriptor's flags disable the stack-probe shim: bit 0.
pub open spec fn spec_probe_disabled(flags: u64) -> bool {
    flags & FLAG_NO_STACK_PROBE == 1
}

/// Tests the stack-probe flag bit of a descriptor's flags word.
pub fn probe_disabled(flags: u64) -> (b: bool)
    ensures
        b == spec_probe_disabled(flags),
{
    flags & FLAG_NO_STACK_PROBE == 1
}

/// Reads the platform descriptor's address out of a service-function table
/// that starts at word `table_at` of memory: the fixed descriptor slot.
pub fn read_descriptor_address(mem: &Vec<u64>, table_at: usize) -> (addr: u64)
    requires
        table_at + DESCRIPTOR_SLOT < mem@.len(),
    ensures
        addr == mem@[table_at + DESCRIPTOR_SLOT],
{
    let n = mem.len();
    assert(table_at + DESCRIPTOR_SLOT < n);
    mem[table_at + DESCRIPTOR_SLOT]
}

/// Reads the six consumed descriptor fields from their fixed word offsets at
/// `desc_at`.  This is the binding layout contract between a loader and the
/// binary: each field comes from exactly its offset, whatever memory holds.
pub fn load_descriptor(mem: &Vec<u64>, desc_at: usize) -> (d: PlatformDescriptor)
    requires
        desc_at + DESC_WORDS <= mem@.len(),
    ensures
        d.reloc_table_base == mem@[desc_at + DESC_RELOC_TABLE_BASE],
        d.flags == mem@[desc_at + DESC_FLAGS],
        d.leading_unused == mem@[desc_at + DESC_LEADING_UNUSED],
        d.image_base == mem@[desc_at + DESC_IMAGE_BASE],
        d.reloc_offset == mem@[desc_at + DESC_RELOC_OFFSET],
        d.reloc_size == mem@[desc_at + DESC_RELOC_SIZE],
{
    let n = mem.len();
    assert(desc_at + DESC_WORDS <= n);
    PlatformDescriptor {
        reloc_table_base: mem[desc_at + DESC_RELOC_TABLE_BASE],
        flags: mem[desc_at + DESC_FLAGS],
        leading_unused: mem[desc_at + DESC_LEADING_UNUSED],
        image_base: mem[desc_at + DESC_IMAGE_BASE],
        reloc_offset: mem[desc_at + DESC_RELOC_OFFSET],
        reloc_size: mem[desc_at + DESC_RELOC_SIZE],
    }
}

/// The descriptor a standalone launch fabricates ahead of the entry point,
/// when no loader supplied one: the image as placed (no leading unused
/// bytes), every flag clear, and the relocation metadata as the build laid
/// it down.  An external loader overwrites this data in place before
/// transferring control, which makes the substitution transparent past the
/// entry stub.
pub fn fabricate_descriptor(image_base: u64, reloc_offset: u64, reloc_size: u64) -> (d:
    PlatformDescriptor)
    ensures
        d.reloc_table_base == 0,
        d.flags == 0,
        !spec_probe_disabled(d.flags),
        d.leading_unused == 0,
        d.image_base == image_base,
        d.reloc_offset == reloc_offset,
        d.reloc_size == reloc_size,
{
    proof {
        assert(0u64 & 1u64 == 0u64) by (bit_vector);
    }
    PlatformDescriptor {
        reloc_table_base: 0,
        flags: 0,
        leading_unused: 0,
        image_base,
        reloc_offset,
        reloc_size,
    }
}

/// A fabricated service-function table: as many word slots as the loader
/// protocol consumes, all cleared, except the fixed descriptor slot, which
/// carries the given descriptor address.  A loader-produced table routes the
/// descriptor through exactly the same slot.
pub fn fabricate_service_table(descriptor_addr: u64) -> (t: Vec<u64>)
    ensures
        t@.len() == DESCRIPTOR_SLOT + 1,
        t@[DESCRIPTOR_SLOT as int] == descriptor_addr,
        forall|i: int| 0 <= i < DESCRIPTOR_SLOT ==> t@[i] == 0,
{
    let mut t: Vec<u64> = Vec::new();
    let mut i: usize = 0;
    while i < DESCRIPTOR_SLOT
        invariant
            i <= DESCRIPTOR_SLOT,
            t@.len() == i,
            forall|k: int| 0 <= k < i ==> t@[k] == 0,
        decreases DESCRIPTOR_SLOT - i,
    {
        t.push(0);
        i += 1;
    }
    t.push(descriptor_addr);
    t
}

/// The process-wide platform state: the service-table pointer is the only
/// shared mutable state of the whole layer.  It is written exactly once,
/// during bootstrap, before any reader exists, and only read afterwards, so
/// no synchronization is ever needed.
pub struct PlatformState {
    pub initialized: bool,
    pub service_table: u64,
}

impl PlatformState {
    /// The state before bootstrap: nothing written yet.
    pub fn new() -> (s: PlatformState)
        ensures
            !s.initialized,
    {
        PlatformState { initialized: false, service_table: 0 }
    }

    /// The single write: records the service-table address.  No second
    /// writer can exist, so initializing twice is outside the contract.
    pub fn init(&mut self, service_table: u64)
        requires
            !old(self).initialized,
        ensures
            final(self).initialized,
            final(self).service_table == service_table,
    {
        self.initialized = true;
        self.service_table = service_table;
    }

    /// Reads the service-table address; only allowed once bootstrap has
    /// written it.
    pub fn service_table_address(&self) -> (a: u64)
        requires
            self.initialized,
        ensures
            a == self.service_table,
    {
        self.service_table
    }
}

} // verus!
