//! Memory map scanner and heap bounds.
//!
//! The boot loader hands over an ordered list of physical memory regions.
//! One linear pass finds the end of the last region and the end of the first
//! region still owned by the boot loader; the heap is carved out of what lies
//! between them, shifted by the physical-memory mapping offset.

use vstd::prelude::*;

verus! {

/// What kind of physical memory a boot-supplied region holds.
#[derive(Clone, Copy, PartialEq, Eq, Structural, Debug)]
pub enum MemoryRegionKind {
    /// Free memory the kernel may use.
    Usable,
    /// Memory still holding boot loader data; free once boot is over.
    BootLoaderOwned,
    /// A UEFI region of a kind this kernel does not interpret.
    UnknownUefi(u32),
    /// A BIOS region of a kind this kernel does not interpret.
    UnknownBios(u32),
    /// Anything else the boot loader reports.
    Other,
}

/// One region of the boot-supplied physical memory map.
#[derive(Clone, Copy, PartialEq, Eq, Structural, Debug)]
pub struct MemoryRegion {
    /// First physical address of the region.
    pub start: u64,
    /// Physical address one past the region.
    pub end: u64,
    /// What the region holds.
    pub kind: MemoryRegionKind,
}

/// The heap region handed to the allocator once at boot.
#[derive(Clone, Copy, PartialEq, Eq, Structural, Debug)]
pub struct HeapBounds {
    /// First virtual address of the heap.
    pub start: u64,
    /// Length of the heap in bytes.
    pub size: u64,
}

/// Whether the boot loader still owns this region.
pub open spec fn is_bootloader_owned(r: MemoryRegion) -> bool {
    r.kind is BootLoaderOwned
}

/// The heap start address: one past the boot-loader-owned region, shifted
/// into the virtual mapping of physical memory.
pub open spec fn heap_start_spec(bootloader_end: u64, phys_offset: u64) -> int {
    bootloader_end + 1 + phys_offset
}

/// The heap size: everything from one past the boot-loader-owned region to
/// the end of the last region.
pub open spec fn heap_size_spec(last_end: u64, bootloader_end: u64) -> int {
    last_end - (bootloader_end + 1)
}

/// The running state of the scanner's single linear pass: what the regions
/// seen so far yield. Feeding regions one at a time needs no storage, so a
/// caller can fold the boot loader's list before any allocator exists.
pub struct RegionScan {
    /// End address of the most recently seen region, if any was seen.
    pub last_end: Option<u64>,
    /// End address of the first boot-loader-owned region seen, if any.
    pub bootloader_end: Option<u64>,
}

impl RegionScan {
    /// A scan that has seen no region yet.
    pub fn new() -> (s: RegionScan)
        ensures
            s.last_end is None,
            s.bootloader_end is None,
    {
        RegionScan { last_end: None, bootloader_end: None }
    }

    /// Folds one more region, in iteration order, into the scan: the last
    /// end follows the newest region, and the boot-loader end sticks at
    /// the first boot-loader-owned region and never moves again.
    pub fn step(&mut self, region: MemoryRegion)
        ensures
            final(self).last_end == Some(region.end),
            final(self).bootloader_end == (if old(self).bootloader_end is Some {
                old(self).bootloader_end
            } else if is_bootloader_owned(region) {
                Some(region.end)
            } else {
                None::<u64>
            }),
    {
        self.last_end = Some(region.end);
        if self.bootloader_end.is_none() {
            match region.kind {
                MemoryRegionKind::BootLoaderOwned => {
                    self.bootloader_end = Some(region.end);
                },
                _ => {},
            }
        }
    }
}

/// Walks the boot-supplied region list once and returns the end address of
/// the final region together with the end address of the first region owned
/// by the boot loader. A conforming boot loader always reports its own
/// region, so one must be present.
pub fn scan(regions: &Vec<MemoryRegion>) -> (r: (u64, u64))
    requires
        regions@.len() > 0,
        exists|i: int| 0 <= i < regions@.len() && is_bootloader_owned(regions@[i]),
    ensures
        r.0 == regions@.last().end,
        exists|i: int|
            0 <= i < regions@.len() && is_bootloader_owned(regions@[i]) && r.1 == regions@[i].end
                && (forall|j: int| 0 <= j < i ==> !is_bootloader_owned(regions@[j])),
{
    let n: usize = regions.len();
    let mut state = RegionScan::new();
    let mut k: usize = 0;
    while k < n
        invariant
            n == regions@.len(),
            n > 0,
            k <= n,
            k > 0 ==> state.last_end == Some(regions@[k - 1].end),
            k == 0 ==> state.last_end is None,
            state.bootloader_end is None ==> forall|j: int|
                0 <= j < k ==> !is_bootloader_owned(regions@[j]),
            state.bootloader_end matches Some(e) ==> exists|i: int|
                0 <= i < k && is_bootloader_owned(regions@[i]) && e == regions@[i].end && (forall|
                    j: int,
                |
                    0 <= j < i ==> !is_bootloader_owned(regions@[j])),
            exists|i: int| 0 <= i < regions@.len() && is_bootloader_owned(regions@[i]),
        decreases n - k,
    {
        state.step(regions[k]);
        k = k + 1;
    }
    proof {
        let i = choose|i: int| 0 <= i < regions@.len() && is_bootloader_owned(regions@[i]);
        assert(!(state.bootloader_end is None));
    }
    let last_end: u64 = match state.last_end {
        Some(e) => e,
        None => vstd::pervasive::unreached(),
    };
    let bootloader_end: u64 = match state.bootloader_end {
        Some(e) => e,
        None => vstd::pervasive::unreached(),
    };
    (last_end, bootloader_end)
}

/// Derives the heap region from the two scanned end addresses and the
/// boot-supplied physical-memory mapping offset, by the fixed formulas
/// `start = bootloader_end + 1 + phys_offset` and
/// `size = last_end - (bootloader_end + 1)`.
pub fn compute_heap_bounds(last_end: u64, bootloader_end: u64, phys_offset: u64) -> (r: HeapBounds)
    requires
        bootloader_end + 1 + phys_offset <= u64::MAX,
        bootloader_end + 1 <= last_end,
    ensures
        r.start == heap_start_spec(bootloader_end, phys_offset),
        r.size == heap_size_spec(last_end, bootloader_end),
{
    HeapBounds {
        start: bootloader_end + 1 + phys_offset,
        size: last_end - (bootloader_end + 1),
    }
}

/// Deriving heap bounds is pure: two results obtained from the same three
/// inputs are one and the same value, and the size always equals
/// `last_end - bootloader_end - 1`.
pub proof fn lemma_heap_bounds_deterministic(
    last_end: u64,
    bootloader_end: u64,
    phys_offset: u64,
    a: HeapBounds,
    b: HeapBounds,
)
    requires
        a.start == heap_start_spec(bootloader_end, phys_offset),
        a.size == heap_size_spec(last_end, bootloader_end),
        b.start == heap_start_spec(bootloader_end, phys_offset),
        b.size == heap_size_spec(last_end, bootloader_end),
    ensures
        a == b,
        a.size == last_end - bootloader_end - 1,
{
}

} // verus!
