use kernel_with_bootloader::memory::{
    compute_heap_bounds, scan, MemoryRegion, MemoryRegionKind,
};

fn region(start: u64, end: u64, kind: MemoryRegionKind) -> MemoryRegion {
    MemoryRegion { start, end, kind }
}

#[test]
fn scan_returns_last_end_and_first_bootloader_end() {
    let regions = vec![
        region(0, 0x1000, MemoryRegionKind::BootLoaderOwned),
        region(0x1000, 0x2000, MemoryRegionKind::Usable),
        region(0x2000, 0x9000, MemoryRegionKind::Usable),
    ];
    let (last_end, bootloader_end) = scan(&regions);
    assert_eq!(last_end, 0x9000);
    assert_eq!(bootloader_end, 0x1000);
}

#[test]
fn scan_stops_at_the_first_bootloader_region() {
    let regions = vec![
        region(0, 0x500, MemoryRegionKind::Usable),
        region(0x500, 0x800, MemoryRegionKind::BootLoaderOwned),
        region(0x800, 0x900, MemoryRegionKind::BootLoaderOwned),
        region(0x900, 0x2000, MemoryRegionKind::Other),
    ];
    let (last_end, bootloader_end) = scan(&regions);
    assert_eq!(last_end, 0x2000);
    assert_eq!(bootloader_end, 0x800);
}

#[test]
fn scan_skips_unknown_regions() {
    let regions = vec![
        region(0, 0x100, MemoryRegionKind::UnknownUefi(7)),
        region(0x100, 0x200, MemoryRegionKind::UnknownBios(3)),
        region(0x200, 0x300, MemoryRegionKind::BootLoaderOwned),
    ];
    let (last_end, bootloader_end) = scan(&regions);
    assert_eq!(last_end, 0x300);
    assert_eq!(bootloader_end, 0x300);
}

#[test]
fn heap_bounds_follow_the_literal_formulas() {
    // Regions (0, 0x1000, BootLoaderOwned), (0x1000, 0x2000, Usable),
    // (0x2000, 0x9000, Usable) with offset 0x1000: the documented
    // off-by-one placement gives start 0x1000 + 1 + 0x1000 and size
    // 0x9000 - (0x1000 + 1).
    let regions = vec![
        region(0, 0x1000, MemoryRegionKind::BootLoaderOwned),
        region(0x1000, 0x2000, MemoryRegionKind::Usable),
        region(0x2000, 0x9000, MemoryRegionKind::Usable),
    ];
    let (last_end, bootloader_end) = scan(&regions);
    let bounds = compute_heap_bounds(last_end, bootloader_end, 0x1000);
    assert_eq!(bounds.start, 0x2001);
    assert_eq!(bounds.size, 0x7fff);
}

#[test]
fn heap_bounds_are_deterministic() {
    let a = compute_heap_bounds(0x9000, 0x1000, 0x1000);
    let b = compute_heap_bounds(0x9000, 0x1000, 0x1000);
    assert_eq!(a, b);
    assert_eq!(a.size, 0x9000 - 0x1000 - 1);
}
