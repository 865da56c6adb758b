use stm32f7_boot::boot::{copy_data, reset_handler, zero_fill, MemoryLayout, Transfer};

fn regions(data_load: usize, data: (usize, usize), bss: (usize, usize)) -> MemoryLayout {
    MemoryLayout { data_load, data_start: data.0, data_end: data.1, bss_start: bss.0, bss_end: bss.1 }
}

#[test]
fn zero_init_region_reads_zero_after_reset() {
    let flash = vec![0x11u8, 0x22, 0x33, 0x44];
    let mut ram = vec![0xAAu8; 16];
    let layout = regions(0, (0, 4), (4, 12));
    assert_eq!(reset_handler(&flash, &mut ram, &layout), Transfer::ApplicationEntry);
    assert!(ram[4..12].iter().all(|b| *b == 0));
    assert_eq!(&ram[12..], &[0xAA; 4]);
}

#[test]
fn data_region_matches_the_image_after_reset() {
    let flash: Vec<u8> = (0u8..32).collect();
    let mut ram = vec![0xEEu8; 24];
    let layout = regions(5, (2, 12), (12, 20));
    assert_eq!(reset_handler(&flash, &mut ram, &layout), Transfer::ApplicationEntry);
    assert_eq!(&ram[2..12], &flash[5..15]);
    assert_eq!(
        ram,
        vec![0xEE, 0xEE, 5, 6, 7, 8, 9, 10, 11, 12, 13, 14, 0, 0, 0, 0, 0, 0, 0, 0, 0xEE, 0xEE, 0xEE, 0xEE]
    );
}

#[test]
fn empty_regions_leave_memory_untouched() {
    let flash = vec![1u8, 2, 3];
    let mut ram = vec![9u8, 8, 7, 6];
    let layout = regions(3, (4, 4), (0, 0));
    assert_eq!(reset_handler(&flash, &mut ram, &layout), Transfer::ApplicationEntry);
    assert_eq!(ram, vec![9, 8, 7, 6]);
    let mut nothing: Vec<u8> = Vec::new();
    assert_eq!(reset_handler(&[], &mut nothing, &regions(0, (0, 0), (0, 0))), Transfer::ApplicationEntry);
    assert!(nothing.is_empty());
}

#[test]
fn reset_twice_is_reset_once() {
    let flash = vec![7u8, 7, 7, 7, 7, 7];
    let mut once = vec![1u8, 2, 3, 4, 5, 6, 7, 8];
    let layout = regions(1, (1, 5), (3, 7));
    reset_handler(&flash, &mut once, &layout);
    let mut twice = once.clone();
    reset_handler(&flash, &mut twice, &layout);
    assert_eq!(once, twice);
}

#[test]
fn overlapping_zero_region_wins_over_data() {
    let flash = vec![0x55u8; 4];
    let mut ram = vec![0xFFu8; 8];
    let layout = regions(0, (0, 4), (2, 6));
    assert_eq!(reset_handler(&flash, &mut ram, &layout), Transfer::ApplicationEntry);
    assert_eq!(ram, vec![0x55, 0x55, 0, 0, 0, 0, 0xFF, 0xFF]);
}

#[test]
fn data_region_past_the_end_of_ram_faults() {
    let flash = vec![1u8; 8];
    let mut ram = vec![3u8; 4];
    assert_eq!(reset_handler(&flash, &mut ram, &regions(0, (0, 5), (0, 0))), Transfer::Fault);
    assert_eq!(ram, vec![3; 4]);
}

#[test]
fn zero_region_past_the_end_of_ram_faults() {
    let flash = vec![1u8; 8];
    let mut ram = vec![3u8; 4];
    assert_eq!(reset_handler(&flash, &mut ram, &regions(0, (0, 2), (2, 5))), Transfer::Fault);
    assert_eq!(ram, vec![3; 4]);
}

#[test]
fn image_past_the_end_of_flash_faults() {
    let flash = vec![1u8; 4];
    let mut ram = vec![3u8; 8];
    assert_eq!(reset_handler(&flash, &mut ram, &regions(2, (0, 3), (4, 8))), Transfer::Fault);
    assert_eq!(ram, vec![3; 8]);
    assert_eq!(reset_handler(&flash, &mut ram, &regions(5, (0, 0), (0, 0))), Transfer::Fault);
    assert_eq!(reset_handler(&flash, &mut ram, &regions(usize::MAX, (0, 2), (0, 0))), Transfer::Fault);
    assert_eq!(ram, vec![3; 8]);
}

#[test]
fn reversed_region_bounds_fault() {
    let flash = vec![1u8; 4];
    let mut ram = vec![3u8; 8];
    assert_eq!(reset_handler(&flash, &mut ram, &regions(0, (3, 2), (4, 8))), Transfer::Fault);
    assert_eq!(reset_handler(&flash, &mut ram, &regions(0, (0, 2), (8, 4))), Transfer::Fault);
    assert_eq!(ram, vec![3; 8]);
}

#[test]
fn layout_check_decides_the_fit() {
    let layout = regions(2, (0, 2), (2, 4));
    assert!(layout.check(4, 4));
    assert!(!layout.check(3, 4));
    assert!(!layout.check(4, 3));
    assert!(regions(4, (4, 4), (4, 4)).check(4, 4));
    assert!(!regions(5, (4, 4), (4, 4)).check(4, 4));
}

#[test]
fn copy_data_writes_only_the_destination() {
    let flash = vec![10u8, 11, 12, 13, 14];
    let mut ram = vec![0u8, 1, 2, 3, 4, 5];
    copy_data(&mut ram, 2, &flash, 1, 3);
    assert_eq!(ram, vec![0, 1, 11, 12, 13, 5]);
    copy_data(&mut ram, 6, &flash, 5, 0);
    assert_eq!(ram, vec![0, 1, 11, 12, 13, 5]);
}

#[test]
fn zero_fill_clears_only_the_range() {
    let mut ram = vec![9u8; 6];
    zero_fill(&mut ram, 1, 4);
    assert_eq!(ram, vec![9, 0, 0, 0, 9, 9]);
    zero_fill(&mut ram, 5, 5);
    assert_eq!(ram, vec![9, 0, 0, 0, 9, 9]);
    zero_fill(&mut ram, 0, 6);
    assert_eq!(ram, vec![0; 6]);
}
