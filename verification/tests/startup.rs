use platform::memory::{initialize_memory, relocate_data, zero_region, SectionLayout};

fn layout(text_end: usize, rs: usize, re: usize, zs: usize, ze: usize) -> SectionLayout {
    SectionLayout {
        text_end,
        relocate_start: rs,
        relocate_end: re,
        zero_start: zs,
        zero_end: ze,
    }
}

#[test]
fn startup_copies_image_and_clears_bss() {
    // flash image at 0x1000..0x100c, data at 0x2000..0x200c, bss 0x200c..0x2014
    let mut words = vec![0u32; 0x1400 / 4];
    words[0] = 11;
    words[1] = 22;
    words[2] = 33;
    for w in words.iter_mut().skip(0x1000 / 4) {
        *w = 0xdead_beef;
    }
    initialize_memory(&mut words, 0x1000, layout(0x1000, 0x2000, 0x200c, 0x200c, 0x2014));
    assert_eq!(words[0x400], 11);
    assert_eq!(words[0x401], 22);
    assert_eq!(words[0x402], 33);
    assert_eq!(words[0x403], 0);
    assert_eq!(words[0x404], 0);
    assert_eq!(words[0x405], 0xdead_beef);
    assert_eq!(words[0], 11);
    assert_eq!(words[3], 0);
}

#[test]
fn startup_skips_copy_when_image_in_place() {
    let mut words = vec![5u32, 6, 7, 8];
    initialize_memory(&mut words, 0, layout(0, 0, 8, 8, 12));
    assert_eq!(words, vec![5, 6, 0, 8]);
}

#[test]
fn startup_empty_sections_change_nothing() {
    let mut words = vec![1u32, 2, 3];
    initialize_memory(&mut words, 0, layout(4, 8, 8, 12, 4));
    assert_eq!(words, vec![1, 2, 3]);
}

#[test]
fn startup_bss_wins_over_data() {
    // data 0..16 from image at 16, bss 8..12 inside the data section
    let mut words = vec![0u32, 0, 0, 0, 1, 2, 3, 4];
    initialize_memory(&mut words, 0, layout(16, 0, 16, 8, 12));
    assert_eq!(words, vec![1, 2, 0, 4, 1, 2, 3, 4]);
}

#[test]
fn relocate_overlapping_from_below_repeats_pattern() {
    // source at word 0, destination at word 2, four words: forward copy
    let mut words = vec![1u32, 2, 3, 4, 5, 6];
    relocate_data(&mut words, 0, 0, 8, 24);
    assert_eq!(words, vec![1, 2, 1, 2, 1, 2]);
}

#[test]
fn relocate_overlapping_from_above_shifts_down() {
    let mut words = vec![1u32, 2, 3, 4, 5, 6];
    relocate_data(&mut words, 0, 8, 0, 16);
    assert_eq!(words, vec![3, 4, 5, 6, 5, 6]);
}

#[test]
fn relocate_with_offset_base() {
    let mut words = vec![10u32, 20, 30, 40];
    relocate_data(&mut words, 0x2000_0000, 0x2000_0000, 0x2000_0008, 0x2000_0010);
    assert_eq!(words, vec![10, 20, 10, 20]);
}

#[test]
fn zero_region_clears_only_its_range() {
    let mut words = vec![9u32, 9, 9, 9];
    zero_region(&mut words, 0x20, 0x24, 0x2c);
    assert_eq!(words, vec![9, 0, 0, 9]);
}

#[test]
fn zero_region_reversed_range_is_empty() {
    let mut words = vec![9u32, 9];
    zero_region(&mut words, 0, 8, 0);
    assert_eq!(words, vec![9, 9]);
}

#[test]
fn startup_repeated_gives_same_memory() {
    let mut words = vec![7u32, 8, 1, 1, 1, 1];
    let l = layout(0, 8, 16, 16, 24);
    initialize_memory(&mut words, 0, l);
    let once = words.clone();
    initialize_memory(&mut words, 0, l);
    assert_eq!(words, once);
    assert_eq!(once, vec![7, 8, 7, 8, 0, 0]);
}
