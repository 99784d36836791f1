use rvemu_hitsz::dram::{DIG_ADDR, SWITCH_ADDR, SWITCH_VALUE};
use rvemu_hitsz::{EmuError, DRAM, IROM};

#[test]
fn irom_fetches_little_endian_words_from_both_segments() {
    let user = [0x13, 0x05, 0x50, 0x00, 0xef, 0x00, 0x00, 0x01];
    let kernel = [0x73, 0x00, 0x20, 0x30];
    let irom = IROM::new(&user, 0x100, &kernel, 0x1c09_0000);
    assert_eq!(irom.fetch(0x100), Ok(0x0050_0513));
    assert_eq!(irom.fetch(0x104), Ok(0x0100_00ef));
    assert_eq!(irom.fetch(0x102), Ok(0x00ef_0050));
    assert_eq!(irom.fetch(0x1c09_0000), Ok(0x3020_0073));
}

#[test]
fn irom_rejects_addresses_outside_or_overrunning() {
    let user = [1, 2, 3, 4, 5, 6];
    let kernel = [7, 8, 9, 10];
    let irom = IROM::new(&user, 0x100, &kernel, 0x200);
    assert_eq!(irom.fetch(0xfc), Err(EmuError::BadMemoryAccess(0xfc)));
    assert_eq!(irom.fetch(0x106), Err(EmuError::BadMemoryAccess(0x106)));
    assert_eq!(irom.fetch(0x103), Err(EmuError::BadMemoryAccess(0x103)));
    assert_eq!(irom.fetch(0x201), Err(EmuError::BadMemoryAccess(0x201)));
    assert_eq!(irom.fetch(0x200), Ok(0x0a09_0807));
}

#[test]
fn dram_stack_starts_zeroed_and_rounds_up() {
    let d = DRAM::new(&[], 0x4000, 0x1000, 5);
    // 5 bytes round up to 8
    assert_eq!(d.load(0x1000, 32), Ok(0));
    assert_eq!(d.load(0x1004, 32), Ok(0));
    assert_eq!(d.load(0x1007, 8), Ok(0));
    assert_eq!(d.load(0x1008, 8), Err(EmuError::BadMemoryAccess(0x1008)));
    // a word that would cross the end of the stack
    assert_eq!(d.load(0x1006, 32), Err(EmuError::BadMemoryAccess(0x1006)));
}

#[test]
fn dram_data_segment_holds_the_image() {
    let img = [0x78, 0x56, 0x34, 0x12, 0xff];
    let d = DRAM::new(&img, 0x4000, 0x1000, 16);
    assert_eq!(d.load(0x4000, 32), Ok(0x1234_5678));
    assert_eq!(d.load(0x4000, 16), Ok(0x5678));
    assert_eq!(d.load(0x4003, 16), Ok(0xff12));
    assert_eq!(d.load(0x4004, 8), Ok(0xff));
    assert_eq!(d.load(0x4004, 16), Err(EmuError::BadMemoryAccess(0x4004)));
}

#[test]
fn dram_store_then_load_round_trips() {
    let mut d = DRAM::new(&[], 0, 0x1000, 64);
    assert_eq!(d.store(0x1000, 0xdead_beef, 32), Ok(None));
    assert_eq!(d.load(0x1000, 32), Ok(0xdead_beef));
    assert_eq!(d.load(0x1000, 8), Ok(0xef));
    assert_eq!(d.load(0x1001, 8), Ok(0xbe));
    assert_eq!(d.load(0x1002, 16), Ok(0xdead));
    assert_eq!(d.store(0x1011, 0x1234_5678, 16), Ok(None));
    assert_eq!(d.load(0x1011, 16), Ok(0x5678));
    assert_eq!(d.load(0x1010, 32), Ok(0x0056_7800));
    assert_eq!(d.store(0x1020, 0xabcd, 8), Ok(None));
    assert_eq!(d.load(0x1020, 32), Ok(0xcd));
}

#[test]
fn dram_misaligned_word_inside_a_segment_is_allowed() {
    let mut d = DRAM::new(&[], 0, 0x1000, 16);
    assert_eq!(d.store(0x1003, 0x0102_0304, 32), Ok(None));
    assert_eq!(d.load(0x1003, 32), Ok(0x0102_0304));
    assert_eq!(d.load(0x1000, 32), Ok(0x0400_0000));
}

#[test]
fn dram_ports() {
    let mut d = DRAM::new(&[], 0, 0x1000, 16);
    assert_eq!(d.load(SWITCH_ADDR, 32), Ok(SWITCH_VALUE));
    assert_eq!(d.load(SWITCH_ADDR, 8), Ok(0x00a0_0000));
    assert_eq!(d.store(DIG_ADDR, 0x55, 32), Ok(Some(0x55)));
    assert_eq!(d.store(DIG_ADDR, 0x1234, 8), Ok(Some(0x1234)));
    assert_eq!(d.load(DIG_ADDR, 32), Err(EmuError::BadMemoryAccess(DIG_ADDR)));
    assert_eq!(d.store(SWITCH_ADDR, 1, 32), Err(EmuError::BadMemoryAccess(SWITCH_ADDR)));
}

#[test]
fn dram_rejects_bad_sizes_and_addresses() {
    let mut d = DRAM::new(&[], 0, 0x1000, 16);
    assert_eq!(d.load(0x1000, 24), Err(EmuError::BadSize(24)));
    assert_eq!(d.load(0x1000, 0), Err(EmuError::BadSize(0)));
    assert_eq!(d.store(0x1000, 1, 64), Err(EmuError::BadSize(64)));
    assert_eq!(d.load(0x0fff, 8), Err(EmuError::BadMemoryAccess(0x0fff)));
    assert_eq!(d.store(0x1010, 1, 8), Err(EmuError::BadMemoryAccess(0x1010)));
    assert_eq!(d.store(0x100e, 1, 32), Err(EmuError::BadMemoryAccess(0x100e)));
    // nothing was written by the failed stores
    assert_eq!(d.load(0x100c, 32), Ok(0));
}

#[test]
fn dram_image_overlapping_the_stack_stays_readable() {
    let img = [0x78, 0x56, 0x34, 0x12];
    let mut d = DRAM::new(&img, 0, 0, 16);
    assert_eq!(d.load(0, 32), Ok(0x1234_5678));
    assert_eq!(d.load(4, 32), Ok(0));
    assert_eq!(d.store(0, 0xaabb, 16), Ok(None));
    assert_eq!(d.load(0, 32), Ok(0x1234_aabb));
    assert_eq!(d.store(8, 7, 32), Ok(None));
    assert_eq!(d.load(8, 32), Ok(7));
}
