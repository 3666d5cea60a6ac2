//! The byte store: big-endian layout and write/read round trips.

use m68k::Mem;
use m68k::MEM_LEN;

#[test]
fn new_store_is_zeroed() {
    let mut m = Mem::new();
    assert_eq!(m.len(), MEM_LEN);
    assert_eq!(m.read_b(0), 0);
    assert_eq!(m.read_l(0x123456), 0);
    assert_eq!(m.read_b(MEM_LEN - 1), 0);
}

#[test]
fn round_trip_byte() {
    let mut m = Mem::new();
    m.mem_write(0x42, 0xABCD_12EF, 1);
    assert_eq!(m.read_b(0x42) as u32, 0xEF);
}

#[test]
fn round_trip_word() {
    let mut m = Mem::new();
    m.mem_write(0x1001, 0xABCD_12EF, 2);
    assert_eq!(m.read_w(0x1001) as u32, 0x12EF);
}

#[test]
fn round_trip_long() {
    let mut m = Mem::new();
    m.mem_write(0x200, 0xABCD_12EF, 4);
    assert_eq!(m.read_l(0x200), 0xABCD_12EF);
}

#[test]
fn big_endian_byte_order() {
    let mut m = Mem::new();
    m.mem_write(0x10, 0x1122_3344, 4);
    assert_eq!(m.read_b(0x10), 0x11);
    assert_eq!(m.read_b(0x11), 0x22);
    assert_eq!(m.read_b(0x12), 0x33);
    assert_eq!(m.read_b(0x13), 0x44);
    assert_eq!(m.read_w(0x10), 0x1122);
    assert_eq!(m.read_w(0x12), 0x3344);
}

#[test]
fn narrow_write_leaves_neighbours() {
    let mut m = Mem::new();
    m.mem_write(0x20, 0xFFFF_FFFF, 4);
    m.mem_write(0x21, 0x12, 1);
    assert_eq!(m.read_b(0x20), 0xFF);
    assert_eq!(m.read_b(0x21), 0x12);
    assert_eq!(m.read_b(0x22), 0xFF);
    assert_eq!(m.read_b(0x23), 0xFF);
}

#[test]
fn write_at_top_of_region() {
    let mut m = Mem::new();
    m.mem_write(MEM_LEN - 4, 0xDEAD_BEEF, 4);
    assert_eq!(m.read_l(MEM_LEN - 4), 0xDEAD_BEEF);
}
