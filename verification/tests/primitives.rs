use libpsx_rs::bitfield::{bool_to_flag, Bitfield};
use libpsx_rs::debug::{
    toggle_debug_option, trace_memory_spin_loop_detection_read,
    trace_memory_spin_loop_detection_write, SpinLoopDetector,
};
use libpsx_rs::edge::{B16EdgeRegister, B32EdgeRegister, B8EdgeRegister, LatchKind};
use libpsx_rs::fifo::Fifo;
use libpsx_rs::memory::{translate_address, B8Memory};
use libpsx_rs::mips::Register;
use libpsx_rs::register::{B16LevelRegister, B32LevelRegister, B8LevelRegister};

#[test]
fn bitfield_extract_insert_round_trip() {
    let bf = Bitfield::new(9, 2);
    let inserted = bf.insert_into(0xFFFF_FFFF, 0b10);
    assert_eq!(bf.extract_from(inserted), 0b10);
    // All bits outside the field survive.
    assert_eq!(inserted | bf.mask(), 0xFFFF_FFFF);
    assert_eq!(inserted & !bf.mask(), 0xFFFF_FFFF & !bf.mask());
}

#[test]
fn bitfield_full_word_field() {
    let bf = Bitfield::new(0, 32);
    assert_eq!(bf.mask(), 0xFFFF_FFFF);
    assert_eq!(bf.extract_from(0x1234_5678), 0x1234_5678);
    assert_eq!(bf.insert_into(0xAAAA_AAAA, 0x5555_5555), 0x5555_5555);
}

#[test]
fn bitfield_copy_moves_field_between_words() {
    let bf = Bitfield::new(4, 8);
    let copied = bf.copy(0x0000_0000, 0x0000_0AB0);
    assert_eq!(bf.extract_from(copied), 0xAB);
    assert_eq!(copied, 0x0000_0AB0);
}

#[test]
fn bitfield_insert_masks_oversized_field() {
    let bf = Bitfield::new(0, 4);
    assert_eq!(bf.insert_into(0, 0xFF), 0xF);
}

#[test]
fn bool_to_flag_values() {
    assert_eq!(bool_to_flag(true), 1);
    assert_eq!(bool_to_flag(false), 0);
}

#[test]
fn level_register_byte_views_are_little_endian() {
    let mut r = B32LevelRegister::new();
    r.write_u32(0x1234_5678);
    assert_eq!(r.read_u8(0), 0x78);
    assert_eq!(r.read_u8(1), 0x56);
    assert_eq!(r.read_u8(2), 0x34);
    assert_eq!(r.read_u8(3), 0x12);
    assert_eq!(r.read_u16(0), 0x5678);
    assert_eq!(r.read_u16(1), 0x1234);
    r.write_u8(0, 0xAA);
    assert_eq!(r.read_u32(), 0x1234_56AA);
    r.write_u16(1, 0xBEEF);
    assert_eq!(r.read_u32(), 0xBEEF_56AA);
}

#[test]
fn level_register_16_and_8() {
    let mut h = B16LevelRegister::new();
    h.write_u16(0xCAFE);
    assert_eq!(h.read_u8(0), 0xFE);
    assert_eq!(h.read_u8(1), 0xCA);
    h.write_u8(1, 0x12);
    assert_eq!(h.read_u16(), 0x12FE);
    h.write_bitfield(Bitfield::new(0, 4), 0x5);
    assert_eq!(h.read_u16(), 0x12F5);
    assert_eq!(h.read_bitfield(Bitfield::new(8, 8)), 0x12);

    let mut b = B8LevelRegister::new();
    b.write_u8(0x42);
    assert_eq!(b.read_u8(), 0x42);
}

#[test]
fn mips_register_bitfield_access() {
    let mut r = Register::new();
    r.write_bitfield(Bitfield::new(8, 8), 0xFF);
    assert_eq!(r.read_u32(), 0x0000_FF00);
    assert_eq!(r.read_bitfield(Bitfield::new(8, 8)), 0xFF);
    assert_eq!(r.read_bitfield(Bitfield::new(0, 8)), 0x00);
}

#[test]
fn edge_register_second_write_fails_until_acknowledge() {
    let mut r = B32EdgeRegister::new();
    assert!(r.write_u32(0x1234).is_ok());
    // A second write without an intervening acknowledge is rejected.
    assert!(r.write_u32(0x5678).is_err());
    assert_eq!(r.read_direct(), 0x1234);
    let (value, kind) = r.acknowledge().unwrap();
    assert_eq!(value, 0x1234);
    assert!(matches!(kind, LatchKind::Write));
    assert!(r.write_u32(0x5678).is_ok());
    assert_eq!(r.read_direct(), 0x5678);
}

#[test]
fn edge_register_reads_latch_too() {
    let mut r = B32EdgeRegister::new();
    let _ = r.update(0xAB);
    assert_eq!(r.read_u32().unwrap(), 0xAB);
    // The read latched; another access fails until acknowledged.
    assert!(r.read_u32().is_err());
    assert!(r.write_u32(1).is_err());
    let (_, kind) = r.acknowledge().unwrap();
    assert!(matches!(kind, LatchKind::Read));
    assert!(r.read_u32().is_ok());
}

#[test]
fn edge_register_16_and_8_protocol() {
    let mut h = B16EdgeRegister::new();
    assert!(h.write_u16(0x10).is_ok());
    assert!(h.write_u16(0x20).is_err());
    assert!(h.acknowledge().is_some());
    assert!(h.write_u16(0x20).is_ok());

    let mut b = B8EdgeRegister::new();
    assert!(b.write_u8(0x10).is_ok());
    assert!(b.write_u8(0x20).is_err());
    assert!(b.acknowledge().is_some());
    assert!(b.write_u8(0x20).is_ok());
}

#[test]
fn fifo_preserves_order_and_counts() {
    let mut f: Fifo<u8> = Fifo::new(4, 0);
    assert!(f.is_empty());
    assert_eq!(f.read_available() + f.write_available(), 4);
    for v in [10u8, 20, 30, 40] {
        assert!(f.write_one(v).is_ok());
        assert_eq!(f.read_available() + f.write_available(), 4);
    }
    assert!(f.is_full());
    // Push on full fails.
    assert!(f.write_one(50).is_err());
    // Pops come out in push order.
    assert_eq!(f.read_one().unwrap(), 10);
    assert_eq!(f.read_one().unwrap(), 20);
    // Interleave more pushes: order still FIFO across the ring seam.
    assert!(f.write_one(50).is_ok());
    assert!(f.write_one(60).is_ok());
    assert_eq!(f.read_one().unwrap(), 30);
    assert_eq!(f.read_one().unwrap(), 40);
    assert_eq!(f.read_one().unwrap(), 50);
    assert_eq!(f.read_one().unwrap(), 60);
    // Pop on empty fails.
    assert!(f.read_one().is_err());
    assert_eq!(f.read_available() + f.write_available(), 4);
}

#[test]
fn fifo_clear_empties() {
    let mut f: Fifo<u32> = Fifo::new(2, 0);
    f.write_one(7).unwrap();
    f.clear();
    assert!(f.is_empty());
    assert!(f.read_one().is_err());
}

#[test]
fn byte_memory_typed_accesses_alias() {
    let mut m = B8Memory::new(16);
    m.write_u32(4, 0xDEAD_BEEF);
    assert_eq!(m.read_u32(4), 0xDEAD_BEEF);
    assert_eq!(m.read_u8(4), 0xEF);
    assert_eq!(m.read_u8(7), 0xDE);
    assert_eq!(m.read_u16(4), 0xBEEF);
    assert_eq!(m.read_u16(6), 0xDEAD);
    m.write_u16(4, 0x1234);
    assert_eq!(m.read_u32(4), 0xDEAD_1234);
    m.write_raw(0, &[1, 2, 3]);
    assert_eq!(m.read_u8(0), 1);
    assert_eq!(m.read_u8(2), 3);
    assert_eq!(m.read_u8(3), 0);
}

#[test]
fn translate_strips_segment_aliases() {
    // Cached alias of RAM.
    assert_eq!(translate_address(0x8000_1234), 0x0000_1234);
    // Uncached alias of RAM.
    assert_eq!(translate_address(0xA000_1234), 0x0000_1234);
    // The masked form agrees for every alias.
    for a in [0x8000_0000u32, 0x9FFF_FFFC, 0xA012_3456, 0xBFC0_0000] {
        assert_eq!(translate_address(a), a & 0x1FFF_FFFF);
    }
    // Physical addresses pass through.
    assert_eq!(translate_address(0x0000_0FF0), 0x0000_0FF0);
    assert_eq!(translate_address(0x1F80_1070), 0x1F80_1070);
}

#[test]
fn spin_loop_detection_counts_watched_address() {
    let mut d = SpinLoopDetector::new(0x1F80_1070, 3);
    assert!(!trace_memory_spin_loop_detection_read(&mut d, 0x1F80_1074));
    assert!(!trace_memory_spin_loop_detection_read(&mut d, 0x1F80_1070));
    assert!(!trace_memory_spin_loop_detection_write(&mut d, 0x1F80_1070));
    assert!(trace_memory_spin_loop_detection_read(&mut d, 0x1F80_1070));
    assert_eq!(d.count, 0, "the detector rearms after a hit");
    let mut option = false;
    assert!(toggle_debug_option(&mut option));
    assert!(!toggle_debug_option(&mut option));
}
