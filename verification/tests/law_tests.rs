use mmio_rs::bits::{
    bit_is_set, field, with_bit_cleared, with_bit_set, with_bits_cleared, with_bits_kept,
    with_bits_set, with_bits_toggled, with_field,
};
use mmio_rs::{
    AtomicRegister, CriticalSection, HostCriticalSection, IrqGuard, Register, ReadWrite,
    RegisterSpace, Word,
};

const ADDR: usize = 0x1000;

#[test]
fn read_after_write_gives_value_back() {
    let mut space = RegisterSpace::new();
    let reg: Register<u16, ReadWrite> = Register::new(ADDR);
    for v in [0u16, 1, 0x8000, 0xFFFF, 0x1234] {
        reg.write(&mut space, v);
        assert_eq!(reg.read(&mut space), v);
    }
}

#[test]
fn write_leaves_other_addresses_unchanged() {
    let mut space = RegisterSpace::new();
    space.store(ADDR + 4, 4, 0x55);
    let reg: Register<u32, ReadWrite> = Register::new(ADDR);
    let other: Register<u32, ReadWrite> = Register::new(ADDR + 4);
    reg.write(&mut space, 0xFFFF_FFFF);
    assert_eq!(other.read(&mut space), 0x55);
}

#[test]
fn unwritten_address_reads_zero() {
    let mut space = RegisterSpace::new();
    let reg: Register<u64, ReadWrite> = Register::new(ADDR);
    assert_eq!(reg.read(&mut space), 0);
    assert_eq!(space.load(0x1234_5678, 8), 0);
}

#[test]
fn narrow_register_reads_low_bits_of_word() {
    let mut space = RegisterSpace::new();
    space.store(ADDR, 8, 0x1122_3344_5566_7788);
    let r8: Register<u8, ReadWrite> = Register::new(ADDR);
    let r16: Register<u16, ReadWrite> = Register::new(ADDR);
    let r32: Register<u32, ReadWrite> = Register::new(ADDR);
    assert_eq!(r8.read(&mut space), 0x88);
    assert_eq!(r16.read(&mut space), 0x7788);
    assert_eq!(r32.read(&mut space), 0x5566_7788);
}

#[test]
fn get_bit_after_set_and_clear_bit() {
    let mut space = RegisterSpace::new();
    space.store(ADDR, 1, 0b0110);
    let reg: Register<u8, ReadWrite> = Register::new(ADDR);
    reg.set_bit(&mut space, 0);
    reg.clear_bit(&mut space, 2);
    assert!(reg.get_bit(&mut space, 0));
    assert!(reg.get_bit(&mut space, 1));
    assert!(!reg.get_bit(&mut space, 2));
    assert!(!reg.get_bit(&mut space, 7));
    assert_eq!(reg.read(&mut space), 0b0011);
}

#[test]
fn read_field_after_write_field_is_clamped_value() {
    let mut space = RegisterSpace::new();
    space.store(ADDR, 2, 0xFFFF);
    let reg: Register<u16, ReadWrite> = Register::new(ADDR);
    reg.write_field(&mut space, 0x7, 12, 0xFD);
    assert_eq!(reg.read_field(&mut space, 0x7, 12), 0x5);
    // bits outside 0x7 << 12 are kept
    assert_eq!(reg.read(&mut space) & !(0x7 << 12), 0xFFFF & !(0x7 << 12));
    assert_eq!(reg.read(&mut space), 0xDFFF);
}

#[test]
fn write_field_drops_bits_beyond_width() {
    let mut space = RegisterSpace::new();
    let reg: Register<u8, ReadWrite> = Register::new(ADDR);
    reg.write_field(&mut space, 0xFF, 4, 0xAB);
    assert_eq!(reg.read(&mut space), 0xB0);
    assert_eq!(space.load(ADDR, 1), 0xB0);
}

#[test]
fn toggle_twice_restores_value() {
    let mut space = RegisterSpace::new();
    space.store(ADDR, 4, 0xDEAD_BEEF);
    let reg: Register<u32, ReadWrite> = Register::new(ADDR);
    reg.toggle_bits(&mut space, 0x0F0F_F0F0);
    assert_eq!(reg.read(&mut space), 0xD1A2_4E1F);
    reg.toggle_bits(&mut space, 0x0F0F_F0F0);
    assert_eq!(reg.read(&mut space), 0xDEAD_BEEF);
}

#[test]
fn bit_63_of_u64() {
    let mut space = RegisterSpace::new();
    let reg: Register<u64, ReadWrite> = Register::new(ADDR);
    reg.set_bit(&mut space, 63);
    assert_eq!(reg.read(&mut space), 0x8000_0000_0000_0000);
    reg.clear_bit(&mut space, 63);
    assert_eq!(reg.read(&mut space), 0);
}

#[test]
fn word_conversions() {
    assert_eq!(<u8 as Word>::bits(), 8);
    assert_eq!(<u16 as Word>::bits(), 16);
    assert_eq!(<u32 as Word>::bits(), 32);
    assert_eq!(<u64 as Word>::bits(), 64);
    assert_eq!(<u8 as Word>::from_u64(0x1_23), 0x23u8);
    assert_eq!(<u16 as Word>::from_u64(0x1_2345), 0x2345u16);
    assert_eq!(<u32 as Word>::from_u64(0x1_2345_6789), 0x2345_6789u32);
    assert_eq!(<u64 as Word>::from_u64(u64::MAX), u64::MAX);
    assert_eq!(0xABu8.to_u64(), 0xAB);
}

#[test]
fn bit_value_functions() {
    assert_eq!(with_bit_set(0u8, 7), 0x80);
    assert_eq!(with_bit_cleared(0xFFu8, 0), 0xFE);
    assert!(bit_is_set(0x10u32, 4));
    assert!(!bit_is_set(0x10u32, 3));
    assert_eq!(with_bits_set(0xF0u8, 0x0F), 0xFF);
    assert_eq!(with_bits_kept(0xF0u8, 0x3C), 0x30);
    assert_eq!(with_bits_cleared(0xF0u8, 0x3C), 0xC0);
    assert_eq!(with_bits_toggled(0xF0u8, 0x3C), 0xCC);
}

#[test]
fn field_value_functions() {
    assert_eq!(field(0x00AB_CD00u32, 0xFF, 8), 0xCD);
    assert_eq!(with_field(0xFFFF_FFFFu32, 0xF, 8, 0x5), 0xFFFF_F5FF);
    assert_eq!(with_field(0u16, 0xF, 12, 0xA), 0xA000);
    assert_eq!(with_field(0u16, 0xFF, 12, 0xAB), 0xB000);
}

#[test]
fn host_critical_section_saves_and_restores_zero() {
    let mut cs = HostCriticalSection::new();
    let state = cs.acquire();
    assert_eq!(state, 0);
    cs.release(state);
    let mut runs = 0u32;
    let r = mmio_rs::critical_section(&mut cs, |_guard| {
        runs += 1;
        runs * 10
    });
    assert_eq!(r, 10);
    assert_eq!(runs, 1);
}

#[test]
fn narrow_register_inside_wide_register_reads_its_byte() {
    let mut space = RegisterSpace::new();
    let wide: Register<u32, ReadWrite> = Register::new(ADDR);
    let byte1: Register<u8, ReadWrite> = Register::new(ADDR + 1);
    let half1: Register<u16, ReadWrite> = Register::new(ADDR + 2);
    wide.write(&mut space, 0x1234_5678);
    assert_eq!(byte1.read(&mut space), 0x56);
    assert_eq!(half1.read(&mut space), 0x1234);
    byte1.write(&mut space, 0xAB);
    assert_eq!(wide.read(&mut space), 0x1234_AB78);
}

#[test]
fn write_stores_little_endian_bytes() {
    let mut space = RegisterSpace::new();
    let reg: Register<u64, ReadWrite> = Register::new(ADDR);
    reg.write(&mut space, 0x0102_0304_0506_0708);
    for i in 0..8usize {
        assert_eq!(space.load(ADDR + i, 1), 8 - i as u64);
    }
    assert_eq!(space.load(ADDR + 8, 1), 0);
}

#[test]
fn atomic_operations_run_through_one_section_each() {
    let mut cs = HostCriticalSection::new();
    let mut space = RegisterSpace::new();
    space.store(ADDR, 4, 0x00F0);
    let reg: Register<u32, ReadWrite> = Register::new(ADDR);
    let atomic = AtomicRegister::new(&reg);
    atomic.set_bits(&mut space, &mut cs, 0x000F);
    atomic.clear_bits(&mut space, &mut cs, 0x0030);
    atomic.toggle_bits(&mut space, &mut cs, 0x0101);
    assert_eq!(reg.read(&mut space), 0x01CE);
    let value = mmio_rs::critical_section(&mut cs, |_guard| 7u8);
    assert_eq!(value, 7);
}

#[test]
fn guarded_accesses_inside_a_section() {
    let mut cs = HostCriticalSection::new();
    let mut space = RegisterSpace::new();
    let reg: Register<u16, ReadWrite> = Register::new(ADDR);
    let guard = IrqGuard::acquire(&mut cs);
    reg.write_in(&mut space, &guard, 0xBEEF);
    assert_eq!(reg.read_in(&mut space, &guard), 0xBEEF);
    guard.release(&mut cs);
}
