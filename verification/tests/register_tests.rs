use mmio_rs::prelude::{
    AtomicRegister, DynamicRegisterBlock, HostCriticalSection, IrqGuard, ReadOnly, ReadWrite,
    Register, RegisterBlock, RegisterSpace, WriteOnly,
};

const ADDR: usize = 0x2000_0000;
const BASE: usize = 0x4000_0000;
const BASE2: usize = 0x4000_1000;

#[test]
fn write_and_read() {
    let mut space = RegisterSpace::new();
    let reg: Register<u32, ReadWrite> = Register::new(ADDR);
    reg.write(&mut space, 0xDEADBEEF);
    assert_eq!(reg.read(&mut space), 0xDEADBEEF);
}

#[test]
fn read_initial_value() {
    let mut space = RegisterSpace::new();
    space.store(ADDR, 4, 0xCAFEBABE);
    let reg: Register<u32, ReadWrite> = Register::new(ADDR);
    assert_eq!(reg.read(&mut space), 0xCAFEBABE);
}

#[test]
fn set_bit() {
    let mut space = RegisterSpace::new();
    let reg: Register<u32, ReadWrite> = Register::new(ADDR);
    reg.set_bit(&mut space, 0);
    assert_eq!(reg.read(&mut space), 1);
    reg.set_bit(&mut space, 31);
    assert_eq!(reg.read(&mut space), 0x80000001);
}

#[test]
fn clear_bit() {
    let mut space = RegisterSpace::new();
    space.store(ADDR, 4, 0xFF);
    let reg: Register<u32, ReadWrite> = Register::new(ADDR);
    reg.clear_bit(&mut space, 0);
    assert_eq!(reg.read(&mut space), 0xFE);
    reg.clear_bit(&mut space, 7);
    assert_eq!(reg.read(&mut space), 0x7E);
}

#[test]
fn get_bit() {
    let mut space = RegisterSpace::new();
    space.store(ADDR, 4, 0b1010);
    let reg: Register<u32, ReadWrite> = Register::new(ADDR);
    assert!(!reg.get_bit(&mut space, 0));
    assert!(reg.get_bit(&mut space, 1));
    assert!(!reg.get_bit(&mut space, 2));
    assert!(reg.get_bit(&mut space, 3));
}

#[test]
fn set_bits_operation() {
    let mut space = RegisterSpace::new();
    space.store(ADDR, 4, 0xAAAA0000);
    let reg: Register<u32, ReadWrite> = Register::new(ADDR);
    reg.set_bits(&mut space, 0x00005555);
    assert_eq!(reg.read(&mut space), 0xAAAA5555);
}

#[test]
fn and_bits_operation() {
    let mut space = RegisterSpace::new();
    space.store(ADDR, 4, 0xFFFFFFFF);
    let reg: Register<u32, ReadWrite> = Register::new(ADDR);
    reg.and_bits(&mut space, 0x00FF00FF);
    assert_eq!(reg.read(&mut space), 0x00FF00FF);
}

#[test]
fn toggle_bits_operation() {
    let mut space = RegisterSpace::new();
    space.store(ADDR, 4, 0xAAAAAAAA);
    let reg: Register<u32, ReadWrite> = Register::new(ADDR);
    reg.toggle_bits(&mut space, 0xFFFFFFFF);
    assert_eq!(reg.read(&mut space), 0x55555555);
}

#[test]
fn modify_closure() {
    let mut space = RegisterSpace::new();
    space.store(ADDR, 4, 0x1234);
    let reg: Register<u32, ReadWrite> = Register::new(ADDR);
    reg.modify(&mut space, |v| (v & 0xFF00) | 0x0056);
    assert_eq!(reg.read(&mut space), 0x1256);
}

#[test]
fn write_field() {
    let mut space = RegisterSpace::new();
    space.store(ADDR, 4, 0xFFFFFFFF);
    let reg: Register<u32, ReadWrite> = Register::new(ADDR);
    reg.write_field(&mut space, 0xF, 8, 0x5);
    let storage = space.load(ADDR, 4);
    assert_eq!((storage >> 8) & 0xF, 0x5);
    assert_eq!(storage & 0xFF, 0xFF);
}

#[test]
fn write_field_at_shift_zero() {
    let mut space = RegisterSpace::new();
    space.store(ADDR, 4, 0xFFFFFFFF);
    let reg: Register<u32, ReadWrite> = Register::new(ADDR);
    reg.write_field(&mut space, 0xFF, 0, 0xAB);
    let storage = space.load(ADDR, 4);
    assert_eq!(storage & 0xFF, 0xAB);
    assert_eq!(storage & 0xFFFFFF00, 0xFFFFFF00);
}

#[test]
fn write_field_value_clamped_to_mask() {
    // bits above the mask must not bleed into adjacent fields
    let mut space = RegisterSpace::new();
    space.store(ADDR, 4, 0xFFFFFFFF);
    let reg: Register<u32, ReadWrite> = Register::new(ADDR);
    reg.write_field(&mut space, 0xF, 4, 0xFF); // only 4-bit mask
    let storage = space.load(ADDR, 4);
    assert_eq!((storage >> 4) & 0xF, 0xF); // masked to 0xF
    assert_eq!(storage & 0xF, 0xF); // lower nibble untouched
    assert_eq!((storage >> 8) & 0xFF, 0xFF); // upper bytes untouched
}

#[test]
fn write_field_high_bits() {
    let mut space = RegisterSpace::new();
    let reg: Register<u32, ReadWrite> = Register::new(ADDR);
    reg.write_field(&mut space, 0xF, 28, 0xA);
    assert_eq!(space.load(ADDR, 4), 0xA000_0000);
}

#[test]
fn read_field() {
    let mut space = RegisterSpace::new();
    space.store(ADDR, 4, 0x00ABCD00);
    let reg: Register<u32, ReadWrite> = Register::new(ADDR);
    assert_eq!(reg.read_field(&mut space, 0xFF, 8), 0xCD);
}

#[test]
fn read_field_at_shift_zero() {
    let mut space = RegisterSpace::new();
    space.store(ADDR, 4, 0xABCDEF12);
    let reg: Register<u32, ReadWrite> = Register::new(ADDR);
    assert_eq!(reg.read_field(&mut space, 0xFF, 0), 0x12);
    assert_eq!(reg.read_field(&mut space, 0xFFFFFFFF, 0), 0xABCDEF12);
}

#[test]
fn is_valid_and_uninit() {
    let reg: Register<u32, ReadWrite> = Register::uninit();
    assert!(!reg.is_valid());

    let reg: Register<u32, ReadWrite> = Register::new(ADDR);
    assert!(reg.is_valid());
}

#[test]
fn address_round_trips() {
    let addr = ADDR;
    let reg: Register<u32, ReadWrite> = Register::new(addr);
    assert_eq!(reg.address(), addr);
}

#[test]
fn uninit_address_is_zero() {
    let reg: Register<u32, ReadWrite> = Register::uninit();
    assert_eq!(reg.address(), 0);
}

#[test]
fn set_address_on_uninit() {
    let mut space = RegisterSpace::new();
    space.store(ADDR, 4, 42);
    let addr = ADDR;
    let mut reg: Register<u32, ReadWrite> = Register::uninit();
    assert!(!reg.is_valid());
    reg.set_address(addr);
    assert!(reg.is_valid());
    assert_eq!(reg.address(), addr);
    assert_eq!(reg.read(&mut space), 42);
}

#[test]
fn register_8bit() {
    let mut space = RegisterSpace::new();
    let reg: Register<u8, ReadWrite> = Register::new(ADDR);
    reg.write(&mut space, 0xAB);
    assert_eq!(reg.read(&mut space), 0xAB);
    reg.set_bit(&mut space, 7);
    assert_eq!(reg.read(&mut space), 0xAB);
    reg.write(&mut space, 0);
    reg.set_bit(&mut space, 7);
    assert_eq!(reg.read(&mut space), 0x80);
}

#[test]
fn register_16bit() {
    let mut space = RegisterSpace::new();
    let reg: Register<u16, ReadWrite> = Register::new(ADDR);
    reg.write(&mut space, 0xBEEF);
    assert_eq!(reg.read(&mut space), 0xBEEF);
}

#[test]
fn register_64bit() {
    let mut space = RegisterSpace::new();
    let reg: Register<u64, ReadWrite> = Register::new(ADDR);
    reg.write(&mut space, 0xDEAD_BEEF_CAFE_BABE);
    assert_eq!(reg.read(&mut space), 0xDEAD_BEEF_CAFE_BABE);
    reg.set_bit(&mut space, 63);
    assert!(reg.get_bit(&mut space, 63));
    assert_eq!(reg.read_field(&mut space, 0xFFFF_FFFF, 32), 0xDEAD_BEEF);
}

#[test]
fn bit_ops_on_u8() {
    let mut space = RegisterSpace::new();
    let reg: Register<u8, ReadWrite> = Register::new(ADDR);
    reg.set_bits(&mut space, 0xF0);
    assert_eq!(reg.read(&mut space), 0xF0);
    reg.and_bits(&mut space, 0xAA);
    assert_eq!(reg.read(&mut space), 0xA0);
    reg.toggle_bits(&mut space, 0xFF);
    assert_eq!(reg.read(&mut space), 0x5F);
}

#[test]
fn bit_ops_on_u16() {
    let mut space = RegisterSpace::new();
    let reg: Register<u16, ReadWrite> = Register::new(ADDR);
    reg.set_bits(&mut space, 0xFF00);
    assert_eq!(reg.read(&mut space), 0xFF00);
    reg.and_bits(&mut space, 0xF0F0);
    assert_eq!(reg.read(&mut space), 0xF000);
    reg.toggle_bits(&mut space, 0xFFFF);
    assert_eq!(reg.read(&mut space), 0x0FFF);
    reg.write_field(&mut space, 0xFF, 0, 0xAB);
    assert_eq!(reg.read_field(&mut space, 0xFF, 0), 0xAB);
}

#[test]
fn read_only_register_reads() {
    let mut space = RegisterSpace::new();
    space.store(ADDR, 4, 0x12345678);
    let reg: Register<u32, ReadOnly> = Register::new(ADDR);
    assert_eq!(reg.read(&mut space), 0x12345678);
}

#[test]
fn read_only_get_bit_and_read_field() {
    let mut space = RegisterSpace::new();
    space.store(ADDR, 4, 0b1010);
    let reg: Register<u32, ReadOnly> = Register::new(ADDR);
    assert!(!reg.get_bit(&mut space, 0));
    assert!(reg.get_bit(&mut space, 1));
    assert_eq!(reg.read_field(&mut space, 0b11, 1), 0b01);

    space.store(ADDR + 4, 4, 0x00AB_CD00);
    let reg2: Register<u32, ReadOnly> = Register::new(ADDR + 4);
    assert_eq!(reg2.read_field(&mut space, 0xFF, 8), 0xCD);
}

#[test]
fn write_only_register_writes() {
    let mut space = RegisterSpace::new();
    let reg: Register<u32, WriteOnly> = Register::new(ADDR);
    reg.write(&mut space, 0xABCD);
    assert_eq!(space.load(ADDR, 4), 0xABCD);
}

#[test]
fn atomic_set_bits() {
    let mut space = RegisterSpace::new();
    let mut cs = HostCriticalSection::new();
    space.store(ADDR, 4, 0x00FF);
    let reg: Register<u32, ReadWrite> = Register::new(ADDR);
    let atomic = AtomicRegister::new(&reg);
    atomic.set_bits(&mut space, &mut cs, 0xFF00);
    assert_eq!(reg.read(&mut space), 0xFFFF);
}

#[test]
fn atomic_clear_bits() {
    let mut space = RegisterSpace::new();
    let mut cs = HostCriticalSection::new();
    space.store(ADDR, 4, 0xFFFF);
    let reg: Register<u32, ReadWrite> = Register::new(ADDR);
    let atomic = AtomicRegister::new(&reg);
    atomic.clear_bits(&mut space, &mut cs, 0x00FF);
    assert_eq!(reg.read(&mut space), 0xFF00);
}

#[test]
fn atomic_toggle_bits() {
    let mut space = RegisterSpace::new();
    let mut cs = HostCriticalSection::new();
    space.store(ADDR, 4, 0xAAAA);
    let reg: Register<u32, ReadWrite> = Register::new(ADDR);
    let atomic = AtomicRegister::new(&reg);
    atomic.toggle_bits(&mut space, &mut cs, 0xFFFF);
    assert_eq!(reg.read(&mut space), 0x5555);
}

#[test]
fn atomic_modify() {
    let mut space = RegisterSpace::new();
    let mut cs = HostCriticalSection::new();
    space.store(ADDR, 4, 0x1234);
    let reg: Register<u32, ReadWrite> = Register::new(ADDR);
    let atomic = AtomicRegister::new(&reg);
    atomic.modify(&mut space, &mut cs, |v| (v & 0xFF00) | 0x0056);
    assert_eq!(reg.read(&mut space), 0x1256);
}

#[test]
fn register_block_generic() {
    let mut space = RegisterSpace::new();
    let block = RegisterBlock::<4>::new(BASE, [0x00, 0x04, 0x08, 0x0C]);
    assert!(block.is_valid());

    let r0: Register<u32, ReadWrite> = block.reg(0);
    r0.write(&mut space, 0xAAAA);
    assert_eq!(space.load(BASE, 4), 0xAAAA);

    let r1: Register<u32, ReadWrite> = block.reg(1);
    r1.write(&mut space, 0xBBBB);
    assert_eq!(space.load(BASE + 4, 4), 0xBBBB);

    // all four registers
    block.reg::<u32>(2).write(&mut space, 0xCCCC);
    block.reg::<u32>(3).write(&mut space, 0xDDDD);
    let storage = [
        space.load(BASE, 4),
        space.load(BASE + 4, 4),
        space.load(BASE + 8, 4),
        space.load(BASE + 12, 4),
    ];
    assert_eq!(storage, [0xAAAA, 0xBBBB, 0xCCCC, 0xDDDD]);
}

#[test]
fn register_block_base_and_set_base() {
    let mut space = RegisterSpace::new();
    let base = BASE;
    let mut block = RegisterBlock::<2>::new(base, [0x00, 0x04]);
    assert_eq!(block.base(), base);

    let base2 = BASE2;
    block.set_base(base2);
    assert_eq!(block.base(), base2);
    block.reg::<u32>(0).write(&mut space, 0x1234);
    assert_eq!(space.load(BASE2, 4), 0x1234);
    assert_eq!(space.load(BASE, 4), 0); // original storage untouched
}

#[test]
fn register_block_is_valid_when_base_zero() {
    let block = RegisterBlock::<2>::new(0, [0x00, 0x04]);
    assert!(!block.is_valid());
}

#[test]
fn register_block_reg_checked() {
    let mut space = RegisterSpace::new();
    space.store(BASE, 4, 0xAA);
    space.store(BASE + 4, 4, 0xBB);
    let block = RegisterBlock::<2>::new(BASE, [0x00, 0x04]);
    assert!(block.reg_checked::<u32>(0).is_some());
    assert!(block.reg_checked::<u32>(1).is_some());
    assert!(block.reg_checked::<u32>(2).is_none());
    assert_eq!(block.reg_checked::<u32>(0).unwrap().read(&mut space), 0xAA);
}

#[test]
#[should_panic(expected = "out of bounds")]
fn register_block_reg_out_of_bounds_panics() {
    let block = RegisterBlock::<2>::new(BASE, [0x00, 0x04]);
    let _ = block.reg::<u32>(2); // index 2 is out of bounds for N=2
}

#[test]
fn dynamic_block_late_init() {
    let mut space = RegisterSpace::new();
    let mut block = DynamicRegisterBlock::<u32, ReadWrite, 3>::uninit([0x00, 0x04, 0x08]);
    assert!(!block.is_valid());
    block.set_base_address(BASE);
    assert!(block.is_valid());

    let r: Register<u32, ReadWrite> = block.get(0);
    r.write(&mut space, 42);
    assert_eq!(space.load(BASE, 4), 42);
}

#[test]
fn dynamic_block_base_address() {
    let base = BASE;
    let block = DynamicRegisterBlock::<u32, ReadWrite, 2>::new(base, [0x00, 0x04]);
    assert_eq!(block.base_address(), base);
}

#[test]
fn dynamic_block_get_all_indices() {
    let mut space = RegisterSpace::new();
    let block = DynamicRegisterBlock::<u32, ReadWrite, 3>::new(BASE, [0x00, 0x04, 0x08]);
    block.get(0).write(&mut space, 0x11);
    block.get(1).write(&mut space, 0x22);
    block.get(2).write(&mut space, 0x33);
    let storage = [space.load(BASE, 4), space.load(BASE + 4, 4), space.load(BASE + 8, 4)];
    assert_eq!(storage, [0x11, 0x22, 0x33]);
}

#[test]
fn dynamic_block_get_checked() {
    let mut space = RegisterSpace::new();
    space.store(BASE, 4, 0xAA);
    space.store(BASE + 4, 4, 0xBB);
    let block = DynamicRegisterBlock::<u32, ReadWrite, 2>::new(BASE, [0x00, 0x04]);
    assert!(block.get_checked(0).is_some());
    assert!(block.get_checked(1).is_some());
    assert!(block.get_checked(2).is_none());
    assert_eq!(block.get_checked(1).unwrap().read(&mut space), 0xBB);
}

#[test]
#[should_panic(expected = "out of bounds")]
fn dynamic_block_get_out_of_bounds_panics() {
    let block = DynamicRegisterBlock::<u32, ReadWrite, 2>::new(BASE, [0x00, 0x04]);
    let _ = block.get(2);
}

#[test]
fn irq_guard_acquires_and_releases() {
    // The guard can be acquired and released; the host critical section is a no-op.
    let mut cs = HostCriticalSection::new();
    {
        let guard = IrqGuard::acquire(&mut cs);
        guard.release(&mut cs);
    }
    // A second acquisition must work.
    let guard2 = IrqGuard::acquire(&mut cs);
    guard2.release(&mut cs);
}

#[test]
fn critical_section_returns_value() {
    let mut cs = HostCriticalSection::new();
    let result: u32 = mmio_rs::critical_section(&mut cs, |_| 0xCAFE_BABE);
    assert_eq!(result, 0xCAFE_BABE);
}
