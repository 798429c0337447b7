use vm_core::memory::Memory;
use vm_core::VmError;

#[test]
fn new_memory_persists_the_free_pointer() {
    let m = Memory::new();
    assert_eq!(m.load(0x40), Ok(0x60));
}

#[test]
fn store_at_then_load_returns_the_value() {
    let mut m = Memory::new();
    m.store_at(123456, -7);
    assert_eq!(m.load(123456), Ok(-7));
}

#[test]
fn store_at_overwrites() {
    let mut m = Memory::new();
    m.store_at(8, 1);
    m.store_at(8, 2);
    assert_eq!(m.load(8), Ok(2));
}

#[test]
fn load_uninitialized_offset_fails() {
    let m = Memory::new();
    assert_eq!(m.load(0), Err(VmError::UninitializedRead));
    assert_eq!(m.load(0x60), Err(VmError::UninitializedRead));
}

#[test]
fn store_bumps_the_free_pointer_word_by_word() {
    let mut m = Memory::new();
    m.store(5);
    m.store(9);
    assert_eq!(m.load(0x60), Ok(5));
    assert_eq!(m.load(0x80), Ok(9));
    assert_eq!(m.load(0xa0), Err(VmError::UninitializedRead));
}

#[test]
fn store_at_does_not_move_the_free_pointer() {
    let mut m = Memory::new();
    m.store_at(0x1000, 3);
    m.store(5);
    assert_eq!(m.load(0x60), Ok(5));
}
