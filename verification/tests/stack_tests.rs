use vm_core::stack::Stack;
use vm_core::stack::MAX_STACK_SIZE;
use vm_core::VmError;

#[test]
fn push_pop_roundtrip() {
    let mut s = Stack::new();
    assert_eq!(s.len(), 0);
    assert_eq!(s.push(1), Ok(()));
    assert_eq!(s.push(2), Ok(()));
    assert_eq!(s.push(3), Ok(()));
    assert_eq!(s.len(), 3);
    assert_eq!(s.pop(), Ok(3));
    assert_eq!(s.pop(), Ok(2));
    assert_eq!(s.pop(), Ok(1));
    assert_eq!(s.len(), 0);
}

#[test]
fn push_to_capacity_then_overflow() {
    let mut s = Stack::new();
    for i in 0..MAX_STACK_SIZE {
        assert_eq!(s.push(i as i64), Ok(()));
    }
    assert_eq!(s.len(), 1024);
    assert_eq!(s.push(7), Err(VmError::StackOverflow));
    assert_eq!(s.len(), 1024);
}

#[test]
fn pop_empty_underflows() {
    let mut s = Stack::new();
    assert_eq!(s.pop(), Err(VmError::StackUnderflow));
    assert_eq!(s.push(5), Ok(()));
    assert_eq!(s.pop(), Ok(5));
    assert_eq!(s.pop(), Err(VmError::StackUnderflow));
}

#[test]
fn get_indexes_from_the_bottom() {
    let mut s = Stack::new();
    assert_eq!(s.push(10), Ok(()));
    assert_eq!(s.push(20), Ok(()));
    assert_eq!(s.get(0), Ok(10));
    assert_eq!(s.get(1), Ok(20));
    assert_eq!(s.get(2), Err(VmError::IndexOutOfRange));
}

#[test]
fn get_does_not_remove() {
    let mut s = Stack::new();
    assert_eq!(s.push(42), Ok(()));
    assert_eq!(s.get(0), Ok(42));
    assert_eq!(s.get(0), Ok(42));
    assert_eq!(s.len(), 1);
}
