use vyantra::PathError;
use vyantra::Stack;
use vyantra::StackError;
use vyantra::STACK_SIZE;

#[test]
fn stack_lifo_order() {
    let mut s = Stack::new();
    assert_eq!(s.push(1), Ok(()));
    assert_eq!(s.push(2), Ok(()));
    assert_eq!(s.push(3), Ok(()));
    assert_eq!(s.len(), 3);
    assert_eq!(s.pop(), Ok(3));
    assert_eq!(s.pop(), Ok(2));
    assert_eq!(s.pop(), Ok(1));
    assert_eq!(s.len(), 0);
}

#[test]
fn stack_capacity_overflow_and_underflow() {
    let mut s = Stack::new();
    for i in 0..STACK_SIZE {
        assert_eq!(s.push(i as i32), Ok(()));
    }
    assert_eq!(s.len(), 1024);
    assert_eq!(s.push(7), Err(StackError::PushErr));
    assert_eq!(s.len(), 1024);

    let mut empty = Stack::new();
    assert_eq!(empty.pop(), Err(StackError::PopErr));
}

#[test]
fn stack_get_at_idx_addressing() {
    let mut s = Stack::new();
    s.push(1).unwrap();
    s.push(2).unwrap();
    s.push(3).unwrap();
    assert_eq!(s.get_at_idx(0), Ok(3));
    assert_eq!(s.get_at_idx(1), Ok(2));
    assert_eq!(s.get_at_idx(2), Ok(1));
    assert_eq!(s.get_at_idx(3), Err(PathError::StackErr));
    assert_eq!(s.get_at_idx(-1), Err(PathError::StackErr));
}

#[test]
fn stack_set_at_idx_overwrites_in_place() {
    let mut s = Stack::new();
    s.push(1).unwrap();
    s.push(2).unwrap();
    s.push(3).unwrap();
    assert_eq!(s.set_at_idx(1, 9), Ok(()));
    assert_eq!(s.get_at_idx(0), Ok(3));
    assert_eq!(s.get_at_idx(1), Ok(9));
    assert_eq!(s.get_at_idx(2), Ok(1));
    assert_eq!(s.set_at_idx(5, 0), Err(PathError::StackErr));
    assert_eq!(s.set_at_idx(-2, 0), Err(PathError::StackErr));
    assert_eq!(s.len(), 3);
}

#[test]
fn stack_pointer_tracks_length() {
    let mut s = Stack::new();
    assert_eq!(s._get_sp(), -1);
    s.push(5).unwrap();
    assert_eq!(s._get_sp(), 0);
    s.push(6).unwrap();
    assert_eq!(s._get_sp(), 1);
    s.pop().unwrap();
    assert_eq!(s._get_sp(), 0);
    s.pop().unwrap();
    assert_eq!(s._get_sp(), -1);
}
