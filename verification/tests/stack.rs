use chip8::error::VmError;
use chip8::stack::{Stack, STACK_SIZE};

#[test]
fn stack_new() {
    let stack = Stack::new();
    for i in 0..STACK_SIZE {
        assert_eq!(stack.slot(i), 0);
    }
}

#[test]
fn push_pop() -> Result<(), VmError> {
    let mut stack = Stack::new();
    stack.push(42)?;
    stack.push(7)?;
    assert_eq!(stack.pop()?, 7);
    assert_eq!(stack.pop()?, 42);
    Ok(())
}

#[test]
fn overflow_underflow_error() {
    let mut stack = Stack::new();
    for _ in 0..STACK_SIZE {
        stack.push(7).unwrap();
    }
    assert!(stack.push(7).is_err());

    let mut stack = Stack::new();
    assert!(stack.pop().is_err());
}

#[test]
fn stack_errors_name_the_cause() {
    let mut stack = Stack::new();
    assert_eq!(stack.pop(), Err(VmError::StackUnderflow));
    assert_eq!(stack.depth(), 0);
    for k in 0..STACK_SIZE {
        assert_eq!(stack.push(0x200 + k), Ok(()));
        assert_eq!(stack.depth(), k + 1);
    }
    assert_eq!(stack.push(0xABC), Err(VmError::StackOverflow { address: 0xABC }));
    assert_eq!(stack.depth(), 16);
    for k in (0..STACK_SIZE).rev() {
        assert_eq!(stack.pop(), Ok(0x200 + k));
    }
    assert_eq!(stack.pop(), Err(VmError::StackUnderflow));
}

#[test]
fn stack_slots_keep_popped_values() {
    let mut stack = Stack::new();
    stack.push(5).unwrap();
    stack.push(6).unwrap();
    assert_eq!(stack.pop(), Ok(6));
    assert_eq!(stack.slot(0), 5);
    assert_eq!(stack.slot(1), 6);
    assert_eq!(stack.depth(), 1);
    stack.push(9).unwrap();
    assert_eq!(stack.slot(1), 9);
}
