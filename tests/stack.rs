use chip8::stack::{Stack, STACK_SIZE};

#[test]
fn empty_push() {
    let mut stack = Stack::new();
    stack.push(1);
    assert_eq!(stack.top(), 1);
    stack.push(2);
    assert_eq!(stack.top(), 2);
}

#[test]
fn stack_pop() {
    let mut stack = Stack::new();
    for i in 0..STACK_SIZE {
        stack.push(i as u16);
    }

    for i in 0..STACK_SIZE {
        let v = stack.pop();
        assert_eq!(v, (STACK_SIZE - i - 1) as u16);
    }
}

#[test]
fn depth_follows_push_and_pop() {
    let mut stack = Stack::new();
    assert_eq!(stack.depth(), 0);
    stack.push(0x300);
    stack.push(0x400);
    assert_eq!(stack.depth(), 2);
    assert_eq!(stack.pop(), 0x400);
    assert_eq!(stack.depth(), 1);
}
