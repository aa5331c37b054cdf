use chip8::registers::{Registers, REGISTERS_NUM};

#[test]
fn read_test() {
    let mut registers = Registers::new();
    registers.set(0, 1);
    registers.set(5, 10);
    registers.set(15, 100);

    assert_eq!(registers.read(0), 1);
    assert_eq!(registers.read(5), 10);
    assert_eq!(registers.read(15), 100);
}

#[test]
fn set_test() {
    let mut registers = Registers::new();
    registers.set(10, 20);
    assert_eq!(registers.read(10), 20);
}

#[test]
fn add_inplace_test() {
    {
        let mut registers = Registers::new();
        registers.set(5, 10);
        registers.set(10, 50);
        registers.add_inplace(5, 10);
        assert_eq!(registers.read(5), 60);
        assert_eq!(registers.read((REGISTERS_NUM - 1) as u8), 0);
    }
    {
        let mut registers = Registers::new();
        registers.set(5, u8::MAX);
        registers.set(10, 100);
        registers.add_inplace(5, 10);
        assert_eq!(registers.read(5), 99);
        assert_eq!(registers.read((REGISTERS_NUM - 1) as u8), 1);
    }
}

#[test]
fn add_with_carry_examples() {
    let mut registers = Registers::new();
    registers.set(1, 250);
    registers.set(2, 10);
    registers.add_inplace(1, 2);
    assert_eq!(registers.read(1), 4);
    assert_eq!(registers.read(15), 1);

    let mut registers = Registers::new();
    registers.set(1, 10);
    registers.set(2, 20);
    registers.set(15, 7);
    registers.add_inplace(1, 2);
    assert_eq!(registers.read(1), 30);
    assert_eq!(registers.read(15), 0);
}

#[test]
fn sub_with_borrow_examples() {
    let mut registers = Registers::new();
    registers.set(1, 10);
    registers.set(2, 3);
    registers.sub_inplace(1, 2);
    assert_eq!(registers.read(1), 7);
    assert_eq!(registers.read(15), 1);

    let mut registers = Registers::new();
    registers.set(1, 3);
    registers.set(2, 10);
    registers.sub_inplace(1, 2);
    assert_eq!(registers.read(1), 249);
    assert_eq!(registers.read(15), 0);
}

#[test]
fn sub_equal_values_borrows_flag_zero() {
    let mut registers = Registers::new();
    registers.set(3, 42);
    registers.set(4, 42);
    registers.set(15, 9);
    registers.sub_inplace(3, 4);
    assert_eq!(registers.read(3), 0);
    assert_eq!(registers.read(15), 0);
}

#[test]
fn reverse_subtract() {
    let mut registers = Registers::new();
    registers.set(1, 3);
    registers.set(2, 10);
    registers.sub_n(1, 2);
    assert_eq!(registers.read(1), 7);
    assert_eq!(registers.read(15), 1);

    let mut registers = Registers::new();
    registers.set(1, 10);
    registers.set(2, 3);
    registers.sub_n(1, 2);
    assert_eq!(registers.read(1), 249);
    assert_eq!(registers.read(15), 0);
}

#[test]
fn shifts_report_the_bit_shifted_out() {
    let mut registers = Registers::new();
    registers.set(6, 0b1000_0101);
    registers.shitf_right_inplace(6);
    assert_eq!(registers.read(6), 0b0100_0010);
    assert_eq!(registers.read(15), 1);

    registers.set(7, 0b1000_0101);
    registers.shift_left_inplace(7);
    assert_eq!(registers.read(7), 0b0000_1010);
    assert_eq!(registers.read(15), 1);

    registers.set(8, 0b0100_0010);
    registers.shift_left_inplace(8);
    assert_eq!(registers.read(8), 0b1000_0100);
    assert_eq!(registers.read(15), 0);

    registers.shitf_right_inplace(8);
    assert_eq!(registers.read(8), 0b0100_0010);
    assert_eq!(registers.read(15), 0);
}

#[test]
fn bitwise_operations_leave_flag_alone() {
    let mut registers = Registers::new();
    registers.set(1, 0b1100);
    registers.set(2, 0b1010);
    registers.set(15, 5);
    assert_eq!(registers.or(1, 2), 0b1110);
    assert_eq!(registers.and(1, 2), 0b1000);
    assert_eq!(registers.xor(1, 2), 0b0110);
    assert_eq!(registers.read(15), 5);
}

#[test]
fn slice_and_copy_from() {
    let mut registers = Registers::new();
    registers.set(0, 1);
    registers.set(1, 2);
    registers.set(2, 3);
    assert_eq!(registers.slice(0, 3), &[1u8, 2, 3][..]);
    registers.copy_from(&[9, 8]);
    assert_eq!(registers.read(0), 9);
    assert_eq!(registers.read(1), 8);
    assert_eq!(registers.read(2), 3);
}
