use chip8::cpu::CPU;
use chip8::state::StepOutcome;

#[test]
fn add_sets_carry_on_overflow() {
    let mut c = CPU::new();
    assert_eq!(c.execute(0x60FF), StepOutcome::Continuing); // V0 := 0xFF
    assert_eq!(c.execute(0x6101), StepOutcome::Continuing); // V1 := 0x01
    assert_eq!(c.execute(0x8014), StepOutcome::Continuing); // V0 += V1
    assert_eq!(c.get_registers()[0], 0x00);
    assert_eq!(c.get_registers()[15], 1);
}

#[test]
fn add_clears_carry_without_overflow() {
    let mut c = CPU::new();
    c.execute(0x6005); // V0 := 5
    c.execute(0x6103); // V1 := 3
    c.execute(0x6F01); // VF := 1, to see it cleared
    c.execute(0x8014);
    assert_eq!(c.get_registers()[0], 8);
    assert_eq!(c.get_registers()[15], 0);
}

#[test]
fn add_carry_boundary_is_greater_than_255() {
    // 0x80 + 0x7F = 0xFF: no carry; 0x80 + 0x80 = 0x100: carry.
    let mut c = CPU::new();
    c.execute(0x6080);
    c.execute(0x617F);
    c.execute(0x8014);
    assert_eq!(c.get_registers()[0], 0xFF);
    assert_eq!(c.get_registers()[15], 0);

    let mut d = CPU::new();
    d.execute(0x6080);
    d.execute(0x6180);
    d.execute(0x8014);
    assert_eq!(d.get_registers()[0], 0x00);
    assert_eq!(d.get_registers()[15], 1);
}

#[test]
fn sub_sets_flag_on_no_borrow() {
    let mut c = CPU::new();
    c.execute(0x600A); // V0 := 10
    c.execute(0x6105); // V1 := 5
    c.execute(0x8015); // V0 -= V1
    assert_eq!(c.get_registers()[0], 5);
    assert_eq!(c.get_registers()[15], 1);
}

#[test]
fn sub_clears_flag_on_borrow() {
    let mut c = CPU::new();
    c.execute(0x6005); // V0 := 5
    c.execute(0x610A); // V1 := 10
    c.execute(0x8015); // V0 -= V1, wraps to 251
    assert_eq!(c.get_registers()[0], 251);
    assert_eq!(c.get_registers()[15], 0);
}

#[test]
fn sub_equal_values_count_as_no_borrow() {
    let mut c = CPU::new();
    c.execute(0x6007);
    c.execute(0x6107);
    c.execute(0x8015);
    assert_eq!(c.get_registers()[0], 0);
    assert_eq!(c.get_registers()[15], 1);
}

#[test]
fn subn_reverses_operands() {
    let mut c = CPU::new();
    c.execute(0x6005); // V0 := 5
    c.execute(0x610A); // V1 := 10
    c.execute(0x8017); // V0 := V1 - V0
    assert_eq!(c.get_registers()[0], 5);
    assert_eq!(c.get_registers()[15], 1);

    let mut d = CPU::new();
    d.execute(0x600A);
    d.execute(0x6105);
    d.execute(0x8017); // V0 := 5 - 10, wraps to 251, borrow
    assert_eq!(d.get_registers()[0], 251);
    assert_eq!(d.get_registers()[15], 0);
}

#[test]
fn shift_right_moves_low_bit_to_vf() {
    let mut c = CPU::new();
    c.execute(0x600B); // V0 := 0b1011
    c.execute(0x8006);
    assert_eq!(c.get_registers()[15], 1);
    assert_eq!(c.get_registers()[0], 0b101);

    let mut d = CPU::new();
    d.execute(0x600A); // V0 := 0b1010
    d.execute(0x8006);
    assert_eq!(d.get_registers()[15], 0);
    assert_eq!(d.get_registers()[0], 0b101);
}

#[test]
fn shift_left_moves_high_bit_to_vf_as_one() {
    let mut c = CPU::new();
    c.execute(0x6081); // V0 := 0x81
    c.execute(0x800E);
    assert_eq!(c.get_registers()[15], 1);
    assert_eq!(c.get_registers()[0], 0x02);

    let mut d = CPU::new();
    d.execute(0x6041); // V0 := 0x41
    d.execute(0x800E);
    assert_eq!(d.get_registers()[15], 0);
    assert_eq!(d.get_registers()[0], 0x82);
}

#[test]
fn shift_does_not_read_vf_as_operand() {
    // Same V0, different VF: the shifted result is the same.
    let mut c = CPU::new();
    c.execute(0x6006); // V0 := 6
    c.execute(0x6F01); // VF := 1
    c.execute(0x8006);
    let mut d = CPU::new();
    d.execute(0x6006);
    d.execute(0x6F00); // VF := 0
    d.execute(0x8006);
    assert_eq!(c.get_registers()[0], d.get_registers()[0]);
    assert_eq!(c.get_registers()[0], 3);
}

#[test]
fn shift_of_vf_itself_shifts_the_stored_flag() {
    // VF receives the shifted-out bit first, then VF is what shifts.
    let mut c = CPU::new();
    c.execute(0x6F03); // VF := 0b11
    c.execute(0x8F06); // flag := 1, then VF := 1 >> 1 == 0
    assert_eq!(c.get_registers()[15], 0);
}

#[test]
fn add_imm_wraps_without_touching_flag() {
    let mut c = CPU::new();
    c.execute(0x6F01); // VF := 1
    c.execute(0x60FF); // V0 := 0xFF
    c.execute(0x7002); // V0 += 2, wrapping, no flag
    assert_eq!(c.get_registers()[0], 1);
    assert_eq!(c.get_registers()[15], 1);
}

#[test]
fn logic_ops_combine_registers() {
    let mut c = CPU::new();
    c.execute(0x60CC); // V0 := 0xCC
    c.execute(0x61AA); // V1 := 0xAA
    c.execute(0x8012); // V0 &= V1
    assert_eq!(c.get_registers()[0], 0x88);
    c.execute(0x60CC);
    c.execute(0x8011); // V0 |= V1
    assert_eq!(c.get_registers()[0], 0xEE);
    c.execute(0x60CC);
    c.execute(0x8013); // V0 ^= V1
    assert_eq!(c.get_registers()[0], 0x66);
    c.execute(0x8010); // V0 := V1
    assert_eq!(c.get_registers()[0], 0xAA);
}

#[test]
fn random_masked_with_zero_is_zero() {
    let mut c = CPU::new();
    c.execute(0x60AA);
    c.execute(0xC000); // V0 := random & 0x00
    assert_eq!(c.get_registers()[0], 0);
}

#[test]
fn random_respects_mask() {
    let mut c = CPU::new();
    c.execute(0xC00F); // V0 := random & 0x0F
    assert!(c.get_registers()[0] <= 0x0F);
}
