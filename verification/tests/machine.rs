use chip8::cpu::CPU;
use chip8::state::StepOutcome;

#[test]
fn fresh_machine_state() {
    let c = CPU::new();
    assert_eq!(c.get_pc(), 0x200);
    assert_eq!(c.get_ir(), 0);
    assert_eq!(c.get_sp(), 0);
    assert_eq!(c.get_delay_timer(), 0);
    assert_eq!(c.get_sound_timer(), 0);
    assert_eq!(c.get_registers().len(), 16);
    assert!(c.get_registers().iter().all(|v| *v == 0));
    assert_eq!(c.get_memory().len(), 4096);
    assert!(c.get_history().is_empty());
    for y in 0..32 {
        for x in 0..64 {
            assert!(!c.read_vbuf(x, y));
        }
    }
}

#[test]
fn default_matches_new() {
    let c: CPU = Default::default();
    let n = CPU::new();
    assert_eq!(c.get_pc(), n.get_pc());
    assert_eq!(c.get_memory(), n.get_memory());
    assert_eq!(c.get_registers(), n.get_registers());
}

#[test]
fn font_sprites_preloaded_in_reserved_region() {
    let c = CPU::new();
    let m = c.get_memory();
    // Digit 0 starts the table, digit F ends it; user space is clear.
    assert_eq!(&m[0..5], &[0xF0, 0x90, 0x90, 0x90, 0xF0]);
    assert_eq!(&m[75..80], &[0xF0, 0x80, 0xF0, 0x80, 0x80]);
    assert!(m[80..].iter().all(|b| *b == 0));
}

#[test]
fn load_pastes_program_at_program_start() {
    let mut c = CPU::new();
    assert!(c.load_bin(vec![1, 2, 3], false));
    let m = c.get_memory();
    assert_eq!(&m[0x200..0x203], &[1, 2, 3]);
    assert_eq!(m[0], 0xF0); // font untouched
}

#[test]
fn load_override_pastes_from_zero() {
    let mut c = CPU::new();
    assert!(c.load_bin(vec![9, 8, 7], true));
    let m = c.get_memory();
    assert_eq!(&m[0..3], &[9, 8, 7]);
}

#[test]
fn load_rejects_image_exceeding_remaining_memory() {
    let mut c = CPU::new();
    let before = c.get_memory().clone();
    assert!(!c.load_bin(vec![0xAB; 4096 - 0x200 + 1], false));
    assert_eq!(c.get_memory(), &before);
}

#[test]
fn load_accepts_exact_fit() {
    let mut c = CPU::new();
    assert!(c.load_bin(vec![0xAB; 4096 - 0x200], false));
    assert_eq!(c.get_memory()[4095], 0xAB);

    let mut d = CPU::new();
    assert!(d.load_bin(vec![0xCD; 4096], true));
    assert!(!d.load_bin(vec![0xCD; 4097], true));
}

#[test]
fn load_empty_image_is_accepted() {
    let mut c = CPU::new();
    let before = c.get_memory().clone();
    assert!(c.load_bin(Vec::new(), false));
    assert_eq!(c.get_memory(), &before);
}

#[test]
fn step_advances_pc_by_two_per_plain_instruction() {
    let mut c = CPU::new();
    // V0 := 1; V1 := 2; V0 += V1 - three straight-line instructions.
    assert!(c.load_bin(vec![0x60, 0x01, 0x61, 0x02, 0x80, 0x14], false));
    assert_eq!(c.get_pc(), 0x200);
    assert_eq!(c.step(), StepOutcome::Continuing);
    assert_eq!(c.get_pc(), 0x202);
    assert_eq!(c.step(), StepOutcome::Continuing);
    assert_eq!(c.get_pc(), 0x204);
    assert_eq!(c.step(), StepOutcome::Continuing);
    assert_eq!(c.get_pc(), 0x206);
    assert_eq!(c.get_registers()[0], 3);
}

#[test]
fn call_then_ret_returns_past_call_site() {
    let mut c = CPU::new();
    // 0x200: call 0x208; 0x208: ret.
    let p = vec![0x22, 0x08, 0x00, 0x00, 0x00, 0x00, 0x00, 0x00, 0x00, 0xEE];
    assert!(c.load_bin(p, false));
    assert_eq!(c.step(), StepOutcome::Continuing);
    assert_eq!(c.get_pc(), 0x208);
    assert_eq!(c.get_sp(), 1);
    assert_eq!(c.step(), StepOutcome::Continuing);
    assert_eq!(c.get_pc(), 0x202);
    assert_eq!(c.get_sp(), 0);
}

#[test]
fn nested_calls_return_in_order() {
    let mut c = CPU::new();
    // 0x200: call 0x210; 0x210: call 0x220; 0x220: ret; 0x212: ret.
    let mut p = vec![0u8; 0x30];
    p[0x00] = 0x22;
    p[0x01] = 0x10;
    p[0x10] = 0x22;
    p[0x11] = 0x20;
    p[0x20] = 0x00;
    p[0x21] = 0xEE;
    p[0x12] = 0x00;
    p[0x13] = 0xEE;
    assert!(c.load_bin(p, false));
    c.step(); // call 0x210
    c.step(); // call 0x220
    assert_eq!(c.get_sp(), 2);
    c.step(); // ret to 0x212
    assert_eq!(c.get_pc(), 0x212);
    c.step(); // ret to 0x202
    assert_eq!(c.get_pc(), 0x202);
    assert_eq!(c.get_sp(), 0);
}

#[test]
fn ret_with_empty_stack_halts() {
    let mut c = CPU::new();
    assert_eq!(c.execute(0x00EE), StepOutcome::Halted);
}

#[test]
fn seventeenth_nested_call_is_a_fault() {
    let mut c = CPU::new();
    for _ in 0..16 {
        assert_eq!(c.execute(0x2300), StepOutcome::Continuing);
    }
    assert_eq!(c.get_sp(), 16);
    assert_eq!(c.execute(0x2300), StepOutcome::Fault);
    assert_eq!(c.get_sp(), 16);
}

#[test]
fn step_halts_when_pc_runs_past_memory() {
    let mut c = CPU::new();
    c.execute(0x1FFF); // jump to the last byte
    assert_eq!(c.get_pc(), 0xFFF);
    assert_eq!(c.step(), StepOutcome::Halted);
    assert_eq!(c.get_pc(), 0xFFF);
}

#[test]
fn next_cycle_reports_end_of_execution() {
    let mut c = CPU::new();
    assert!(c.load_bin(vec![0x60, 0x01], false));
    assert_eq!(c.next_cycle(), 0);
    c.execute(0x1FFF);
    assert_eq!(c.next_cycle(), -1);
}

#[test]
fn skips_move_pc_only_when_condition_holds() {
    let mut c = CPU::new();
    c.execute(0x6005); // V0 := 5
    let pc = c.get_pc();
    c.execute(0x3005); // skip if V0 == 5: taken
    assert_eq!(c.get_pc(), pc + 2);
    c.execute(0x3006); // skip if V0 == 6: not taken
    assert_eq!(c.get_pc(), pc + 2);
    c.execute(0x4006); // skip if V0 != 6: taken
    assert_eq!(c.get_pc(), pc + 4);
    c.execute(0x6105); // V1 := 5
    c.execute(0x5010); // skip if V0 == V1: taken
    assert_eq!(c.get_pc(), pc + 6);
    c.execute(0x9010); // skip if V0 != V1: not taken
    assert_eq!(c.get_pc(), pc + 6);
}

#[test]
fn jumps_set_pc() {
    let mut c = CPU::new();
    c.execute(0x1ABC);
    assert_eq!(c.get_pc(), 0xABC);
    c.execute(0x6010); // V0 := 0x10
    c.execute(0xB200); // pc := V0 + 0x200
    assert_eq!(c.get_pc(), 0x210);
}

#[test]
fn index_register_ops() {
    let mut c = CPU::new();
    c.execute(0xA123);
    assert_eq!(c.get_ir(), 0x123);
    c.execute(0x60FF); // V0 := 0xFF
    c.execute(0xF01E); // I += V0
    assert_eq!(c.get_ir(), 0x222);
}

#[test]
fn timers_are_get_and_set_through_registers() {
    let mut c = CPU::new();
    c.execute(0x602A); // V0 := 42
    c.execute(0xF015); // DT := V0
    assert_eq!(c.get_delay_timer(), 42);
    c.execute(0xF118); // ST := V1 (0)
    assert_eq!(c.get_sound_timer(), 0);
    c.execute(0xF018); // ST := V0
    assert_eq!(c.get_sound_timer(), 42);
    c.set_delay_timer(7);
    c.execute(0xF107); // V1 := DT
    assert_eq!(c.get_registers()[1], 7);
    c.set_sound_timer(3);
    assert_eq!(c.get_sound_timer(), 3);
}

#[test]
fn bcd_stores_numeric_digits() {
    let mut c = CPU::new();
    c.execute(0x60FE); // V0 := 254
    c.execute(0xA300); // I := 0x300
    assert_eq!(c.execute(0xF033), StepOutcome::Continuing);
    let m = c.get_memory();
    assert_eq!(&m[0x300..0x303], &[2, 5, 4]);
}

#[test]
fn bcd_of_small_value_pads_with_zero_digits() {
    let mut c = CPU::new();
    c.execute(0x6007); // V0 := 7
    c.execute(0xA300);
    c.execute(0xF033);
    let m = c.get_memory();
    assert_eq!(&m[0x300..0x303], &[0, 0, 7]);
}

#[test]
fn bcd_outside_memory_is_a_fault() {
    let mut c = CPU::new();
    c.execute(0xAFFE); // I := 0xFFE, so I+2 == 0x1000
    let before = c.get_memory().clone();
    assert_eq!(c.execute(0xF033), StepOutcome::Fault);
    assert_eq!(c.get_memory(), &before);
}

#[test]
fn store_and_load_registers_round_trip() {
    let mut c = CPU::new();
    c.execute(0x6011); // V0
    c.execute(0x6122); // V1
    c.execute(0x6233); // V2
    c.execute(0xA300);
    assert_eq!(c.execute(0xF255), StepOutcome::Continuing); // store V0..=V2
    let m = c.get_memory();
    assert_eq!(&m[0x300..0x303], &[0x11, 0x22, 0x33]);
    assert_eq!(m[0x303], 0);
    c.execute(0x6000);
    c.execute(0x6100);
    c.execute(0x6200);
    c.execute(0x6344); // V3, beyond the loaded range
    assert_eq!(c.execute(0xF265), StepOutcome::Continuing); // load V0..=V2
    let r = c.get_registers();
    assert_eq!(&r[0..3], &[0x11, 0x22, 0x33]);
    assert_eq!(r[3], 0x44);
}

#[test]
fn store_registers_outside_memory_is_a_fault() {
    let mut c = CPU::new();
    c.execute(0xAFFF); // I := 0xFFF
    assert_eq!(c.execute(0xF155), StepOutcome::Fault); // I + 1 out of range
    assert_eq!(c.execute(0xF165), StepOutcome::Fault);
    assert_eq!(c.execute(0xF055), StepOutcome::Continuing); // exactly the last byte
}

#[test]
fn unknown_opcodes_are_no_ops() {
    let mut c = CPU::new();
    let pc = c.get_pc();
    for ins in [0x0FFFu16, 0x800A, 0xE0FF, 0xF0FF] {
        assert_eq!(c.execute(ins), StepOutcome::Continuing);
    }
    assert_eq!(c.get_pc(), pc);
    assert!(c.get_registers().iter().all(|v| *v == 0));
}

#[test]
fn key_and_font_instructions_are_stub_no_ops() {
    let mut c = CPU::new();
    let pc = c.get_pc();
    assert_eq!(c.execute(0xE09E), StepOutcome::Continuing);
    assert_eq!(c.execute(0xE0A1), StepOutcome::Continuing);
    assert_eq!(c.execute(0xF00A), StepOutcome::Continuing);
    assert_eq!(c.execute(0xF029), StepOutcome::Continuing);
    assert_eq!(c.get_pc(), pc);
    assert_eq!(c.get_ir(), 0);
}

#[test]
fn history_records_executed_opcodes() {
    let mut c = CPU::new();
    assert!(c.load_bin(vec![0x60, 0x01, 0x61, 0x02], false));
    c.step();
    c.step();
    assert_eq!(c.get_history(), &vec![0x6001u16, 0x6102]);
}

#[test]
fn fetch_no_increment_peeks_without_moving() {
    let mut c = CPU::new();
    assert!(c.load_bin(vec![0x6A, 0x07], false));
    assert_eq!(c.fetch_no_increment(), 0x6A07);
    assert_eq!(c.get_pc(), 0x200);
    c.step();
    assert_eq!(c.get_registers()[10], 7);
}
