use chip8::cpu::CPU;
use chip8::state::StepOutcome;

/// A machine with 0xFF at address 0x300 and 0x80 at 0x301, ready to draw.
fn with_sprite() -> CPU {
    let mut c = CPU::new();
    let mut p = vec![0u8; 0x102];
    p[0x100] = 0xFF;
    p[0x101] = 0x80;
    assert!(c.load_bin(p, false));
    c
}

#[test]
fn draw_lights_first_row_and_redraw_clears_it() {
    let mut c = with_sprite();
    c.execute(0xA300); // I := 0x300 (0xFF)
    assert_eq!(c.execute(0xD011), StepOutcome::Continuing); // at (V0,V1)=(0,0), 1 row
    for x in 0..8 {
        assert!(c.read_vbuf(x, 0));
    }
    for x in 8..64 {
        assert!(!c.read_vbuf(x, 0));
    }
    assert_eq!(c.get_registers()[15], 0, "no collision on a dark display");

    // The same draw again XORs everything off and reports the collision.
    assert_eq!(c.execute(0xD011), StepOutcome::Continuing);
    for x in 0..64 {
        assert!(!c.read_vbuf(x, 0));
    }
    assert_eq!(c.get_registers()[15], 1);
}

#[test]
fn draw_straddles_byte_boundary() {
    let mut c = with_sprite();
    c.execute(0xA300);
    c.execute(0x6004); // V0 := 4
    c.execute(0x6105); // V1 := 5
    c.execute(0xD012); // two rows at (4, 5)
    for x in 4..12 {
        assert!(c.read_vbuf(x, 5), "row 0xFF spans pixels 4..12");
    }
    assert!(!c.read_vbuf(3, 5));
    assert!(!c.read_vbuf(12, 5));
    assert!(c.read_vbuf(4, 6), "row 0x80 lights only its first pixel");
    for x in 5..13 {
        assert!(!c.read_vbuf(x, 6));
    }
    assert_eq!(c.get_registers()[15], 0);
}

#[test]
fn draw_does_not_wrap_past_last_byte_column() {
    let mut c = with_sprite();
    c.execute(0xA300);
    c.execute(0x603C); // V0 := 60: bit offset 4 in the last byte column
    c.execute(0xD011);
    for x in 60..64 {
        assert!(c.read_vbuf(x, 0));
    }
    // Nothing spilled onto the next row.
    for x in 0..64 {
        assert!(!c.read_vbuf(x, 1));
    }
}

#[test]
fn draw_with_start_off_screen_is_skipped() {
    let mut c = with_sprite();
    c.execute(0xA300);
    c.execute(0x6F01); // VF := 1: a skipped draw must not touch it
    c.execute(0x6040); // V0 := 64
    assert_eq!(c.execute(0xD011), StepOutcome::Continuing);
    for y in 0..32 {
        for x in 0..64 {
            assert!(!c.read_vbuf(x, y));
        }
    }
    assert_eq!(c.get_registers()[15], 1);
}

#[test]
fn draw_cuts_off_rows_below_display() {
    let mut c = with_sprite();
    c.execute(0xA300);
    c.execute(0x611F); // V1 := 31, the last row
    c.execute(0xD012); // two rows: the second is cut off
    for x in 0..8 {
        assert!(c.read_vbuf(x, 31));
    }
    assert_eq!(c.get_registers()[15], 0);
}

#[test]
fn draw_start_below_display_draws_nothing() {
    let mut c = with_sprite();
    c.execute(0xA300);
    c.execute(0x6120); // V1 := 32
    assert_eq!(c.execute(0xD011), StepOutcome::Continuing);
    for y in 0..32 {
        for x in 0..64 {
            assert!(!c.read_vbuf(x, y));
        }
    }
}

#[test]
fn draw_reading_sprite_outside_memory_is_a_fault() {
    let mut c = with_sprite();
    c.execute(0xAFFF); // I := 0xFFF
    assert_eq!(c.execute(0xD012), StepOutcome::Fault); // second row is at 0x1000
    assert_eq!(c.execute(0xD011), StepOutcome::Continuing); // one row still fits
}

#[test]
fn collision_only_where_lit_pixels_go_dark() {
    let mut c = with_sprite();
    c.execute(0xA301); // I := 0x301 (0x80: one pixel)
    c.execute(0xD011); // light (0,0)
    assert_eq!(c.get_registers()[15], 0);
    c.execute(0x6008); // V0 := 8: draw next to it, no overlap
    c.execute(0xD011);
    assert_eq!(c.get_registers()[15], 0);
    c.execute(0x6000); // back over the first: overlap
    c.execute(0xD011);
    assert_eq!(c.get_registers()[15], 1);
    assert!(!c.read_vbuf(0, 0));
    assert!(c.read_vbuf(8, 0));
}

#[test]
fn clear_display_blanks_every_pixel() {
    let mut c = with_sprite();
    c.execute(0xA300);
    c.execute(0xD011);
    assert!(c.read_vbuf(0, 0));
    assert_eq!(c.execute(0x00E0), StepOutcome::Continuing);
    for y in 0..32 {
        for x in 0..64 {
            assert!(!c.read_vbuf(x, y));
        }
    }
}
