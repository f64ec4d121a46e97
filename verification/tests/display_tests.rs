//! Tests of the display: XOR plotting, collision reporting, wraparound
//! on both axes, clearing, and the raster order of the exposed grid.

use chip8::display::Display;
use chip8::emulator::Emulator;

fn emu_with(rom: Vec<u8>) -> Emulator {
    let mut e = Emulator::new();
    e.load_rom(&rom).unwrap();
    e
}

#[test]
fn new_display_is_blank_and_not_updated() {
    let d = Display::new();
    assert!(!d.updated);
    assert!(d.grid().iter().all(|&c| !c));
}

#[test]
fn set_plots_eight_bits_most_significant_first() {
    let mut d = Display::new();
    let r = d.set(4, 3, 0b1010_0001);
    assert_eq!(r, 0);
    assert!(d.updated);
    assert!(d.get(4, 3));
    assert!(!d.get(5, 3));
    assert!(d.get(6, 3));
    assert!(!d.get(7, 3));
    assert!(d.get(11, 3));
    assert!(!d.get(4, 2));
    assert!(!d.get(4, 4));
}

#[test]
fn plotting_twice_erases_and_reports_collision() {
    let mut d = Display::new();
    assert_eq!(d.set(10, 5, 0xFF), 0);
    assert!(d.get(10, 5));
    // The identical plot XORs every lit pixel back off.
    assert_eq!(d.set(10, 5, 0xFF), 1);
    assert!(d.grid().iter().all(|&c| !c));
}

#[test]
fn partial_overlap_still_reports_collision() {
    let mut d = Display::new();
    assert_eq!(d.set(0, 0, 0xFF), 0);
    // Only the last sprite bit overlaps a lit pixel.
    assert_eq!(d.set(0, 0, 0x01), 1);
    assert!(d.get(0, 0));
    assert!(!d.get(7, 0));
}

#[test]
fn zero_byte_never_collides() {
    let mut d = Display::new();
    assert_eq!(d.set(0, 0, 0xFF), 0);
    assert_eq!(d.set(0, 0, 0x00), 0);
    assert!(d.get(0, 0));
}

#[test]
fn columns_wrap_at_sixty_four() {
    let mut d = Display::new();
    assert_eq!(d.set(63, 0, 0xFF), 0);
    assert!(d.get(63, 0));
    for x in 0..7 {
        assert!(d.get(x, 0));
    }
    assert!(!d.get(7, 0));
}

#[test]
fn rows_wrap_at_thirty_two() {
    let mut d = Display::new();
    assert_eq!(d.set(0, 35, 0x80), 0);
    assert!(d.get(0, 3));
    assert!(!d.get(0, 4));
}

#[test]
fn draw_wraps_both_axes_through_the_emulator() {
    // V0 = 63, V1 = 31; I = 0x20C; draw 2 rows of 0xC0 there: the two
    // lit columns are 63 and 0, the two rows 31 and (wrapped) 0.
    let mut e = emu_with(vec![
        0x60, 0x3F, 0x61, 0x1F, 0xA2, 0x0C, 0xD0, 0x12, 0x00, 0x00, 0x00, 0x00, 0xC0, 0xC0,
    ]);
    for _ in 0..4 {
        e.tick().unwrap();
    }
    assert!(e.display.get(63, 31));
    assert!(e.display.get(0, 31));
    assert!(e.display.get(63, 0));
    assert!(e.display.get(0, 0));
    assert!(!e.display.get(1, 1));
    assert_eq!(e.v_registers[0xF], 0);
}

#[test]
fn draw_twice_clears_and_sets_collision_flag() {
    // I = 0x20A; draw one row of 0xFF at (0, 0) twice.
    let mut e = emu_with(vec![
        0xA2, 0x0A, 0x60, 0x00, 0xD0, 0x01, 0xD0, 0x01, 0x00, 0x00, 0xFF,
    ]);
    e.tick().unwrap();
    e.tick().unwrap();
    e.tick().unwrap();
    assert_eq!(e.v_registers[0xF], 0);
    assert!(e.display.get(0, 0));
    e.tick().unwrap();
    assert_eq!(e.v_registers[0xF], 1);
    assert!(e.display.grid().iter().all(|&c| !c));
}

#[test]
fn draw_with_zero_rows_only_clears_flags() {
    let mut e = emu_with(vec![0x6F, 0x01, 0xD0, 0x00]);
    e.tick().unwrap();
    e.display.updated = false;
    e.tick().unwrap();
    assert_eq!(e.v_registers[0xF], 0);
    assert!(!e.display.updated);
}

#[test]
fn clear_opcode_blanks_display_and_marks_updated() {
    // Draw a row, acknowledge the redraw, then 00E0.
    let mut e = emu_with(vec![0xA2, 0x08, 0xD0, 0x01, 0x00, 0xE0, 0x00, 0x00, 0xFF]);
    e.tick().unwrap();
    e.tick().unwrap();
    assert!(e.display.get(0, 0));
    e.display.updated = false;
    e.tick().unwrap();
    assert!(e.display.updated);
    assert!(e.display.grid().iter().all(|&c| !c));
}

#[test]
fn grid_is_in_raster_order() {
    let mut d = Display::new();
    // Light (1, 0) and (0, 1): raster order is row-major from the top.
    d.set(1, 0, 0x80);
    d.set(0, 1, 0x80);
    let g = d.grid();
    assert_eq!(g.len(), chip8::GRID_CELLS);
    assert!(g[1]);
    assert!(g[64]);
    assert!(!g[0]);
    assert_eq!(g.iter().filter(|&&c| c).count(), 2);
}
