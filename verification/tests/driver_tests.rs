use std::cell::RefCell;
use std::rc::Rc;

use max7219_dot_matrix::glyph_row;
use max7219_dot_matrix::is_in_range;
use max7219_dot_matrix::ChipSelect;
use max7219_dot_matrix::Command;
use max7219_dot_matrix::Error;
use max7219_dot_matrix::SpiTransfer;
use max7219_dot_matrix::MAX7219;

struct MockSpi {
    written: Vec<u8>,
    fail_at: Option<usize>,
}

impl MockSpi {
    fn new() -> MockSpi {
        MockSpi { written: Vec::new(), fail_at: None }
    }

    fn failing_at(k: usize) -> MockSpi {
        MockSpi { written: Vec::new(), fail_at: Some(k) }
    }
}

impl SpiTransfer for MockSpi {
    type Fault = u8;

    fn transfer(&mut self, byte: u8) -> Result<(), u8> {
        if self.fail_at == Some(self.written.len()) {
            return Err(0xEE);
        }
        self.written.push(byte);
        Ok(())
    }
}

struct MockPin {
    levels: Rc<RefCell<Vec<bool>>>,
    fail: bool,
}

impl ChipSelect for MockPin {
    type Fault = ();

    fn set_low(&mut self) -> Result<(), ()> {
        if self.fail {
            return Err(());
        }
        self.levels.borrow_mut().push(true);
        Ok(())
    }

    fn set_high(&mut self) -> Result<(), ()> {
        if self.fail {
            return Err(());
        }
        self.levels.borrow_mut().push(false);
        Ok(())
    }
}

fn new_chain(n: usize) -> (MAX7219<MockPin>, Rc<RefCell<Vec<bool>>>) {
    let levels = Rc::new(RefCell::new(Vec::new()));
    let pin = MockPin { levels: levels.clone(), fail: false };
    (MAX7219::new(pin, n), levels)
}

fn glyph(c: u8) -> [u8; 8] {
    let mut g = [0u8; 8];
    let mut r = 0u8;
    while r < 8 {
        g[r as usize] = glyph_row(c, r);
        r += 1;
    }
    g
}

/// The payload byte of bus slot `slot` in the frame for row `row`, out of a
/// text write's recorded traffic (2 * n bytes per frame, one frame per row).
fn payload_at(written: &[u8], n: usize, row: usize, slot: usize) -> u8 {
    written[row * 2 * n + 2 * slot + 1]
}

#[test]
fn broadcast_is_one_frame_of_two_bytes_per_module() {
    let (mut m, levels) = new_chain(3);
    let mut spi = MockSpi::new();
    m.write_raw_all(&mut spi, 0x0A, 0x07).unwrap();
    assert_eq!(spi.written, vec![0x0A, 0x07, 0x0A, 0x07, 0x0A, 0x07]);
    assert_eq!(*levels.borrow(), vec![true, false]);
}

#[test]
fn line_write_is_one_frame_of_two_bytes_per_module() {
    let (mut m, levels) = new_chain(2);
    let mut spi = MockSpi::new();
    m.write_line_raw(&mut spi, 3, &[0x11, 0x22]).unwrap();
    assert_eq!(spi.written, vec![0x04, 0x11, 0x04, 0x22]);
    assert_eq!(*levels.borrow(), vec![true, false]);
}

#[test]
fn command_broadcast_uses_command_register() {
    let (mut m, _levels) = new_chain(2);
    let mut spi = MockSpi::new();
    m.write_command_all(&mut spi, Command::Intensity, 0x05).unwrap();
    assert_eq!(spi.written, vec![0x0A, 0x05, 0x0A, 0x05]);
}

#[test]
fn command_registers_match_the_chip() {
    assert_eq!(Command::Noop.register(), 0x00);
    assert_eq!(Command::Digit0.register(), 0x01);
    assert_eq!(Command::Digit7.register(), 0x08);
    assert_eq!(Command::DecodeMode.register(), 0x09);
    assert_eq!(Command::Intensity.register(), 0x0A);
    assert_eq!(Command::ScanLimit.register(), 0x0B);
    assert_eq!(Command::OnOff.register(), 0x0C);
    assert_eq!(Command::DisplayTest.register(), 0x0F);
}

#[test]
fn device_write_lands_in_the_reversed_slot() {
    let (mut m, levels) = new_chain(4);
    let mut spi = MockSpi::new();
    m.write_device_raw(&mut spi, 1, 0x05, 0xAB).unwrap();
    // bus slot n - 1 - device = 2 carries the real pair, the rest no-ops
    assert_eq!(spi.written, vec![0, 0, 0, 0, 0x05, 0xAB, 0, 0]);
    assert_eq!(*levels.borrow(), vec![true, false]);
}

#[test]
fn aligned_single_glyph_is_reproduced_unshifted() {
    let (mut m, levels) = new_chain(1);
    let mut spi = MockSpi::new();
    m.write_str_at_pos(&mut spi, "A", 0).unwrap();
    let a = glyph(b'A');
    let mut expected = Vec::new();
    for row in 0..8u8 {
        expected.push(row + 1);
        expected.push(a[row as usize]);
    }
    assert_eq!(spi.written, expected);
    assert_eq!(levels.borrow().len(), 16);
}

#[test]
fn aligned_text_is_device_index_reversed() {
    let (mut m, _levels) = new_chain(2);
    let mut spi = MockSpi::new();
    m.write_str_at_pos(&mut spi, "AB", 0).unwrap();
    let a = glyph(b'A');
    let b = glyph(b'B');
    for row in 0..8usize {
        // bus slot 0 is clocked first and lands on the furthest module
        assert_eq!(payload_at(&spi.written, 2, row, 0), b[row]);
        assert_eq!(payload_at(&spi.written, 2, row, 1), a[row]);
        assert_eq!(spi.written[row * 4], row as u8 + 1);
        assert_eq!(spi.written[row * 4 + 2], row as u8 + 1);
    }
}

#[test]
fn half_module_offset_blends_adjacent_glyphs() {
    let (mut m, _levels) = new_chain(1);
    let mut spi = MockSpi::new();
    m.write_str_at_pos(&mut spi, "AB", -4).unwrap();
    let a = glyph(b'A');
    let b = glyph(b'B');
    for row in 0..8usize {
        assert_eq!(payload_at(&spi.written, 1, row, 0), (a[row] >> 4) | (b[row] << 4));
    }
}

#[test]
fn offsets_a_module_apart_shift_by_one_slot() {
    let a = {
        let (mut m, _levels) = new_chain(3);
        let mut spi = MockSpi::new();
        m.write_str_at_pos(&mut spi, "AB", 3).unwrap();
        spi.written
    };
    let b = {
        let (mut m, _levels) = new_chain(3);
        let mut spi = MockSpi::new();
        m.write_str_at_pos(&mut spi, "AB", 11).unwrap();
        spi.written
    };
    for row in 0..8usize {
        for slot in 0..2usize {
            assert_eq!(payload_at(&b, 3, row, slot), payload_at(&a, 3, row, slot + 1));
        }
    }
}

#[test]
fn text_scrolled_past_the_chain_renders_nothing() {
    let (mut m, _levels) = new_chain(2);
    let mut spi = MockSpi::new();
    // character shift 5 >= text length 2 + chain length 2
    m.write_str_at_pos(&mut spi, "Hi", 40).unwrap();
    for row in 0..8usize {
        for slot in 0..2usize {
            assert_eq!(payload_at(&spi.written, 2, row, slot), 0);
        }
    }
}

#[test]
fn text_scrolled_far_left_renders_nothing() {
    let (mut m, _levels) = new_chain(1);
    let mut spi = MockSpi::new();
    m.write_str_at_pos(&mut spi, "A", -20).unwrap();
    for row in 0..8usize {
        assert_eq!(payload_at(&spi.written, 1, row, 0), 0);
    }
}

#[test]
fn clear_all_writes_zero_to_every_row_register() {
    let (mut m, levels) = new_chain(2);
    let mut spi = MockSpi::new();
    m.clear_all(&mut spi).unwrap();
    let mut expected = Vec::new();
    for register in 1..9u8 {
        expected.push(register);
        expected.push(0);
        expected.push(register);
        expected.push(0);
    }
    assert_eq!(spi.written, expected);
    assert_eq!(levels.borrow().len(), 16);
}

#[test]
fn invalid_line_index_is_rejected_before_any_bus_activity() {
    let (mut m, levels) = new_chain(2);
    let mut spi = MockSpi::new();
    let r = m.write_line_raw(&mut spi, 8, &[0, 0]);
    assert!(matches!(r, Err(Error::InvalidLineIndex)));
    assert!(spi.written.is_empty());
    assert!(levels.borrow().is_empty());
}

#[test]
fn wrong_payload_length_is_rejected_before_any_bus_activity() {
    let (mut m, levels) = new_chain(2);
    let mut spi = MockSpi::new();
    let r = m.write_line_raw(&mut spi, 0, &[0, 0, 0]);
    assert!(matches!(r, Err(Error::InvalidPayloadLength)));
    assert!(spi.written.is_empty());
    assert!(levels.borrow().is_empty());
}

#[test]
fn transport_failure_aborts_and_raises_chip_select() {
    let (mut m, levels) = new_chain(3);
    let mut spi = MockSpi::failing_at(2);
    let r = m.write_raw_all(&mut spi, 0x01, 0x55);
    assert!(matches!(r, Err(Error::Spi(0xEE))));
    assert_eq!(spi.written, vec![0x01, 0x55]);
    // chip-select went low once and was raised on the way out
    assert_eq!(*levels.borrow(), vec![true, false]);
}

#[test]
fn pin_failure_is_surfaced() {
    let levels = Rc::new(RefCell::new(Vec::new()));
    let pin = MockPin { levels: levels.clone(), fail: true };
    let mut m = MAX7219::new(pin, 2);
    let mut spi = MockSpi::new();
    let r = m.write_raw_all(&mut spi, 0x01, 0x00);
    assert!(matches!(r, Err(Error::Pin(()))));
    assert!(spi.written.is_empty());
}

#[test]
fn get_num_devices_returns_the_construction_count() {
    let (mut m, _levels) = new_chain(5);
    assert_eq!(m.get_num_devices(), 5);
}

#[test]
fn is_in_range_is_a_half_open_interval() {
    assert!(is_in_range(3, 0));
    assert!(is_in_range(3, 2));
    assert!(!is_in_range(3, 3));
    assert!(!is_in_range(3, -1));
    assert!(!is_in_range(0, 0));
}

#[test]
fn blank_sentinel_glyph_is_all_zero() {
    for row in 0..8u8 {
        assert_eq!(glyph_row(0, row), 0);
    }
}

#[test]
fn short_text_pads_the_remaining_modules_with_blanks() {
    let (mut m, _levels) = new_chain(3);
    let mut spi = MockSpi::new();
    m.write_str_at_pos(&mut spi, "A", 0).unwrap();
    let a = glyph(b'A');
    for row in 0..8usize {
        // only the nearest module (last slot) shows the single character
        assert_eq!(payload_at(&spi.written, 3, row, 0), 0);
        assert_eq!(payload_at(&spi.written, 3, row, 1), 0);
        assert_eq!(payload_at(&spi.written, 3, row, 2), a[row]);
    }
}

#[test]
fn device_write_at_both_ends_of_the_chain() {
    let (mut m, _levels) = new_chain(2);
    let mut spi = MockSpi::new();
    m.write_device_raw(&mut spi, 0, 0x01, 0x7E).unwrap();
    // device 0 is nearest, so its pair is clocked last
    assert_eq!(spi.written, vec![0, 0, 0x01, 0x7E]);
    let mut spi2 = MockSpi::new();
    m.write_device_raw(&mut spi2, 1, 0x02, 0x3C).unwrap();
    assert_eq!(spi2.written, vec![0x02, 0x3C, 0, 0]);
}

#[test]
fn undefined_code_points_render_blank() {
    for row in 0..8u8 {
        assert_eq!(glyph_row(0x1F, row), 0);
        assert_eq!(glyph_row(0x80, row), 0);
        assert_eq!(glyph_row(0xFF, row), 0);
    }
    // a defined glyph is not blank
    assert!((0..8u8).any(|row| glyph_row(b'A', row) != 0));
}

#[test]
fn get_byte_at_blends_in_both_directions() {
    let (mut m, _levels) = new_chain(1);
    let a = glyph(b'A');
    let b = glyph(b'B');
    for row in 0..8usize {
        assert_eq!(m.get_byte_at(b"AB", 0, row, 0), a[row]);
        assert_eq!(m.get_byte_at(b"AB", 0, row, -4), (a[row] >> 4) | (b[row] << 4));
        assert_eq!(m.get_byte_at(b"AB", 1, row, 4), (b[row] << 4) | (a[row] >> 4));
        // one past the end: only the last character's trailing remainder
        assert_eq!(m.get_byte_at(b"AB", 2, row, 3), b[row] >> 5);
    }
}
