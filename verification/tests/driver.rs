//! Driver-level tests against the recording doubles.

use ssd1327::command::Command;
use ssd1327::display::Pixel;
use ssd1327::gray::GrayValue;
use ssd1327::interface::{DisplayError, OutputLine, Transport};
use ssd1327::recorder::{RecordingDelay, RecordingPin, RecordingTransport};
use ssd1327::Ssd1327;

fn gray(v: u8) -> GrayValue {
    GrayValue::new(v).unwrap()
}

/// A bus double whose writes always fail.
struct FailingTransport;

impl Transport for FailingTransport {
    fn send_commands(&mut self, _bytes: &Vec<u8>) -> Result<(), DisplayError> {
        Err(DisplayError::BusWriteError)
    }

    fn send_data(&mut self, _bytes: &Vec<u8>) -> Result<(), DisplayError> {
        Err(DisplayError::BusWriteError)
    }
}

/// A reset-line double that always fails to change state.
struct FailingPin;

impl OutputLine for FailingPin {
    fn set_high(&mut self) -> Result<(), DisplayError> {
        Err(DisplayError::PinError)
    }

    fn set_low(&mut self) -> Result<(), DisplayError> {
        Err(DisplayError::PinError)
    }
}

#[test]
fn reset_surfaces_pin_failure() {
    let mut d = Ssd1327::new(RecordingTransport::new());
    let mut pin = FailingPin;
    let mut delay = RecordingDelay::new();
    assert_eq!(d.reset(&mut pin, &mut delay), Err(DisplayError::PinError));
    assert_eq!(delay.history.len(), 0);
}

#[test]
fn init_emits_documented_sequence() {
    let mut d = Ssd1327::new(RecordingTransport::new());
    d.init().unwrap();
    let expected: Vec<Vec<u8>> = vec![
        vec![0xAE],
        vec![0x15, 0x00, 0x7F],
        vec![0x75, 0x00, 0x7F],
        vec![0x81, 0x80],
        vec![0xA0, 0x51],
        vec![0xA1, 0x00],
        vec![0xA2, 0x00],
        vec![0xA4],
        vec![0xA8, 0x7F],
        vec![0xB1, 0xF1],
        vec![0xB3, 0x00],
        vec![0xAB, 0x01],
        vec![0xB6, 0x0F],
        vec![0xBE, 0x0F],
        vec![0xBC, 0x08],
        vec![0xD5, 0x62],
        vec![0xFD, 0x12],
        vec![0xAF],
    ];
    let writes = &d.transport().writes;
    assert_eq!(writes.len(), 18);
    for (i, bytes) in expected.iter().enumerate() {
        assert_eq!(writes[i].0, true, "transaction {} must be a command", i);
        assert_eq!(&writes[i].1, bytes, "transaction {} bytes", i);
    }
}

#[test]
fn init_surfaces_bus_failure() {
    let mut d = Ssd1327::new(FailingTransport);
    assert_eq!(d.init(), Err(DisplayError::BusWriteError));
}

#[test]
fn send_command_emits_one_transaction() {
    let mut d = Ssd1327::new(RecordingTransport::new());
    d.send_command(Command::Contrast(0x42)).unwrap();
    d.send_command(Command::ColumnAddress { start: 3, end: 9 }).unwrap();
    let writes = &d.transport().writes;
    assert_eq!(writes.len(), 2);
    assert_eq!(writes[0], (true, vec![0x81, 0x42]));
    assert_eq!(writes[1], (true, vec![0x15, 0x03, 0x09]));
}

#[test]
fn encode_produces_exact_bytes() {
    assert_eq!(Command::DisplayOn.encode(), vec![0xAF]);
    assert_eq!(Command::DisplayOff.encode(), vec![0xAE]);
    assert_eq!(Command::ColumnAddress { start: 0, end: 127 }.encode(), vec![0x15, 0x00, 0x7F]);
    assert_eq!(Command::RowAddress { start: 1, end: 64 }.encode(), vec![0x75, 0x01, 0x40]);
    assert_eq!(Command::Contrast(0x80).encode(), vec![0x81, 0x80]);
    assert_eq!(Command::SetRemap(0x51).encode(), vec![0xA0, 0x51]);
    assert_eq!(Command::StartLine(0x00).encode(), vec![0xA1, 0x00]);
    assert_eq!(Command::Offset(0x10).encode(), vec![0xA2, 0x10]);
    assert_eq!(Command::DisplayModeNormal.encode(), vec![0xA4]);
    assert_eq!(Command::MuxRatio(0x7F).encode(), vec![0xA8, 0x7F]);
    assert_eq!(Command::PhaseLength(0xF1).encode(), vec![0xB1, 0xF1]);
    assert_eq!(Command::FrontClockDivider(0x00).encode(), vec![0xB3, 0x00]);
    assert_eq!(Command::FunctionSelectionA(0x01).encode(), vec![0xAB, 0x01]);
    assert_eq!(Command::SecondPreChargePeriod(0x0F).encode(), vec![0xB6, 0x0F]);
    assert_eq!(Command::ComVoltageLevel(0x0F).encode(), vec![0xBE, 0x0F]);
    assert_eq!(Command::PreChargeVoltage(0x08).encode(), vec![0xBC, 0x08]);
    assert_eq!(Command::FunctionSelectionB(0x62).encode(), vec![0xD5, 0x62]);
    assert_eq!(Command::CommandLock(0x12).encode(), vec![0xFD, 0x12]);
}

#[test]
fn reset_drives_high_low_high_with_delays() {
    let mut d = Ssd1327::new(RecordingTransport::new());
    let mut pin = RecordingPin::new();
    let mut delay = RecordingDelay::new();
    d.reset(&mut pin, &mut delay).unwrap();
    assert_eq!(pin.history, vec![true, false, true]);
    assert_eq!(delay.history, vec![100_000_000, 100_000_000, 100_000_000]);
    assert_eq!(d.transport().writes.len(), 0);
}

#[test]
fn flush_sends_whole_buffer_as_data() {
    let mut d = Ssd1327::new(RecordingTransport::new());
    d.flush().unwrap();
    let writes = &d.transport().writes;
    assert_eq!(writes.len(), 1);
    assert_eq!(writes[0].0, false);
    assert_eq!(writes[0].1.len(), 8192);
    assert!(writes[0].1.iter().all(|&b| b == 0));
}

#[test]
fn set_pixel_lands_in_flushed_bytes() {
    let mut d = Ssd1327::new(RecordingTransport::new());
    d.set_pixel(0, 0, gray(0xF));
    d.set_pixel(1, 0, gray(0x3));
    d.set_pixel(2, 1, gray(0x8));
    d.flush().unwrap();
    let data = &d.transport().writes[0].1;
    assert_eq!(data[0], 0xF3);
    assert_eq!(data[64 + 1], 0x80);
}

#[test]
fn set_pixel_round_trip_every_value() {
    let mut d = Ssd1327::new(RecordingTransport::new());
    for v in 0..16u8 {
        d.set_pixel(2, 5, gray(v));
        d.set_pixel(3, 5, gray(15 - v));
        assert_eq!(d.get_pixel(2, 5).unwrap().luma(), v);
        assert_eq!(d.get_pixel(3, 5).unwrap().luma(), 15 - v);
    }
}

#[test]
fn setting_same_pixel_twice_leaves_identical_buffer() {
    let mut once = Ssd1327::new(RecordingTransport::new());
    once.set_pixel(10, 10, gray(9));
    once.flush().unwrap();

    let mut twice = Ssd1327::new(RecordingTransport::new());
    twice.set_pixel(10, 10, gray(9));
    twice.set_pixel(10, 10, gray(9));
    twice.flush().unwrap();

    assert_eq!(once.transport().writes[0].1, twice.transport().writes[0].1);
}

#[test]
fn neighbour_pixel_is_untouched() {
    let mut d = Ssd1327::new(RecordingTransport::new());
    d.set_pixel(20, 9, gray(11));
    d.set_pixel(21, 9, gray(3));
    d.set_pixel(20, 9, gray(5));
    assert_eq!(d.get_pixel(21, 9).unwrap().luma(), 3);
    assert_eq!(d.get_pixel(20, 9).unwrap().luma(), 5);
}

#[test]
fn clear_reaches_every_pixel() {
    let mut d = Ssd1327::new(RecordingTransport::new());
    d.set_pixel(5, 5, gray(2));
    d.clear(gray(7)).unwrap();
    for (x, y) in [(0, 0), (1, 0), (127, 127), (126, 63), (64, 99)] {
        assert_eq!(d.get_pixel(x, y).unwrap().luma(), 7);
    }
    d.flush().unwrap();
    assert!(d.transport().writes[0].1.iter().all(|&b| b == 0x77));
}

#[test]
fn out_of_range_writes_are_dropped() {
    let mut d = Ssd1327::new(RecordingTransport::new());
    d.set_pixel(128, 0, gray(15));
    d.set_pixel(0, 128, gray(15));
    d.set_pixel(4000, 4000, gray(15));
    assert!(d.get_pixel(128, 0).is_none());
    assert!(d.get_pixel(0, 128).is_none());
    d.flush().unwrap();
    assert!(d.transport().writes[0].1.iter().all(|&b| b == 0));
}

#[test]
fn draw_iter_applies_writes_in_order() {
    let mut d = Ssd1327::new(RecordingTransport::new());
    let pixels = vec![
        Pixel { x: 0, y: 0, color: gray(1) },
        Pixel { x: 0, y: 0, color: gray(4) },
        Pixel { x: 7, y: 3, color: gray(12) },
        Pixel { x: 200, y: 0, color: gray(15) },
    ];
    d.draw_iter(&pixels).unwrap();
    assert_eq!(d.get_pixel(0, 0).unwrap().luma(), 4);
    assert_eq!(d.get_pixel(7, 3).unwrap().luma(), 12);
    assert_eq!(d.transport().writes.len(), 0);
}

#[test]
fn size_reports_panel_dimensions() {
    let d = Ssd1327::new(RecordingTransport::new());
    assert_eq!(d.size(), (128, 128));
}
