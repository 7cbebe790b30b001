use eink_display::command::{Command, ControlMode};
use eink_display::controller::display_mode_byte;
use eink_display::panel::{high_byte, low_byte};
use eink_display::protocol::{set_ram_area_plan, RefreshMode, Step};

fn c(cmd: Command) -> Step<'static> {
    Step::Command(cmd)
}

fn d(b: u8) -> Step<'static> {
    Step::Data(vec![b])
}

#[test]
fn command_bytes() {
    let table = [
        (Command::SoftReset, 0x12),
        (Command::TemperatureSensorControl, 0x18),
        (Command::BoosterSoftStart, 0x0C),
        (Command::DriverOutputControl, 0x01),
        (Command::BorderWaveformControl, 0x3C),
        (Command::DataEntryMode, 0x11),
        (Command::SetRamXRange, 0x44),
        (Command::SetRamYRange, 0x45),
        (Command::SetRamXCounter, 0x4E),
        (Command::SetRamYCounter, 0x4F),
        (Command::AutoWriteBwRam, 0x46),
        (Command::AutoWriteRedRam, 0x47),
        (Command::WriteBwRam, 0x24),
        (Command::WriteRedRam, 0x26),
        (Command::DisplayUpdateControl1, 0x21),
        (Command::DisplayUpdateControl2, 0x22),
        (Command::MasterActivation, 0x20),
        (Command::WriteTemperature, 0x1A),
        (Command::DeepSleep, 0x10),
    ];
    for (cmd, byte) in table {
        assert_eq!(cmd.byte(), byte);
    }
    assert_eq!(ControlMode::Normal.byte(), 0x00);
    assert_eq!(ControlMode::BypassRed.byte(), 0x40);
}

#[test]
fn byte_split() {
    assert_eq!((low_byte(799), high_byte(799)), (0x1F, 0x03));
    assert_eq!((low_byte(255), high_byte(255)), (0xFF, 0x00));
    assert_eq!((low_byte(256), high_byte(256)), (0x00, 0x01));
    assert_eq!((low_byte(65535), high_byte(65535)), (0xFF, 0xFF));
}

#[test]
fn full_panel_ram_area() {
    let plan = set_ram_area_plan(0, 0, 800, 480);
    let expected = vec![
        c(Command::DataEntryMode), d(0x01),
        c(Command::SetRamXRange), d(0x00), d(0x00), d(0x1F), d(0x03),
        c(Command::SetRamYRange), d(0xDF), d(0x01), d(0x00), d(0x00),
        c(Command::SetRamXCounter), d(0x00), d(0x00),
        c(Command::SetRamYCounter), d(0xDF), d(0x01),
    ];
    assert_eq!(plan, expected);
}

#[test]
fn ram_area_reverses_y() {
    // y' = 480 - 100 - 50 = 330; Y runs from 379 down to 330; X from 16 to 315.
    let plan = set_ram_area_plan(16, 100, 300, 50);
    let expected = vec![
        c(Command::DataEntryMode), d(0x01),
        c(Command::SetRamXRange), d(16), d(0), d(0x3B), d(0x01),
        c(Command::SetRamYRange), d(0x7B), d(0x01), d(0x4A), d(0x01),
        c(Command::SetRamXCounter), d(16), d(0),
        c(Command::SetRamYCounter), d(0x7B), d(0x01),
    ];
    assert_eq!(plan, expected);
}

#[test]
fn ram_area_over_many_windows_matches_the_formulas() {
    for &(x, y, w, h) in &[(0u16, 0u16, 1u16, 1u16), (300, 479, 500, 1), (255, 224, 2, 32), (799, 0, 1, 480), (1000, 10, 64000, 20)] {
        let plan = set_ram_area_plan(x, y, w, h);
        let y_rev = 480 - y as u32 - h as u32;
        let x_end = x as u32 + w as u32 - 1;
        let y_top = y_rev + h as u32 - 1;
        let split = |v: u32| [d((v % 256) as u8), d((v / 256) as u8)];
        let mut expected = vec![c(Command::DataEntryMode), d(0x01), c(Command::SetRamXRange)];
        expected.extend(split(x as u32));
        expected.extend(split(x_end));
        expected.push(c(Command::SetRamYRange));
        expected.extend(split(y_top));
        expected.extend(split(y_rev));
        expected.push(c(Command::SetRamXCounter));
        expected.extend(split(x as u32));
        expected.push(c(Command::SetRamYCounter));
        expected.extend(split(y_top));
        assert_eq!(plan, expected);
    }
}

#[test]
fn refresh_byte_for_every_combination() {
    let (fast, full, half) = (RefreshMode::Fast, RefreshMode::Full, RefreshMode::HalfRefresh);
    // (mode, screen on, custom table, turn off) -> byte
    let table = [
        (fast, true, false, false, 0x1C),
        (fast, true, false, true, 0x1F),
        (fast, true, true, false, 0x0C),
        (fast, true, true, true, 0x0F),
        (fast, false, false, false, 0xDC),
        (fast, false, false, true, 0xDF),
        (fast, false, true, false, 0xCC),
        (fast, false, true, true, 0xCF),
        (full, true, false, false, 0x34),
        (full, true, false, true, 0x37),
        (full, true, true, false, 0x34),
        (full, true, true, true, 0x37),
        (full, false, false, false, 0xF4),
        (full, false, false, true, 0xF7),
        (full, false, true, false, 0xF4),
        (full, false, true, true, 0xF7),
        (half, true, false, false, 0xD4),
        (half, true, false, true, 0xD7),
        (half, true, true, false, 0xD4),
        (half, true, true, true, 0xD7),
        (half, false, false, false, 0xD4),
        (half, false, false, true, 0xD7),
        (half, false, true, false, 0xD4),
        (half, false, true, true, 0xD7),
    ];
    for (mode, on, lut, off, byte) in table {
        assert_eq!(display_mode_byte(mode, on, lut, off), byte, "{:?} {} {} {}", mode, on, lut, off);
    }
}
