use ttywrite::config::TransportConfig;
use ttywrite::line::{BaudRate, CharSize, FlowControl, Parity, StopBits};
use ttywrite::settings::LineSettings;

#[test]
fn from_speed_picks_the_standard_rate() {
    assert_eq!(BaudRate::from_speed(110), Some(BaudRate::Baud110));
    assert_eq!(BaudRate::from_speed(9600), Some(BaudRate::Baud9600));
    assert_eq!(BaudRate::from_speed(115200), Some(BaudRate::Baud115200));
}

#[test]
fn from_speed_knows_no_other_rate() {
    assert_eq!(BaudRate::from_speed(0), None);
    assert_eq!(BaudRate::from_speed(31337), None);
    assert_eq!(BaudRate::from_speed(4_000_000), None);
    assert_eq!(BaudRate::from_speed(usize::MAX), None);
}

#[test]
fn speed_and_from_speed_agree() {
    let rates = [
        (BaudRate::Baud110, 110),
        (BaudRate::Baud300, 300),
        (BaudRate::Baud600, 600),
        (BaudRate::Baud1200, 1200),
        (BaudRate::Baud2400, 2400),
        (BaudRate::Baud4800, 4800),
        (BaudRate::Baud9600, 9600),
        (BaudRate::Baud19200, 19200),
        (BaudRate::Baud38400, 38400),
        (BaudRate::Baud57600, 57600),
        (BaudRate::Baud115200, 115200),
    ];
    for (rate, speed) in rates {
        assert_eq!(rate.speed(), speed);
        assert_eq!(BaudRate::from_speed(speed), Some(rate));
        assert_eq!(serial::core::BaudRate::from_speed(speed).speed(), rate.speed());
    }
}

#[test]
fn widths_by_number() {
    assert_eq!(CharSize::from_bits(4), None);
    assert_eq!(CharSize::from_bits(5), Some(CharSize::Bits5));
    assert_eq!(CharSize::from_bits(6), Some(CharSize::Bits6));
    assert_eq!(CharSize::from_bits(7), Some(CharSize::Bits7));
    assert_eq!(CharSize::from_bits(8), Some(CharSize::Bits8));
    assert_eq!(CharSize::from_bits(9), None);
    assert_eq!(CharSize::Bits5.bits(), 5);
    assert_eq!(CharSize::Bits8.bits(), 8);
}

#[test]
fn stop_bits_by_number() {
    assert_eq!(StopBits::from_count(0), None);
    assert_eq!(StopBits::from_count(1), Some(StopBits::Stop1));
    assert_eq!(StopBits::from_count(2), Some(StopBits::Stop2));
    assert_eq!(StopBits::from_count(3), None);
    assert_eq!(StopBits::Stop1.count(), 1);
    assert_eq!(StopBits::Stop2.count(), 2);
}

#[test]
fn overlay_sets_four_fields_and_keeps_parity() {
    let baseline = LineSettings {
        baud_rate: Some(BaudRate::Baud300),
        char_width: Some(CharSize::Bits5),
        parity: Some(Parity::ParityEven),
        stop_bits: None,
        flow_control: Some(FlowControl::FlowHardware),
    };
    let config = TransportConfig {
        baud_rate: BaudRate::Baud9600,
        char_width: CharSize::Bits8,
        stop_bits: StopBits::Stop1,
        flow_control: FlowControl::FlowNone,
        timeout: 5,
    };
    let merged = baseline.overlay(&config);
    assert_eq!(
        merged,
        LineSettings {
            baud_rate: Some(BaudRate::Baud9600),
            char_width: Some(CharSize::Bits8),
            parity: Some(Parity::ParityEven),
            stop_bits: Some(StopBits::Stop1),
            flow_control: Some(FlowControl::FlowNone),
        }
    );
    assert_eq!(merged.overlay(&config), merged);
}

#[test]
fn overlay_leaves_unknown_parity_unknown() {
    let baseline = LineSettings {
        baud_rate: None,
        char_width: None,
        parity: None,
        stop_bits: None,
        flow_control: None,
    };
    let merged = baseline.overlay(&TransportConfig::default());
    assert_eq!(merged.parity, None);
    assert_eq!(merged.baud_rate, Some(BaudRate::Baud115200));
    assert_eq!(merged.char_width, Some(CharSize::Bits8));
    assert_eq!(merged.stop_bits, Some(StopBits::Stop1));
    assert_eq!(merged.flow_control, Some(FlowControl::FlowNone));
}
