use driverstation::recv::entry::{
    CounterMode, DriveType, Encoding, Entry, Framework, Language, SPIPort, Trigger,
};

#[test]
fn parse_from_string() {
    const TEST_STRING: &[u8] = b"V1K0N0Y0c0i0q0r0N1W1Y1b1i1j1o1q1C2i2i3A4>A31>O31>A32>O32>A33>O33>A34>O34>A35>O35>A36>O36f2:1S0:2";

    println!("{:#?}", Entry::parse_entries(TEST_STRING))
}

#[test]
fn relay_entry() {
    // the protocol quirk: the operand 0x83 is channel 0x83 - 127 = 4
    let entries = Entry::parse_entries(b"e\x83");
    assert_eq!(entries, vec![Entry::Relay { channel: 4, reversable: true }]);

    let plain = Entry::parse_entries(b"e\x04");
    assert_eq!(plain, vec![Entry::Relay { channel: 4, reversable: false }]);
}

#[test]
fn usage_report_sample() {
    let entries = Entry::parse_entries(b"V1K0N0Y0");
    assert_eq!(
        entries,
        vec![
            Entry::I2C { address: 0x31 },
            Entry::Compressor { pcm_id: 0x30 },
            Entry::DigitalInput { channel: 0x30 },
            Entry::Joystick { port: 0x30 },
        ]
    );
}

#[test]
fn context_entries() {
    assert_eq!(
        Entry::parse_entries(b"f2:1"),
        vec![Entry::RobotDrive { motors: 0x32, ty: DriveType::MecanumCartesian }]
    );
    assert_eq!(
        Entry::parse_entries(b"S0:2"),
        vec![Entry::Encoder { fpga_index: 0x30, encoding: Encoding::X4 }]
    );
    assert_eq!(
        Entry::parse_entries(b"L0:\x00"),
        vec![Entry::Counter { index: 0x30, mode: CounterMode::TwoPulse }]
    );
    assert_eq!(
        Entry::parse_entries(b"I0:\x01"),
        vec![Entry::AnalogTriggerOutput { index: 0x30, ty: Trigger::State }]
    );
}

#[test]
fn context_entry_without_colon_is_skipped() {
    assert_eq!(Entry::parse_entries(b"f2"), vec![]);
    assert_eq!(Entry::parse_entries(b"f2;1"), vec![]);
}

#[test]
fn two_byte_indicators() {
    assert_eq!(Entry::parse_entries(b">A3"), vec![Entry::CANTalonSRX { channel: 0x33 }]);
    assert_eq!(Entry::parse_entries(b">G"), vec![Entry::ADIS16448]);
    assert_eq!(Entry::parse_entries(b">J7"), vec![Entry::PigeonIMU { id: 0x37 }]);
    assert_eq!(
        Entry::parse_entries(b">B\x01"),
        vec![Entry::ADXL362 { port: SPIPort::OnboardCS1 }]
    );
    // `>` before an unrecognised byte is skipped one byte at a time
    assert_eq!(Entry::parse_entries(b">99"), vec![]);
}

#[test]
fn indicator_without_operand_yields_nothing() {
    assert_eq!(Entry::parse_entries(b"V"), vec![]);
    assert_eq!(Entry::parse_entries(b">A"), vec![]);
}

#[test]
fn no_operand_entries_and_skips() {
    assert_eq!(
        Entry::parse_entries(b"A4"),
        vec![Entry::Controller],
        "the digit after a bare indicator is skipped"
    );
    assert_eq!(Entry::parse_entries(b"ZM"), vec![Entry::Kinect, Entry::Dashboard]);
    assert_eq!(Entry::parse_entries(b"\x01\x02"), vec![]);
}

#[test]
fn report_byte_conversions() {
    assert_eq!(Language::from(1), Language::LabVIEW);
    assert_eq!(Language::from(3), Language::Java);
    assert_eq!(Language::from(200), Language::DotNet);
    assert_eq!(Trigger::from(0), Trigger::InWindow);
    assert_eq!(Trigger::from(9), Trigger::FallingPulse);
    assert_eq!(CounterMode::from(2), CounterMode::PulseLength);
    assert_eq!(Framework::from(1), Framework::Iterative);
    assert_eq!(Framework::from(7), Framework::CommandControl);
    assert_eq!(DriveType::from(4), DriveType::Tank);
    assert_eq!(DriveType::from(55), DriveType::MecanumPolar);
    assert_eq!(DriveType::from(5), DriveType::MecanumCartesian);
    assert_eq!(SPIPort::from(0), SPIPort::OnboardCS0);
    assert_eq!(SPIPort::from(4), SPIPort::MXP);
    assert_eq!(Encoding::from(0), Encoding::X1);
    assert_eq!(Encoding::from(9), Encoding::X4);
    assert_eq!(driverstation::recv::entry::ADXL345::from(1), driverstation::recv::entry::ADXL345::SPI);
    assert_eq!(driverstation::recv::entry::ADXL345::from(0), driverstation::recv::entry::ADXL345::I2C);
}

#[test]
fn language_entry_converts_operand() {
    assert_eq!(Entry::parse_entries(b"C\x02"), vec![Entry::Language(Language::Cpp)]);
    assert_eq!(Entry::parse_entries(b"W\x01"), vec![Entry::Framework(Framework::Iterative)]);
}
