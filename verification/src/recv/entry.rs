//! The usage-report entry grammar: a flat byte stream of entries, each
//! introduced by a one- or two-byte indicator and carrying no operand, one
//! instance byte, or an instance byte, a `:` and a context byte. Bytes that
//! match no indicator are skipped silently.

use vstd::prelude::*;

verus! {

/// The robot-code language named by its report byte.
#[derive(Debug, Clone, Copy, PartialEq, Eq, Hash, Structural)]
pub enum Language {
    LabVIEW,
    Cpp,
    Java,
    Python,
    DotNet,
}

impl Language {
    /// The value decoded from its report byte.
    pub open spec fn spec_from(value: u8) -> Language {
        if value == 1 {
            Language::LabVIEW
        } else if value == 2 {
            Language::Cpp
        } else if value == 3 {
            Language::Java
        } else if value == 4 {
            Language::Python
        } else {
            Language::DotNet
        }
    }
}

impl From<u8> for Language {
    fn from(value: u8) -> (r: Self) {
        match value {
            1 => Language::LabVIEW,
            2 => Language::Cpp,
            3 => Language::Java,
            4 => Language::Python,
            _ => Language::DotNet,
        }
    }
}

impl vstd::std_specs::convert::FromSpecImpl<u8> for Language {
    open spec fn obeys_from_spec() -> bool {
        true
    }

    open spec fn from_spec(v: u8) -> Self {
        Language::spec_from(v)
    }
}

/// An analog-trigger output kind.
#[derive(Debug, Clone, Copy, PartialEq, Eq, Hash, Structural)]
pub enum Trigger {
    InWindow,
    State,
    RisingPulse,
    FallingPulse,
}

impl Trigger {
    /// The value decoded from its report byte.
    pub open spec fn spec_from(value: u8) -> Trigger {
        if value == 0 {
            Trigger::InWindow
        } else if value == 1 {
            Trigger::State
        } else if value == 2 {
            Trigger::RisingPulse
        } else {
            Trigger::FallingPulse
        }
    }
}

impl From<u8> for Trigger {
    fn from(value: u8) -> (r: Self) {
        match value {
            0 => Trigger::InWindow,
            1 => Trigger::State,
            2 => Trigger::RisingPulse,
            _ => Trigger::FallingPulse,
        }
    }
}

impl vstd::std_specs::convert::FromSpecImpl<u8> for Trigger {
    open spec fn obeys_from_spec() -> bool {
        true
    }

    open spec fn from_spec(v: u8) -> Self {
        Trigger::spec_from(v)
    }
}

/// A counter operating mode.
#[derive(Debug, Clone, Copy, PartialEq, Eq, Hash, Structural)]
pub enum CounterMode {
    TwoPulse,
    Semiperiod,
    PulseLength,
    ExternalDirection,
}

impl CounterMode {
    /// The value decoded from its report byte.
    pub open spec fn spec_from(value: u8) -> CounterMode {
        if value == 0 {
            CounterMode::TwoPulse
        } else if value == 1 {
            CounterMode::Semiperiod
        } else if value == 2 {
            CounterMode::PulseLength
        } else {
            CounterMode::ExternalDirection
        }
    }
}

impl From<u8> for CounterMode {
    fn from(value: u8) -> (r: Self) {
        match value {
            0 => CounterMode::TwoPulse,
            1 => CounterMode::Semiperiod,
            2 => CounterMode::PulseLength,
            _ => CounterMode::ExternalDirection,
        }
    }
}

impl vstd::std_specs::convert::FromSpecImpl<u8> for CounterMode {
    open spec fn obeys_from_spec() -> bool {
        true
    }

    open spec fn from_spec(v: u8) -> Self {
        CounterMode::spec_from(v)
    }
}

/// The robot-code framework in use.
#[derive(Debug, Clone, Copy, PartialEq, Eq, Hash, Structural)]
pub enum Framework {
    Iterative,
    Simple,
    CommandControl,
}

impl Framework {
    /// The value decoded from its report byte.
    pub open spec fn spec_from(value: u8) -> Framework {
        if value == 1 {
            Framework::Iterative
        } else if value == 2 {
            Framework::Simple
        } else {
            Framework::CommandControl
        }
    }
}

impl From<u8> for Framework {
    fn from(value: u8) -> (r: Self) {
        match value {
            1 => Framework::Iterative,
            2 => Framework::Simple,
            _ => Framework::CommandControl,
        }
    }
}

impl vstd::std_specs::convert::FromSpecImpl<u8> for Framework {
    open spec fn obeys_from_spec() -> bool {
        true
    }

    open spec fn from_spec(v: u8) -> Self {
        Framework::spec_from(v)
    }
}

/// A drive-train arrangement.
#[derive(Debug, Clone, Copy, PartialEq, Eq, Hash, Structural)]
pub enum DriveType {
    ArcadeStandard,
    ArcadeButtonSpin,
    ArcadeRatioCurve,
    Tank,
    MecanumPolar,
    MecanumCartesian,
}

impl DriveType {
    /// The value decoded from its report byte.
    pub open spec fn spec_from(value: u8) -> DriveType {
        if value == 1 {
            DriveType::ArcadeStandard
        } else if value == 2 {
            DriveType::ArcadeButtonSpin
        } else if value == 3 {
            DriveType::ArcadeRatioCurve
        } else if value == 4 {
            DriveType::Tank
        } else if value == 55 {
            DriveType::MecanumPolar
        } else {
            DriveType::MecanumCartesian
        }
    }
}

impl From<u8> for DriveType {
    fn from(value: u8) -> (r: Self) {
        match value {
            1 => DriveType::ArcadeStandard,
            2 => DriveType::ArcadeButtonSpin,
            3 => DriveType::ArcadeRatioCurve,
            4 => DriveType::Tank,
            55 => DriveType::MecanumPolar,
            _ => DriveType::MecanumCartesian,
        }
    }
}

impl vstd::std_specs::convert::FromSpecImpl<u8> for DriveType {
    open spec fn obeys_from_spec() -> bool {
        true
    }

    open spec fn from_spec(v: u8) -> Self {
        DriveType::spec_from(v)
    }
}

/// An SPI port selector.
#[derive(Debug, Clone, Copy, PartialEq, Eq, Hash, Structural)]
pub enum SPIPort {
    OnboardCS0,
    OnboardCS1,
    OnboardCS2,
    OnboardCS3,
    MXP,
}

impl SPIPort {
    /// The value decoded from its report byte.
    pub open spec fn spec_from(value: u8) -> SPIPort {
        if value == 0 {
            SPIPort::OnboardCS0
        } else if value == 1 {
            SPIPort::OnboardCS1
        } else if value == 2 {
            SPIPort::OnboardCS2
        } else if value == 3 {
            SPIPort::OnboardCS3
        } else {
            SPIPort::MXP
        }
    }
}

impl From<u8> for SPIPort {
    fn from(value: u8) -> (r: Self) {
        match value {
            0 => SPIPort::OnboardCS0,
            1 => SPIPort::OnboardCS1,
            2 => SPIPort::OnboardCS2,
            3 => SPIPort::OnboardCS3,
            _ => SPIPort::MXP,
        }
    }
}

impl vstd::std_specs::convert::FromSpecImpl<u8> for SPIPort {
    open spec fn obeys_from_spec() -> bool {
        true
    }

    open spec fn from_spec(v: u8) -> Self {
        SPIPort::spec_from(v)
    }
}

/// The bus an ADXL345 accelerometer hangs on.
#[derive(Debug, Clone, Copy, PartialEq, Eq, Hash, Structural)]
pub enum ADXL345 {
    SPI,
    I2C,
}

impl ADXL345 {
    /// The value decoded from its report byte.
    pub open spec fn spec_from(value: u8) -> ADXL345 {
        if value == 1 {
            ADXL345::SPI
        } else {
            ADXL345::I2C
        }
    }
}

impl From<u8> for ADXL345 {
    fn from(value: u8) -> (r: Self) {
        match value {
            1 => ADXL345::SPI,
            _ => ADXL345::I2C,
        }
    }
}

impl vstd::std_specs::convert::FromSpecImpl<u8> for ADXL345 {
    open spec fn obeys_from_spec() -> bool {
        true
    }

    open spec fn from_spec(v: u8) -> Self {
        ADXL345::spec_from(v)
    }
}

/// A quadrature-encoder decoding rate.
#[derive(Debug, Clone, Copy, PartialEq, Eq, Hash, Structural)]
pub enum Encoding {
    X1,
    X2,
    X4,
}

impl Encoding {
    /// The value decoded from its report byte.
    pub open spec fn spec_from(value: u8) -> Encoding {
        if value == 0 {
            Encoding::X1
        } else if value == 1 {
            Encoding::X2
        } else {
            Encoding::X4
        }
    }
}

impl From<u8> for Encoding {
    fn from(value: u8) -> (r: Self) {
        match value {
            0 => Encoding::X1,
            1 => Encoding::X2,
            _ => Encoding::X4,
        }
    }
}

impl vstd::std_specs::convert::FromSpecImpl<u8> for Encoding {
    open spec fn obeys_from_spec() -> bool {
        true
    }

    open spec fn from_spec(v: u8) -> Self {
        Encoding::spec_from(v)
    }
}

/// A subsystem instantiation reported by the robot code.
#[allow(non_camel_case_types)]
#[derive(Debug, Clone, Copy, PartialEq, Eq, Hash, Structural)]
pub enum Entry {
    Controller,
    Module,
    Language(Language),
    CANPlugin,
    Accelerometer { channel: u8 },
    ADXL345(ADXL345),
    AnalogChannel { channel: u8 },
    AnalogTrigger { channel: u8 },
    AnalogTriggerOutput { index: u8, ty: Trigger },
    CANJaguar,
    Compressor { pcm_id: u8 },
    Counter { index: u8, mode: CounterMode },
    Dashboard,
    DigitalInput { channel: u8 },
    DigitalOutput { channel: u8 },
    DriverStationCIO,
    DriverStationEIO,
    DriverStationLCD,
    Encoder { fpga_index: u8, encoding: Encoding },
    GearTooth { channel: u8 },
    Gyro { channel: u8 },
    I2C { address: u8 },
    Framework(Framework),
    Jaguar { channel: u8 },
    Joystick { port: u8 },
    Kinect,
    KinectStick,
    PIDController {
        /// The instance number.
        /// Starts at `1`.
        instance: u8,
    },
    Preferences,
    PWM { channel: u8 },
    Relay { channel: u8, reversable: bool },
    RobotDrive { motors: u8, ty: DriveType },
    SerialPort,
    Servo { channel: u8 },
    Solenoid { channel: u8 },
    SPI {
        /// The instance number.
        /// Starts at `1`.
        instance: u8,
    },
    Task,
    Ultrasonic { channel: u8 },
    Victor { channel: u8 },
    Button,
    Command,
    AxisCamera { handle: u8 },
    PCVideoServer { handle: u8 },
    SmartDashboard,
    Talon { channel: u8 },
    HiTechnicColorSensor,
    HiTechnicAccel,
    HiTechnicCompass,
    SRF08 { channel: u8 },
    AnalogOutput,
    VictorSP { channel: u8 },
    PWMTalonSRC { channel: u8 },
    CANTalonSRX { channel: u8 },
    ADXL362 { port: SPIPort },
    ADXRS450 { port: SPIPort },
    RevSPARK { channel: u8 },
    MindsensorsSD540 { channel: u8 },
    DigitalFilter { channel: u8 },
    ADIS16448,
    PDP,
    PCM,
    PigeonIMU { id: u8 },
    NidecBrushless { channel: u8 },
    CANifier { id: u8 },
    CTRE_future0 { id: u8 },
    CTRE_future1 { id: u8 },
    CTRE_future2 { id: u8 },
    CTRE_future3 { id: u8 },
    CTRE_future4,
    CTRE_future5,
    CTRE_future6,
}

/// How many operand bytes follow an indicator, and in which form.
#[derive(Debug, Clone, Copy, PartialEq, Eq, Structural)]
pub enum Shape {
    /// The indicator alone is the entry.
    NoOperand,
    /// One instance or channel byte follows.
    Instance,
    /// An instance byte, a `:` and a context byte follow.
    InstanceContext,
    /// One operand byte follows, carrying a channel and a flag.
    Relay,
}

/// The relay entry decoded from its operand byte: bytes above 127 set the
/// reversable flag and carry the channel shifted down by 127.
pub open spec fn spec_relay_entry(op: u8) -> Entry {
    if op > 127 {
        Entry::Relay { channel: (op - 127) as u8, reversable: true }
    } else {
        Entry::Relay { channel: op, reversable: false }
    }
}

impl Entry {
    /// Decodes the relay operand byte.
    pub fn parse_relay(op: u8) -> (r: Entry)
        ensures
            r == spec_relay_entry(op),
    {
        if op > 127 {
            Entry::Relay { channel: op - 127, reversable: true }
        } else {
            Entry::Relay { channel: op, reversable: false }
        }
    }
}

/// The operand shape of a recognised one-byte indicator, by its
/// byte.
pub open spec fn entry_shape1(b: u8) -> Option<Shape> {
    if b == 0x41 {  // `A`
        Some(Shape::NoOperand)
    } else if b == 0x42 {  // `B`
        Some(Shape::NoOperand)
    } else if b == 0x43 {  // `C`
        Some(Shape::Instance)
    } else if b == 0x44 {  // `D`
        Some(Shape::NoOperand)
    } else if b == 0x45 {  // `E`
        Some(Shape::Instance)
    } else if b == 0x46 {  // `F`
        Some(Shape::Instance)
    } else if b == 0x47 {  // `G`
        Some(Shape::Instance)
    } else if b == 0x48 {  // `H`
        Some(Shape::Instance)
    } else if b == 0x49 {  // `I`
        Some(Shape::InstanceContext)
    } else if b == 0x4a {  // `J`
        Some(Shape::NoOperand)
    } else if b == 0x4b {  // `K`
        Some(Shape::Instance)
    } else if b == 0x4c {  // `L`
        Some(Shape::InstanceContext)
    } else if b == 0x4d {  // `M`
        Some(Shape::NoOperand)
    } else if b == 0x4e {  // `N`
        Some(Shape::Instance)
    } else if b == 0x4f {  // `O`
        Some(Shape::Instance)
    } else if b == 0x50 {  // `P`
        Some(Shape::NoOperand)
    } else if b == 0x51 {  // `Q`
        Some(Shape::NoOperand)
    } else if b == 0x52 {  // `R`
        Some(Shape::NoOperand)
    } else if b == 0x53 {  // `S`
        Some(Shape::InstanceContext)
    } else if b == 0x54 {  // `T`
        Some(Shape::Instance)
    } else if b == 0x55 {  // `U`
        Some(Shape::Instance)
    } else if b == 0x56 {  // `V`
        Some(Shape::Instance)
    } else if b == 0x57 {  // `W`
        Some(Shape::Instance)
    } else if b == 0x58 {  // `X`
        Some(Shape::Instance)
    } else if b == 0x59 {  // `Y`
        Some(Shape::Instance)
    } else if b == 0x5a {  // `Z`
        Some(Shape::NoOperand)
    } else if b == 0x61 {  // `a`
        Some(Shape::NoOperand)
    } else if b == 0x62 {  // `b`
        Some(Shape::Instance)
    } else if b == 0x63 {  // `c`
        Some(Shape::NoOperand)
    } else if b == 0x64 {  // `d`
        Some(Shape::Instance)
    } else if b == 0x65 {  // `e`
        Some(Shape::Relay)
    } else if b == 0x66 {  // `f`
        Some(Shape::InstanceContext)
    } else if b == 0x67 {  // `g`
        Some(Shape::NoOperand)
    } else if b == 0x68 {  // `h`
        Some(Shape::Instance)
    } else if b == 0x69 {  // `i`
        Some(Shape::Instance)
    } else if b == 0x6a {  // `j`
        Some(Shape::Instance)
    } else if b == 0x6b {  // `k`
        Some(Shape::NoOperand)
    } else if b == 0x6c {  // `l`
        Some(Shape::Instance)
    } else if b == 0x6d {  // `m`
        Some(Shape::Instance)
    } else if b == 0x6e {  // `n`
        Some(Shape::NoOperand)
    } else if b == 0x6f {  // `o`
        Some(Shape::NoOperand)
    } else if b == 0x70 {  // `p`
        Some(Shape::Instance)
    } else if b == 0x71 {  // `q`
        Some(Shape::Instance)
    } else if b == 0x72 {  // `r`
        Some(Shape::NoOperand)
    } else if b == 0x73 {  // `s`
        Some(Shape::Instance)
    } else if b == 0x74 {  // `t`
        Some(Shape::NoOperand)
    } else if b == 0x75 {  // `u`
        Some(Shape::NoOperand)
    } else if b == 0x76 {  // `v`
        Some(Shape::NoOperand)
    } else if b == 0x77 {  // `w`
        Some(Shape::Instance)
    } else if b == 0x78 {  // `x`
        Some(Shape::NoOperand)
    } else if b == 0x79 {  // `y`
        Some(Shape::Instance)
    } else if b == 0x7a {  // `z`
        Some(Shape::Instance)
    } else {
        None
    }
}

/// The operand shape of a recognised two-byte indicator, by its
/// second byte.
pub open spec fn entry_shape2(b: u8) -> Option<Shape> {
    if b == 0x41 {  // `A`
        Some(Shape::Instance)
    } else if b == 0x42 {  // `B`
        Some(Shape::Instance)
    } else if b == 0x43 {  // `C`
        Some(Shape::Instance)
    } else if b == 0x44 {  // `D`
        Some(Shape::Instance)
    } else if b == 0x45 {  // `E`
        Some(Shape::Instance)
    } else if b == 0x46 {  // `F`
        Some(Shape::Instance)
    } else if b == 0x47 {  // `G`
        Some(Shape::NoOperand)
    } else if b == 0x48 {  // `H`
        Some(Shape::NoOperand)
    } else if b == 0x49 {  // `I`
        Some(Shape::NoOperand)
    } else if b == 0x4a {  // `J`
        Some(Shape::Instance)
    } else if b == 0x4b {  // `K`
        Some(Shape::Instance)
    } else if b == 0x4c {  // `L`
        Some(Shape::Instance)
    } else if b == 0x4d {  // `M`
        Some(Shape::Instance)
    } else if b == 0x4e {  // `N`
        Some(Shape::Instance)
    } else if b == 0x4f {  // `O`
        Some(Shape::Instance)
    } else if b == 0x50 {  // `P`
        Some(Shape::Instance)
    } else if b == 0x51 {  // `Q`
        Some(Shape::NoOperand)
    } else if b == 0x52 {  // `R`
        Some(Shape::NoOperand)
    } else if b == 0x53 {  // `S`
        Some(Shape::NoOperand)
    } else {
        None
    }
}

/// The entry built from a recognised one-byte indicator and its
/// operand bytes; operands of shapes that take none are ignored.
pub open spec fn make_entry1(b: u8, inst: u8, ctx: u8) -> Entry {
    if b == 0x41 {
        Entry::Controller
    } else if b == 0x42 {
        Entry::Module
    } else if b == 0x43 {
        Entry::Language(Language::spec_from(inst))
    } else if b == 0x44 {
        Entry::CANPlugin
    } else if b == 0x45 {
        Entry::Accelerometer { channel: inst }
    } else if b == 0x46 {
        Entry::ADXL345(ADXL345::spec_from(inst))
    } else if b == 0x47 {
        Entry::AnalogChannel { channel: inst }
    } else if b == 0x48 {
        Entry::AnalogTrigger { channel: inst }
    } else if b == 0x49 {
        Entry::AnalogTriggerOutput { index: inst, ty: Trigger::spec_from(ctx) }
    } else if b == 0x4a {
        Entry::CANJaguar
    } else if b == 0x4b {
        Entry::Compressor { pcm_id: inst }
    } else if b == 0x4c {
        Entry::Counter { index: inst, mode: CounterMode::spec_from(ctx) }
    } else if b == 0x4d {
        Entry::Dashboard
    } else if b == 0x4e {
        Entry::DigitalInput { channel: inst }
    } else if b == 0x4f {
        Entry::DigitalOutput { channel: inst }
    } else if b == 0x50 {
        Entry::DriverStationCIO
    } else if b == 0x51 {
        Entry::DriverStationEIO
    } else if b == 0x52 {
        Entry::DriverStationLCD
    } else if b == 0x53 {
        Entry::Encoder { fpga_index: inst, encoding: Encoding::spec_from(ctx) }
    } else if b == 0x54 {
        Entry::GearTooth { channel: inst }
    } else if b == 0x55 {
        Entry::Gyro { channel: inst }
    } else if b == 0x56 {
        Entry::I2C { address: inst }
    } else if b == 0x57 {
        Entry::Framework(Framework::spec_from(inst))
    } else if b == 0x58 {
        Entry::Jaguar { channel: inst }
    } else if b == 0x59 {
        Entry::Joystick { port: inst }
    } else if b == 0x5a {
        Entry::Kinect
    } else if b == 0x61 {
        Entry::KinectStick
    } else if b == 0x62 {
        Entry::PIDController { instance: inst }
    } else if b == 0x63 {
        Entry::Preferences
    } else if b == 0x64 {
        Entry::PWM { channel: inst }
    } else if b == 0x65 {
        spec_relay_entry(inst)
    } else if b == 0x66 {
        Entry::RobotDrive { motors: inst, ty: DriveType::spec_from(ctx) }
    } else if b == 0x67 {
        Entry::SerialPort
    } else if b == 0x68 {
        Entry::Servo { channel: inst }
    } else if b == 0x69 {
        Entry::Solenoid { channel: inst }
    } else if b == 0x6a {
        Entry::SPI { instance: inst }
    } else if b == 0x6b {
        Entry::Task
    } else if b == 0x6c {
        Entry::Ultrasonic { channel: inst }
    } else if b == 0x6d {
        Entry::Victor { channel: inst }
    } else if b == 0x6e {
        Entry::Button
    } else if b == 0x6f {
        Entry::Command
    } else if b == 0x70 {
        Entry::AxisCamera { handle: inst }
    } else if b == 0x71 {
        Entry::PCVideoServer { handle: inst }
    } else if b == 0x72 {
        Entry::SmartDashboard
    } else if b == 0x73 {
        Entry::Talon { channel: inst }
    } else if b == 0x74 {
        Entry::HiTechnicColorSensor
    } else if b == 0x75 {
        Entry::HiTechnicAccel
    } else if b == 0x76 {
        Entry::HiTechnicCompass
    } else if b == 0x77 {
        Entry::SRF08 { channel: inst }
    } else if b == 0x78 {
        Entry::AnalogOutput
    } else if b == 0x79 {
        Entry::VictorSP { channel: inst }
    } else if b == 0x7a {
        Entry::PWMTalonSRC { channel: inst }
    } else {
        arbitrary()
    }
}

/// The entry built from a recognised two-byte indicator and its
/// operand bytes; operands of shapes that take none are ignored.
pub open spec fn make_entry2(b: u8, inst: u8) -> Entry {
    if b == 0x41 {
        Entry::CANTalonSRX { channel: inst }
    } else if b == 0x42 {
        Entry::ADXL362 { port: SPIPort::spec_from(inst) }
    } else if b == 0x43 {
        Entry::ADXRS450 { port: SPIPort::spec_from(inst) }
    } else if b == 0x44 {
        Entry::RevSPARK { channel: inst }
    } else if b == 0x45 {
        Entry::MindsensorsSD540 { channel: inst }
    } else if b == 0x46 {
        Entry::DigitalFilter { channel: inst }
    } else if b == 0x47 {
        Entry::ADIS16448
    } else if b == 0x48 {
        Entry::PDP
    } else if b == 0x49 {
        Entry::PCM
    } else if b == 0x4a {
        Entry::PigeonIMU { id: inst }
    } else if b == 0x4b {
        Entry::NidecBrushless { channel: inst }
    } else if b == 0x4c {
        Entry::CANifier { id: inst }
    } else if b == 0x4d {
        Entry::CTRE_future0 { id: inst }
    } else if b == 0x4e {
        Entry::CTRE_future1 { id: inst }
    } else if b == 0x4f {
        Entry::CTRE_future2 { id: inst }
    } else if b == 0x50 {
        Entry::CTRE_future3 { id: inst }
    } else if b == 0x51 {
        Entry::CTRE_future4
    } else if b == 0x52 {
        Entry::CTRE_future5
    } else if b == 0x53 {
        Entry::CTRE_future6
    } else {
        arbitrary()
    }
}

/// Looks up the operand shape of a one-byte indicator.
fn lookup_shape1(b: u8) -> (r: Option<Shape>)
    ensures
        r == entry_shape1(b),
{
    match b {
        0x41 => Some(Shape::NoOperand),
        0x42 => Some(Shape::NoOperand),
        0x43 => Some(Shape::Instance),
        0x44 => Some(Shape::NoOperand),
        0x45 => Some(Shape::Instance),
        0x46 => Some(Shape::Instance),
        0x47 => Some(Shape::Instance),
        0x48 => Some(Shape::Instance),
        0x49 => Some(Shape::InstanceContext),
        0x4a => Some(Shape::NoOperand),
        0x4b => Some(Shape::Instance),
        0x4c => Some(Shape::InstanceContext),
        0x4d => Some(Shape::NoOperand),
        0x4e => Some(Shape::Instance),
        0x4f => Some(Shape::Instance),
        0x50 => Some(Shape::NoOperand),
        0x51 => Some(Shape::NoOperand),
        0x52 => Some(Shape::NoOperand),
        0x53 => Some(Shape::InstanceContext),
        0x54 => Some(Shape::Instance),
        0x55 => Some(Shape::Instance),
        0x56 => Some(Shape::Instance),
        0x57 => Some(Shape::Instance),
        0x58 => Some(Shape::Instance),
        0x59 => Some(Shape::Instance),
        0x5a => Some(Shape::NoOperand),
        0x61 => Some(Shape::NoOperand),
        0x62 => Some(Shape::Instance),
        0x63 => Some(Shape::NoOperand),
        0x64 => Some(Shape::Instance),
        0x65 => Some(Shape::Relay),
        0x66 => Some(Shape::InstanceContext),
        0x67 => Some(Shape::NoOperand),
        0x68 => Some(Shape::Instance),
        0x69 => Some(Shape::Instance),
        0x6a => Some(Shape::Instance),
        0x6b => Some(Shape::NoOperand),
        0x6c => Some(Shape::Instance),
        0x6d => Some(Shape::Instance),
        0x6e => Some(Shape::NoOperand),
        0x6f => Some(Shape::NoOperand),
        0x70 => Some(Shape::Instance),
        0x71 => Some(Shape::Instance),
        0x72 => Some(Shape::NoOperand),
        0x73 => Some(Shape::Instance),
        0x74 => Some(Shape::NoOperand),
        0x75 => Some(Shape::NoOperand),
        0x76 => Some(Shape::NoOperand),
        0x77 => Some(Shape::Instance),
        0x78 => Some(Shape::NoOperand),
        0x79 => Some(Shape::Instance),
        0x7a => Some(Shape::Instance),
        _ => None,
    }
}

/// Looks up the operand shape of a two-byte indicator.
fn lookup_shape2(b: u8) -> (r: Option<Shape>)
    ensures
        r == entry_shape2(b),
{
    match b {
        0x41 => Some(Shape::Instance),
        0x42 => Some(Shape::Instance),
        0x43 => Some(Shape::Instance),
        0x44 => Some(Shape::Instance),
        0x45 => Some(Shape::Instance),
        0x46 => Some(Shape::Instance),
        0x47 => Some(Shape::NoOperand),
        0x48 => Some(Shape::NoOperand),
        0x49 => Some(Shape::NoOperand),
        0x4a => Some(Shape::Instance),
        0x4b => Some(Shape::Instance),
        0x4c => Some(Shape::Instance),
        0x4d => Some(Shape::Instance),
        0x4e => Some(Shape::Instance),
        0x4f => Some(Shape::Instance),
        0x50 => Some(Shape::Instance),
        0x51 => Some(Shape::NoOperand),
        0x52 => Some(Shape::NoOperand),
        0x53 => Some(Shape::NoOperand),
        _ => None,
    }
}

/// Builds the entry for a recognised one-byte indicator.
fn build_entry1(b: u8, inst: u8, ctx: u8) -> (r: Entry)
    requires
        entry_shape1(b) is Some,
    ensures
        r == make_entry1(b, inst, ctx),
{
    match b {
        0x41 => Entry::Controller,
        0x42 => Entry::Module,
        0x43 => Entry::Language(Language::from(inst)),
        0x44 => Entry::CANPlugin,
        0x45 => Entry::Accelerometer { channel: inst },
        0x46 => Entry::ADXL345(ADXL345::from(inst)),
        0x47 => Entry::AnalogChannel { channel: inst },
        0x48 => Entry::AnalogTrigger { channel: inst },
        0x49 => Entry::AnalogTriggerOutput { index: inst, ty: Trigger::from(ctx) },
        0x4a => Entry::CANJaguar,
        0x4b => Entry::Compressor { pcm_id: inst },
        0x4c => Entry::Counter { index: inst, mode: CounterMode::from(ctx) },
        0x4d => Entry::Dashboard,
        0x4e => Entry::DigitalInput { channel: inst },
        0x4f => Entry::DigitalOutput { channel: inst },
        0x50 => Entry::DriverStationCIO,
        0x51 => Entry::DriverStationEIO,
        0x52 => Entry::DriverStationLCD,
        0x53 => Entry::Encoder { fpga_index: inst, encoding: Encoding::from(ctx) },
        0x54 => Entry::GearTooth { channel: inst },
        0x55 => Entry::Gyro { channel: inst },
        0x56 => Entry::I2C { address: inst },
        0x57 => Entry::Framework(Framework::from(inst)),
        0x58 => Entry::Jaguar { channel: inst },
        0x59 => Entry::Joystick { port: inst },
        0x5a => Entry::Kinect,
        0x61 => Entry::KinectStick,
        0x62 => Entry::PIDController { instance: inst },
        0x63 => Entry::Preferences,
        0x64 => Entry::PWM { channel: inst },
        0x65 => Entry::parse_relay(inst),
        0x66 => Entry::RobotDrive { motors: inst, ty: DriveType::from(ctx) },
        0x67 => Entry::SerialPort,
        0x68 => Entry::Servo { channel: inst },
        0x69 => Entry::Solenoid { channel: inst },
        0x6a => Entry::SPI { instance: inst },
        0x6b => Entry::Task,
        0x6c => Entry::Ultrasonic { channel: inst },
        0x6d => Entry::Victor { channel: inst },
        0x6e => Entry::Button,
        0x6f => Entry::Command,
        0x70 => Entry::AxisCamera { handle: inst },
        0x71 => Entry::PCVideoServer { handle: inst },
        0x72 => Entry::SmartDashboard,
        0x73 => Entry::Talon { channel: inst },
        0x74 => Entry::HiTechnicColorSensor,
        0x75 => Entry::HiTechnicAccel,
        0x76 => Entry::HiTechnicCompass,
        0x77 => Entry::SRF08 { channel: inst },
        0x78 => Entry::AnalogOutput,
        0x79 => Entry::VictorSP { channel: inst },
        0x7a => Entry::PWMTalonSRC { channel: inst },
        _ => {
            proof {
                assert(false);
            }
            Entry::Controller
        },
    }
}

/// Builds the entry for a recognised two-byte indicator.
fn build_entry2(b: u8, inst: u8) -> (r: Entry)
    requires
        entry_shape2(b) is Some,
    ensures
        r == make_entry2(b, inst),
{
    match b {
        0x41 => Entry::CANTalonSRX { channel: inst },
        0x42 => Entry::ADXL362 { port: SPIPort::from(inst) },
        0x43 => Entry::ADXRS450 { port: SPIPort::from(inst) },
        0x44 => Entry::RevSPARK { channel: inst },
        0x45 => Entry::MindsensorsSD540 { channel: inst },
        0x46 => Entry::DigitalFilter { channel: inst },
        0x47 => Entry::ADIS16448,
        0x48 => Entry::PDP,
        0x49 => Entry::PCM,
        0x4a => Entry::PigeonIMU { id: inst },
        0x4b => Entry::NidecBrushless { channel: inst },
        0x4c => Entry::CANifier { id: inst },
        0x4d => Entry::CTRE_future0 { id: inst },
        0x4e => Entry::CTRE_future1 { id: inst },
        0x4f => Entry::CTRE_future2 { id: inst },
        0x50 => Entry::CTRE_future3 { id: inst },
        0x51 => Entry::CTRE_future4,
        0x52 => Entry::CTRE_future5,
        0x53 => Entry::CTRE_future6,
        _ => {
            proof {
                assert(false);
            }
            Entry::Controller
        },
    }
}

/// One parsing step at position `i`: the entry recognised there, if any, and
/// how many bytes the step consumes. A recognised indicator with its full
/// operand consumes the indicator and the operand and yields one entry;
/// anything else yields nothing.
pub open spec fn spec_step(bytes: Seq<u8>, i: int) -> (Option<Entry>, int)
    recommends
        0 <= i < bytes.len(),
{
    let b = bytes[i];
    if b == 0x3e {  // `>` introduces a two-byte indicator
        if i + 1 < bytes.len() && entry_shape2(bytes[i + 1]) is Some {
            let c = bytes[i + 1];
            match entry_shape2(c)->0 {
                Shape::NoOperand => (Some(make_entry2(c, 0)), 2),
                Shape::Instance => if i + 2 < bytes.len() {
                    (Some(make_entry2(c, bytes[i + 2])), 3)
                } else {
                    (None, 3)
                },
                _ => (None, 1),
            }
        } else {
            (None, 1)
        }
    } else if entry_shape1(b) is Some {
        match entry_shape1(b)->0 {
            Shape::NoOperand => (Some(make_entry1(b, 0, 0)), 1),
            Shape::Instance => if i + 1 < bytes.len() {
                (Some(make_entry1(b, bytes[i + 1], 0)), 2)
            } else {
                (None, 2)
            },
            Shape::Relay => if i + 1 < bytes.len() {
                (Some(make_entry1(b, bytes[i + 1], 0)), 2)
            } else {
                (None, 2)
            },
            Shape::InstanceContext => if i + 3 < bytes.len() && bytes[i + 2] == 0x3a {
                (Some(make_entry1(b, bytes[i + 1], bytes[i + 3])), 4)
            } else {
                (None, 2)
            },
        }
    } else {
        (None, 1)
    }
}

/// One parsing step, executable form.
fn parse_step(bytes: &[u8], i: usize) -> (r: (Option<Entry>, usize))
    requires
        i < bytes@.len(),
    ensures
        r.0 == spec_step(bytes@, i as int).0,
        r.1 as int == spec_step(bytes@, i as int).1,
        1 <= r.1 <= 4,
{
    let b = bytes[i];
    if b == 0x3e {
        if bytes.len() - i > 1 {
            match lookup_shape2(bytes[i + 1]) {
                Some(Shape::NoOperand) => (Some(build_entry2(bytes[i + 1], 0)), 2),
                Some(Shape::Instance) => {
                    if bytes.len() - i > 2 {
                        (Some(build_entry2(bytes[i + 1], bytes[i + 2])), 3)
                    } else {
                        (None, 3)
                    }
                },
                Some(_) => (None, 1),
                None => (None, 1),
            }
        } else {
            (None, 1)
        }
    } else {
        match lookup_shape1(b) {
            Some(Shape::NoOperand) => (Some(build_entry1(b, 0, 0)), 1),
            Some(Shape::Instance) => {
                if bytes.len() - i > 1 {
                    (Some(build_entry1(b, bytes[i + 1], 0)), 2)
                } else {
                    (None, 2)
                }
            },
            Some(Shape::Relay) => {
                if bytes.len() - i > 1 {
                    (Some(build_entry1(b, bytes[i + 1], 0)), 2)
                } else {
                    (None, 2)
                }
            },
            Some(Shape::InstanceContext) => {
                if bytes.len() - i > 3 && bytes[i + 2] == 0x3a {
                    (Some(build_entry1(b, bytes[i + 1], bytes[i + 3])), 4)
                } else {
                    (None, 2)
                }
            },
            None => (None, 1),
        }
    }
}

/// The entries parsed from position `i` to the end of the stream, scanning
/// left to right and skipping unrecognised bytes.
pub open spec fn spec_parse_entries_from(bytes: Seq<u8>, i: int) -> Seq<Entry>
    decreases bytes.len() - i,
{
    if i < 0 || i >= bytes.len() {
        seq![]
    } else {
        let (e, n) = spec_step(bytes, i);
        let next = if i + n > bytes.len() {
            bytes.len() as int
        } else {
            i + n
        };
        let rest = spec_parse_entries_from(bytes, next);
        match e {
            Some(en) => seq![en] + rest,
            None => rest,
        }
    }
}

impl Entry {
    /// Parses a whole usage report.
    pub fn parse_entries(bytes: &[u8]) -> (r: Vec<Entry>)
        ensures
            r@ == spec_parse_entries_from(bytes@, 0),
    {
        let mut entries: Vec<Entry> = Vec::new();
        let mut i: usize = 0;
        proof {
            assert(entries@ + spec_parse_entries_from(bytes@, 0) =~= spec_parse_entries_from(
                bytes@,
                0,
            ));
        }
        while i < bytes.len()
            invariant
                spec_parse_entries_from(bytes@, 0) == entries@ + spec_parse_entries_from(
                    bytes@,
                    i as int,
                ),
            decreases bytes.len() - i,
        {
            let ghost prefix = entries@;
            let ghost rest = spec_parse_entries_from(bytes@, i as int);
            let (e, n) = parse_step(bytes, i);
            let ghost next = if i as int + spec_step(bytes@, i as int).1 > bytes@.len() {
                bytes@.len() as int
            } else {
                i as int + spec_step(bytes@, i as int).1
            };
            match e {
                Some(entry) => {
                    proof {
                        assert(rest == seq![entry] + spec_parse_entries_from(bytes@, next));
                        assert(prefix + (seq![entry] + spec_parse_entries_from(bytes@, next))
                            =~= prefix.push(entry) + spec_parse_entries_from(bytes@, next));
                    }
                    entries.push(entry);
                },
                None => {},
            }
            if bytes.len() - i < n {
                i = bytes.len();
            } else {
                i = i + n;
            }
        }
        proof {
            assert(entries@ + spec_parse_entries_from(bytes@, i as int) =~= entries@);
        }
        entries
    }
}

} // verus!

verus! {

/// The byte length of the indicator at position `i`: two when introduced by
/// `>`, else one.
pub open spec fn indicator_len(bytes: Seq<u8>, i: int) -> int {
    if bytes[i] == 0x3e {
        2
    } else {
        1
    }
}

/// The shape of the indicator at position `i`, where one is recognised.
pub open spec fn shape_at(bytes: Seq<u8>, i: int) -> Option<Shape> {
    if bytes[i] == 0x3e {
        if i + 1 < bytes.len() {
            entry_shape2(bytes[i + 1])
        } else {
            None
        }
    } else {
        entry_shape1(bytes[i])
    }
}

/// The number of operand bytes a shape carries, counting the `:` of a
/// context operand.
pub open spec fn operand_len(shape: Shape) -> int {
    match shape {
        Shape::NoOperand => 0,
        Shape::Instance => 1,
        Shape::Relay => 1,
        Shape::InstanceContext => 3,
    }
}

/// A recognised indicator stands at `i` with its full canonical operand
/// after it.
pub open spec fn entry_at(bytes: Seq<u8>, i: int) -> bool {
    &&& 0 <= i < bytes.len()
    &&& shape_at(bytes, i) is Some
    &&& i + indicator_len(bytes, i) + operand_len(shape_at(bytes, i)->0) <= bytes.len()
    &&& (shape_at(bytes, i)->0 is InstanceContext ==> bytes[i + 2] == 0x3a)
}

/// Parsing at a recognised indicator followed by its canonical operand
/// yields exactly one entry and consumes exactly the indicator and the
/// operand, and the entry list continues right after them.
pub proof fn lemma_step_consumes_entry(bytes: Seq<u8>, i: int)
    requires
        entry_at(bytes, i),
    ensures
        spec_step(bytes, i).0 is Some,
        spec_step(bytes, i).1 == indicator_len(bytes, i) + operand_len(shape_at(bytes, i)->0),
        spec_parse_entries_from(bytes, i) == seq![spec_step(bytes, i).0->0]
            + spec_parse_entries_from(bytes, i + spec_step(bytes, i).1),
{
}

} // verus!
