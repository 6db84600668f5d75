//! Inbound UDP response datagram: an eight-byte header of bit-packed status
//! and trace bytes, the battery reading, and length-prefixed response tags.

use vstd::prelude::*;

use crate::wire::{u16_of_be, u32_of_be};
use crate::Mode;

verus! {

/// Why an inbound datagram was rejected.
#[derive(Debug, Clone, Copy, PartialEq, Eq, Structural)]
pub enum UdpParseError {
    /// The frame is too short for its fixed header.
    InvalidLength,
    /// A tag's declared length runs past the buffer, or a fixed-length tag
    /// has the wrong size.
    InvalidTag,
}

/// Whether the robot code reports itself up and running.
#[derive(Debug, Clone, Copy, PartialEq, Eq, Hash, Structural)]
pub enum CodeStatus {
    Running,
    Initializing,
}

/// Emergency-stop bit of a status byte.
pub open spec fn status_estopped(b: u8) -> bool {
    b & 0x80 != 0
}

/// Brownout bit of a status byte.
pub open spec fn status_brownout(b: u8) -> bool {
    b & 0x10 != 0
}

/// Enabled bit of a status byte.
pub open spec fn status_enabled(b: u8) -> bool {
    b & 0x04 != 0
}

/// Mode bits of a status byte (low two bits).
pub open spec fn status_mode_bits(b: u8) -> u8 {
    b & 0x03
}

/// Robot-code bit of a trace byte, read as a code status.
pub open spec fn trace_robot_code(b: u8) -> CodeStatus {
    if b & 0x20 != 0 {
        CodeStatus::Running
    } else {
        CodeStatus::Initializing
    }
}

/// RoboRIO bit of a trace byte.
pub open spec fn trace_is_roborio(b: u8) -> bool {
    b & 0x10 != 0
}

/// Test-mode bit of a trace byte.
pub open spec fn trace_test_mode(b: u8) -> bool {
    b & 0x08 != 0
}

/// Autonomous bit of a trace byte.
pub open spec fn trace_autonomous_mode(b: u8) -> bool {
    b & 0x04 != 0
}

/// Teleoperated bit of a trace byte.
pub open spec fn trace_teleop_mode(b: u8) -> bool {
    b & 0x02 != 0
}

/// The inverse of the disabled bit of a trace byte.
pub open spec fn trace_enabled(b: u8) -> bool {
    !(b & 0x01 != 0)
}

/// The bit-packed status byte of an inbound datagram.
#[derive(Debug, Clone, Copy, PartialEq, Eq, Hash)]
pub struct Status(u8);

impl Status {
    /// The raw status byte.
    pub closed spec fn spec_bits(self) -> u8 {
        self.0
    }

    pub fn from_bits(bits: u8) -> (r: Status)
        ensures
            r.spec_bits() == bits,
    {
        Status(bits)
    }

    pub fn estopped(&self) -> (r: bool)
        ensures
            r == status_estopped(self.spec_bits()),
    {
        (self.0 & 0x80) > 0
    }

    pub fn brownout(&self) -> (r: bool)
        ensures
            r == status_brownout(self.spec_bits()),
    {
        (self.0 & 0x10) > 0
    }

    pub fn enabled(&self) -> (r: bool)
        ensures
            r == status_enabled(self.spec_bits()),
    {
        (self.0 & 0x04) > 0
    }

    pub fn mode(&self) -> (r: Mode)
        ensures
            r == Mode::spec_from_bits(status_mode_bits(self.spec_bits())),
    {
        match self.0 & 0x03 {
            0 => Mode::Teleoperated,
            2 => Mode::Autonomous,
            _ => Mode::Test,
        }
    }
}

/// The bit-packed trace byte of an inbound datagram.
#[derive(Debug, Clone, Copy, PartialEq, Eq, Hash)]
pub struct Trace(u8);

impl Trace {
    /// The raw trace byte.
    pub closed spec fn spec_bits(self) -> u8 {
        self.0
    }

    pub fn from_bits(bits: u8) -> (r: Self)
        ensures
            r.spec_bits() == bits,
    {
        Trace(bits)
    }

    pub fn robot_code(&self) -> (r: CodeStatus)
        ensures
            r == trace_robot_code(self.spec_bits()),
    {
        match self.0 & 0x20 {
            0 => CodeStatus::Initializing,
            _ => CodeStatus::Running,
        }
    }

    pub fn is_roborio(&self) -> (r: bool)
        ensures
            r == trace_is_roborio(self.spec_bits()),
    {
        (self.0 & 0x10) > 0
    }

    pub fn test_mode(&self) -> (r: bool)
        ensures
            r == trace_test_mode(self.spec_bits()),
    {
        (self.0 & 0x08) > 0
    }

    pub fn autonomous_mode(&self) -> (r: bool)
        ensures
            r == trace_autonomous_mode(self.spec_bits()),
    {
        (self.0 & 0x04) > 0
    }

    pub fn teleop_mode(&self) -> (r: bool)
        ensures
            r == trace_teleop_mode(self.spec_bits()),
    {
        (self.0 & 0x02) > 0
    }

    pub fn enabled(&self) -> (r: bool)
        ensures
            r == trace_enabled(self.spec_bits()),
    {
        !((self.0 & 0x01) > 0)
    }
}

/// The battery reading: integer volts in the high byte, 256ths of a volt in
/// the low byte, so the voltage is the stored value divided by 256.
#[derive(Debug, Clone, Copy, PartialEq, Eq, Hash)]
pub struct Battery(u16);

impl Battery {
    /// The raw reading: the voltage times 256.
    pub closed spec fn spec_bits(self) -> u16 {
        self.0
    }

    pub fn from_bits(bits: [u8; 2]) -> (r: Battery)
        ensures
            r.spec_bits() == u16_of_be(bits[0], bits[1]),
    {
        Battery(crate::wire::read_u16_be(bits[0], bits[1]))
    }

    /// The raw reading back, for callers that divide it into volts.
    pub fn to_bits(&self) -> (r: u16)
        ensures
            r == self.spec_bits(),
    {
        self.0
    }
}

/// A response tag carried after the fixed header. Fields received as IEEE-754
/// single-precision values hold their big-endian bit patterns.
#[derive(Debug, Clone, PartialEq)]
pub enum Tag {
    JoystickOutput {
        /// 1 bit per output, stored LSB 0.
        outputs: u32,
        left_rumble: u16,
        right_rumble: u16,
    },
    DiskInfo {
        /// Number of bytes available.
        free_space: u32,
    },
    CPUInfo {
        num_cpus: u8,
        /// Bit pattern of an IEEE-754 single-precision value.
        critical: u32,
        /// Bit pattern of an IEEE-754 single-precision value.
        above_normal: u32,
        /// Bit pattern of an IEEE-754 single-precision value.
        normal: u32,
        /// Bit pattern of an IEEE-754 single-precision value.
        low: u32,
    },
    RAMInfo {
        block: u32,
        /// Number of bytes available.
        free_space: u32,
    },
    PDPLog {
        /// Sixteen consecutive big-endian 10-bit samples of the packed
        /// payload.
        stats: Vec<u16>,
    },
    CANMetrics {
        /// Bit pattern of an IEEE-754 single-precision value.
        utilization: u32,
        bus_off: u32,
        tx_full: u32,
        rx_errors: u8,
        tx_errors: u8,
    },
}

/// The mathematical value of a response tag, with the sample list as a
/// sequence.
pub enum TagView {
    JoystickOutput { outputs: u32, left_rumble: u16, right_rumble: u16 },
    DiskInfo { free_space: u32 },
    CPUInfo { num_cpus: u8, critical: u32, above_normal: u32, normal: u32, low: u32 },
    RAMInfo { block: u32, free_space: u32 },
    PDPLog { stats: Seq<u16> },
    CANMetrics { utilization: u32, bus_off: u32, tx_full: u32, rx_errors: u8, tx_errors: u8 },
}

impl View for Tag {
    type V = TagView;

    open spec fn view(&self) -> TagView {
        match *self {
            Tag::JoystickOutput { outputs, left_rumble, right_rumble } => TagView::JoystickOutput {
                outputs,
                left_rumble,
                right_rumble,
            },
            Tag::DiskInfo { free_space } => TagView::DiskInfo { free_space },
            Tag::CPUInfo { num_cpus, critical, above_normal, normal, low } => TagView::CPUInfo {
                num_cpus,
                critical,
                above_normal,
                normal,
                low,
            },
            Tag::RAMInfo { block, free_space } => TagView::RAMInfo { block, free_space },
            Tag::PDPLog { ref stats } => TagView::PDPLog { stats: stats@ },
            Tag::CANMetrics { utilization, bus_off, tx_full, rx_errors, tx_errors } => (
            TagView::CANMetrics { utilization, bus_off, tx_full, rx_errors, tx_errors }),
        }
    }
}

/// The `k`th 10-bit sample of a power-panel log payload `p`: the payload
/// carries a leading identifier byte, then the samples packed back to back,
/// most significant bit first.
pub open spec fn pdp_sample(p: Seq<u8>, k: int) -> u16 {
    let byte = 1 + 5 * (k / 4) + k % 4;
    let off = (2 * (k % 4)) as u16;
    (((p[byte] as u16) << ((2 + off) as u16)) | ((p[byte + 1] as u16) >> ((6 - off) as u16)))
        & 0x3ff
}

/// All sixteen samples of a power-panel log payload.
pub open spec fn pdp_stats(p: Seq<u8>) -> Seq<u16> {
    Seq::new(16, |k: int| pdp_sample(p, k))
}

/// The tag decoded from its payload (the bytes after the length and
/// identifier), given the identifier. Holds only for the recognised
/// identifiers with their fixed payload sizes.
pub open spec fn spec_tag_value(id: u8, p: Seq<u8>) -> TagView {
    if id == 0x01 {
        TagView::JoystickOutput {
            outputs: u32_of_be(p[0], p[1], p[2], p[3]),
            left_rumble: u16_of_be(p[4], p[5]),
            right_rumble: u16_of_be(p[6], p[7]),
        }
    } else if id == 0x04 {
        TagView::DiskInfo { free_space: u32_of_be(p[4], p[5], p[6], p[7]) }
    } else if id == 0x05 {
        TagView::CPUInfo {
            num_cpus: p[0],
            critical: u32_of_be(p[1], p[2], p[3], p[4]),
            above_normal: u32_of_be(p[13], p[14], p[15], p[16]),
            normal: u32_of_be(p[17], p[18], p[19], p[20]),
            low: u32_of_be(p[29], p[30], p[31], p[32]),
        }
    } else if id == 0x06 {
        TagView::RAMInfo {
            block: u32_of_be(p[0], p[1], p[2], p[3]),
            free_space: u32_of_be(p[4], p[5], p[6], p[7]),
        }
    } else if id == 0x08 {
        TagView::PDPLog { stats: pdp_stats(p) }
    } else {
        TagView::CANMetrics {
            utilization: u32_of_be(p[0], p[1], p[2], p[3]),
            bus_off: u32_of_be(p[4], p[5], p[6], p[7]),
            tx_full: u32_of_be(p[8], p[9], p[10], p[11]),
            rx_errors: p[12],
            tx_errors: p[13],
        }
    }
}

/// The fixed declared length (payload plus identifier byte) of a recognised
/// tag identifier, or zero where any length is taken.
pub open spec fn spec_tag_fixed_len(id: u8) -> int {
    if id == 0x01 {
        9
    } else if id == 0x04 {
        9
    } else if id == 0x05 {
        34
    } else if id == 0x06 {
        9
    } else if id == 0x08 {
        26
    } else if id == 0x0e {
        15
    } else {
        0
    }
}

/// Whether a tag identifier produces a value (identifier `0x09` and unknown
/// identifiers are skipped silently).
pub open spec fn spec_tag_recognised(id: u8) -> bool {
    id == 0x01 || id == 0x04 || id == 0x05 || id == 0x06 || id == 0x08 || id == 0x0e
}

/// Prepends a tag to the result of parsing the rest of the buffer.
pub open spec fn spec_cons_tag(t: TagView, rest: Result<Seq<TagView>, UdpParseError>) -> Result<
    Seq<TagView>,
    UdpParseError,
> {
    match rest {
        Ok(s) => Ok(seq![t] + s),
        Err(e) => Err(e),
    }
}

/// Parses the tag stream of an inbound datagram from position `i` on: each
/// tag is a length byte counting the identifier and payload, the identifier,
/// then the payload. A declared length that would run past the buffer is an
/// error, as is a wrong size for a fixed-length tag; unknown identifiers
/// skip their declared length; a zero length skips its own byte.
pub open spec fn spec_parse_tags_from(buf: Seq<u8>, i: int) -> Result<Seq<TagView>, UdpParseError>
    decreases buf.len() - i,
{
    if i < 0 || i >= buf.len() {
        Ok(seq![])
    } else {
        let length = buf[i] as int;
        if length >= buf.len() - i {
            Err(UdpParseError::InvalidTag)
        } else if length == 0 {
            spec_parse_tags_from(buf, i + 1)
        } else {
            let id = buf[i + 1];
            let payload = buf.subrange(i + 2, i + 1 + length);
            let rest = spec_parse_tags_from(buf, i + 1 + length);
            if spec_tag_recognised(id) {
                if length != spec_tag_fixed_len(id) {
                    Err(UdpParseError::InvalidTag)
                } else {
                    spec_cons_tag(spec_tag_value(id, payload), rest)
                }
            } else {
                rest
            }
        }
    }
}

/// A full inbound UDP response.
#[derive(Debug)]
pub struct UdpResponse {
    pub sequence: u16,
    pub comm_version: u8,
    pub status: Status,
    pub trace: Trace,
    pub battery: Battery,
    pub first_conn: bool,
    pub tags: Vec<Tag>,
}

} // verus!

verus! {

/// Prepends an already-parsed prefix to the result of parsing the rest.
pub open spec fn spec_with_prefix(
    prefix: Seq<TagView>,
    rest: Result<Seq<TagView>, UdpParseError>,
) -> Result<Seq<TagView>, UdpParseError> {
    match rest {
        Ok(s) => Ok(prefix + s),
        Err(e) => Err(e),
    }
}

/// The views of a list of parsed tags.
pub open spec fn tag_views(tags: Seq<Tag>) -> Seq<TagView> {
    tags.map_values(|t: Tag| t@)
}

impl Tag {
    /// Parses the whole tag stream, left to right.
    pub fn parse_tags(buf: &[u8]) -> (r: Result<Vec<Tag>, UdpParseError>)
        ensures
            match r {
                Ok(tags) => spec_parse_tags_from(buf@, 0) == Ok::<Seq<TagView>, UdpParseError>(
                    tag_views(tags@),
                ),
                Err(e) => spec_parse_tags_from(buf@, 0) == Err::<Seq<TagView>, UdpParseError>(e),
            },
    {
        let mut tags: Vec<Tag> = Vec::new();
        let mut i: usize = 0;
        proof {
            assert(tag_views(tags@) + Seq::<TagView>::empty() =~= tag_views(tags@));
        }
        while i < buf.len()
            invariant
                i <= buf.len(),
                buf@.len() <= usize::MAX,
                spec_parse_tags_from(buf@, 0) == spec_with_prefix(
                    tag_views(tags@),
                    spec_parse_tags_from(buf@, i as int),
                ),
            decreases buf.len() - i,
        {
            let ghost prefix = tag_views(tags@);
            let length = buf[i] as usize;
            if length >= buf.len() - i {
                return Err(UdpParseError::InvalidTag);
            }
            if length == 0 {
                i += 1;
                continue;
            }
            let id = buf[i + 1];
            let ghost payload = buf@.subrange(i as int + 2, i as int + 1 + length as int);
            let ghost rest = spec_parse_tags_from(buf@, i as int + 1 + length as int);
            match id {
                0x01 => {
                    // Joystick output
                    if length != 9 {
                        return Err(UdpParseError::InvalidTag);
                    }
                    let outputs = crate::wire::read_u32_be(
                        buf[i + 2],
                        buf[i + 3],
                        buf[i + 4],
                        buf[i + 5],
                    );
                    let left_rumble = crate::wire::read_u16_be(buf[i + 6], buf[i + 7]);
                    let right_rumble = crate::wire::read_u16_be(buf[i + 8], buf[i + 9]);
                    let t = Tag::JoystickOutput { outputs, left_rumble, right_rumble };
                    proof {
                        assert(t@ == spec_tag_value(id, payload));
                    }
                    tags.push(t);
                },
                0x04 => {
                    // Disk info: four ignored bytes, then the free space
                    if length != 9 {
                        return Err(UdpParseError::InvalidTag);
                    }
                    let free_space = crate::wire::read_u32_be(
                        buf[i + 6],
                        buf[i + 7],
                        buf[i + 8],
                        buf[i + 9],
                    );
                    let t = Tag::DiskInfo { free_space };
                    proof {
                        assert(t@ == spec_tag_value(id, payload));
                    }
                    tags.push(t);
                },
                0x05 => {
                    // CPU info
                    if length != 34 {
                        return Err(UdpParseError::InvalidTag);
                    }
                    let num_cpus = buf[i + 2];
                    let critical = crate::wire::read_u32_be(
                        buf[i + 3],
                        buf[i + 4],
                        buf[i + 5],
                        buf[i + 6],
                    );
                    let above_normal = crate::wire::read_u32_be(
                        buf[i + 15],
                        buf[i + 16],
                        buf[i + 17],
                        buf[i + 18],
                    );
                    let normal = crate::wire::read_u32_be(
                        buf[i + 19],
                        buf[i + 20],
                        buf[i + 21],
                        buf[i + 22],
                    );
                    let low = crate::wire::read_u32_be(
                        buf[i + 31],
                        buf[i + 32],
                        buf[i + 33],
                        buf[i + 34],
                    );
                    let t = Tag::CPUInfo { num_cpus, critical, above_normal, normal, low };
                    proof {
                        assert(t@ == spec_tag_value(id, payload));
                    }
                    tags.push(t);
                },
                0x06 => {
                    // RAM info
                    if length != 9 {
                        return Err(UdpParseError::InvalidTag);
                    }
                    let block = crate::wire::read_u32_be(
                        buf[i + 2],
                        buf[i + 3],
                        buf[i + 4],
                        buf[i + 5],
                    );
                    let free_space = crate::wire::read_u32_be(
                        buf[i + 6],
                        buf[i + 7],
                        buf[i + 8],
                        buf[i + 9],
                    );
                    let t = Tag::RAMInfo { block, free_space };
                    proof {
                        assert(t@ == spec_tag_value(id, payload));
                    }
                    tags.push(t);
                },
                0x08 => {
                    // Power-panel log
                    if length != 26 {
                        return Err(UdpParseError::InvalidTag);
                    }
                    let mut stats: Vec<u16> = Vec::new();
                    let mut k: usize = 0;
                    while k < 16
                        invariant
                            k <= 16,
                            stats@.len() == k,
                            i + 26 < buf@.len(),
                            buf@.len() <= usize::MAX,
                            payload == buf@.subrange(i as int + 2, i as int + 27),
                            forall|m: int| 0 <= m < k ==> stats@[m] == pdp_sample(payload, m),
                        decreases 16 - k,
                    {
                        let byte = i + 3 + 5 * (k / 4) + (k % 4);
                        let off = (2 * (k % 4)) as u16;
                        let hi = (buf[byte] as u16) << (2 + off);
                        let lo = (buf[byte + 1] as u16) >> (6 - off);
                        stats.push((hi | lo) & 0x3ff);
                        k += 1;
                    }
                    let t = Tag::PDPLog { stats };
                    proof {
                        assert(stats@ =~= pdp_stats(payload));
                        assert(t@ == spec_tag_value(id, payload));
                    }
                    tags.push(t);
                },
                0x09 => {
                    // Unknown value of length 9, skipped silently
                },
                0x0e => {
                    // CAN metrics
                    if length != 15 {
                        return Err(UdpParseError::InvalidTag);
                    }
                    let utilization = crate::wire::read_u32_be(
                        buf[i + 2],
                        buf[i + 3],
                        buf[i + 4],
                        buf[i + 5],
                    );
                    let bus_off = crate::wire::read_u32_be(
                        buf[i + 6],
                        buf[i + 7],
                        buf[i + 8],
                        buf[i + 9],
                    );
                    let tx_full = crate::wire::read_u32_be(
                        buf[i + 10],
                        buf[i + 11],
                        buf[i + 12],
                        buf[i + 13],
                    );
                    let rx_errors = buf[i + 14];
                    let tx_errors = buf[i + 15];
                    let t = Tag::CANMetrics { utilization, bus_off, tx_full, rx_errors, tx_errors };
                    proof {
                        assert(t@ == spec_tag_value(id, payload));
                    }
                    tags.push(t);
                },
                _ => {
                    // Unrecognised identifiers skip their declared length
                },
            }
            proof {
                if spec_tag_recognised(id) {
                    let tv = spec_tag_value(id, payload);
                    assert(tag_views(tags@) =~= prefix.push(tv));
                    match rest {
                        Ok(s) => {
                            assert(prefix + (seq![tv] + s) =~= prefix.push(tv) + s);
                        },
                        Err(_) => {},
                    }
                }
            }
            i = i + length + 1;
        }
        proof {
            assert(tag_views(tags@) + Seq::<TagView>::empty() =~= tag_views(tags@));
        }
        Ok(tags)
    }
}

impl UdpResponse {
    /// Decodes a full response datagram: rejects frames shorter than the
    /// eight-byte header, then reads the header fields and parses the tag
    /// stream after them.
    pub fn try_from(value: &[u8]) -> (r: Result<UdpResponse, UdpParseError>)
        ensures
            match r {
                Ok(resp) => {
                    &&& value@.len() >= 8
                    &&& resp.sequence == u16_of_be(value@[0], value@[1])
                    &&& resp.comm_version == value@[2]
                    &&& resp.status.spec_bits() == value@[3]
                    &&& resp.trace.spec_bits() == value@[4]
                    &&& resp.battery.spec_bits() == u16_of_be(value@[5], value@[6])
                    &&& resp.first_conn == (value@[7] > 0)
                    &&& spec_parse_tags_from(value@.skip(8), 0) == Ok::<
                        Seq<TagView>,
                        UdpParseError,
                    >(tag_views(resp.tags@))
                },
                Err(e) => (value@.len() < 8 && e == UdpParseError::InvalidLength) || (value@.len()
                    >= 8 && spec_parse_tags_from(value@.skip(8), 0) == Err::<
                    Seq<TagView>,
                    UdpParseError,
                >(e)),
            },
    {
        if value.len() < 8 {
            return Err(UdpParseError::InvalidLength);
        }
        let sequence = crate::wire::read_u16_be(value[0], value[1]);
        let comm_version = value[2];
        let status = Status::from_bits(value[3]);
        let trace = Trace::from_bits(value[4]);
        let battery = Battery::from_bits([value[5], value[6]]);
        let first_conn = value[7] > 0;
        let rest = vstd::slice::slice_subrange(value, 8, value.len());
        proof {
            assert(rest@ =~= value@.skip(8));
        }
        let tags = match Tag::parse_tags(rest) {
            Ok(t) => t,
            Err(e) => {
                return Err(e);
            },
        };
        Ok(UdpResponse { sequence, comm_version, status, trace, battery, first_conn, tags })
    }
}

} // verus!
