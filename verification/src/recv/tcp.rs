//! Inbound TCP response tags: the values the RoboRIO reports on the
//! configuration stream, among them the usage report parsed by the entry
//! grammar. Fields received as IEEE-754 single-precision values hold their
//! big-endian bit patterns; text fields hold their raw bytes.

use vstd::prelude::*;

use super::entry::Entry;

verus! {

/// A full inbound TCP response: the tags it carried.
pub struct TcpResponse {
    tags: Vec<Tag>,
}

/// A tag of the TCP response stream.
#[derive(Debug, Clone)]
pub enum Tag {
    Radio(String),
    UsageReport {
        /// The reporting team number, as its two raw bytes.
        team_num: [u8; 2],
        entries: Vec<Entry>,
    },
    DisableFaults {
        comms: u16,
        twelve_volt: u16,
    },
    RailFaults {
        six_volt: u16,
        five_volt: u16,
        three_three_volt: u16,
    },
    VersionInfo {
        ty: Device,
        id: u8,
        name: Vec<u8>,
        version: Vec<u8>,
    },
    ErrorMessage {
        /// Bit pattern of an IEEE-754 single-precision value.
        timestamp: u32,
        sequence: u16,
        error_code: i32,
        flags: Flags,
        details: Vec<u8>,
        location: Vec<u8>,
        call_stack: Vec<u8>,
    },
    StandardOutput {
        /// Bit pattern of an IEEE-754 single-precision value.
        timestamp: u32,
        sequence: u16,
        message: Vec<u8>,
    },
}

/// The device a version-info tag speaks of.
#[derive(Debug, Clone, Copy, PartialEq, Eq, Structural)]
pub enum Device {
    Software,
    CANTalon,
    PDP,
    PCM,
}

/// The flag byte of an error-message tag.
#[derive(Debug, Clone, Copy, PartialEq, Eq, Hash)]
pub struct Flags(u8);

} // verus!
