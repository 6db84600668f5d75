//! Outbound UDP control datagram: an 11-byte header of bit-packed control and
//! request bytes followed by length-prefixed tags.

use vstd::prelude::*;

use crate::wire::{u16_hi, u16_lo, u16_of_be, u32_be};
use crate::{Alliance, Mode};

verus! {

/// Mode bits of a control byte (low two bits).
pub open spec fn ctrl_mode_bits(b: u8) -> u8 {
    b & 0x03
}

/// Enable bit of a control byte.
pub open spec fn ctrl_enabled(b: u8) -> bool {
    b & 0x04 != 0
}

/// FMS-connected bit of a control byte.
pub open spec fn ctrl_fms_connected(b: u8) -> bool {
    b & 0x08 != 0
}

/// Emergency-stop bit of a control byte.
pub open spec fn ctrl_estopped(b: u8) -> bool {
    b & 0x80 != 0
}

/// Reboot-RoboRIO bit of a request byte.
pub open spec fn req_reboot_roborio(b: u8) -> bool {
    b & 0x08 != 0
}

/// Restart-code bit of a request byte.
pub open spec fn req_restart_code(b: u8) -> bool {
    b & 0x04 != 0
}

/// Driver-station-connected bit of a request byte.
pub open spec fn req_ds_connected(b: u8) -> bool {
    b & 0x10 != 0
}

/// The bit-packed control byte of the outbound datagram: mode in bits 0-1,
/// enable in bit 2, FMS-connected in bit 3, emergency stop in bit 7.
#[derive(Debug, Clone, Copy, PartialEq, Eq, Hash)]
pub struct Control(u8);

impl Control {
    /// The stored wire byte.
    pub closed spec fn spec_byte(self) -> u8 {
        self.0
    }

    /// Appends the control byte; writing the byte equals the stored value.
    pub fn write_bytes(&self, out: &mut Vec<u8>)
        ensures
            final(out)@ == old(out)@.push(self.spec_byte()),
    {
        out.push(self.0);
    }

    pub fn mode(&self) -> (r: Mode)
        ensures
            r == Mode::spec_from_bits(ctrl_mode_bits(self.spec_byte())),
    {
        Mode::from_bits(self.0 & 0x03)
    }

    pub fn set_mode(&mut self, mode: Mode)
        ensures
            final(self).spec_byte() == (old(self).spec_byte() & !0x03) | mode.spec_bits(),
            ctrl_mode_bits(final(self).spec_byte()) == mode.spec_bits(),
            ctrl_enabled(final(self).spec_byte()) == ctrl_enabled(old(self).spec_byte()),
            ctrl_fms_connected(final(self).spec_byte()) == ctrl_fms_connected(
                old(self).spec_byte(),
            ),
            ctrl_estopped(final(self).spec_byte()) == ctrl_estopped(old(self).spec_byte()),
    {
        let ghost b = self.0;
        let ghost m = mode.spec_bits();
        self.0 &= !0x03;
        self.0 |= mode.into_bits();
        proof {
            assert(m < 4 ==> {
                let n = (b & !0x03) | m;
                &&& n & 0x03 == m
                &&& n & 0x04 == b & 0x04
                &&& n & 0x08 == b & 0x08
                &&& n & 0x80 == b & 0x80
            }) by (bit_vector);
        }
    }

    pub fn with_mode(self, mode: Mode) -> (r: Self)
        ensures
            r.spec_byte() == (self.spec_byte() & !0x03) | mode.spec_bits(),
            ctrl_mode_bits(r.spec_byte()) == mode.spec_bits(),
            ctrl_enabled(r.spec_byte()) == ctrl_enabled(self.spec_byte()),
            ctrl_fms_connected(r.spec_byte()) == ctrl_fms_connected(self.spec_byte()),
            ctrl_estopped(r.spec_byte()) == ctrl_estopped(self.spec_byte()),
    {
        let mut r = self;
        r.set_mode(mode);
        r
    }

    pub fn enabled(&self) -> (r: bool)
        ensures
            r == ctrl_enabled(self.spec_byte()),
    {
        self.0 & 0x04 > 0
    }

    pub fn set_enabled(&mut self, enabled: bool)
        ensures
            final(self).spec_byte() == (if enabled {
                old(self).spec_byte() | 0x04
            } else {
                old(self).spec_byte() & !0x04
            }),
            ctrl_enabled(final(self).spec_byte()) == enabled,
            ctrl_mode_bits(final(self).spec_byte()) == ctrl_mode_bits(old(self).spec_byte()),
            ctrl_fms_connected(final(self).spec_byte()) == ctrl_fms_connected(
                old(self).spec_byte(),
            ),
            ctrl_estopped(final(self).spec_byte()) == ctrl_estopped(old(self).spec_byte()),
    {
        let ghost b = self.0;
        if enabled {
            self.0 |= 0x04;
        } else {
            self.0 &= !0x04;
        }
        proof {
            assert({
                &&& (b | 0x04) & 0x04 != 0
                &&& (b | 0x04) & 0x03 == b & 0x03
                &&& (b | 0x04) & 0x08 == b & 0x08
                &&& (b | 0x04) & 0x80 == b & 0x80
                &&& (b & !0x04) & 0x04 == 0
                &&& (b & !0x04) & 0x03 == b & 0x03
                &&& (b & !0x04) & 0x08 == b & 0x08
                &&& (b & !0x04) & 0x80 == b & 0x80
            }) by (bit_vector);
        }
    }

    pub fn with_enabled(self, enabled: bool) -> (r: Self)
        ensures
            r.spec_byte() == (if enabled {
                self.spec_byte() | 0x04
            } else {
                self.spec_byte() & !0x04
            }),
            ctrl_enabled(r.spec_byte()) == enabled,
            ctrl_mode_bits(r.spec_byte()) == ctrl_mode_bits(self.spec_byte()),
            ctrl_fms_connected(r.spec_byte()) == ctrl_fms_connected(self.spec_byte()),
            ctrl_estopped(r.spec_byte()) == ctrl_estopped(self.spec_byte()),
    {
        let mut r = self;
        r.set_enabled(enabled);
        r
    }

    pub fn fms_connected(&self) -> (r: bool)
        ensures
            r == ctrl_fms_connected(self.spec_byte()),
    {
        self.0 & 0x08 > 0
    }

    pub fn set_fms_connected(&mut self, fms_connected: bool)
        ensures
            final(self).spec_byte() == (if fms_connected {
                old(self).spec_byte() | 0x08
            } else {
                old(self).spec_byte() & !0x08
            }),
            ctrl_fms_connected(final(self).spec_byte()) == fms_connected,
            ctrl_mode_bits(final(self).spec_byte()) == ctrl_mode_bits(old(self).spec_byte()),
            ctrl_enabled(final(self).spec_byte()) == ctrl_enabled(old(self).spec_byte()),
            ctrl_estopped(final(self).spec_byte()) == ctrl_estopped(old(self).spec_byte()),
    {
        let ghost b = self.0;
        if fms_connected {
            self.0 |= 0x08;
        } else {
            self.0 &= !0x08;
        }
        proof {
            assert({
                &&& (b | 0x08) & 0x08 != 0
                &&& (b | 0x08) & 0x03 == b & 0x03
                &&& (b | 0x08) & 0x04 == b & 0x04
                &&& (b | 0x08) & 0x80 == b & 0x80
                &&& (b & !0x08) & 0x08 == 0
                &&& (b & !0x08) & 0x03 == b & 0x03
                &&& (b & !0x08) & 0x04 == b & 0x04
                &&& (b & !0x08) & 0x80 == b & 0x80
            }) by (bit_vector);
        }
    }

    pub fn with_fms_connected(self, fms_connected: bool) -> (r: Self)
        ensures
            r.spec_byte() == (if fms_connected {
                self.spec_byte() | 0x08
            } else {
                self.spec_byte() & !0x08
            }),
            ctrl_fms_connected(r.spec_byte()) == fms_connected,
            ctrl_mode_bits(r.spec_byte()) == ctrl_mode_bits(self.spec_byte()),
            ctrl_enabled(r.spec_byte()) == ctrl_enabled(self.spec_byte()),
            ctrl_estopped(r.spec_byte()) == ctrl_estopped(self.spec_byte()),
    {
        let mut r = self;
        r.set_fms_connected(fms_connected);
        r
    }

    pub fn estopped(&self) -> (r: bool)
        ensures
            r == ctrl_estopped(self.spec_byte()),
    {
        self.0 & 0x80 > 0
    }

    pub fn set_estopped(&mut self, estopped: bool)
        ensures
            final(self).spec_byte() == (if estopped {
                old(self).spec_byte() | 0x80
            } else {
                old(self).spec_byte() & !0x80
            }),
            ctrl_estopped(final(self).spec_byte()) == estopped,
            ctrl_mode_bits(final(self).spec_byte()) == ctrl_mode_bits(old(self).spec_byte()),
            ctrl_enabled(final(self).spec_byte()) == ctrl_enabled(old(self).spec_byte()),
            ctrl_fms_connected(final(self).spec_byte()) == ctrl_fms_connected(
                old(self).spec_byte(),
            ),
    {
        let ghost b = self.0;
        if estopped {
            self.0 |= 0x80;
        } else {
            self.0 &= !0x80;
        }
        proof {
            assert({
                &&& (b | 0x80) & 0x80 != 0
                &&& (b | 0x80) & 0x03 == b & 0x03
                &&& (b | 0x80) & 0x04 == b & 0x04
                &&& (b | 0x80) & 0x08 == b & 0x08
                &&& (b & !0x80) & 0x80 == 0
                &&& (b & !0x80) & 0x03 == b & 0x03
                &&& (b & !0x80) & 0x04 == b & 0x04
                &&& (b & !0x80) & 0x08 == b & 0x08
            }) by (bit_vector);
        }
    }

    pub fn with_estopped(self, estopped: bool) -> (r: Self)
        ensures
            r.spec_byte() == (if estopped {
                self.spec_byte() | 0x80
            } else {
                self.spec_byte() & !0x80
            }),
            ctrl_estopped(r.spec_byte()) == estopped,
            ctrl_mode_bits(r.spec_byte()) == ctrl_mode_bits(self.spec_byte()),
            ctrl_enabled(r.spec_byte()) == ctrl_enabled(self.spec_byte()),
            ctrl_fms_connected(r.spec_byte()) == ctrl_fms_connected(self.spec_byte()),
    {
        let mut r = self;
        r.set_estopped(estopped);
        r
    }
}

impl Default for Control {
    /// An all-clear control byte: teleoperated, disabled, no FMS, no stop.
    fn default() -> (r: Self)
        ensures
            r.spec_byte() == 0,
            ctrl_mode_bits(r.spec_byte()) == 0,
            !ctrl_enabled(r.spec_byte()),
            !ctrl_fms_connected(r.spec_byte()),
            !ctrl_estopped(r.spec_byte()),
    {
        proof {
            assert({
                &&& 0u8 & 0x03 == 0
                &&& 0u8 & 0x04 == 0
                &&& 0u8 & 0x08 == 0
                &&& 0u8 & 0x80 == 0
            }) by (bit_vector);
        }
        Control(0)
    }
}

/// The bit-packed request byte: restart-code in bit 2, reboot-RoboRIO in
/// bit 3, driver-station-connected in bit 4.
#[derive(Debug, Clone, Copy, PartialEq, Eq, Hash)]
pub struct Request(u8);

impl Request {
    /// The stored wire byte.
    pub closed spec fn spec_byte(self) -> u8 {
        self.0
    }

    /// Appends the request byte; writing the byte equals the stored value.
    pub fn write_bytes(&self, out: &mut Vec<u8>)
        ensures
            final(out)@ == old(out)@.push(self.spec_byte()),
    {
        out.push(self.0);
    }

    pub fn reboot_roborio(&self) -> (r: bool)
        ensures
            r == req_reboot_roborio(self.spec_byte()),
    {
        self.0 & 0x08 > 0
    }

    pub fn set_reboot_roborio(&mut self, reboot_roborio: bool)
        ensures
            final(self).spec_byte() == (if reboot_roborio {
                old(self).spec_byte() | 0x08
            } else {
                old(self).spec_byte() & !0x08
            }),
            req_reboot_roborio(final(self).spec_byte()) == reboot_roborio,
            req_restart_code(final(self).spec_byte()) == req_restart_code(old(self).spec_byte()),
            req_ds_connected(final(self).spec_byte()) == req_ds_connected(old(self).spec_byte()),
    {
        let ghost b = self.0;
        if reboot_roborio {
            self.0 |= 0x08;
        } else {
            self.0 &= !0x08;
        }
        proof {
            assert({
                &&& (b | 0x08) & 0x08 != 0
                &&& (b | 0x08) & 0x04 == b & 0x04
                &&& (b | 0x08) & 0x10 == b & 0x10
                &&& (b & !0x08) & 0x08 == 0
                &&& (b & !0x08) & 0x04 == b & 0x04
                &&& (b & !0x08) & 0x10 == b & 0x10
            }) by (bit_vector);
        }
    }

    pub fn with_reboot_roborio(self, reboot_roborio: bool) -> (r: Self)
        ensures
            r.spec_byte() == (if reboot_roborio {
                self.spec_byte() | 0x08
            } else {
                self.spec_byte() & !0x08
            }),
            req_reboot_roborio(r.spec_byte()) == reboot_roborio,
            req_restart_code(r.spec_byte()) == req_restart_code(self.spec_byte()),
            req_ds_connected(r.spec_byte()) == req_ds_connected(self.spec_byte()),
    {
        let mut r = self;
        r.set_reboot_roborio(reboot_roborio);
        r
    }

    pub fn restart_code(&self) -> (r: bool)
        ensures
            r == req_restart_code(self.spec_byte()),
    {
        self.0 & 0x04 > 0
    }

    pub fn set_restart_code(&mut self, restart_code: bool)
        ensures
            final(self).spec_byte() == (if restart_code {
                old(self).spec_byte() | 0x04
            } else {
                old(self).spec_byte() & !0x04
            }),
            req_restart_code(final(self).spec_byte()) == restart_code,
            req_reboot_roborio(final(self).spec_byte()) == req_reboot_roborio(
                old(self).spec_byte(),
            ),
            req_ds_connected(final(self).spec_byte()) == req_ds_connected(old(self).spec_byte()),
    {
        let ghost b = self.0;
        if restart_code {
            self.0 |= 0x04;
        } else {
            self.0 &= !0x04;
        }
        proof {
            assert({
                &&& (b | 0x04) & 0x04 != 0
                &&& (b | 0x04) & 0x08 == b & 0x08
                &&& (b | 0x04) & 0x10 == b & 0x10
                &&& (b & !0x04) & 0x04 == 0
                &&& (b & !0x04) & 0x08 == b & 0x08
                &&& (b & !0x04) & 0x10 == b & 0x10
            }) by (bit_vector);
        }
    }

    pub fn with_restart_code(self, restart_code: bool) -> (r: Self)
        ensures
            r.spec_byte() == (if restart_code {
                self.spec_byte() | 0x04
            } else {
                self.spec_byte() & !0x04
            }),
            req_restart_code(r.spec_byte()) == restart_code,
            req_reboot_roborio(r.spec_byte()) == req_reboot_roborio(self.spec_byte()),
            req_ds_connected(r.spec_byte()) == req_ds_connected(self.spec_byte()),
    {
        let mut r = self;
        r.set_restart_code(restart_code);
        r
    }

    pub fn ds_connected(&self) -> (r: bool)
        ensures
            r == req_ds_connected(self.spec_byte()),
    {
        self.0 & 0x10 > 0
    }

    pub fn set_ds_connected(&mut self, ds_connected: bool)
        ensures
            final(self).spec_byte() == (if ds_connected {
                old(self).spec_byte() | 0x10
            } else {
                old(self).spec_byte() & !0x10
            }),
            req_ds_connected(final(self).spec_byte()) == ds_connected,
            req_reboot_roborio(final(self).spec_byte()) == req_reboot_roborio(
                old(self).spec_byte(),
            ),
            req_restart_code(final(self).spec_byte()) == req_restart_code(old(self).spec_byte()),
    {
        let ghost b = self.0;
        if ds_connected {
            self.0 |= 0x10;
        } else {
            self.0 &= !0x10;
        }
        proof {
            assert({
                &&& (b | 0x10) & 0x10 != 0
                &&& (b | 0x10) & 0x04 == b & 0x04
                &&& (b | 0x10) & 0x08 == b & 0x08
                &&& (b & !0x10) & 0x10 == 0
                &&& (b & !0x10) & 0x04 == b & 0x04
                &&& (b & !0x10) & 0x08 == b & 0x08
            }) by (bit_vector);
        }
    }

    pub fn with_ds_connected(self, ds_connected: bool) -> (r: Self)
        ensures
            r.spec_byte() == (if ds_connected {
                self.spec_byte() | 0x10
            } else {
                self.spec_byte() & !0x10
            }),
            req_ds_connected(r.spec_byte()) == ds_connected,
            req_reboot_roborio(r.spec_byte()) == req_reboot_roborio(self.spec_byte()),
            req_restart_code(r.spec_byte()) == req_restart_code(self.spec_byte()),
    {
        let mut r = self;
        r.set_ds_connected(ds_connected);
        r
    }
}

impl Default for Request {
    /// The default request byte: no reboot, no restart, driver station
    /// marked connected.
    fn default() -> (r: Self)
        ensures
            r.spec_byte() == 0x10,
            req_ds_connected(r.spec_byte()),
            !req_reboot_roborio(r.spec_byte()),
            !req_restart_code(r.spec_byte()),
    {
        proof {
            assert({
                &&& 0x10u8 & 0x10 != 0
                &&& 0x10u8 & 0x08 == 0
                &&& 0x10u8 & 0x04 == 0
            }) by (bit_vector);
        }
        Request(0x10)
    }
}

} // verus!

verus! {

/// A command from the facade to the UDP loop.
pub enum UdpEvent {
    Enabled(bool),
    Estopped(bool),
    FmsConnected(bool),
    Mode(Mode),
    RebootRoborio,
    RestartCode,
    Alliance(Alliance),
    Tag(Tag),
    TeamNumber(u16),
    Exit,
}

impl UdpEvent {
    /// A queued tag must fit its one-byte length prefix; every other event
    /// is unconditionally well formed.
    pub open spec fn wf(self) -> bool {
        match self {
            UdpEvent::Tag(t) => t.wf(),
            _ => true,
        }
    }
}

/// Whether button `n` is set in a button bitmap.
pub open spec fn button_set(bits: u64, n: u8) -> bool {
    bits & (1u64 << n) != 0
}

/// The big-endian bytes of the low `n` bytes of a button bitmap.
pub open spec fn bitmap_bytes(bits: u64, n: nat) -> Seq<u8> {
    Seq::new(n, |i: int| (bits >> (((n - 1 - i) * 8) as u64)) as u8)
}

/// A fixed-size set of joystick buttons: a count and one bit per button.
#[derive(Debug, Clone, Copy, PartialEq, Eq, Hash)]
pub struct Buttons {
    count: u8,
    inner: u64,
}

impl Buttons {
    /// The number of buttons.
    pub closed spec fn spec_count(self) -> u8 {
        self.count
    }

    /// The packed button bits, button `n` at bit `n`.
    pub closed spec fn spec_bits(self) -> u64 {
        self.inner
    }

    /// The count fits the 64-bit backing store.
    pub open spec fn wf(self) -> bool {
        self.spec_count() <= 64
    }

    /// The byte length of the packed bitmap.
    pub open spec fn spec_bitmap_len(self) -> nat {
        ((self.spec_count() + 7) / 8) as nat
    }

    /// The packed bitmap: the low bytes of the bit store, most significant
    /// first.
    pub open spec fn spec_bytes(self) -> Seq<u8> {
        bitmap_bytes(self.spec_bits(), self.spec_bitmap_len())
    }

    pub fn new(count: u8) -> (r: Buttons)
        requires
            count <= 64,
        ensures
            r.spec_count() == count,
            r.spec_bits() == 0,
            r.wf(),
    {
        Buttons { count, inner: 0 }
    }

    pub fn len(&self) -> (r: u8)
        ensures
            r == self.spec_count(),
    {
        self.count
    }

    /// Sets the `n`th button to the given `state`, leaving every other
    /// button alone.
    pub fn set_button(&mut self, n: u8, state: bool)
        requires
            n < old(self).spec_count(),
            old(self).wf(),
        ensures
            final(self).spec_count() == old(self).spec_count(),
            final(self).spec_bits() == (if state {
                old(self).spec_bits() | (1u64 << n)
            } else {
                old(self).spec_bits() & !(1u64 << n)
            }),
            button_set(final(self).spec_bits(), n) == state,
            forall|k: u8|
                k < 64 && k != n ==> button_set(final(self).spec_bits(), k) == button_set(
                    old(self).spec_bits(),
                    k,
                ),
    {
        let ghost b = self.inner;
        if state {
            self.inner |= 1 << n;
        } else {
            self.inner &= !(1 << n);
        }
        proof {
            assert(n < 64 ==> {
                &&& (b | (1u64 << n)) & (1u64 << n) != 0
                &&& (b & !(1u64 << n)) & (1u64 << n) == 0
                &&& forall|k: u8|
                    k < 64 && k != n ==> (b | (1u64 << n)) & (1u64 << k) == b & (1u64 << k)
                &&& forall|k: u8|
                    k < 64 && k != n ==> (b & !(1u64 << n)) & (1u64 << k) == b & (1u64 << k)
            }) by (bit_vector);
        }
    }

    /// Appends the packed bitmap.
    pub fn write_bytes(&self, out: &mut Vec<u8>)
        requires
            self.wf(),
        ensures
            final(out)@ == old(out)@ + self.spec_bytes(),
    {
        let ghost out0 = out@;
        let total: u8 = (self.count + 7) / 8;
        let mut j: u8 = 0;
        while j < total
            invariant
                j <= total,
                total == self.spec_bitmap_len(),
                self.wf(),
                out@ == out0 + self.spec_bytes().take(j as int),
            decreases total - j,
        {
            let shift: u64 = ((total - 1 - j) as u64) * 8;
            out.push(#[verifier::truncate] ((self.inner >> shift) as u8));
            proof {
                assert(out@ =~= out0 + self.spec_bytes().take(j as int + 1));
            }
            j += 1;
        }
        proof {
            assert(self.spec_bytes().take(total as int) =~= self.spec_bytes());
        }
    }
}

/// The bytes of a list of signed axis values, reinterpreted bytewise.
pub open spec fn axes_bytes(s: Seq<i8>) -> Seq<u8> {
    Seq::new(s.len(), |i: int| s[i] as u8)
}

/// The big-endian byte pairs of a list of POV hat values.
pub open spec fn povs_bytes(s: Seq<i16>) -> Seq<u8> {
    Seq::new(
        2 * s.len(),
        |i: int|
            if i % 2 == 0 {
                u16_hi(s[i / 2] as u16)
            } else {
                u16_lo(s[i / 2] as u16)
            },
    )
}

/// A tag appended to the outbound control datagram, written as a one-byte
/// length, a one-byte identifier, then the payload; the length byte counts
/// the payload and the identifier.
#[derive(Debug, Clone)]
pub enum Tag {
    /// Seconds remaining in the current period, as the big-endian bit
    /// pattern of an IEEE-754 single-precision value.
    Countdown(u32),
    Joystick { axes: Vec<i8>, buttons: Buttons, povs: Vec<i16> },
    Date {
        microseconds: u32,
        second: u8,
        minute: u8,
        hour: u8,
        day: u8,
        /// The month with `0` representing January.
        month: u8,
        /// The year with `0` representing 1900.
        year: u8,
    },
    /// Time-zone name, sent as its raw null-terminated bytes.
    Timezone(Vec<u8>),
}

impl Tag {
    /// The wire identifier of this tag.
    pub open spec fn spec_id(self) -> u8 {
        match self {
            Tag::Countdown(_) => 0x07,
            Tag::Joystick { .. } => 0x0c,
            Tag::Date { .. } => 0x0f,
            Tag::Timezone(_) => 0x10,
        }
    }

    /// The tag payload: everything after the length and identifier bytes.
    pub open spec fn spec_payload(self) -> Seq<u8> {
        match self {
            Tag::Countdown(bits) => u32_be(bits),
            Tag::Joystick { axes, buttons, povs } => seq![axes@.len() as u8] + axes_bytes(axes@)
                + seq![buttons.spec_count()] + buttons.spec_bytes() + seq![povs@.len() as u8]
                + povs_bytes(povs@),
            Tag::Date { microseconds, second, minute, hour, day, month, year } => u32_be(
                microseconds,
            ) + seq![second, minute, hour, day, month, year],
            Tag::Timezone(tz) => tz@,
        }
    }

    /// The payload and the identifier together fit the one-byte length.
    pub open spec fn wf(self) -> bool {
        &&& self.spec_payload().len() <= 254
        &&& match self {
            Tag::Joystick { buttons, .. } => buttons.wf(),
            _ => true,
        }
    }

    /// The full encoding: length byte, identifier byte, payload.
    pub open spec fn spec_bytes(self) -> Seq<u8> {
        seq![(self.spec_payload().len() + 1) as u8, self.spec_id()] + self.spec_payload()
    }

    /// Whether this tag fits its one-byte length prefix; only such a tag
    /// can be encoded.
    pub fn fits(&self) -> (r: bool)
        ensures
            r == self.wf(),
    {
        match self {
            Tag::Countdown(_) => true,
            Tag::Date { .. } => true,
            Tag::Joystick { axes, buttons, povs } => {
                if axes.len() > 254 || povs.len() > 127 || buttons.len() > 64 {
                    false
                } else {
                    3 + axes.len() + (((buttons.len() as usize) + 7) / 8) + 2 * povs.len() <= 254
                }
            },
            Tag::Timezone(tz) => tz.len() <= 254,
        }
    }

    fn id(&self) -> (r: u8)
        ensures
            r == self.spec_id(),
    {
        match self {
            Tag::Countdown(_) => 0x07,
            Tag::Joystick { .. } => 0x0c,
            Tag::Date { .. } => 0x0f,
            Tag::Timezone(_) => 0x10,
        }
    }

    /// Appends the payload bytes alone.
    fn write_payload(&self, out: &mut Vec<u8>)
        requires
            self.wf(),
        ensures
            final(out)@ == old(out)@ + self.spec_payload(),
    {
        let ghost out0 = out@;
        match self {
            Tag::Countdown(bits) => {
                crate::wire::push_u32_be(out, *bits);
            },
            Tag::Joystick { axes, buttons, povs } => {
                out.push(#[verifier::truncate] (axes.len() as u8));
                let ghost base = out@;
                let mut i: usize = 0;
                while i < axes.len()
                    invariant
                        i <= axes.len(),
                        out@ == base + axes_bytes(axes@).take(i as int),
                    decreases axes.len() - i,
                {
                    out.push(#[verifier::truncate] (axes[i] as u8));
                    proof {
                        assert(out@ =~= base + axes_bytes(axes@).take(i as int + 1));
                    }
                    i += 1;
                }
                proof {
                    assert(axes_bytes(axes@).take(axes@.len() as int) =~= axes_bytes(axes@));
                }
                out.push(buttons.len());
                buttons.write_bytes(out);
                out.push(#[verifier::truncate] (povs.len() as u8));
                let ghost base2 = out@;
                let mut i: usize = 0;
                while i < povs.len()
                    invariant
                        i <= povs.len(),
                        out@ == base2 + povs_bytes(povs@).take(2 * i as int),
                    decreases povs.len() - i,
                {
                    crate::wire::push_u16_be(out, #[verifier::truncate] (povs[i] as u16));
                    proof {
                        assert(out@ =~= base2 + povs_bytes(povs@).take(2 * (i as int + 1)));
                    }
                    i += 1;
                }
                proof {
                    assert(povs_bytes(povs@).take(2 * povs@.len() as int) =~= povs_bytes(povs@));
                    assert(out@ =~= out0 + self.spec_payload());
                }
            },
            Tag::Date { microseconds, second, minute, hour, day, month, year } => {
                crate::wire::push_u32_be(out, *microseconds);
                out.push(*second);
                out.push(*minute);
                out.push(*hour);
                out.push(*day);
                out.push(*month);
                out.push(*year);
                proof {
                    assert(out@ =~= out0 + self.spec_payload());
                }
            },
            Tag::Timezone(tz) => {
                let mut copied = tz.clone();
                out.append(&mut copied);
            },
        }
        proof {
            assert(out@ =~= out0 + self.spec_payload());
        }
    }

    /// Appends the tag: its computed length byte, its identifier, then the
    /// payload. The length byte equals the payload byte count plus one for
    /// the identifier.
    pub fn write_bytes(&self, out: &mut Vec<u8>)
        requires
            self.wf(),
        ensures
            final(out)@ == old(out)@ + self.spec_bytes(),
    {
        let mut payload: Vec<u8> = Vec::new();
        self.write_payload(&mut payload);
        out.push((payload.len() as u8) + 1);
        out.push(self.id());
        out.append(&mut payload);
        proof {
            assert(out@ =~= old(out)@ + self.spec_bytes());
        }
    }
}

/// The concatenated encodings of a list of tags.
pub open spec fn tags_bytes(tags: Seq<Tag>) -> Seq<u8>
    decreases tags.len(),
{
    if tags.len() == 0 {
        seq![]
    } else {
        tags[0].spec_bytes() + tags_bytes(tags.drop_first())
    }
}

/// Encoding one more tag of a list appends that tag's bytes.
pub proof fn lemma_tags_bytes_take_step(tags: Seq<Tag>, i: int)
    requires
        0 <= i < tags.len(),
    ensures
        tags_bytes(tags.take(i + 1)) == tags_bytes(tags.take(i)) + tags[i].spec_bytes(),
    decreases i,
{
    if i == 0 {
        assert(tags.take(1).drop_first() =~= Seq::<Tag>::empty());
        assert(tags.take(0) =~= Seq::<Tag>::empty());
        assert(tags_bytes(tags.take(1)) =~= tags_bytes(tags.take(0)) + tags[0].spec_bytes());
    } else {
        let t2 = tags.drop_first();
        lemma_tags_bytes_take_step(t2, i - 1);
        assert(tags.take(i + 1).drop_first() =~= t2.take(i));
        assert(tags.take(i).drop_first() =~= t2.take(i - 1));
        assert(tags.take(i + 1)[0] == tags[0]);
        assert(tags.take(i)[0] == tags[0]);
        assert(tags[0].spec_bytes() + (tags_bytes(t2.take(i - 1)) + t2[i - 1].spec_bytes()) =~= (
        tags[0].spec_bytes() + tags_bytes(t2.take(i - 1))) + t2[i - 1].spec_bytes());
    }
}

/// Every tag of a list fits its one-byte length prefix.
pub open spec fn tags_wf(tags: Seq<Tag>) -> bool {
    forall|i: int| 0 <= i < tags.len() ==> tags[i].wf()
}

/// The mathematical value of an outbound control datagram.
pub struct PacketView {
    pub sequence: u16,
    pub version: u8,
    pub ctrl: u8,
    pub req: u8,
    pub alliance: Alliance,
    pub tags: Seq<Tag>,
}

/// The full encoding of an outbound control datagram: the six header bytes
/// in wire order, then each tag.
pub open spec fn packet_bytes(v: PacketView) -> Seq<u8> {
    seq![
        u16_hi(v.sequence),
        u16_lo(v.sequence),
        v.version,
        v.ctrl,
        v.req,
        v.alliance.spec_byte(),
    ] + tags_bytes(v.tags)
}

/// The first two wire bytes of an encoded datagram read back as exactly its
/// sequence number, so the numbers seen on the wire are the loop's counter
/// values.
pub proof fn lemma_packet_wire_sequence(v: PacketView)
    ensures
        u16_of_be(packet_bytes(v)[0], packet_bytes(v)[1]) == v.sequence,
{
    crate::wire::lemma_u16_be_roundtrip(v.sequence, 0, 0);
}

/// An outbound UDP control datagram under construction.
pub struct Packet {
    sequence: u16,
    version: u8,
    ctrl: Control,
    req: Request,
    alliance: Alliance,
    tags: Vec<Tag>,
}

impl View for Packet {
    type V = PacketView;

    closed spec fn view(&self) -> PacketView {
        PacketView {
            sequence: self.sequence,
            version: self.version,
            ctrl: self.ctrl.spec_byte(),
            req: self.req.spec_byte(),
            alliance: self.alliance,
            tags: self.tags@,
        }
    }
}

impl Packet {
    /// Every queued tag fits its one-byte length prefix.
    pub open spec fn wf(self) -> bool {
        tags_wf(self@.tags)
    }

    pub fn with_sequence(self, sequence: u16) -> (r: Self)
        ensures
            r@ == (PacketView { sequence, ..self@ }),
            r.wf() == self.wf(),
    {
        let mut r = self;
        r.sequence = sequence;
        r
    }

    pub fn with_enabled(self, enabled: bool) -> (r: Self)
        ensures
            r@ == (PacketView {
                ctrl: if enabled {
                    self@.ctrl | 0x04
                } else {
                    self@.ctrl & !0x04
                },
                ..self@
            }),
            ctrl_enabled(r@.ctrl) == enabled,
            ctrl_mode_bits(r@.ctrl) == ctrl_mode_bits(self@.ctrl),
            ctrl_fms_connected(r@.ctrl) == ctrl_fms_connected(self@.ctrl),
            ctrl_estopped(r@.ctrl) == ctrl_estopped(self@.ctrl),
            r.wf() == self.wf(),
    {
        let mut r = self;
        r.ctrl.set_enabled(enabled);
        r
    }

    pub fn with_estopped(self, estopped: bool) -> (r: Self)
        ensures
            r@ == (PacketView {
                ctrl: if estopped {
                    self@.ctrl | 0x80
                } else {
                    self@.ctrl & !0x80
                },
                ..self@
            }),
            ctrl_estopped(r@.ctrl) == estopped,
            ctrl_mode_bits(r@.ctrl) == ctrl_mode_bits(self@.ctrl),
            ctrl_enabled(r@.ctrl) == ctrl_enabled(self@.ctrl),
            ctrl_fms_connected(r@.ctrl) == ctrl_fms_connected(self@.ctrl),
            r.wf() == self.wf(),
    {
        let mut r = self;
        r.ctrl.set_estopped(estopped);
        r
    }

    pub fn with_fms_connected(self, fms_connected: bool) -> (r: Self)
        ensures
            r@ == (PacketView {
                ctrl: if fms_connected {
                    self@.ctrl | 0x08
                } else {
                    self@.ctrl & !0x08
                },
                ..self@
            }),
            ctrl_fms_connected(r@.ctrl) == fms_connected,
            ctrl_mode_bits(r@.ctrl) == ctrl_mode_bits(self@.ctrl),
            ctrl_enabled(r@.ctrl) == ctrl_enabled(self@.ctrl),
            ctrl_estopped(r@.ctrl) == ctrl_estopped(self@.ctrl),
            r.wf() == self.wf(),
    {
        let mut r = self;
        r.ctrl.set_fms_connected(fms_connected);
        r
    }

    pub fn with_mode(self, mode: Mode) -> (r: Self)
        ensures
            r@ == (PacketView { ctrl: (self@.ctrl & !0x03) | mode.spec_bits(), ..self@ }),
            ctrl_mode_bits(r@.ctrl) == mode.spec_bits(),
            ctrl_enabled(r@.ctrl) == ctrl_enabled(self@.ctrl),
            ctrl_fms_connected(r@.ctrl) == ctrl_fms_connected(self@.ctrl),
            ctrl_estopped(r@.ctrl) == ctrl_estopped(self@.ctrl),
            r.wf() == self.wf(),
    {
        let mut r = self;
        r.ctrl.set_mode(mode);
        r
    }

    pub fn with_reboot_roborio(self, reboot_roborio: bool) -> (r: Self)
        ensures
            r@ == (PacketView {
                req: if reboot_roborio {
                    self@.req | 0x08
                } else {
                    self@.req & !0x08
                },
                ..self@
            }),
            req_reboot_roborio(r@.req) == reboot_roborio,
            req_restart_code(r@.req) == req_restart_code(self@.req),
            req_ds_connected(r@.req) == req_ds_connected(self@.req),
            r.wf() == self.wf(),
    {
        let mut r = self;
        r.req.set_reboot_roborio(reboot_roborio);
        r
    }

    pub fn with_restart_code(self, restart_code: bool) -> (r: Self)
        ensures
            r@ == (PacketView {
                req: if restart_code {
                    self@.req | 0x04
                } else {
                    self@.req & !0x04
                },
                ..self@
            }),
            req_restart_code(r@.req) == restart_code,
            req_reboot_roborio(r@.req) == req_reboot_roborio(self@.req),
            req_ds_connected(r@.req) == req_ds_connected(self@.req),
            r.wf() == self.wf(),
    {
        let mut r = self;
        r.req.set_restart_code(restart_code);
        r
    }

    pub fn with_ds_connected(self, ds_connected: bool) -> (r: Self)
        ensures
            r@ == (PacketView {
                req: if ds_connected {
                    self@.req | 0x10
                } else {
                    self@.req & !0x10
                },
                ..self@
            }),
            req_ds_connected(r@.req) == ds_connected,
            req_reboot_roborio(r@.req) == req_reboot_roborio(self@.req),
            req_restart_code(r@.req) == req_restart_code(self@.req),
            r.wf() == self.wf(),
    {
        let mut r = self;
        r.req.set_ds_connected(ds_connected);
        r
    }

    pub fn with_alliance(self, alliance: Alliance) -> (r: Self)
        ensures
            r@ == (PacketView { alliance, ..self@ }),
            r.wf() == self.wf(),
    {
        let mut r = self;
        r.alliance = alliance;
        r
    }

    pub fn with_tag(self, tag: Tag) -> (r: Self)
        ensures
            r@ == (PacketView { tags: self@.tags.push(tag), ..self@ }),
            self.wf() && tag.wf() ==> r.wf(),
    {
        let mut r = self;
        r.tags.push(tag);
        r
    }

    pub fn with_tags(self, tags: Vec<Tag>) -> (r: Self)
        ensures
            r@ == (PacketView { tags: tags@, ..self@ }),
            tags_wf(tags@) ==> r.wf(),
    {
        let mut r = self;
        r.tags = tags;
        r
    }

    pub fn extend_tags(self, tags: Vec<Tag>) -> (r: Self)
        ensures
            r@ == (PacketView { tags: self@.tags + tags@, ..self@ }),
            self.wf() && tags_wf(tags@) ==> r.wf(),
    {
        let mut r = self;
        let mut moved = tags;
        r.tags.append(&mut moved);
        r
    }

    /// Appends the datagram: sequence, version, control, request and
    /// alliance bytes in wire order, then each queued tag.
    pub fn write_bytes(&self, out: &mut Vec<u8>)
        requires
            self.wf(),
        ensures
            final(out)@ == old(out)@ + packet_bytes(self@),
    {
        let ghost out0 = out@;
        crate::wire::push_u16_be(out, self.sequence);
        out.push(self.version);
        self.ctrl.write_bytes(out);
        self.req.write_bytes(out);
        self.alliance.write_bytes(out);
        let ghost base = out@;
        let n = self.tags.len();
        let mut i: usize = 0;
        while i < n
            invariant
                i <= n,
                n == self.tags@.len(),
                tags_wf(self.tags@),
                out@ == base + tags_bytes(self.tags@.take(i as int)),
            decreases n - i,
        {
            proof {
                assert(tags_bytes(self.tags@.take(0)) =~= Seq::<u8>::empty());
                lemma_tags_bytes_take_step(self.tags@, i as int);
            }
            self.tags[i].write_bytes(out);
            i += 1;
        }
        proof {
            assert(self.tags@.take(n as int) =~= self.tags@);
            assert(tags_bytes(self.tags@.take(0)) =~= Seq::<u8>::empty());
            assert(out@ =~= out0 + packet_bytes(self@));
        }
    }
}

impl Default for Packet {
    /// A datagram with sequence zero, the protocol version byte, all-clear
    /// control, the default request byte, the first red alliance station and
    /// no tags.
    fn default() -> (r: Self)
        ensures
            r@ == (PacketView {
                sequence: 0,
                version: 0x01,
                ctrl: 0,
                req: 0x10,
                alliance: Alliance::Red1,
                tags: Seq::<Tag>::empty(),
            }),
            r.wf(),
    {
        Packet {
            sequence: 0,
            version: 0x01,
            ctrl: Control::default(),
            req: Request::default(),
            alliance: Alliance::Red1,
            tags: Vec::new(),
        }
    }
}

} // verus!
