//! Driver-station side of the FRC robot control protocol: wire codecs for the
//! UDP heartbeat and TCP configuration streams, the usage-report entry grammar,
//! and the state machines that drive both connection loops.

pub mod recv;
pub mod send;
pub mod wire;

use vstd::prelude::*;

verus! {

/// Robot operating mode, as carried in the low two bits of the control byte.
#[derive(Debug, Clone, Copy, PartialEq, Eq, Hash, Structural)]
pub enum Mode {
    Teleoperated,
    Autonomous,
    Test,
}

impl Mode {
    /// The two-bit wire encoding of this mode.
    pub open spec fn spec_bits(self) -> u8 {
        match self {
            Mode::Teleoperated => 0x00,
            Mode::Autonomous => 0x02,
            Mode::Test => 0x01,
        }
    }

    /// The mode decoded from a two-bit pattern; anything but the teleoperated
    /// and autonomous codes reads as test mode.
    pub open spec fn spec_from_bits(value: u8) -> Mode {
        if value == 0x00 {
            Mode::Teleoperated
        } else if value == 0x02 {
            Mode::Autonomous
        } else {
            Mode::Test
        }
    }

    pub fn into_bits(self) -> (r: u8)
        ensures
            r == self.spec_bits(),
    {
        match self {
            Mode::Teleoperated => 0x00,
            Mode::Autonomous => 0x02,
            Mode::Test => 0x01,
        }
    }

    pub fn from_bits(value: u8) -> (r: Self)
        ensures
            r == Mode::spec_from_bits(value),
    {
        match value {
            0x00 => Mode::Teleoperated,
            0x02 => Mode::Autonomous,
            _ => Mode::Test,
        }
    }
}

/// The mode bits round-trip: decoding an encoded mode yields the mode again.
pub proof fn lemma_mode_bits_roundtrip(m: Mode)
    ensures
        Mode::spec_from_bits(m.spec_bits()) == m,
{
}

/// Alliance station: one of six fixed slots identifying a team's field
/// position, encoded on the wire as its ordinal.
#[derive(Debug, Clone, Copy, PartialEq, Eq, Hash, Structural)]
pub enum Alliance {
    Red1,
    Red2,
    Red3,
    Blue1,
    Blue2,
    Blue3,
}

impl Alliance {
    /// The single wire byte for this alliance station: `Red1..Blue3` map to
    /// `0..5` in order.
    pub open spec fn spec_byte(self) -> u8 {
        match self {
            Alliance::Red1 => 0,
            Alliance::Red2 => 1,
            Alliance::Red3 => 2,
            Alliance::Blue1 => 3,
            Alliance::Blue2 => 4,
            Alliance::Blue3 => 5,
        }
    }

    /// Appends the alliance-station byte.
    pub fn write_bytes(&self, out: &mut Vec<u8>)
        ensures
            final(out)@ == old(out)@.push(self.spec_byte()),
    {
        let byte: u8 = match self {
            Alliance::Red1 => 0,
            Alliance::Red2 => 1,
            Alliance::Red3 => 2,
            Alliance::Blue1 => 3,
            Alliance::Blue2 => 4,
            Alliance::Blue3 => 5,
        };
        out.push(byte);
    }
}

/// Up to three bytes of game-specific data, stored as a prefix of present
/// characters: no character is present after an absent one.
#[derive(Debug, Clone, Copy, PartialEq, Eq, Hash)]
pub struct GameData {
    chars: [Option<u8>; 3],
}

impl GameData {
    /// Present characters form a prefix: nothing follows an absent slot.
    pub closed spec fn wf(self) -> bool {
        &&& self.chars[1] is Some ==> self.chars[0] is Some
        &&& self.chars[2] is Some ==> self.chars[1] is Some
    }

    /// The number of leading present characters.
    pub closed spec fn spec_len(self) -> u8 {
        if self.chars[0] is None {
            0
        } else if self.chars[1] is None {
            1
        } else if self.chars[2] is None {
            2
        } else {
            3
        }
    }

    /// The encoded form: the present prefix, nothing else.
    pub closed spec fn spec_bytes(self) -> Seq<u8> {
        if self.chars[0] is None {
            seq![]
        } else if self.chars[1] is None {
            seq![self.chars[0]->0]
        } else if self.chars[2] is None {
            seq![self.chars[0]->0, self.chars[1]->0]
        } else {
            seq![self.chars[0]->0, self.chars[1]->0, self.chars[2]->0]
        }
    }

    pub fn empty() -> (r: Self)
        ensures
            r.wf(),
            r.spec_len() == 0,
            r.spec_bytes() == Seq::<u8>::empty(),
    {
        let r = GameData { chars: [None, None, None] };
        proof {
            assert(r.spec_bytes() =~= Seq::<u8>::empty());
        }
        r
    }

    pub fn single(character: u8) -> (r: Self)
        ensures
            r.wf(),
            r.spec_len() == 1,
            r.spec_bytes() == seq![character],
    {
        GameData { chars: [Some(character), None, None] }
    }

    pub fn double(first: u8, second: u8) -> (r: Self)
        ensures
            r.wf(),
            r.spec_len() == 2,
            r.spec_bytes() == seq![first, second],
    {
        GameData { chars: [Some(first), Some(second), None] }
    }

    pub fn triple(first: u8, second: u8, third: u8) -> (r: Self)
        ensures
            r.wf(),
            r.spec_len() == 3,
            r.spec_bytes() == seq![first, second, third],
    {
        GameData { chars: [Some(first), Some(second), Some(third)] }
    }

    /// The count of leading present characters, which is also the byte length
    /// of the encoding.
    pub fn len(&self) -> (r: u8)
        ensures
            r == self.spec_len(),
            self.wf() ==> r == self.spec_bytes().len(),
    {
        if self.chars[0].is_none() {
            0
        } else if self.chars[1].is_none() {
            1
        } else if self.chars[2].is_none() {
            2
        } else {
            3
        }
    }

    /// Appends the present prefix of characters.
    pub fn write_bytes(&self, out: &mut Vec<u8>)
        ensures
            final(out)@ == old(out)@ + self.spec_bytes(),
    {
        if let Some(first) = self.chars[0] {
            out.push(first);
            if let Some(second) = self.chars[1] {
                out.push(second);
                if let Some(third) = self.chars[2] {
                    out.push(third);
                }
            }
        }
        proof {
            assert(out@ =~= old(out)@ + self.spec_bytes());
        }
    }

    /// The value decoded from a byte string: up to the first three bytes.
    pub closed spec fn spec_from_bytes(bytes: Seq<u8>) -> GameData {
        if bytes.len() == 0 {
            GameData { chars: [None, None, None] }
        } else if bytes.len() == 1 {
            GameData { chars: [Some(bytes[0]), None, None] }
        } else if bytes.len() == 2 {
            GameData { chars: [Some(bytes[0]), Some(bytes[1]), None] }
        } else {
            GameData { chars: [Some(bytes[0]), Some(bytes[1]), Some(bytes[2])] }
        }
    }

    /// Decodes up to three characters from the front of `bytes`.
    pub fn from_bytes(bytes: &[u8]) -> (r: Self)
        ensures
            r == Self::spec_from_bytes(bytes@),
            r.wf(),
    {
        if bytes.len() == 0 {
            GameData { chars: [None, None, None] }
        } else if bytes.len() == 1 {
            GameData { chars: [Some(bytes[0]), None, None] }
        } else if bytes.len() == 2 {
            GameData { chars: [Some(bytes[0]), Some(bytes[1]), None] }
        } else {
            GameData { chars: [Some(bytes[0]), Some(bytes[1]), Some(bytes[2])] }
        }
    }

}

impl Default for GameData {
    /// Game data with no characters present.
    fn default() -> (r: Self)
        ensures
            r.wf(),
            r.spec_len() == 0,
    {
        GameData { chars: [None, None, None] }
    }
}

/// Encoding game data and decoding the result yields the original value, for
/// every well-formed value.
pub proof fn lemma_game_data_roundtrip(gd: GameData)
    requires
        gd.wf(),
    ensures
        GameData::spec_from_bytes(gd.spec_bytes()) == gd,
{
    broadcast use vstd::array::group_array_axioms;

    let r = GameData::spec_from_bytes(gd.spec_bytes());
    assert(r.chars =~= gd.chars);
}

/// Constructs the RoboRIO IP address from the given team number.
pub fn ip_from_team(team: u16) -> (r: [u8; 4])
    ensures
        r@ == seq![10u8, (team / 100) as u8, (team % 100) as u8, 2u8],
{
    let r = [10u8, #[verifier::truncate] ((team / 100) as u8), (team % 100) as u8, 2u8];
    proof {
        assert(r@ =~= seq![10u8, (team / 100) as u8, (team % 100) as u8, 2u8]);
    }
    r
}

} // verus!

verus! {

use crate::recv::udp::{
    status_enabled, status_estopped, status_mode_bits, trace_robot_code, Battery, CodeStatus,
    UdpResponse,
};
use crate::send::tcp::{JoystickView, MatchInfoView, TcpEvent};
use crate::send::udp::{
    ctrl_enabled, ctrl_estopped, ctrl_fms_connected, ctrl_mode_bits, req_ds_connected,
    req_reboot_roborio, req_restart_code, tags_wf, UdpEvent,
};
use crate::wire::{u16_hi, u16_lo, u16_of_be};

/// The liveness window: a response this recent keeps the link connected.
pub const LIVENESS_TIMEOUT_MS: u64 = 500;

/// The shared observable state of the link. A single writer, the UDP loop,
/// updates every response-derived field together; readers take a consistent
/// snapshot.
#[derive(Debug, Clone, Copy, PartialEq)]
pub struct State {
    pub connected: bool,
    pub team: u16,
    pub estopped: bool,
    pub enabled: bool,
    pub alliance: Alliance,
    pub mode: Mode,
    pub game_data: GameData,
    pub code: CodeStatus,
    pub battery: Battery,
}

impl State {
    /// The state at construction: disconnected, disabled, everything at its
    /// default, the code reported as initializing.
    pub fn new(team_number: u16) -> (r: State)
        ensures
            !r.connected,
            r.team == team_number,
            !r.estopped,
            !r.enabled,
            r.alliance == Alliance::Red1,
            r.mode == Mode::Teleoperated,
            r.game_data.wf() && r.game_data.spec_len() == 0,
            r.code == CodeStatus::Initializing,
            r.battery.spec_bits() == 0,
    {
        proof {
            assert(u16_of_be(0, 0) == 0) by (bit_vector);
        }
        State {
            connected: false,
            team: team_number,
            estopped: false,
            enabled: false,
            alliance: Alliance::Red1,
            mode: Mode::Teleoperated,
            game_data: GameData::default(),
            code: CodeStatus::Initializing,
            battery: Battery::from_bits([0, 0]),
        }
    }

    /// Ingests one decoded response: the link counts as connected and every
    /// response-derived field updates together, from that response alone.
    pub fn apply_response(&mut self, resp: &UdpResponse)
        ensures
            final(self).connected,
            final(self).enabled == status_enabled(resp.status.spec_bits()),
            final(self).estopped == status_estopped(resp.status.spec_bits()),
            final(self).mode == Mode::spec_from_bits(status_mode_bits(resp.status.spec_bits())),
            final(self).code == trace_robot_code(resp.trace.spec_bits()),
            final(self).battery == resp.battery,
            final(self).team == old(self).team,
            final(self).alliance == old(self).alliance,
            final(self).game_data == old(self).game_data,
    {
        self.connected = true;
        self.enabled = resp.status.enabled();
        self.estopped = resp.status.estopped();
        self.mode = resp.status.mode();
        self.code = resp.trace.robot_code();
        self.battery = resp.battery;
    }

    /// Notes the loss of the link; nothing else changes.
    pub fn set_disconnected(&mut self)
        ensures
            *final(self) == (State { connected: false, ..*old(self) }),
    {
        self.connected = false;
    }
}

/// Whether the link still counts as connected at `now_ms`, given the time of
/// the last successful response: true exactly when no more than the liveness
/// window has passed.
pub fn connection_alive(now_ms: u64, last_response_ms: u64) -> (r: bool)
    requires
        last_response_ms <= now_ms,
    ensures
        r == (now_ms - last_response_ms <= LIVENESS_TIMEOUT_MS),
{
    now_ms - last_response_ms <= LIVENESS_TIMEOUT_MS
}

/// The sequence number following `s`, wrapping modulo two to the sixteenth.
pub open spec fn next_sequence(s: u16) -> u16 {
    if s == 0xffff {
        0
    } else {
        (s + 1) as u16
    }
}

/// The sequence number emitted `k` heartbeats after one that carried
/// `start`.
pub open spec fn sequence_at(start: u16, k: nat) -> u16
    decreases k,
{
    if k == 0 {
        start
    } else {
        next_sequence(sequence_at(start, (k - 1) as nat))
    }
}

/// Heartbeat sequence numbers are strictly monotone modulo two to the
/// sixteenth: each heartbeat's number is its predecessor's successor in the
/// wrapping order, and never repeats its predecessor.
pub proof fn lemma_sequence_strictly_monotone(start: u16, k: nat)
    ensures
        sequence_at(start, k + 1) == next_sequence(sequence_at(start, k)),
        sequence_at(start, k + 1) != sequence_at(start, k),
{
}

/// What the UDP loop must do after applying a command event.
#[derive(Debug, Clone, Copy, PartialEq, Eq, Structural)]
pub enum UdpStep {
    /// Keep ticking.
    Continue,
    /// The team address changed: rebind the sockets.
    Rebind,
    /// Stop the loop.
    Exit,
}

/// The mathematical value of the UDP loop's mutable state.
pub struct UdpLoopView {
    pub sequence: u16,
    pub enabled: bool,
    pub estopped: bool,
    pub fms_connected: bool,
    pub alliance: Alliance,
    pub mode: Mode,
    pub restarting_code: bool,
    pub rebooting_roborio: bool,
    pub tags: Seq<crate::send::udp::Tag>,
    pub team: u16,
}

/// The UDP loop's own state: the outbound values it sends each heartbeat,
/// the one-shot request latches, the queued tags and the sequence counter.
pub struct UdpLoopState {
    pub sequence: u16,
    pub enabled: bool,
    pub estopped: bool,
    pub fms_connected: bool,
    pub alliance: Alliance,
    pub mode: Mode,
    pub restarting_code: bool,
    pub rebooting_roborio: bool,
    pub tags: Vec<crate::send::udp::Tag>,
    pub team: u16,
}

impl View for UdpLoopState {
    type V = UdpLoopView;

    open spec fn view(&self) -> UdpLoopView {
        UdpLoopView {
            sequence: self.sequence,
            enabled: self.enabled,
            estopped: self.estopped,
            fms_connected: self.fms_connected,
            alliance: self.alliance,
            mode: self.mode,
            restarting_code: self.restarting_code,
            rebooting_roborio: self.rebooting_roborio,
            tags: self.tags@,
            team: self.team,
        }
    }
}

impl UdpLoopState {
    /// Every queued tag fits its one-byte length prefix.
    pub open spec fn wf(self) -> bool {
        tags_wf(self@.tags)
    }

    /// The loop state at construction: sequence one, everything off, no
    /// latches, no tags.
    pub fn new(team: u16) -> (r: Self)
        ensures
            r@ == (UdpLoopView {
                sequence: 1,
                enabled: false,
                estopped: false,
                fms_connected: false,
                alliance: Alliance::Red1,
                mode: Mode::Teleoperated,
                restarting_code: false,
                rebooting_roborio: false,
                tags: Seq::<crate::send::udp::Tag>::empty(),
                team,
            }),
            r.wf(),
    {
        let r = UdpLoopState {
            sequence: 1,
            enabled: false,
            estopped: false,
            fms_connected: false,
            alliance: Alliance::Red1,
            mode: Mode::Teleoperated,
            restarting_code: false,
            rebooting_roborio: false,
            tags: Vec::new(),
            team,
        };
        proof {
            assert(r@.tags =~= Seq::<crate::send::udp::Tag>::empty());
        }
        r
    }

    /// Applies one command event in arrival order: setters overwrite their
    /// field, one-shot requests latch, a tag joins the queue, and a team
    /// change or an exit tells the loop what to do next.
    pub fn apply_event(&mut self, ev: UdpEvent) -> (r: UdpStep)
        requires
            old(self).wf(),
            ev.wf(),
        ensures
            final(self).wf(),
            match ev {
                UdpEvent::Enabled(e) => final(self)@ == (UdpLoopView { enabled: e, ..old(self)@ })
                    && r == UdpStep::Continue,
                UdpEvent::Estopped(e) => final(self)@ == (UdpLoopView {
                    estopped: e,
                    ..old(self)@
                }) && r == UdpStep::Continue,
                UdpEvent::FmsConnected(fc) => final(self)@ == (UdpLoopView {
                    fms_connected: fc,
                    ..old(self)@
                }) && r == UdpStep::Continue,
                UdpEvent::Mode(m) => final(self)@ == (UdpLoopView { mode: m, ..old(self)@ }) && r
                    == UdpStep::Continue,
                UdpEvent::Alliance(a) => final(self)@ == (UdpLoopView {
                    alliance: a,
                    ..old(self)@
                }) && r == UdpStep::Continue,
                UdpEvent::Tag(tag) => final(self)@ == (UdpLoopView {
                    tags: old(self)@.tags.push(tag),
                    ..old(self)@
                }) && r == UdpStep::Continue,
                UdpEvent::RestartCode => final(self)@ == (UdpLoopView {
                    restarting_code: true,
                    ..old(self)@
                }) && r == UdpStep::Continue,
                UdpEvent::RebootRoborio => final(self)@ == (UdpLoopView {
                    rebooting_roborio: true,
                    ..old(self)@
                }) && r == UdpStep::Continue,
                UdpEvent::TeamNumber(num) => final(self)@ == (UdpLoopView {
                    team: num,
                    ..old(self)@
                }) && r == UdpStep::Rebind,
                UdpEvent::Exit => final(self)@ == old(self)@ && r == UdpStep::Exit,
            },
    {
        match ev {
            UdpEvent::Enabled(e) => {
                self.enabled = e;
                UdpStep::Continue
            },
            UdpEvent::Estopped(e) => {
                self.estopped = e;
                UdpStep::Continue
            },
            UdpEvent::FmsConnected(fc) => {
                self.fms_connected = fc;
                UdpStep::Continue
            },
            UdpEvent::Mode(m) => {
                self.mode = m;
                UdpStep::Continue
            },
            UdpEvent::Alliance(a) => {
                self.alliance = a;
                UdpStep::Continue
            },
            UdpEvent::Tag(tag) => {
                self.tags.push(tag);
                UdpStep::Continue
            },
            UdpEvent::RestartCode => {
                self.restarting_code = true;
                UdpStep::Continue
            },
            UdpEvent::RebootRoborio => {
                self.rebooting_roborio = true;
                UdpStep::Continue
            },
            UdpEvent::TeamNumber(num) => {
                self.team = num;
                UdpStep::Rebind
            },
            UdpEvent::Exit => UdpStep::Exit,
        }
    }

    /// Builds the next heartbeat datagram from the current state: the packet
    /// carries the current sequence number, every outbound field, the
    /// latched one-shot requests and the whole tag queue. The queue drains,
    /// both latches clear, and the sequence number advances by one in the
    /// wrapping order.
    pub fn build_packet(&mut self, ds_connected: bool) -> (r: crate::send::udp::Packet)
        requires
            old(self).wf(),
        ensures
            r@.sequence == old(self)@.sequence,
            r@.version == 0x01,
            ctrl_enabled(r@.ctrl) == old(self)@.enabled,
            ctrl_estopped(r@.ctrl) == old(self)@.estopped,
            ctrl_fms_connected(r@.ctrl) == old(self)@.fms_connected,
            ctrl_mode_bits(r@.ctrl) == old(self)@.mode.spec_bits(),
            req_ds_connected(r@.req) == ds_connected,
            req_restart_code(r@.req) == old(self)@.restarting_code,
            req_reboot_roborio(r@.req) == old(self)@.rebooting_roborio,
            r@.alliance == old(self)@.alliance,
            r@.tags == old(self)@.tags,
            r.wf(),
            final(self)@ == (UdpLoopView {
                sequence: next_sequence(old(self)@.sequence),
                restarting_code: false,
                rebooting_roborio: false,
                tags: Seq::<crate::send::udp::Tag>::empty(),
                ..old(self)@
            }),
            final(self).wf(),
    {
        let mut send_tags: Vec<crate::send::udp::Tag> = Vec::new();
        send_tags.append(&mut self.tags);
        let packet = crate::send::udp::Packet::default().with_sequence(
            self.sequence,
        ).with_ds_connected(ds_connected).with_enabled(self.enabled).with_estopped(
            self.estopped,
        ).with_alliance(self.alliance).with_fms_connected(self.fms_connected).with_mode(
            self.mode,
        ).with_reboot_roborio(self.rebooting_roborio).with_restart_code(
            self.restarting_code,
        ).with_tags(send_tags);
        self.restarting_code = false;
        self.rebooting_roborio = false;
        self.sequence = self.sequence.wrapping_add(1);
        proof {
            assert(final(self)@.tags =~= Seq::<crate::send::udp::Tag>::empty());
        }
        packet
    }
}

/// What the TCP loop must do after applying a command event.
#[derive(Debug, Clone, Copy, PartialEq, Eq, Structural)]
pub enum TcpStep {
    /// Keep ticking.
    Continue,
    /// The team address changed: reconnect.
    Reconnect,
    /// Stop the loop.
    Exit,
}

/// The mathematical value of the TCP loop's mutable state.
pub struct TcpLoopView {
    pub game_data: Option<GameData>,
    pub match_info: Option<MatchInfoView>,
    pub joysticks: Seq<JoystickView>,
}

/// The TCP loop's own state: the pending one-shot game data and match info,
/// and the queued joystick descriptors.
pub struct TcpLoopState {
    pub game_data: Option<GameData>,
    pub match_info: Option<crate::send::tcp::MatchInfo>,
    pub joysticks: Vec<crate::send::tcp::Joystick>,
}

impl View for TcpLoopState {
    type V = TcpLoopView;

    open spec fn view(&self) -> TcpLoopView {
        TcpLoopView {
            game_data: self.game_data,
            match_info: match self.match_info {
                Some(ref m) => Some(m@),
                None => None,
            },
            joysticks: self.joysticks@.map_values(|j: crate::send::tcp::Joystick| j@),
        }
    }
}

impl TcpLoopState {
    /// The pending records all fit their one-byte lengths.
    pub open spec fn wf(self) -> bool {
        &&& match self@.match_info {
            Some(m) => match m.competition {
                Some(name) => name.len() <= 252,
                None => true,
            },
            None => true,
        }
        &&& crate::send::tcp::joysticks_wf(self@.joysticks)
    }

    /// The loop state at construction: nothing pending.
    pub fn new() -> (r: Self)
        ensures
            r@ == (TcpLoopView {
                game_data: None,
                match_info: None,
                joysticks: Seq::<JoystickView>::empty(),
            }),
            r.wf(),
    {
        let r = TcpLoopState { game_data: None, match_info: None, joysticks: Vec::new() };
        proof {
            assert(r@.joysticks =~= Seq::<JoystickView>::empty());
        }
        r
    }

    /// Applies one command event in arrival order: game data and match info
    /// overwrite the pending value, a joystick joins the queue, and a team
    /// change or an exit tells the loop what to do next.
    pub fn apply_event(&mut self, ev: TcpEvent) -> (r: TcpStep)
        requires
            old(self).wf(),
            ev.wf(),
        ensures
            final(self).wf(),
            match ev {
                TcpEvent::GameData(gd) => final(self)@ == (TcpLoopView {
                    game_data: Some(gd),
                    ..old(self)@
                }) && r == TcpStep::Continue,
                TcpEvent::MatchInfo(mi) => final(self)@ == (TcpLoopView {
                    match_info: Some(mi@),
                    ..old(self)@
                }) && r == TcpStep::Continue,
                TcpEvent::Joystick(js) => final(self)@ == (TcpLoopView {
                    joysticks: old(self)@.joysticks.push(js@),
                    ..old(self)@
                }) && r == TcpStep::Continue,
                TcpEvent::TeamNumber => final(self)@ == old(self)@ && r == TcpStep::Reconnect,
                TcpEvent::Exit => final(self)@ == old(self)@ && r == TcpStep::Exit,
            },
    {
        match ev {
            TcpEvent::GameData(gd) => {
                self.game_data = Some(gd);
                TcpStep::Continue
            },
            TcpEvent::MatchInfo(mi) => {
                self.match_info = Some(mi);
                TcpStep::Continue
            },
            TcpEvent::Joystick(js) => {
                proof {
                    assert(self.joysticks@.push(js).map_values(
                        |j: crate::send::tcp::Joystick| j@,
                    ) =~= self.joysticks@.map_values(|j: crate::send::tcp::Joystick| j@).push(
                        js@,
                    ));
                }
                self.joysticks.push(js);
                TcpStep::Continue
            },
            TcpEvent::TeamNumber => TcpStep::Reconnect,
            TcpEvent::Exit => TcpStep::Exit,
        }
    }

    /// Builds the next configuration packet from everything pending. The
    /// packet carries the pending game data, match info and every queued
    /// joystick; afterwards the one-shot values are cleared and the queue is
    /// drained.
    pub fn take_packet(&mut self) -> (r: crate::send::tcp::Packet)
        requires
            old(self).wf(),
        ensures
            r@.game_data == old(self)@.game_data,
            r@.match_info == old(self)@.match_info,
            r@.joysticks == old(self)@.joysticks,
            r.wf(),
            final(self)@ == (TcpLoopView {
                game_data: None,
                match_info: None,
                joysticks: Seq::<JoystickView>::empty(),
            }),
            final(self).wf(),
    {
        let mut copied: Vec<crate::send::tcp::Joystick> = Vec::new();
        copied.append(&mut self.joysticks);
        let game_data = self.game_data;
        let mut match_info: Option<crate::send::tcp::MatchInfo> = None;
        core::mem::swap(&mut match_info, &mut self.match_info);
        self.game_data = None;
        let packet = crate::send::tcp::Packet::default().with_game_data(
            game_data,
        ).with_match_info(match_info).with_joysticks(copied);
        proof {
            assert(final(self)@.joysticks =~= Seq::<JoystickView>::empty());
        }
        packet
    }
}

} // verus!

verus! {

use crate::recv::udp::{spec_parse_tags_from, TagView, UdpParseError};
use crate::wire::lemma_u16_be_roundtrip;

/// Decoding inverts encoding for the response header: a frame whose eight
/// header bytes are built from a sequence number, status and trace bytes, a
/// battery reading and a first-connection flag reads back as exactly those
/// fields, with an empty tag list.
pub proof fn lemma_udp_response_roundtrip(
    sequence: u16,
    status: u8,
    trace: u8,
    battery: u16,
    first_conn: bool,
)
    ensures
        ({
            let frame = seq![
                u16_hi(sequence),
                u16_lo(sequence),
                0x01u8,
                status,
                trace,
                u16_hi(battery),
                u16_lo(battery),
                (if first_conn {
                    1u8
                } else {
                    0u8
                }),
            ];
            &&& frame.len() == 8
            &&& u16_of_be(frame[0], frame[1]) == sequence
            &&& frame[2] == 0x01
            &&& frame[3] == status
            &&& frame[4] == trace
            &&& u16_of_be(frame[5], frame[6]) == battery
            &&& (frame[7] > 0) == first_conn
            &&& spec_parse_tags_from(frame.skip(8), 0) == Ok::<Seq<TagView>, UdpParseError>(
                Seq::empty(),
            )
        }),
{
    lemma_u16_be_roundtrip(sequence, 0, 0);
    lemma_u16_be_roundtrip(battery, 0, 0);
    let frame = seq![
        u16_hi(sequence),
        u16_lo(sequence),
        0x01u8,
        status,
        trace,
        u16_hi(battery),
        u16_lo(battery),
        (if first_conn {
            1u8
        } else {
            0u8
        }),
    ];
    assert(frame.skip(8) =~= Seq::<u8>::empty());
}

/// The status-byte reads invert the control-byte setters: building a control
/// byte from a mode, an enable flag and a stop flag and reading it back
/// through either side's field reads returns what was set.
pub proof fn lemma_control_status_inverse(mode: Mode, enabled: bool, estopped: bool, fms: bool)
    ensures
        ({
            let b = control_byte(mode, enabled, estopped, fms);
            &&& status_enabled(b) == enabled
            &&& status_estopped(b) == estopped
            &&& Mode::spec_from_bits(status_mode_bits(b)) == mode
            &&& ctrl_enabled(b) == enabled
            &&& ctrl_estopped(b) == estopped
            &&& ctrl_fms_connected(b) == fms
            &&& ctrl_mode_bits(b) == mode.spec_bits()
        }),
{
    let m = mode.spec_bits();
    assert(m < 4 ==> {
        let b0 = (0u8 & !0x03) | m;
        let b1 = if enabled {
            b0 | 0x04
        } else {
            b0 & !0x04
        };
        let b2 = if fms {
            b1 | 0x08
        } else {
            b1 & !0x08
        };
        let b = if estopped {
            b2 | 0x80
        } else {
            b2 & !0x80
        };
        &&& (b & 0x04 != 0) == enabled
        &&& (b & 0x80 != 0) == estopped
        &&& (b & 0x08 != 0) == fms
        &&& b & 0x03 == m
    }) by (bit_vector);
}

/// The control byte built by the setters from an all-clear byte.
pub open spec fn control_byte(mode: Mode, enabled: bool, estopped: bool, fms: bool) -> u8 {
    let b0 = (0u8 & !0x03) | mode.spec_bits();
    let b1 = if enabled {
        b0 | 0x04
    } else {
        b0 & !0x04
    };
    let b2 = if fms {
        b1 | 0x08
    } else {
        b1 & !0x08
    };
    if estopped {
        b2 | 0x80
    } else {
        b2 & !0x80
    }
}

} // verus!
