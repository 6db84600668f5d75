//! Outbound TCP configuration packet: zero or more records, each a one-byte
//! length (counting the identifier and payload), a one-byte identifier and a
//! payload, in the order game data, match info, joysticks. A packet with no
//! records is the two bytes `0x00 0x00`.

use vstd::prelude::*;

use crate::GameData;

verus! {

/// A command from the facade to the TCP loop.
pub enum TcpEvent {
    GameData(GameData),
    MatchInfo(MatchInfo),
    Joystick(Joystick),
    /// The team number changed; reconnect to the new address.
    TeamNumber,
    Exit,
}

impl TcpEvent {
    /// Queued match info and joysticks must fit their one-byte record
    /// lengths; every other event is unconditionally well formed.
    pub open spec fn wf(self) -> bool {
        match self {
            TcpEvent::MatchInfo(m) => m.wf(),
            TcpEvent::Joystick(j) => j.wf(),
            _ => true,
        }
    }
}

/// The kind of match under way.
#[derive(Debug, Clone, Copy, PartialEq, Eq, Hash, Structural)]
pub enum MatchType {
    NoMatch,
    Practice,
    Qualifications,
    Eliminations,
}

impl MatchType {
    /// The single wire byte for this match type, its ordinal.
    pub open spec fn spec_byte(self) -> u8 {
        match self {
            MatchType::NoMatch => 0,
            MatchType::Practice => 1,
            MatchType::Qualifications => 2,
            MatchType::Eliminations => 3,
        }
    }

    fn byte(&self) -> (r: u8)
        ensures
            r == self.spec_byte(),
    {
        match self {
            MatchType::NoMatch => 0,
            MatchType::Practice => 1,
            MatchType::Qualifications => 2,
            MatchType::Eliminations => 3,
        }
    }
}

/// The mathematical value of the match-info record.
pub struct MatchInfoView {
    pub competition: Option<Seq<u8>>,
    pub ty: MatchType,
}

/// The payload of a match-info record: the length-prefixed competition name
/// (an absent name is sent as five zero bytes), then the match type.
pub open spec fn match_info_payload(v: MatchInfoView) -> Seq<u8> {
    let comp = match v.competition {
        Some(name) => name,
        None => seq![0u8, 0u8, 0u8, 0u8, 0u8],
    };
    seq![comp.len() as u8] + comp + seq![v.ty.spec_byte()]
}

/// Match metadata: the competition name and the match type.
#[derive(Debug, Clone, PartialEq, Eq, Hash)]
pub struct MatchInfo {
    competition: Option<Vec<u8>>,
    ty: MatchType,
}

impl View for MatchInfo {
    type V = MatchInfoView;

    closed spec fn view(&self) -> MatchInfoView {
        MatchInfoView {
            competition: match self.competition {
                Some(ref name) => Some(name@),
                None => None,
            },
            ty: self.ty,
        }
    }
}

impl MatchInfo {
    /// The name fits the record's one-byte length.
    pub open spec fn wf(self) -> bool {
        match self@.competition {
            Some(name) => name.len() <= 252,
            None => true,
        }
    }

    pub fn new(competition: Option<Vec<u8>>, ty: MatchType) -> (r: Self)
        ensures
            r@.ty == ty,
            r@.competition == match competition {
                Some(ref name) => Some::<Seq<u8>>(name@),
                None => None::<Seq<u8>>,
            },
    {
        MatchInfo { competition, ty }
    }

    /// The byte length of the record payload: the name and the two bytes for
    /// its length and the match type.
    fn len(&self) -> (r: u8)
        requires
            self.wf(),
        ensures
            r == match_info_payload(self@).len(),
    {
        let competition_len: usize = match self.competition {
            Some(ref competition) => competition.len(),
            None => 5,
        };
        (competition_len as u8) + 2
    }

    /// Whether the record fits its one-byte length prefix; only such a
    /// record can be encoded.
    pub fn fits(&self) -> (r: bool)
        ensures
            r == self.wf(),
    {
        match self.competition {
            Some(ref name) => name.len() <= 252,
            None => true,
        }
    }

    /// Appends the record payload.
    fn write_bytes(&self, out: &mut Vec<u8>)
        requires
            self.wf(),
        ensures
            final(out)@ == old(out)@ + match_info_payload(self@),
    {
        let ghost out0 = out@;
        match self.competition {
            Some(ref competition) => {
                out.push(competition.len() as u8);
                let mut copied = competition.clone();
                out.append(&mut copied);
            },
            None => {
                out.push(5);
                out.push(0);
                out.push(0);
                out.push(0);
                out.push(0);
                out.push(0);
            },
        }
        out.push(self.ty.byte());
        proof {
            assert(out@ =~= out0 + match_info_payload(self@));
        }
    }
}

/// The kind of joystick a descriptor reports, carried as a signed byte.
#[derive(Debug, Clone, Copy, PartialEq, Eq, Hash, Structural)]
pub enum JoystickType {
    Unknown,
    XInputUnknown,
    XInputGamepad,
    XInputWheel,
    XInputArcade,
    XInputFlightStick,
    XInputDancePad,
    XInputGuitar,
    XInputGuitar2,
    XInputDrumKit,
    XInputGuitar3,
    XInputArcadePad,
    HIDJoystick,
    HIDGamepad,
    HIDDriving,
    HIDFlight,
    HIDFirstPerson,
}

impl JoystickType {
    /// The wire byte of this joystick type: the two's-complement image of
    /// its signed code, so the unknown type (code -1) is `0xff`.
    pub open spec fn spec_byte(self) -> u8 {
        match self {
            JoystickType::Unknown => 0xff,
            JoystickType::XInputUnknown => 0,
            JoystickType::XInputGamepad => 1,
            JoystickType::XInputWheel => 2,
            JoystickType::XInputArcade => 3,
            JoystickType::XInputFlightStick => 4,
            JoystickType::XInputDancePad => 5,
            JoystickType::XInputGuitar => 6,
            JoystickType::XInputGuitar2 => 7,
            JoystickType::XInputDrumKit => 8,
            JoystickType::XInputGuitar3 => 11,
            JoystickType::XInputArcadePad => 19,
            JoystickType::HIDJoystick => 20,
            JoystickType::HIDGamepad => 21,
            JoystickType::HIDDriving => 22,
            JoystickType::HIDFlight => 23,
            JoystickType::HIDFirstPerson => 24,
        }
    }

    fn byte(&self) -> (r: u8)
        ensures
            r == self.spec_byte(),
    {
        match self {
            JoystickType::Unknown => 0xff,
            JoystickType::XInputUnknown => 0,
            JoystickType::XInputGamepad => 1,
            JoystickType::XInputWheel => 2,
            JoystickType::XInputArcade => 3,
            JoystickType::XInputFlightStick => 4,
            JoystickType::XInputDancePad => 5,
            JoystickType::XInputGuitar => 6,
            JoystickType::XInputGuitar2 => 7,
            JoystickType::XInputDrumKit => 8,
            JoystickType::XInputGuitar3 => 11,
            JoystickType::XInputArcadePad => 19,
            JoystickType::HIDJoystick => 20,
            JoystickType::HIDGamepad => 21,
            JoystickType::HIDDriving => 22,
            JoystickType::HIDFlight => 23,
            JoystickType::HIDFirstPerson => 24,
        }
    }
}

/// The kind of value a joystick axis reports.
#[derive(Debug, Clone, Copy, PartialEq, Eq, Hash, Structural)]
pub enum AxisType {
    X,
    Y,
    Z,
    Twist,
    Throttle,
}

impl AxisType {
    /// The single wire byte for this axis type, its ordinal.
    pub open spec fn spec_byte(self) -> u8 {
        match self {
            AxisType::X => 0,
            AxisType::Y => 1,
            AxisType::Z => 2,
            AxisType::Twist => 3,
            AxisType::Throttle => 4,
        }
    }

    fn byte(&self) -> (r: u8)
        ensures
            r == self.spec_byte(),
    {
        match self {
            AxisType::X => 0,
            AxisType::Y => 1,
            AxisType::Z => 2,
            AxisType::Twist => 3,
            AxisType::Throttle => 4,
        }
    }
}

/// The mathematical value of a joystick descriptor.
pub struct JoystickView {
    pub index: u8,
    pub is_xbox: bool,
    pub ty: JoystickType,
    pub name: Seq<u8>,
    pub axis_types: Seq<AxisType>,
    pub button_count: u8,
    pub pov_count: u8,
}

/// The payload of a joystick record: index, xbox flag, type code, raw name
/// bytes, the count-prefixed axis-type list, button count, POV count.
pub open spec fn joystick_payload(v: JoystickView) -> Seq<u8> {
    seq![v.index, (if v.is_xbox { 1u8 } else { 0u8 }), v.ty.spec_byte()] + v.name + seq![
        v.axis_types.len() as u8,
    ] + v.axis_types.map_values(|a: AxisType| a.spec_byte()) + seq![v.button_count, v.pov_count]
}

/// A joystick descriptor.
#[derive(Debug, Clone, PartialEq, Eq, Hash)]
pub struct Joystick {
    pub index: u8,
    pub is_xbox: bool,
    pub ty: JoystickType,
    pub name: Vec<u8>,
    pub axis_types: Vec<AxisType>,
    pub button_count: u8,
    pub pov_count: u8,
}

impl View for Joystick {
    type V = JoystickView;

    open spec fn view(&self) -> JoystickView {
        JoystickView {
            index: self.index,
            is_xbox: self.is_xbox,
            ty: self.ty,
            name: self.name@,
            axis_types: self.axis_types@,
            button_count: self.button_count,
            pov_count: self.pov_count,
        }
    }
}

impl Joystick {
    /// The name and axis list fit the record's one-byte length.
    pub open spec fn wf(self) -> bool {
        joystick_payload(self@).len() <= 254
    }

    /// Whether the record fits its one-byte length prefix; only such a
    /// record can be encoded.
    pub fn fits(&self) -> (r: bool)
        ensures
            r == self.wf(),
    {
        if self.name.len() > 254 || self.axis_types.len() > 254 {
            false
        } else {
            6 + self.name.len() + self.axis_types.len() <= 254
        }
    }

    /// Appends the record payload.
    fn write_bytes(&self, out: &mut Vec<u8>)
        requires
            self.wf(),
        ensures
            final(out)@ == old(out)@ + joystick_payload(self@),
    {
        let ghost out0 = out@;
        out.push(self.index);
        out.push(if self.is_xbox {
            1
        } else {
            0
        });
        out.push(self.ty.byte());
        let mut name = self.name.clone();
        out.append(&mut name);
        out.push(#[verifier::truncate] (self.axis_types.len() as u8));
        let ghost base = out@;
        let ghost codes = self.axis_types@.map_values(|a: AxisType| a.spec_byte());
        let mut i: usize = 0;
        while i < self.axis_types.len()
            invariant
                i <= self.axis_types@.len(),
                codes == self.axis_types@.map_values(|a: AxisType| a.spec_byte()),
                out@ == base + codes.take(i as int),
            decreases self.axis_types@.len() - i,
        {
            out.push(self.axis_types[i].byte());
            proof {
                assert(out@ =~= base + codes.take(i as int + 1));
            }
            i += 1;
        }
        out.push(self.button_count);
        out.push(self.pov_count);
        proof {
            assert(codes.take(self.axis_types@.len() as int) =~= codes);
            assert(out@ =~= out0 + joystick_payload(self@));
        }
    }
}

/// The mathematical value of an outbound TCP packet.
pub struct PacketView {
    pub game_data: Option<GameData>,
    pub match_info: Option<MatchInfoView>,
    pub joysticks: Seq<JoystickView>,
}

/// The game-data record, where present: its length byte counts the payload
/// and the identifier.
pub open spec fn game_data_record(gd: Option<GameData>) -> Seq<u8> {
    match gd {
        Some(g) => seq![(g.spec_bytes().len() + 1) as u8, 0x0e] + g.spec_bytes(),
        None => seq![],
    }
}

/// The match-info record, where present.
pub open spec fn match_info_record(mi: Option<MatchInfoView>) -> Seq<u8> {
    match mi {
        Some(m) => seq![(match_info_payload(m).len() + 1) as u8, 0x07] + match_info_payload(m),
        None => seq![],
    }
}

/// The concatenated joystick records.
pub open spec fn joystick_records(js: Seq<JoystickView>) -> Seq<u8>
    decreases js.len(),
{
    if js.len() == 0 {
        seq![]
    } else {
        seq![(joystick_payload(js[0]).len() + 1) as u8, 0x02] + joystick_payload(js[0])
            + joystick_records(js.drop_first())
    }
}

/// The full packet encoding: the three record groups in order, or the
/// two-byte zero packet when every group is empty.
pub open spec fn packet_bytes(v: PacketView) -> Seq<u8> {
    if v.game_data is None && v.match_info is None && v.joysticks.len() == 0 {
        seq![0u8, 0u8]
    } else {
        game_data_record(v.game_data) + match_info_record(v.match_info) + joystick_records(
            v.joysticks,
        )
    }
}

/// An outbound TCP configuration packet under construction.
pub struct Packet {
    game_data: Option<GameData>,
    match_info: Option<MatchInfo>,
    joysticks: Vec<Joystick>,
}

impl View for Packet {
    type V = PacketView;

    closed spec fn view(&self) -> PacketView {
        PacketView {
            game_data: self.game_data,
            match_info: match self.match_info {
                Some(ref m) => Some(m@),
                None => None,
            },
            joysticks: self.joysticks@.map_values(|j: Joystick| j@),
        }
    }
}

/// Every joystick of a list fits its record's one-byte length.
pub open spec fn joysticks_wf(js: Seq<JoystickView>) -> bool {
    forall|i: int| 0 <= i < js.len() ==> (#[trigger] joystick_payload(js[i])).len() <= 254
}

impl Packet {
    /// The present records all fit their one-byte lengths.
    pub open spec fn wf(self) -> bool {
        &&& match self@.match_info {
            Some(m) => match m.competition {
                Some(name) => name.len() <= 252,
                None => true,
            },
            None => true,
        }
        &&& joysticks_wf(self@.joysticks)
    }

    pub fn with_game_data(self, game_data: Option<GameData>) -> (r: Self)
        ensures
            r@ == (PacketView { game_data, ..self@ }),
            r.wf() == self.wf(),
    {
        let mut r = self;
        r.game_data = game_data;
        r
    }

    pub fn with_match_info(self, match_info: Option<MatchInfo>) -> (r: Self)
        ensures
            r@ == (PacketView {
                match_info: match match_info {
                    Some(ref m) => Some(m@),
                    None => None,
                },
                ..self@
            }),
            self.wf() && (match match_info {
                Some(ref m) => m.wf(),
                None => true,
            }) ==> r.wf(),
    {
        let mut r = self;
        r.match_info = match_info;
        r
    }

    pub fn with_joystick(self, joystick: Joystick) -> (r: Self)
        ensures
            r@ == (PacketView { joysticks: self@.joysticks.push(joystick@), ..self@ }),
            self.wf() && joystick.wf() ==> r.wf(),
    {
        let mut r = self;
        proof {
            assert(r.joysticks@.push(joystick).map_values(|j: Joystick| j@) =~= r.joysticks@
                .map_values(|j: Joystick| j@).push(joystick@));
        }
        r.joysticks.push(joystick);
        r
    }

    pub fn with_joysticks(self, joysticks: Vec<Joystick>) -> (r: Self)
        ensures
            r@ == (PacketView {
                joysticks: joysticks@.map_values(|j: Joystick| j@),
                ..self@
            }),
            self.wf() && joysticks_wf(joysticks@.map_values(|j: Joystick| j@)) ==> r.wf(),
    {
        let mut r = self;
        r.joysticks = joysticks;
        r
    }

    pub fn extend_joysticks(self, joysticks: Vec<Joystick>) -> (r: Self)
        ensures
            r@ == (PacketView {
                joysticks: self@.joysticks + joysticks@.map_values(|j: Joystick| j@),
                ..self@
            }),
            self.wf() && joysticks_wf(joysticks@.map_values(|j: Joystick| j@)) ==> r.wf(),
    {
        let mut r = self;
        let mut moved = joysticks;
        proof {
            assert((r.joysticks@ + moved@).map_values(|j: Joystick| j@) =~= r.joysticks@.map_values(
                |j: Joystick| j@,
            ) + moved@.map_values(|j: Joystick| j@));
        }
        r.joysticks.append(&mut moved);
        r
    }

    /// Appends the packet: each present record as its length byte, its
    /// identifier and its payload, in the order game data, match info,
    /// joysticks; the exact two-byte zero packet when nothing is present.
    pub fn write_bytes(&self, out: &mut Vec<u8>)
        requires
            self.wf(),
        ensures
            final(out)@ == old(out)@ + packet_bytes(self@),
    {
        let ghost out0 = out@;
        if self.game_data.is_none() && self.match_info.is_none() && self.joysticks.len() == 0 {
            out.push(0x00);
            out.push(0x00);
            proof {
                assert(out@ =~= out0 + packet_bytes(self@));
            }
            return ;
        }
        if let Some(ref game_data) = self.game_data {
            out.push(game_data.len() + 1);
            out.push(0x0e);
            game_data.write_bytes(out);
            proof {
                assert(out@ =~= out0 + game_data_record(self@.game_data));
            }
        }
        let ghost mid = out0 + game_data_record(self@.game_data);
        if let Some(ref match_info) = self.match_info {
            let mut payload: Vec<u8> = Vec::new();
            match_info.write_bytes(&mut payload);
            out.push((payload.len() as u8) + 1);
            out.push(0x07);
            out.append(&mut payload);
        }
        proof {
            assert(out@ =~= mid + match_info_record(self@.match_info));
        }
        let ghost base = out@;
        let ghost jviews = self@.joysticks;
        let n = self.joysticks.len();
        let mut i: usize = 0;
        while i < n
            invariant
                i <= n,
                n == self.joysticks@.len(),
                jviews == self@.joysticks,
                self.wf(),
                out@ == base + joystick_records_take(jviews, i as int),
            decreases n - i,
        {
            proof {
                lemma_joystick_records_take_step(jviews, i as int);
                assert(jviews[i as int] == self.joysticks@[i as int]@);
            }
            let mut payload: Vec<u8> = Vec::new();
            self.joysticks[i].write_bytes(&mut payload);
            out.push((payload.len() as u8) + 1);
            out.push(0x02);
            out.append(&mut payload);
            proof {
                assert(out@ =~= base + joystick_records_take(jviews, i as int + 1));
            }
            i += 1;
        }
        proof {
            lemma_joystick_records_take_all(jviews);
            assert(out@ =~= out0 + packet_bytes(self@));
        }
    }
}

/// The first `i` joystick records of a list.
pub open spec fn joystick_records_take(js: Seq<JoystickView>, i: int) -> Seq<u8> {
    joystick_records(js.take(i))
}

/// Taking one more joystick appends exactly that joystick's record.
pub proof fn lemma_joystick_records_take_step(js: Seq<JoystickView>, i: int)
    requires
        0 <= i < js.len(),
    ensures
        joystick_records_take(js, i + 1) == joystick_records_take(js, i) + (seq![
            (joystick_payload(js[i]).len() + 1) as u8,
            0x02u8,
        ] + joystick_payload(js[i])),
    decreases i,
{
    let rec = seq![(joystick_payload(js[i]).len() + 1) as u8, 0x02u8] + joystick_payload(js[i]);
    if i == 0 {
        assert(js.take(1).drop_first() =~= Seq::<JoystickView>::empty());
        assert(js.take(0) =~= Seq::<JoystickView>::empty());
        assert(joystick_records(js.take(1)) =~= joystick_records(js.take(0)) + rec);
    } else {
        let t2 = js.drop_first();
        lemma_joystick_records_take_step(t2, i - 1);
        assert(js.take(i + 1).drop_first() =~= t2.take(i));
        assert(js.take(i).drop_first() =~= t2.take(i - 1));
        assert(js.take(i + 1)[0] == js[0]);
        assert(js.take(i)[0] == js[0]);
        let head = seq![(joystick_payload(js[0]).len() + 1) as u8, 0x02u8] + joystick_payload(
            js[0],
        );
        assert(head + (joystick_records(t2.take(i - 1)) + rec) =~= (head + joystick_records(
            t2.take(i - 1),
        )) + rec);
    }
}

/// Taking every joystick gives the whole record list.
pub proof fn lemma_joystick_records_take_all(js: Seq<JoystickView>)
    ensures
        joystick_records_take(js, js.len() as int) == joystick_records(js),
{
    assert(js.take(js.len() as int) =~= js);
}

impl Default for Packet {
    /// A packet with nothing to say: no game data, no match info, no
    /// joysticks.
    fn default() -> (r: Self)
        ensures
            r@ == (PacketView {
                game_data: None,
                match_info: None,
                joysticks: Seq::<JoystickView>::empty(),
            }),
            r.wf(),
    {
        let r = Packet { game_data: None, match_info: None, joysticks: Vec::new() };
        proof {
            assert(r@.joysticks =~= Seq::<JoystickView>::empty());
        }
        r
    }
}

} // verus!

verus! {

/// The summed encoded length of a list of joystick records: two bytes of
/// length and identifier plus the payload, for each.
pub open spec fn joystick_records_len(js: Seq<JoystickView>) -> int
    decreases js.len(),
{
    if js.len() == 0 {
        0
    } else {
        2 + joystick_payload(js[0]).len() + joystick_records_len(js.drop_first())
    }
}

/// The concatenated joystick records have exactly their summed length.
pub proof fn lemma_joystick_records_len(js: Seq<JoystickView>)
    ensures
        joystick_records(js).len() == joystick_records_len(js),
    decreases js.len(),
{
    if js.len() != 0 {
        lemma_joystick_records_len(js.drop_first());
    }
}

/// The byte length of an outbound TCP packet is two when every record group
/// is empty, else the sum, over the present records, of two bytes for the
/// length and identifier plus the record's payload length.
pub proof fn lemma_tcp_packet_length(v: PacketView)
    ensures
        (v.game_data is None && v.match_info is None && v.joysticks.len() == 0) ==> packet_bytes(
            v,
        ).len() == 2,
        !(v.game_data is None && v.match_info is None && v.joysticks.len() == 0) ==> packet_bytes(
            v,
        ).len() == (match v.game_data {
            Some(g) => 2 + g.spec_bytes().len(),
            None => 0,
        }) + (match v.match_info {
            Some(m) => 2 + match_info_payload(m).len(),
            None => 0,
        }) + joystick_records_len(v.joysticks),
{
    lemma_joystick_records_len(v.joysticks);
}

} // verus!
