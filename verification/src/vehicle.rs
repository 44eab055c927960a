//! The state of the vehicle as the instrument cluster shows it, and the
//! frame that brings the cluster from one state to the next.

use vstd::prelude::*;
use vstd::string::StringExecFns;
use crate::api::ApiVehicleType;
use crate::text::{append_decimal, decimal_text};
use crate::komsi::{
    build_komsi_command, decimal, is_digit, komsi_command, lemma_decimal_shape, KomsiCommandKind,
    EOL,
};

verus! {

/// What the instrument cluster shows. Flags are 0 or 1 unless said otherwise.
#[derive(Clone, Copy, Debug, PartialEq, Eq, Structural)]
pub struct VehicleState {
    pub ignition: u8,
    pub engine: u8,
    pub doors: u8,
    pub speed: u32,
    pub maxspeed: u32,
    /// Percent of a full tank.
    pub fuel: u32,
    /// 0 is off, 1 is left, 2 is right.
    pub indicator: u8,
    pub fixing_brake: u8,
    pub lights_warning: u8,
    pub lights_main: u8,
    pub lights_front_door: u8,
    pub lights_second_door: u8,
    pub lights_third_door: u8,
    pub lights_stop_request: u8,
    pub lights_stop_brake: u8,
    pub lights_high_beam: u8,
    pub battery_light: u8,
}

impl VehicleState {
    /// The state in which every field is 0.
    pub open spec fn initial() -> VehicleState {
        VehicleState {
            ignition: 0,
            engine: 0,
            doors: 0,
            speed: 0,
            maxspeed: 0,
            fuel: 0,
            indicator: 0,
            fixing_brake: 0,
            lights_warning: 0,
            lights_main: 0,
            lights_front_door: 0,
            lights_second_door: 0,
            lights_third_door: 0,
            lights_stop_request: 0,
            lights_stop_brake: 0,
            lights_high_beam: 0,
            battery_light: 0,
        }
    }

    /// The ranges that a derived state keeps: the tank is never more than
    /// full, and the indicator is off, left or right.
    pub open spec fn in_range(self) -> bool {
        &&& self.fuel <= 100
        &&& self.indicator <= 2
    }
}

/// The state before the first tick: every field is 0.
pub fn init_vehicle_state() -> (s: VehicleState)
    ensures
        s == VehicleState::initial(),
{
    VehicleState {
        ignition: 0,
        engine: 0,
        doors: 0,
        speed: 0,
        indicator: 0,
        fixing_brake: 0,
        lights_warning: 0,
        lights_main: 0,
        lights_front_door: 0,
        lights_second_door: 0,
        lights_third_door: 0,
        lights_stop_request: 0,
        maxspeed: 0,
        lights_high_beam: 0,
        fuel: 0,
        lights_stop_brake: 0,
        battery_light: 0,
    }
}

/// A value behind its label, closed by a blank.
pub open spec fn labelled(label: Seq<char>, value: nat) -> Seq<char> {
    label + decimal_text(value) + " "@
}

/// The line that shows a state for reading: every field behind its label.
pub open spec fn state_text(v: VehicleState) -> Seq<char> {
    Seq::<char>::empty() + labelled("ignition:"@, v.ignition as nat)
        + labelled("engine:"@, v.engine as nat)
        + labelled("indicator:"@, v.indicator as nat)
        + labelled("fuel:"@, v.fuel as nat)
        + labelled("warn:"@, v.lights_warning as nat)
        + labelled("lights:"@, v.lights_main as nat)
        + labelled("lights-highbeam:"@, v.lights_high_beam as nat)
        + labelled("stop:"@, v.lights_stop_request as nat)
        + labelled("fixingbrake:"@, v.fixing_brake as nat)
        + labelled("stopbrake:"@, v.lights_stop_brake as nat)
        + labelled("doors:"@, v.doors as nat)
        + labelled("door1:"@, v.lights_front_door as nat)
        + labelled("door2:"@, v.lights_second_door as nat)
        + labelled("speed:"@, v.speed as nat)
        + labelled("maxspeed:"@, v.maxspeed as nat)
        + " "@
}

fn append_labelled(line: &mut String, label: &str, value: u64)
    ensures
        final(line)@ == old(line)@ + labelled(label@, value as nat),
{
    line.append(label);
    append_decimal(line, value);
    line.append(" ");
}

/// Writes the line that shows a state for reading.
pub fn vehicle_state_line(v: &VehicleState) -> (line: String)
    ensures
        line@ == state_text(*v),
{
    let mut line = String::new();
    append_labelled(&mut line, "ignition:", v.ignition as u64);
    append_labelled(&mut line, "engine:", v.engine as u64);
    append_labelled(&mut line, "indicator:", v.indicator as u64);
    append_labelled(&mut line, "fuel:", v.fuel as u64);
    append_labelled(&mut line, "warn:", v.lights_warning as u64);
    append_labelled(&mut line, "lights:", v.lights_main as u64);
    append_labelled(&mut line, "lights-highbeam:", v.lights_high_beam as u64);
    append_labelled(&mut line, "stop:", v.lights_stop_request as u64);
    append_labelled(&mut line, "fixingbrake:", v.fixing_brake as u64);
    append_labelled(&mut line, "stopbrake:", v.lights_stop_brake as u64);
    append_labelled(&mut line, "doors:", v.doors as u64);
    append_labelled(&mut line, "door1:", v.lights_front_door as u64);
    append_labelled(&mut line, "door2:", v.lights_second_door as u64);
    append_labelled(&mut line, "speed:", v.speed as u64);
    append_labelled(&mut line, "maxspeed:", v.maxspeed as u64);
    line.append(" ");
    line
}

/// 1 if the text is `true`, else 0.
pub open spec fn text_flag(text: Seq<char>) -> u8 {
    if text == "true"@ {
        1
    } else {
        0
    }
}

/// The position of the indicator for what the simulator reports: -1 is
/// left, 1 is right, anything else is off.
pub open spec fn api_indicator(indicator_state: i8) -> u8 {
    if indicator_state == -1 {
        1
    } else if indicator_state == 1 {
        2
    } else {
        0
    }
}

/// The state that a report of the simulator stands for. The tank is never
/// more than full; what the report does not hold is 0.
pub open spec fn api_state(av: ApiVehicleType) -> VehicleState {
    VehicleState {
        ignition: text_flag(av.ignition_enabled@),
        engine: text_flag(av.engine_started@),
        doors: text_flag(av.passenger_doors_open@),
        speed: av.speed,
        maxspeed: av.allowed_speed,
        fuel: if av.display_fuel > 100 {
            100
        } else {
            av.display_fuel
        },
        indicator: api_indicator(av.indicator_state),
        fixing_brake: text_flag(av.fixing_brake@),
        lights_warning: text_flag(av.warning_lights@),
        lights_main: av.all_lamps.light_main,
        lights_front_door: av.all_lamps.front_door_light,
        lights_second_door: av.all_lamps.second_door_light,
        lights_third_door: 0,
        lights_stop_request: av.all_lamps.led_stop_request,
        lights_stop_brake: av.all_lamps.light_stopbrake,
        lights_high_beam: text_flag(av.traveller_light@),
        battery_light: 0,
    }
}

fn flag_of_text(text: &String) -> (flag: u8)
    ensures
        flag == text_flag(text@),
{
    let yes = String::from_str("true");
    if *text == yes {
        1
    } else {
        0
    }
}

/// Derives the state of the vehicle from a report of the simulator.
pub fn get_vehicle_state(av: ApiVehicleType) -> (s: VehicleState)
    ensures
        s == api_state(av),
        s.in_range(),
{
    let mut s = init_vehicle_state();

    s.ignition = flag_of_text(&av.ignition_enabled);
    s.engine = flag_of_text(&av.engine_started);
    s.lights_warning = flag_of_text(&av.warning_lights);
    s.doors = flag_of_text(&av.passenger_doors_open);
    s.fixing_brake = flag_of_text(&av.fixing_brake);
    s.lights_high_beam = flag_of_text(&av.traveller_light);

    // the simulator counts the indicator as -1, 0, 1 for left, off, right
    s.indicator = match av.indicator_state {
        -1 => 1,
        1 => 2,
        _ => 0,
    };

    s.speed = av.speed;
    s.maxspeed = av.allowed_speed;

    s.fuel = if av.display_fuel > 100 {
        100
    } else {
        av.display_fuel
    };

    s.lights_main = av.all_lamps.light_main;
    s.lights_front_door = av.all_lamps.front_door_light;
    s.lights_second_door = av.all_lamps.second_door_light;
    s.lights_stop_request = av.all_lamps.led_stop_request;
    s.lights_stop_brake = av.all_lamps.light_stopbrake;

    s
}

/// How many fields a frame can carry.
pub const FIELD_COUNT: usize = 17;

impl VehicleState {
    /// The fields in the order of the protocol, each with its command and
    /// its value.
    pub open spec fn wire_fields(self) -> Seq<(KomsiCommandKind, nat)> {
        seq![
            (KomsiCommandKind::Ignition, self.ignition as nat),
            (KomsiCommandKind::Engine, self.engine as nat),
            (KomsiCommandKind::PassengerDoorsOpen, self.doors as nat),
            (KomsiCommandKind::FixingBrake, self.fixing_brake as nat),
            (KomsiCommandKind::Indicator, self.indicator as nat),
            (KomsiCommandKind::LightsWarning, self.lights_warning as nat),
            (KomsiCommandKind::LightsMain, self.lights_main as nat),
            (KomsiCommandKind::LightsStopRequest, self.lights_stop_request as nat),
            (KomsiCommandKind::LightsStopBrake, self.lights_stop_brake as nat),
            (KomsiCommandKind::LightsFrontDoor, self.lights_front_door as nat),
            (KomsiCommandKind::LightsSecondDoor, self.lights_second_door as nat),
            (KomsiCommandKind::LightsThirdDoor, self.lights_third_door as nat),
            (KomsiCommandKind::LightsHighBeam, self.lights_high_beam as nat),
            (KomsiCommandKind::BatteryLight, self.battery_light as nat),
            (KomsiCommandKind::Fuel, self.fuel as nat),
            (KomsiCommandKind::Speed, self.speed as nat),
            (KomsiCommandKind::MaxSpeed, self.maxspeed as nat),
        ]
    }

    /// The command and the value of field `i` in the order of the protocol,
    /// if there is such a field.
    pub fn wire_field(&self, i: usize) -> (field: Option<(KomsiCommandKind, u32)>)
        ensures
            i < FIELD_COUNT ==> (field matches Some(f) && f.0 == self.wire_fields()[i as int].0
                && f.1 as nat == self.wire_fields()[i as int].1),
            i >= FIELD_COUNT ==> field is None,
    {
        match i {
            0 => Some((KomsiCommandKind::Ignition, self.ignition as u32)),
            1 => Some((KomsiCommandKind::Engine, self.engine as u32)),
            2 => Some((KomsiCommandKind::PassengerDoorsOpen, self.doors as u32)),
            3 => Some((KomsiCommandKind::FixingBrake, self.fixing_brake as u32)),
            4 => Some((KomsiCommandKind::Indicator, self.indicator as u32)),
            5 => Some((KomsiCommandKind::LightsWarning, self.lights_warning as u32)),
            6 => Some((KomsiCommandKind::LightsMain, self.lights_main as u32)),
            7 => Some((KomsiCommandKind::LightsStopRequest, self.lights_stop_request as u32)),
            8 => Some((KomsiCommandKind::LightsStopBrake, self.lights_stop_brake as u32)),
            9 => Some((KomsiCommandKind::LightsFrontDoor, self.lights_front_door as u32)),
            10 => Some((KomsiCommandKind::LightsSecondDoor, self.lights_second_door as u32)),
            11 => Some((KomsiCommandKind::LightsThirdDoor, self.lights_third_door as u32)),
            12 => Some((KomsiCommandKind::LightsHighBeam, self.lights_high_beam as u32)),
            13 => Some((KomsiCommandKind::BatteryLight, self.battery_light as u32)),
            14 => Some((KomsiCommandKind::Fuel, self.fuel)),
            15 => Some((KomsiCommandKind::Speed, self.speed)),
            16 => Some((KomsiCommandKind::MaxSpeed, self.maxspeed)),
            _ => None,
        }
    }
}

/// Whether field `i` goes into the frame: it changed, or the frame is forced.
pub open spec fn field_sent(prev: VehicleState, next: VehicleState, force: bool, i: int) -> bool {
    force || prev.wire_fields()[i].1 != next.wire_fields()[i].1
}

/// The records of the first `n` fields: for each field that is sent, in the
/// order of the protocol, the record with its new value.
pub open spec fn records_upto(prev: VehicleState, next: VehicleState, force: bool, n: nat) -> Seq<
    u8,
>
    decreases n,
{
    if n == 0 {
        Seq::empty()
    } else {
        let i = n - 1;
        let before = records_upto(prev, next, force, i as nat);
        if field_sent(prev, next, force, i) {
            before + komsi_command(next.wire_fields()[i].0, next.wire_fields()[i].1)
        } else {
            before
        }
    }
}

/// The frame that brings the cluster from `prev` to `next`: the records of
/// all fields, closed by the end-of-line byte if there is any record at all.
pub open spec fn encode_diff(prev: VehicleState, next: VehicleState, force: bool) -> Seq<u8> {
    let records = records_upto(prev, next, force, FIELD_COUNT as nat);
    if records.len() > 0 {
        records.push(EOL)
    } else {
        records
    }
}

/// Encodes the frame that brings the cluster from `prev` to `next`. With
/// `force` every field is sent, changed or not.
pub fn compare_vehicle_states(prev: &VehicleState, next: &VehicleState, force: bool) -> (buffer:
    Vec<u8>)
    ensures
        buffer@ == encode_diff(*prev, *next, force),
{
    let mut buffer: Vec<u8> = Vec::new();
    let mut i: usize = 0;
    while i < FIELD_COUNT
        invariant
            i <= FIELD_COUNT,
            buffer@ == records_upto(*prev, *next, force, i as nat),
        decreases FIELD_COUNT - i,
    {
        if let (Some(before), Some(after)) = (prev.wire_field(i), next.wire_field(i)) {
            if before.1 != after.1 || force {
                let mut b = build_komsi_command(after.0, after.1);
                buffer.append(&mut b);
            }
        }
        i += 1;
    }
    if buffer.len() > 0 {
        buffer.push(EOL);
    }
    buffer
}

/// The labels of the fields for reading, in the order of the protocol.
pub open spec fn field_labels() -> Seq<Seq<char>> {
    seq![
        "ignition: "@,
        "engine: "@,
        "doors: "@,
        "fixing_brake: "@,
        "indicator: "@,
        "lights_warning: "@,
        "lights_main: "@,
        "lights_stop_request: "@,
        "lights_stop_brake: "@,
        "lights_front_door: "@,
        "lights_second_door: "@,
        "lights_third_door: "@,
        "lights_high_beam: "@,
        "battery_light: "@,
        "fuel:  "@,
        "speed:  "@,
        "maxspeed:  "@,
    ]
}

/// The line that shows for reading how a field changed.
pub open spec fn change_text(label: Seq<char>, before: nat, after: nat) -> Seq<char> {
    label + decimal_text(before) + " -> "@ + decimal_text(after) + " "@
}

/// The lines for those of the first `n` fields that are sent, in the order
/// of the protocol.
pub open spec fn change_texts_upto(prev: VehicleState, next: VehicleState, force: bool, n: nat)
    -> Seq<Seq<char>>
    decreases n,
{
    if n == 0 {
        Seq::empty()
    } else {
        let i = n - 1;
        let before = change_texts_upto(prev, next, force, i as nat);
        if field_sent(prev, next, force, i) {
            before.push(
                change_text(field_labels()[i], prev.wire_fields()[i].1, next.wire_fields()[i].1),
            )
        } else {
            before
        }
    }
}

fn field_label(i: usize) -> (label: &'static str)
    requires
        i < FIELD_COUNT,
    ensures
        label@ == field_labels()[i as int],
{
    match i {
        0 => "ignition: ",
        1 => "engine: ",
        2 => "doors: ",
        3 => "fixing_brake: ",
        4 => "indicator: ",
        5 => "lights_warning: ",
        6 => "lights_main: ",
        7 => "lights_stop_request: ",
        8 => "lights_stop_brake: ",
        9 => "lights_front_door: ",
        10 => "lights_second_door: ",
        11 => "lights_third_door: ",
        12 => "lights_high_beam: ",
        13 => "battery_light: ",
        14 => "fuel:  ",
        15 => "speed:  ",
        _ => "maxspeed:  ",
    }
}

/// Writes, for every field that a frame from `prev` to `next` holds, the
/// line that shows how the field changed.
pub fn change_lines(prev: &VehicleState, next: &VehicleState, force: bool) -> (lines: Vec<String>)
    ensures
        lines.deep_view() == change_texts_upto(*prev, *next, force, FIELD_COUNT as nat),
{
    let mut lines: Vec<String> = Vec::new();
    let mut i: usize = 0;
    while i < FIELD_COUNT
        invariant
            i <= FIELD_COUNT,
            lines.deep_view() == change_texts_upto(*prev, *next, force, i as nat),
        decreases FIELD_COUNT - i,
    {
        if let (Some(before), Some(after)) = (prev.wire_field(i), next.wire_field(i)) {
            if before.1 != after.1 || force {
                let mut line = String::from_str(field_label(i));
                append_decimal(&mut line, before.1 as u64);
                line.append(" -> ");
                append_decimal(&mut line, after.1 as u64);
                line.append(" ");
                lines.push(line);
            }
        }
        i += 1;
    }
    lines
}

/// Whether a byte opens a record: it is neither a digit nor the end of line.
pub open spec fn is_command_byte(byte: u8) -> bool {
    !is_digit(byte) && byte != EOL
}

/// The bytes of a frame that open a record, in the order of the frame.
pub open spec fn command_bytes(frame: Seq<u8>) -> Seq<u8>
    decreases frame.len(),
{
    if frame.len() == 0 {
        Seq::empty()
    } else {
        let before = command_bytes(frame.drop_last());
        if is_command_byte(frame.last()) {
            before.push(frame.last())
        } else {
            before
        }
    }
}

/// The command bytes of those of the first `n` fields that are sent, in the
/// order of the protocol.
pub open spec fn sent_commands(prev: VehicleState, next: VehicleState, force: bool, n: nat) -> Seq<
    u8,
>
    decreases n,
{
    if n == 0 {
        Seq::empty()
    } else {
        let i = n - 1;
        let before = sent_commands(prev, next, force, i as nat);
        if field_sent(prev, next, force, i) {
            before.push(next.wire_fields()[i].0.code_spec())
        } else {
            before
        }
    }
}

proof fn lemma_command_bytes_add(a: Seq<u8>, b: Seq<u8>)
    ensures
        command_bytes(a + b) == command_bytes(a) + command_bytes(b),
    decreases b.len(),
{
    if b.len() == 0 {
    } else {
        assert((a + b).drop_last() == a + b.drop_last());
        lemma_command_bytes_add(a, b.drop_last());
    }
}

proof fn lemma_command_bytes_of_digits(digits: Seq<u8>)
    requires
        forall|i: int| 0 <= i < digits.len() ==> is_digit(#[trigger] digits[i]),
    ensures
        command_bytes(digits) == Seq::<u8>::empty(),
    decreases digits.len(),
{
    if digits.len() > 0 {
        lemma_command_bytes_of_digits(digits.drop_last());
    }
}

proof fn lemma_command_bytes_of_record(cmd: KomsiCommandKind, value: nat)
    requires
        is_command_byte(cmd.code_spec()),
    ensures
        command_bytes(komsi_command(cmd, value)) == seq![cmd.code_spec()],
{
    let head = seq![cmd.code_spec()];
    lemma_decimal_shape(value);
    lemma_command_bytes_of_digits(decimal(value));
    lemma_command_bytes_add(head, decimal(value));
    assert(command_bytes(head.drop_last()) == Seq::<u8>::empty());
}

proof fn lemma_wire_fields(s: VehicleState)
    ensures
        s.wire_fields().len() == FIELD_COUNT,
        forall|i: int|
            0 <= i < FIELD_COUNT ==> is_command_byte(
                (#[trigger] s.wire_fields()[i]).0.code_spec(),
            ),
{
    let f = s.wire_fields();
    assert forall|i: int| 0 <= i < FIELD_COUNT implies is_command_byte(
        (#[trigger] f[i]).0.code_spec(),
    ) by {}
}

proof fn lemma_records_commands(prev: VehicleState, next: VehicleState, force: bool, n: nat)
    requires
        n <= FIELD_COUNT,
    ensures
        command_bytes(records_upto(prev, next, force, n)) == sent_commands(prev, next, force, n),
        forall|k: int|
            0 <= k < records_upto(prev, next, force, n).len() ==> records_upto(
                prev,
                next,
                force,
                n,
            )[k] != EOL,
        records_upto(prev, next, force, n).len() == 0 <==> forall|i: int|
            0 <= i < n ==> !field_sent(prev, next, force, i),
    decreases n,
{
    if n > 0 {
        let i = (n - 1) as nat;
        let before = records_upto(prev, next, force, i);
        lemma_records_commands(prev, next, force, i);
        lemma_wire_fields(next);
        let field = next.wire_fields()[i as int];
        let record = komsi_command(field.0, field.1);
        lemma_command_bytes_of_record(field.0, field.1);
        lemma_command_bytes_add(before, record);
        lemma_decimal_shape(field.1);
        if field_sent(prev, next, force, i as int) {
            assert forall|k: int| 0 <= k < record.len() implies record[k] != EOL by {
                if k > 0 {
                    assert(record[k] == decimal(field.1)[k - 1]);
                }
            }
        }
    }
}

/// The records of a frame are those of the fields that are sent, each once
/// and in the order of the protocol: reading the command bytes off the frame
/// gives exactly their commands.
pub proof fn lemma_frame_commands(prev: VehicleState, next: VehicleState, force: bool)
    ensures
        command_bytes(encode_diff(prev, next, force)) == sent_commands(
            prev,
            next,
            force,
            FIELD_COUNT as nat,
        ),
{
    let records = records_upto(prev, next, force, FIELD_COUNT as nat);
    lemma_records_commands(prev, next, force, FIELD_COUNT as nat);
    if records.len() > 0 {
        assert(records.push(EOL).drop_last() == records);
    }
}

/// A frame is empty, or it ends in the end-of-line byte and holds that byte
/// nowhere else.
pub proof fn lemma_frame_shape(prev: VehicleState, next: VehicleState, force: bool)
    ensures
        ({
            let frame = encode_diff(prev, next, force);
            frame.len() == 0 || (frame.len() >= 3 && frame.last() == EOL && forall|k: int|
                0 <= k < frame.len() - 1 ==> frame[k] != EOL)
        }),
{
    lemma_records_commands(prev, next, force, FIELD_COUNT as nat);
    lemma_records_len(prev, next, force, FIELD_COUNT as nat);
}

proof fn lemma_records_len(prev: VehicleState, next: VehicleState, force: bool, n: nat)
    requires
        n <= FIELD_COUNT,
    ensures
        records_upto(prev, next, force, n).len() == 0 || records_upto(prev, next, force, n).len()
            >= 2,
    decreases n,
{
    if n > 0 {
        lemma_records_len(prev, next, force, (n - 1) as nat);
        lemma_decimal_shape(next.wire_fields()[n - 1].1);
    }
}

/// A frame that is not forced is empty exactly when the two states are equal.
pub proof fn lemma_diff_empty_iff_equal(prev: VehicleState, next: VehicleState)
    ensures
        encode_diff(prev, next, false).len() == 0 <==> prev == next,
{
    lemma_records_commands(prev, next, false, FIELD_COUNT as nat);
    let p = prev.wire_fields();
    let n = next.wire_fields();
    if encode_diff(prev, next, false).len() == 0 {
        assert(!field_sent(prev, next, false, 0));
        assert(!field_sent(prev, next, false, 1));
        assert(!field_sent(prev, next, false, 2));
        assert(!field_sent(prev, next, false, 3));
        assert(!field_sent(prev, next, false, 4));
        assert(!field_sent(prev, next, false, 5));
        assert(!field_sent(prev, next, false, 6));
        assert(!field_sent(prev, next, false, 7));
        assert(!field_sent(prev, next, false, 8));
        assert(!field_sent(prev, next, false, 9));
        assert(!field_sent(prev, next, false, 10));
        assert(!field_sent(prev, next, false, 11));
        assert(!field_sent(prev, next, false, 12));
        assert(!field_sent(prev, next, false, 13));
        assert(!field_sent(prev, next, false, 14));
        assert(!field_sent(prev, next, false, 15));
        assert(!field_sent(prev, next, false, 16));
        assert(prev == next);
    }
}

/// Comparing a state with itself gives the empty frame.
pub proof fn lemma_diff_of_equal_states(s: VehicleState)
    ensures
        encode_diff(s, s, false) == Seq::<u8>::empty(),
{
    lemma_diff_empty_iff_equal(s, s);
}

proof fn lemma_forced_records(
    prev: VehicleState,
    other: VehicleState,
    next: VehicleState,
    n: nat,
)
    requires
        n <= FIELD_COUNT,
    ensures
        records_upto(prev, next, true, n) == records_upto(other, next, true, n),
        sent_commands(prev, next, true, n) == Seq::new(
            n,
            |i: int| next.wire_fields()[i].0.code_spec(),
        ),
    decreases n,
{
    if n > 0 {
        lemma_forced_records(prev, other, next, (n - 1) as nat);
    }
}

/// A forced frame holds one record for every field, whatever the state
/// before was, and so is never empty.
pub proof fn lemma_forced_diff(prev: VehicleState, other: VehicleState, next: VehicleState)
    ensures
        encode_diff(prev, next, true) == encode_diff(other, next, true),
        encode_diff(prev, next, true).len() > 0,
        encode_diff(prev, next, true).last() == EOL,
        command_bytes(encode_diff(prev, next, true)) == Seq::new(
            FIELD_COUNT as nat,
            |i: int| next.wire_fields()[i].0.code_spec(),
        ),
{
    lemma_forced_records(prev, other, next, FIELD_COUNT as nat);
    lemma_frame_commands(prev, next, true);
    lemma_records_commands(prev, next, true, FIELD_COUNT as nat);
}

} // verus!
