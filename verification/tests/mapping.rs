use omsi2komsi::field::{SemanticField, FIELD_SLOTS};
use omsi2komsi::mapping::{
    find_name, MappingDirective, VariableMap, PLUGIN_VARIABLES, SLOT_CAPACITY,
};
use omsi2komsi::text::{trimmed, white_space};

fn names(list: &[&str]) -> Vec<String> {
    list.iter().map(|s| String::from(*s)).collect()
}

fn directive(target: SemanticField, sources: &str) -> MappingDirective {
    MappingDirective { target, sources: String::from(sources) }
}

#[test]
fn mapping_resolution() {
    let system = names(&[]);
    let vehicle = names(&["speed", "ignition"]);
    let table = VariableMap::build(&system, &vehicle, &vec![directive(SemanticField::Speed, "speed")]);
    assert_eq!(table.resolve(0), Some(SemanticField::Speed));
    assert_eq!(table.resolve(1), None);
}

#[test]
fn mapping_resolution_with_system_names_only() {
    let system = names(&["speed", "ignition"]);
    let vehicle = names(&[]);
    let table = VariableMap::build(&system, &vehicle, &vec![directive(SemanticField::Speed, "speed")]);
    assert_eq!(table.resolve(0), Some(SemanticField::Speed));
    assert_eq!(table.resolve(1), None);
}

#[test]
fn empty_table_resolves_nothing() {
    let table = VariableMap::new();
    for i in 0..SLOT_CAPACITY + 5 {
        assert_eq!(table.resolve(i), None);
    }
    let built = VariableMap::build(&names(&["a"]), &names(&["b"]), &vec![]);
    assert_eq!(built.resolve(0), None);
    assert_eq!(built.resolve(1), None);
}

#[test]
fn vehicle_names_are_counted_on_from_the_system_names() {
    let system = names(&["time", "day"]);
    let vehicle = names(&["velocity", "door_0", "door_1"]);
    let table = VariableMap::build(
        &system,
        &vehicle,
        &vec![
            directive(SemanticField::Time, "time"),
            directive(SemanticField::Speed, "velocity"),
            directive(SemanticField::SecondDoorLight, "door_1"),
        ],
    );
    assert_eq!(table.resolve(0), Some(SemanticField::Time));
    assert_eq!(table.resolve(1), None);
    assert_eq!(table.resolve(2), Some(SemanticField::Speed));
    assert_eq!(table.resolve(3), None);
    assert_eq!(table.resolve(4), Some(SemanticField::SecondDoorLight));
}

#[test]
fn system_names_are_searched_first() {
    let system = names(&["light"]);
    let vehicle = names(&["light", "brake"]);
    let table =
        VariableMap::build(&system, &vehicle, &vec![directive(SemanticField::MainLight, "light")]);
    assert_eq!(table.resolve(0), Some(SemanticField::MainLight));
    assert_eq!(table.resolve(1), None);
}

#[test]
fn first_of_two_equal_names_is_bound() {
    let vehicle = names(&["a", "b", "a"]);
    let table =
        VariableMap::build(&names(&[]), &vehicle, &vec![directive(SemanticField::Fuel, "a")]);
    assert_eq!(table.resolve(0), Some(SemanticField::Fuel));
    assert_eq!(table.resolve(2), None);
}

#[test]
fn sources_are_split_trimmed_and_lowercased() {
    let vehicle = names(&["door_0", "door_1", "door_2", "x"]);
    let table = VariableMap::build(
        &names(&[]),
        &vehicle,
        &vec![directive(SemanticField::DoorLoop, "  Door_0 ,DOOR_2\t, unknown,, ")],
    );
    assert_eq!(table.resolve(0), Some(SemanticField::DoorLoop));
    assert_eq!(table.resolve(1), None);
    assert_eq!(table.resolve(2), Some(SemanticField::DoorLoop));
    assert_eq!(table.resolve(3), None);
}

#[test]
fn names_in_the_lists_are_taken_as_they_stand() {
    let vehicle = names(&["Speed"]);
    let table =
        VariableMap::build(&names(&[]), &vehicle, &vec![directive(SemanticField::Speed, "Speed")]);
    assert_eq!(table.resolve(0), None);
}

#[test]
fn last_directive_wins_a_variable() {
    let vehicle = names(&["a", "b"]);
    let table = VariableMap::build(
        &names(&[]),
        &vehicle,
        &vec![
            directive(SemanticField::Speed, "a, b"),
            directive(SemanticField::MaxSpeed, "b"),
        ],
    );
    assert_eq!(table.resolve(0), Some(SemanticField::Speed));
    assert_eq!(table.resolve(1), Some(SemanticField::MaxSpeed));
}

#[test]
fn variables_beyond_the_capacity_are_dropped() {
    let system: Vec<String> = (0..SLOT_CAPACITY - 1).map(|i| format!("s{}", i)).collect();
    let vehicle = names(&["last", "over"]);
    let table = VariableMap::build(
        &system,
        &vehicle,
        &vec![
            directive(SemanticField::Speed, "last"),
            directive(SemanticField::Fuel, "over"),
            directive(SemanticField::Ignition, "s0"),
        ],
    );
    assert_eq!(table.resolve(0), Some(SemanticField::Ignition));
    assert_eq!(table.resolve(SLOT_CAPACITY - 1), Some(SemanticField::Speed));
    assert_eq!(table.resolve(SLOT_CAPACITY), None);
    let many: Vec<String> = (0..SLOT_CAPACITY + 3).map(|i| format!("s{}", i)).collect();
    let table = VariableMap::build(
        &many,
        &vehicle,
        &vec![directive(SemanticField::Speed, "last, s100, s99")],
    );
    assert_eq!(table.resolve(99), Some(SemanticField::Speed));
    assert_eq!(table.resolve(100), None);
    assert_eq!(table.resolve(103), None);
}

#[test]
fn bind_name_takes_the_name_as_it_stands() {
    let system = names(&["a"]);
    let vehicle = names(&["b"]);
    let mut table = VariableMap::new();
    table.bind_name(&system, &vehicle, SemanticField::Year, &String::from(" b"));
    assert_eq!(table.resolve(1), None);
    table.bind_name(&system, &vehicle, SemanticField::Year, &String::from("b"));
    assert_eq!(table.resolve(1), Some(SemanticField::Year));
    assert_eq!(table.resolve(0), None);
}

#[test]
fn find_name_gives_the_first_place() {
    let list = names(&["x", "y", "x"]);
    assert_eq!(find_name(&list, &String::from("x")), Some(0));
    assert_eq!(find_name(&list, &String::from("y")), Some(1));
    assert_eq!(find_name(&list, &String::from("z")), None);
    assert_eq!(find_name(&names(&[]), &String::from("x")), None);
}

#[test]
fn trimming_follows_the_standard_library() {
    let samples = [
        "",
        " ",
        "a",
        "  a b  ",
        "\t\r\n x \u{a0}",
        "\u{2003}wide\u{3000}",
        "\u{85}next line\u{1680}",
        "inner \u{2028} kept",
        "\u{200b}zero width stays\u{200b}",
        "\u{feff}bom stays",
    ];
    for sample in samples {
        assert_eq!(trimmed(sample), sample.trim());
    }
}

#[test]
fn white_space_follows_the_standard_library() {
    for code in 0..0x11_0000u32 {
        if let Some(c) = char::from_u32(code) {
            assert_eq!(white_space(c), c.is_whitespace(), "U+{:04X}", code);
        }
    }
}

#[test]
fn table_in_order_feeds_every_signal_from_its_own_place() {
    let table = VariableMap::in_order(FIELD_SLOTS);
    for i in 0..FIELD_SLOTS {
        assert_eq!(table.resolve(i), SemanticField::from_index(i));
    }
    assert_eq!(table.resolve(0), Some(SemanticField::Ignition));
    assert_eq!(table.resolve(12), Some(SemanticField::Fuel));
    assert_eq!(table.resolve(FIELD_SLOTS), None);
    assert_eq!(table.resolve(SLOT_CAPACITY), None);
    let all = VariableMap::in_order(usize::MAX);
    assert_eq!(all.resolve(FIELD_SLOTS - 1), Some(SemanticField::Odometer));
    assert_eq!(all.resolve(FIELD_SLOTS), None);
}

#[test]
fn table_in_order_stops_at_the_count() {
    assert_eq!(PLUGIN_VARIABLES, 14);
    let table = VariableMap::in_order(PLUGIN_VARIABLES);
    for i in 0..PLUGIN_VARIABLES {
        assert_eq!(table.resolve(i), SemanticField::from_index(i));
    }
    assert_eq!(table.resolve(13), Some(SemanticField::StopBrakeLight));
    for i in PLUGIN_VARIABLES..SLOT_CAPACITY {
        assert_eq!(table.resolve(i), None);
    }
    let none = VariableMap::in_order(0);
    assert_eq!(none.resolve(0), None);
}

#[test]
fn bind_sources_binds_every_name() {
    let system = names(&["clock"]);
    let vehicle = names(&["left", "right"]);
    let mut table = VariableMap::new();
    table.bind_sources(&system, &vehicle, SemanticField::Time, "Clock");
    table.bind_sources(&system, &vehicle, SemanticField::IndicatorLeft, " LEFT ,nothing");
    table.bind_sources(&system, &vehicle, SemanticField::IndicatorRight, "");
    assert_eq!(table.resolve(0), Some(SemanticField::Time));
    assert_eq!(table.resolve(1), Some(SemanticField::IndicatorLeft));
    assert_eq!(table.resolve(2), None);
}
