//! The table that says which simulator variable feeds which signal.
//!
//! The simulator numbers its variables: first those of the system, then
//! those of the vehicle. A directive names a signal and, separated by
//! commas, the variables that feed it. Where two directives name the same
//! variable, the one that is applied last has it.

use vstd::prelude::*;
use vstd::string::StrSliceExecFns;
use crate::field::{SemanticField, FIELD_SLOTS};
use crate::text::{first_comma, lemma_comma_from, normalize, to_lowercase, trimmed};

verus! {

/// How many variables the table has room for. A variable with a higher
/// number is never bound.
pub const SLOT_CAPACITY: usize = 100;

/// How many variables the plugin file of the bridge lists: the first
/// signals, from the ignition to the light of the bus stop brake.
pub const PLUGIN_VARIABLES: usize = 14;

/// One line of the mapping: the signal, and the names of the variables that
/// feed it, separated by commas.
pub struct MappingDirective {
    pub target: SemanticField,
    pub sources: String,
}

/// The first place at or after `from` where `name` stands in `names`.
pub open spec fn position_from(names: Seq<Seq<char>>, name: Seq<char>, from: int) -> Option<int>
    decreases names.len() - from,
{
    if from < 0 || from >= names.len() {
        None
    } else if names[from] == name {
        Some(from)
    } else {
        position_from(names, name, from + 1)
    }
}

/// The first place where `name` stands in `names`.
pub open spec fn position(names: Seq<Seq<char>>, name: Seq<char>) -> Option<int> {
    position_from(names, name, 0)
}

/// The number of the variable called `name`: its place among the variables
/// of the system or, if it is none of them, its place among those of the
/// vehicle counted on from the last variable of the system.
pub open spec fn name_slot(system: Seq<Seq<char>>, vehicle: Seq<Seq<char>>, name: Seq<char>)
    -> Option<int> {
    match position(system, name) {
        Some(i) => Some(i),
        None => match position(vehicle, name) {
            Some(j) => Some(system.len() + j),
            None => None,
        },
    }
}

/// The table after variable `slot` was bound to `target`. A variable that
/// was not found, or that the table has no room for, changes nothing.
pub open spec fn bind_slot(
    table: Map<int, SemanticField>,
    slot: Option<int>,
    target: SemanticField,
) -> Map<int, SemanticField> {
    match slot {
        Some(i) => if 0 <= i < SLOT_CAPACITY {
            table.insert(i, target)
        } else {
            table
        },
        None => table,
    }
}

/// The table after the variable called `name` was bound to `target`.
pub open spec fn bind_name(
    table: Map<int, SemanticField>,
    system: Seq<Seq<char>>,
    vehicle: Seq<Seq<char>>,
    target: SemanticField,
    name: Seq<char>,
) -> Map<int, SemanticField> {
    bind_slot(table, name_slot(system, vehicle, name), target)
}

/// The table after every name in `sources` was bound to `target`, from left
/// to right. The names are separated by commas; white space around a name
/// and the case of its letters do not count.
pub open spec fn bind_sources(
    table: Map<int, SemanticField>,
    system: Seq<Seq<char>>,
    vehicle: Seq<Seq<char>>,
    target: SemanticField,
    sources: Seq<char>,
) -> Map<int, SemanticField>
    decreases sources.len(),
{
    match first_comma(sources) {
        None => bind_name(table, system, vehicle, target, normalize(sources)),
        Some(i) => if 0 <= i < sources.len() {
            bind_sources(
                bind_name(table, system, vehicle, target, normalize(sources.take(i))),
                system,
                vehicle,
                target,
                sources.skip(i + 1),
            )
        } else {
            table
        },
    }
}

/// The table after the first `n` directives were applied in their order.
pub open spec fn bind_directives(
    table: Map<int, SemanticField>,
    system: Seq<Seq<char>>,
    vehicle: Seq<Seq<char>>,
    directives: Seq<MappingDirective>,
    n: nat,
) -> Map<int, SemanticField>
    decreases n,
{
    if n == 0 {
        table
    } else {
        bind_sources(
            bind_directives(table, system, vehicle, directives, (n - 1) as nat),
            system,
            vehicle,
            directives[n - 1].target,
            directives[n - 1].sources@,
        )
    }
}

/// What the table says of variable `index`.
pub open spec fn resolve_slot(table: Map<int, SemanticField>, index: int) -> Option<
    SemanticField,
> {
    if table.contains_key(index) {
        Some(table[index])
    } else {
        None
    }
}

/// Whether a table feeds the signals from the first `count` variables in
/// their order and binds no other variable.
pub open spec fn is_in_order(table: Map<int, SemanticField>, count: nat) -> bool {
    &&& forall|i: int|
        0 <= i < count && i < FIELD_SLOTS ==> #[trigger] table.contains_key(i)
            && table[i].index_spec() == i
    &&& forall|i: int| table.contains_key(i) ==> 0 <= i < count && i < FIELD_SLOTS
}

/// Finds the first place where `name` stands in `names`.
pub fn find_name(names: &Vec<String>, name: &String) -> (place: Option<usize>)
    ensures
        place matches Some(i) ==> position(names.deep_view(), name@) == Some(i as int),
        place is None ==> position(names.deep_view(), name@) is None,
{
    let mut i: usize = 0;
    while i < names.len()
        invariant
            i <= names.len(),
            position(names.deep_view(), name@) == position_from(
                names.deep_view(),
                name@,
                i as int,
            ),
        decreases names.len() - i,
    {
        if names[i] == *name {
            return Some(i);
        }
        i += 1;
    }
    None
}

/// The table of the variables that are bound to a signal.
pub struct VariableMap {
    slots: [Option<SemanticField>; SLOT_CAPACITY],
}

impl View for VariableMap {
    type V = Map<int, SemanticField>;

    /// The bound variables, each with its signal.
    closed spec fn view(&self) -> Map<int, SemanticField> {
        Map::new(
            |i: int| 0 <= i < SLOT_CAPACITY && self.slots@[i] is Some,
            |i: int| self.slots@[i]->0,
        )
    }
}

impl VariableMap {
    /// A table in which no variable is bound.
    pub fn new() -> (table: VariableMap)
        ensures
            table@ == Map::<int, SemanticField>::empty(),
    {
        let table = VariableMap { slots: [None; SLOT_CAPACITY] };
        table
    }

    /// The table of a simulator that lists its first `count` variables in
    /// the order of the signals: variable `i` feeds the signal with the
    /// place `i`. Where `count` is more than there are signals, every signal
    /// is fed.
    pub fn in_order(count: usize) -> (table: VariableMap)
        ensures
            is_in_order(table@, count as nat),
    {
        let mut table = VariableMap::new();
        let mut i: usize = 0;
        while i < FIELD_SLOTS && i < count
            invariant
                i <= FIELD_SLOTS,
                i <= count,
                forall|j: int|
                    0 <= j < i ==> #[trigger] table@.contains_key(j) && table@[j].index_spec() == j,
                forall|j: int| table@.contains_key(j) ==> 0 <= j < i,
            decreases FIELD_SLOTS - i,
        {
            let ghost before = table@;
            let field = SemanticField::from_index(i);
            table.slots[i] = field;
            assert(table@ =~= before.insert(i as int, field->0));
            i += 1;
        }
        assert forall|j: int| 0 <= j < count && j < FIELD_SLOTS implies #[trigger] table@.contains_key(
            j,
        ) && table@[j].index_spec() == j by {
            assert(0 <= j < i);
        }
        table
    }

    /// Only variables that the table has room for are ever bound.
    pub proof fn lemma_bounded(&self)
        ensures
            forall|i: int| self@.contains_key(i) ==> 0 <= i < SLOT_CAPACITY,
    {
    }

    /// The signal that variable `index` feeds, if it feeds one.
    pub fn resolve(&self, index: usize) -> (field: Option<SemanticField>)
        ensures
            field == resolve_slot(self@, index as int),
    {
        if index < SLOT_CAPACITY {
            self.slots[index]
        } else {
            None
        }
    }

    /// Binds the variable called `name` to `target`. The name is taken as it
    /// stands. The variables of the system are searched first; a name that
    /// is in neither list, or whose number the table has no room for,
    /// changes nothing.
    pub fn bind_name(
        &mut self,
        system: &Vec<String>,
        vehicle: &Vec<String>,
        target: SemanticField,
        name: &String,
    )
        ensures
            final(self)@ == bind_name(
                old(self)@,
                system.deep_view(),
                vehicle.deep_view(),
                target,
                name@,
            ),
    {
        match find_name(system, name) {
            Some(i) => {
                if i < SLOT_CAPACITY {
                    self.slots[i] = Some(target);
                }
            },
            None => {
                match find_name(vehicle, name) {
                    Some(j) => {
                        if system.len() < SLOT_CAPACITY && j < SLOT_CAPACITY - system.len() {
                            let slot: usize = system.len() + j;
                            self.slots[slot] = Some(target);
                        }
                    },
                    None => {},
                }
            },
        }
    }

    /// Binds every variable named in `sources` to `target`, from left to
    /// right. The names are separated by commas; each is looked up without
    /// the white space around it and in lower case.
    pub fn bind_sources(
        &mut self,
        system: &Vec<String>,
        vehicle: &Vec<String>,
        target: SemanticField,
        sources: &str,
    )
        ensures
            final(self)@ == bind_sources(
                old(self)@,
                system.deep_view(),
                vehicle.deep_view(),
                target,
                sources@,
            ),
    {
        let n: usize = sources.unicode_len();
        let mut start: usize = 0;
        let mut i: usize = 0;
        assert(sources@.skip(0) == sources@);
        while i < n
            invariant
                start <= i <= n,
                n == sources@.len(),
                forall|k: int| start <= k < i ==> sources@[k] != ',',
                bind_sources(
                    old(self)@,
                    system.deep_view(),
                    vehicle.deep_view(),
                    target,
                    sources@,
                ) == bind_sources(
                    self@,
                    system.deep_view(),
                    vehicle.deep_view(),
                    target,
                    sources@.skip(start as int),
                ),
            decreases n - i,
        {
            if sources.get_char(i) == ',' {
                let part = sources.substring_char(start, i);
                let name = to_lowercase(trimmed(part));
                proof {
                    let rest = sources@.skip(start as int);
                    lemma_comma_from(rest, 0, i - start);
                    assert(rest.take(i - start) == part@);
                    assert(rest.skip(i - start + 1) == sources@.skip(i + 1));
                }
                self.bind_name(system, vehicle, target, &name);
                start = i + 1;
            }
            i += 1;
        }
        let part = sources.substring_char(start, n);
        let name = to_lowercase(trimmed(part));
        proof {
            let rest = sources@.skip(start as int);
            lemma_comma_from(rest, 0, n - start);
        }
        self.bind_name(system, vehicle, target, &name);
    }

    /// Builds the table from the names of the simulator's variables, those
    /// of the system first, and the directives, applied in their order.
    pub fn build(
        system: &Vec<String>,
        vehicle: &Vec<String>,
        directives: &Vec<MappingDirective>,
    ) -> (table: VariableMap)
        ensures
            table@ == bind_directives(
                Map::<int, SemanticField>::empty(),
                system.deep_view(),
                vehicle.deep_view(),
                directives@,
                directives@.len(),
            ),
    {
        let mut table = VariableMap::new();
        let mut d: usize = 0;
        while d < directives.len()
            invariant
                d <= directives.len(),
                table@ == bind_directives(
                    Map::<int, SemanticField>::empty(),
                    system.deep_view(),
                    vehicle.deep_view(),
                    directives@,
                    d as nat,
                ),
            decreases directives.len() - d,
        {
            table.bind_sources(system, vehicle, directives[d].target, directives[d].sources.as_str());
            d += 1;
        }
        table
    }
}

} // verus!
