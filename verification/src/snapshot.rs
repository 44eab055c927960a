//! The latest value of every signal, written by the telemetry source and
//! read once per tick.

use vstd::prelude::*;
use crate::field::{lemma_index_injective, SemanticField, FIELD_SLOTS};
use crate::mapping::{resolve_slot, VariableMap};
use crate::sample::{cell_value, cell_value_of};

verus! {

/// One cell per signal. A cell holds the magnitude of the latest sample,
/// rounded to a whole number; the fuel cell holds percent.
pub struct SnapshotStore {
    cells: [u32; FIELD_SLOTS],
}

impl SnapshotStore {
    /// What the cell of `field` holds.
    pub closed spec fn value(&self, field: SemanticField) -> u32 {
        self.cells@[field.index_spec() as int]
    }

    /// A store in which every cell holds 0.
    pub fn new() -> (store: SnapshotStore)
        ensures
            forall|field: SemanticField| store.value(field) == 0,
    {
        let store = SnapshotStore { cells: [0u32; FIELD_SLOTS] };
        assert forall|field: SemanticField| store.value(field) == 0 by {
            lemma_index_injective(field, field);
        }
        store
    }

    /// Puts `value` into the cell of `field`; the other cells keep theirs.
    pub fn write(&mut self, field: SemanticField, value: u32)
        ensures
            final(self).value(field) == value,
            forall|other: SemanticField|
                other != field ==> final(self).value(other) == old(self).value(other),
    {
        let i: usize = field.index();
        self.cells[i] = value;
        assert forall|other: SemanticField| other != field implies self.value(other) == old(
            self,
        ).value(other) by {
            lemma_index_injective(other, field);
        }
    }

    /// What the cell of `field` holds.
    pub fn read(&self, field: SemanticField) -> (value: u32)
        ensures
            value == self.value(field),
    {
        self.cells[field.index()]
    }

    /// Takes a sample of simulator variable `index`. If the variable feeds a
    /// signal, the value goes into its cell and the answer is `true`; else
    /// the sample is dropped and nothing changes.
    pub fn push(&mut self, table: &VariableMap, index: usize, value: u32) -> (stored: bool)
        ensures
            stored == (resolve_slot(table@, index as int) is Some),
            match resolve_slot(table@, index as int) {
                Some(field) => final(self).value(field) == value && forall|other: SemanticField|
                    other != field ==> final(self).value(other) == old(self).value(other),
                None => *final(self) == *old(self),
            },
    {
        match table.resolve(index) {
            Some(field) => {
                self.write(field, value);
                true
            },
            None => false,
        }
    }

    /// Takes a sample of simulator variable `index`, given as the bit
    /// pattern of a floating-point number of 32 bits. If the variable feeds
    /// a signal, the sample goes into its cell as a whole number and the
    /// answer is `true`; else the sample is dropped and nothing changes.
    pub fn push_sample(&mut self, table: &VariableMap, index: usize, bits: u32) -> (stored: bool)
        ensures
            stored == (resolve_slot(table@, index as int) is Some),
            match resolve_slot(table@, index as int) {
                Some(field) => final(self).value(field) == cell_value_of(field, bits)
                    && forall|other: SemanticField|
                    other != field ==> final(self).value(other) == old(self).value(other),
                None => *final(self) == *old(self),
            },
    {
        match table.resolve(index) {
            Some(field) => {
                self.write(field, cell_value(field, bits));
                true
            },
            None => false,
        }
    }
}

} // verus!
