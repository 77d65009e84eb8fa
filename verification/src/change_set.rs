//! The effects of one transaction: its writes and the events it emitted.
use crate::write_op::{StateKey, WriteOp};
use vstd::prelude::*;

verus! {

/// An event emitted during execution. It has no identity beyond its place in
/// the change set.
#[derive(Clone, Debug, PartialEq, Eq)]
pub struct ContractEvent {
    sequence_number: u64,
    event_data: Vec<u8>,
}

impl ContractEvent {
    /// The payload of the event.
    pub closed spec fn spec_event_data(&self) -> Seq<u8> {
        self.event_data@
    }

    pub closed spec fn spec_sequence_number(&self) -> u64 {
        self.sequence_number
    }

    pub fn new(sequence_number: u64, event_data: Vec<u8>) -> (event: Self)
        ensures
            event.spec_sequence_number() == sequence_number,
            event.spec_event_data() == event_data@,
    {
        ContractEvent { sequence_number, event_data }
    }

    #[verifier::when_used_as_spec(spec_sequence_number)]
    pub fn sequence_number(&self) -> (n: u64)
        ensures
            n == self.spec_sequence_number(),
    {
        self.sequence_number
    }

    pub fn event_data(&self) -> (data: &Vec<u8>)
        ensures
            data@ == self.spec_event_data(),
    {
        &self.event_data
    }
}

/// The bytes that one write entry counts for against the write limits: the
/// payload and the key's abstract size, or nothing for a deletion.
pub open spec fn write_entry_size(key: StateKey, op: WriteOp) -> nat {
    match op.payload() {
        Some(data) => data.len() + key.size() as nat,
        None => 0,
    }
}

/// The sum of a sequence of sizes.
pub open spec fn total_size(sizes: Seq<nat>) -> nat
    decreases sizes.len(),
{
    if sizes.len() == 0 {
        0
    } else {
        total_size(sizes.drop_last()) + sizes.last()
    }
}

/// The complete effects of one transaction: write entries and events, each in
/// the order in which they are to be checked.
#[derive(Clone, Debug, PartialEq, Eq)]
pub struct ChangeSet {
    write_set: Vec<(StateKey, WriteOp)>,
    events: Vec<ContractEvent>,
}

impl ChangeSet {
    /// The write entries, in order.
    pub closed spec fn spec_write_set(&self) -> Seq<(StateKey, WriteOp)> {
        self.write_set@
    }

    /// The events, in order.
    pub closed spec fn spec_events(&self) -> Seq<ContractEvent> {
        self.events@
    }

    /// What each write entry counts for, in order.
    pub open spec fn write_sizes(&self) -> Seq<nat> {
        Seq::new(
            self.spec_write_set().len(),
            |i: int| write_entry_size(self.spec_write_set()[i].0, self.spec_write_set()[i].1),
        )
    }

    /// The payload length of each event, in order.
    pub open spec fn event_sizes(&self) -> Seq<nat> {
        Seq::new(
            self.spec_events().len(),
            |i: int| self.spec_events()[i].spec_event_data().len(),
        )
    }

    pub fn new(write_set: Vec<(StateKey, WriteOp)>, events: Vec<ContractEvent>) -> (cs: Self)
        ensures
            cs.spec_write_set() == write_set@,
            cs.spec_events() == events@,
    {
        ChangeSet { write_set, events }
    }

    pub fn write_set(&self) -> (entries: &Vec<(StateKey, WriteOp)>)
        ensures
            entries@ == self.spec_write_set(),
    {
        &self.write_set
    }

    pub fn events(&self) -> (events: &Vec<ContractEvent>)
        ensures
            events@ == self.spec_events(),
    {
        &self.events
    }
}

/// The sum of a prefix is the sum of the prefix before it and the entry
/// between them.
pub proof fn lemma_total_size_step(sizes: Seq<nat>, i: int)
    requires
        0 <= i < sizes.len(),
    ensures
        total_size(sizes.take(i + 1)) == total_size(sizes.take(i)) + sizes[i],
{
    assert(sizes.take(i + 1).drop_last() =~= sizes.take(i));
}

/// No prefix sums to more than the whole.
pub proof fn lemma_total_size_prefix(sizes: Seq<nat>, i: int)
    requires
        0 <= i <= sizes.len(),
    ensures
        total_size(sizes.take(i)) <= total_size(sizes),
    decreases sizes.len() - i,
{
    if i == sizes.len() {
        assert(sizes.take(i) =~= sizes);
    } else {
        lemma_total_size_step(sizes, i);
        lemma_total_size_prefix(sizes, i + 1);
    }
}

/// Sizes that are all zero sum to zero.
pub proof fn lemma_total_size_of_zeros(sizes: Seq<nat>)
    requires
        forall|i: int| 0 <= i < sizes.len() ==> sizes[i] == 0,
    ensures
        total_size(sizes) == 0,
    decreases sizes.len(),
{
    if sizes.len() > 0 {
        lemma_total_size_of_zeros(sizes.drop_last());
    }
}

/// An entry put in at any place adds its size to the sum.
pub proof fn lemma_total_size_insert(sizes: Seq<nat>, i: int, size: nat)
    requires
        0 <= i <= sizes.len(),
    ensures
        total_size(sizes.insert(i, size)) == total_size(sizes) + size,
    decreases sizes.len(),
{
    let with = sizes.insert(i, size);
    if i == sizes.len() {
        assert(with.drop_last() =~= sizes);
    } else {
        assert(with.drop_last() =~= sizes.drop_last().insert(i, size));
        lemma_total_size_insert(sizes.drop_last(), i, size);
    }
}

} // verus!
