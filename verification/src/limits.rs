//! Hard limits on the size of what one transaction may write and emit.
use crate::change_set::{
    lemma_total_size_insert, lemma_total_size_of_zeros, lemma_total_size_prefix,
    lemma_total_size_step, total_size, write_entry_size, ChangeSet,
};
use crate::gas_params::AptosGasParameters;
use crate::write_op::{StateKey, WriteOp};
use vstd::prelude::*;

verus! {

/// One mebibyte.
pub const MB: u64 = 1048576;

/// Why a change set was turned away. There is one reason only: which cap was
/// hit is not told.
#[derive(Clone, Copy, Debug, PartialEq, Eq)]
pub enum StatusCode {
    StorageWriteLimitReached,
}

/// The caps on a change set, and the gas feature version they were made for.
#[derive(Clone, Copy, Debug)]
pub struct ChangeSetConfigs {
    gas_feature_version: u64,
    max_bytes_per_write_op: u64,
    max_bytes_all_write_ops_per_transaction: u64,
    max_bytes_per_event: u64,
    max_bytes_all_events_per_transaction: u64,
}

/// What a `ChangeSetConfigs` holds.
pub struct ChangeSetLimits {
    pub gas_feature_version: u64,
    pub max_bytes_per_write_op: u64,
    pub max_bytes_all_write_ops_per_transaction: u64,
    pub max_bytes_per_event: u64,
    pub max_bytes_all_events_per_transaction: u64,
}

impl View for ChangeSetConfigs {
    type V = ChangeSetLimits;

    closed spec fn view(&self) -> ChangeSetLimits {
        ChangeSetLimits {
            gas_feature_version: self.gas_feature_version,
            max_bytes_per_write_op: self.max_bytes_per_write_op,
            max_bytes_all_write_ops_per_transaction: self.max_bytes_all_write_ops_per_transaction,
            max_bytes_per_event: self.max_bytes_per_event,
            max_bytes_all_events_per_transaction: self.max_bytes_all_events_per_transaction,
        }
    }
}

/// No cap at all, at the given gas feature version.
pub open spec fn unlimited_limits(gas_feature_version: u64) -> ChangeSetLimits {
    ChangeSetLimits {
        gas_feature_version,
        max_bytes_per_write_op: u64::MAX,
        max_bytes_all_write_ops_per_transaction: u64::MAX,
        max_bytes_per_event: u64::MAX,
        max_bytes_all_events_per_transaction: u64::MAX,
    }
}

/// The fixed caps of gas feature versions 3 and 4, at the given version: one
/// mebibyte per write and per event, ten for all events of a transaction, and
/// none for all its writes.
pub open spec fn fixed_limits(gas_feature_version: u64) -> ChangeSetLimits {
    ChangeSetLimits {
        gas_feature_version,
        max_bytes_per_write_op: MB,
        max_bytes_all_write_ops_per_transaction: u64::MAX,
        max_bytes_per_event: MB,
        max_bytes_all_events_per_transaction: (10 * MB) as u64,
    }
}

/// The limits of gas feature version 3 itself.
pub open spec fn feature_version_3_limits() -> ChangeSetLimits {
    fixed_limits(3)
}

/// The caps that the raw parameters ask for.
pub open spec fn limits_from_gas_params(
    gas_feature_version: u64,
    gas_params: AptosGasParameters,
) -> ChangeSetLimits {
    ChangeSetLimits {
        gas_feature_version,
        max_bytes_per_write_op: gas_params.txn.max_bytes_per_write_op@,
        max_bytes_all_write_ops_per_transaction:
            gas_params.txn.max_bytes_all_write_ops_per_transaction@,
        max_bytes_per_event: gas_params.txn.max_bytes_per_event@,
        max_bytes_all_events_per_transaction: gas_params.txn.max_bytes_all_events_per_transaction@,
    }
}

/// The limits in force at a gas feature version: the caps of the raw
/// parameters from version 5 on, fixed ones at versions 3 and 4, none before.
/// Whatever the caps, the limits hold the version they were resolved for.
pub open spec fn resolved_limits(
    feature_version: u64,
    gas_params: AptosGasParameters,
) -> ChangeSetLimits {
    if feature_version >= 5 {
        limits_from_gas_params(feature_version, gas_params)
    } else if feature_version >= 3 {
        fixed_limits(feature_version)
    } else {
        unlimited_limits(feature_version)
    }
}

/// No size is above `max_each`, and all of them together are not above
/// `max_total`. A size equal to its cap is within it.
pub open spec fn within_limits(sizes: Seq<nat>, max_each: nat, max_total: nat) -> bool {
    &&& forall|i: int| 0 <= i < sizes.len() ==> sizes[i] <= max_each
    &&& total_size(sizes) <= max_total
}

impl ChangeSetLimits {
    /// Whether the creation of a resource counts as a modification, as it did
    /// at every gas feature version before 3.
    pub open spec fn legacy_resource_creation_as_modification(&self) -> bool {
        self.gas_feature_version < 3
    }

    /// The writes are within the write caps and the events within the event
    /// caps. The two budgets are separate.
    pub open spec fn accepts(&self, change_set: ChangeSet) -> bool {
        &&& within_limits(
            change_set.write_sizes(),
            self.max_bytes_per_write_op as nat,
            self.max_bytes_all_write_ops_per_transaction as nat,
        )
        &&& within_limits(
            change_set.event_sizes(),
            self.max_bytes_per_event as nat,
            self.max_bytes_all_events_per_transaction as nat,
        )
    }
}

impl ChangeSetConfigs {
    pub fn unlimited_at_gas_feature_version(gas_feature_version: u64) -> (r: Self)
        ensures
            r@ == unlimited_limits(gas_feature_version),
    {
        Self::new_impl(gas_feature_version, u64::MAX, u64::MAX, u64::MAX, u64::MAX)
    }

    pub fn new(feature_version: u64, gas_params: &AptosGasParameters) -> (r: Self)
        ensures
            r@ == resolved_limits(feature_version, *gas_params),
    {
        if feature_version >= 5 {
            Self::from_gas_params(feature_version, gas_params)
        } else if feature_version >= 3 {
            Self::new_impl(feature_version, MB, u64::MAX, MB, 10 * MB)
        } else {
            Self::unlimited_at_gas_feature_version(feature_version)
        }
    }

    pub fn new_impl(
        gas_feature_version: u64,
        max_bytes_per_write_op: u64,
        max_bytes_all_write_ops_per_transaction: u64,
        max_bytes_per_event: u64,
        max_bytes_all_events_per_transaction: u64,
    ) -> (r: Self)
        ensures
            r@ == (ChangeSetLimits {
                gas_feature_version,
                max_bytes_per_write_op,
                max_bytes_all_write_ops_per_transaction,
                max_bytes_per_event,
                max_bytes_all_events_per_transaction,
            }),
    {
        Self {
            gas_feature_version,
            max_bytes_per_write_op,
            max_bytes_all_write_ops_per_transaction,
            max_bytes_per_event,
            max_bytes_all_events_per_transaction,
        }
    }

    /// The gas feature version that the limits were made for.
    pub fn gas_feature_version(&self) -> (version: u64)
        ensures
            version == self@.gas_feature_version,
    {
        self.gas_feature_version
    }

    /// Whether consumers must treat the creation of a resource as a
    /// modification, as all versions before 3 did.
    pub fn legacy_resource_creation_as_modification(&self) -> (legacy: bool)
        ensures
            legacy == self@.legacy_resource_creation_as_modification(),
    {
        self.gas_feature_version < 3
    }

    pub fn for_feature_version_3() -> (r: Self)
        ensures
            r@ == feature_version_3_limits(),
    {
        Self::new_impl(3, MB, u64::MAX, MB, 10 * MB)
    }

    pub fn from_gas_params(gas_feature_version: u64, gas_params: &AptosGasParameters) -> (r: Self)
        ensures
            r@ == limits_from_gas_params(gas_feature_version, *gas_params),
    {
        Self::new_impl(
            gas_feature_version,
            gas_params.txn.max_bytes_per_write_op.value(),
            gas_params.txn.max_bytes_all_write_ops_per_transaction.value(),
            gas_params.txn.max_bytes_per_event.value(),
            gas_params.txn.max_bytes_all_events_per_transaction.value(),
        )
    }

    /// Holds a change set to the caps: the writes first, entry by entry, then
    /// the events. It passes exactly when no entry is above its cap and
    /// neither running total ever is.
    pub fn check_change_set(&self, change_set: &ChangeSet) -> (r: Result<(), StatusCode>)
        ensures
            r.is_ok() <==> self@.accepts(*change_set),
            r.is_err() ==> r == Err::<(), StatusCode>(StatusCode::StorageWriteLimitReached),
    {
        let entries = change_set.write_set();
        let ghost write_sizes = change_set.write_sizes();
        let mut write_set_size: u128 = 0;
        let mut i: usize = 0;
        while i < entries.len()
            invariant
                i <= entries.len(),
                entries@ == change_set.spec_write_set(),
                write_sizes == change_set.write_sizes(),
                write_set_size == total_size(write_sizes.take(i as int)),
                write_set_size <= self.max_bytes_all_write_ops_per_transaction,
                forall|j: int| 0 <= j < i ==> write_sizes[j] <= self.max_bytes_per_write_op,
            decreases entries.len() - i,
        {
            proof {
                lemma_total_size_step(write_sizes, i as int);
                lemma_total_size_prefix(write_sizes, i + 1);
            }
            let key = &entries[i].0;
            let op = &entries[i].1;
            if let Some(bytes) = op.bytes() {
                let write_op_size: u128 = bytes.len() as u128 + key.size() as u128;
                assert(write_op_size == write_sizes[i as int]);
                if write_op_size > self.max_bytes_per_write_op as u128 {
                    return Err(StatusCode::StorageWriteLimitReached);
                }
                write_set_size += write_op_size;
            }
            if write_set_size > self.max_bytes_all_write_ops_per_transaction as u128 {
                return Err(StatusCode::StorageWriteLimitReached);
            }
            i += 1;
        }
        assert(write_sizes.take(i as int) =~= write_sizes);

        let events = change_set.events();
        let ghost event_sizes = change_set.event_sizes();
        let mut total_event_size: u128 = 0;
        let mut k: usize = 0;
        while k < events.len()
            invariant
                k <= events.len(),
                events@ == change_set.spec_events(),
                event_sizes == change_set.event_sizes(),
                total_event_size == total_size(event_sizes.take(k as int)),
                total_event_size <= self.max_bytes_all_events_per_transaction,
                forall|j: int| 0 <= j < k ==> event_sizes[j] <= self.max_bytes_per_event,
            decreases events.len() - k,
        {
            proof {
                lemma_total_size_step(event_sizes, k as int);
                lemma_total_size_prefix(event_sizes, k + 1);
            }
            let size: u128 = events[k].event_data().len() as u128;
            assert(size == event_sizes[k as int]);
            if size > self.max_bytes_per_event as u128 {
                return Err(StatusCode::StorageWriteLimitReached);
            }
            total_event_size += size;
            if total_event_size > self.max_bytes_all_events_per_transaction as u128 {
                return Err(StatusCode::StorageWriteLimitReached);
            }
            k += 1;
        }
        assert(event_sizes.take(k as int) =~= event_sizes);

        Ok(())
    }
}

/// Before gas feature version 3 the raw parameters have no say: whatever they
/// hold, there is no cap.
pub proof fn lemma_no_caps_before_version_3(
    feature_version: u64,
    gas_params: AptosGasParameters,
    other_gas_params: AptosGasParameters,
)
    requires
        feature_version < 3,
    ensures
        resolved_limits(feature_version, gas_params) == unlimited_limits(feature_version),
        resolved_limits(feature_version, gas_params) == resolved_limits(
            feature_version,
            other_gas_params,
        ),
{
}

/// The limits resolved for a gas feature version hold that version, whatever
/// the version and the raw parameters are.
pub proof fn lemma_limits_hold_their_version(
    feature_version: u64,
    gas_params: AptosGasParameters,
)
    ensures
        resolved_limits(feature_version, gas_params).gas_feature_version == feature_version,
        unlimited_limits(feature_version).gas_feature_version == feature_version,
{
}

/// At versions 3 and 4 the caps are fixed, whatever the raw parameters hold:
/// one mebibyte per write and per event, ten for all events, none for all
/// writes. The two versions differ in the version held and in nothing else.
pub proof fn lemma_fixed_caps_at_versions_3_and_4(
    feature_version: u64,
    gas_params: AptosGasParameters,
)
    requires
        3 <= feature_version < 5,
    ensures
        resolved_limits(feature_version, gas_params) == fixed_limits(feature_version),
        resolved_limits(3, gas_params) == feature_version_3_limits(),
        resolved_limits(feature_version, gas_params).max_bytes_per_write_op == 1048576,
        resolved_limits(feature_version, gas_params).max_bytes_all_write_ops_per_transaction
            == u64::MAX,
        resolved_limits(feature_version, gas_params).max_bytes_per_event == 1048576,
        resolved_limits(feature_version, gas_params).max_bytes_all_events_per_transaction
            == 10485760,
{
}

/// The limits resolved for a gas feature version treat the creation of a
/// resource as a modification exactly at versions 0, 1 and 2.
pub proof fn lemma_legacy_creation_rule_by_version(
    feature_version: u64,
    gas_params: AptosGasParameters,
)
    ensures
        resolved_limits(feature_version, gas_params).legacy_resource_creation_as_modification()
            <==> feature_version < 3,
        unlimited_limits(feature_version).legacy_resource_creation_as_modification()
            <==> feature_version < 3,
{
}

/// One size above the per-entry cap puts the whole sequence out of limits,
/// however small the other entries are.
pub proof fn lemma_oversize_entry_rejects(
    sizes: Seq<nat>,
    i: int,
    max_each: nat,
    max_total: nat,
)
    requires
        0 <= i < sizes.len(),
        sizes[i] > max_each,
    ensures
        !within_limits(sizes, max_each, max_total),
{
}

/// Rejection is decided at the first offending entry: once the entries up to
/// some place are out of limits, no entry after them can bring the sequence
/// back within them.
pub proof fn lemma_rejection_decided_by_prefix(
    sizes: Seq<nat>,
    k: int,
    max_each: nat,
    max_total: nat,
)
    requires
        0 <= k <= sizes.len(),
        !within_limits(sizes.take(k), max_each, max_total),
    ensures
        !within_limits(sizes, max_each, max_total),
{
    let prefix = sizes.take(k);
    if total_size(prefix) > max_total {
        lemma_total_size_prefix(sizes, k);
    } else {
        let i = choose|i: int| 0 <= i < prefix.len() && !(#[trigger] prefix[i] <= max_each);
        assert(sizes[i] == prefix[i]);
    }
}

/// A sequence is within limits exactly when every prefix of it is: the
/// running total is then never above its cap.
pub proof fn lemma_within_limits_means_every_prefix(
    sizes: Seq<nat>,
    max_each: nat,
    max_total: nat,
)
    ensures
        within_limits(sizes, max_each, max_total) <==> forall|k: int|
            0 <= k <= sizes.len() ==> #[trigger] within_limits(sizes.take(k), max_each, max_total),
{
    if within_limits(sizes, max_each, max_total) {
        assert forall|k: int| 0 <= k <= sizes.len() implies #[trigger] within_limits(
            sizes.take(k),
            max_each,
            max_total,
        ) by {
            if !within_limits(sizes.take(k), max_each, max_total) {
                lemma_rejection_decided_by_prefix(sizes, k, max_each, max_total);
            }
        }
    } else {
        assert(sizes.take(sizes.len() as int) =~= sizes);
    }
}

impl ChangeSetLimits {
    /// A change set with one write above the per-write cap is not accepted,
    /// whatever else it holds.
    pub proof fn lemma_oversize_write_rejects(&self, change_set: ChangeSet, i: int)
        requires
            0 <= i < change_set.write_sizes().len(),
            change_set.write_sizes()[i] > self.max_bytes_per_write_op,
        ensures
            !self.accepts(change_set),
    {
        lemma_oversize_entry_rejects(
            change_set.write_sizes(),
            i,
            self.max_bytes_per_write_op as nat,
            self.max_bytes_all_write_ops_per_transaction as nat,
        );
    }

    /// A change set with one event above the per-event cap is not accepted,
    /// whatever else it holds.
    pub proof fn lemma_oversize_event_rejects(&self, change_set: ChangeSet, i: int)
        requires
            0 <= i < change_set.event_sizes().len(),
            change_set.event_sizes()[i] > self.max_bytes_per_event,
        ensures
            !self.accepts(change_set),
    {
        lemma_oversize_entry_rejects(
            change_set.event_sizes(),
            i,
            self.max_bytes_per_event as nat,
            self.max_bytes_all_events_per_transaction as nat,
        );
    }

    /// A change set whose every write and event is exactly as large as its
    /// cap, and whose two totals are exactly their caps, is accepted.
    pub proof fn lemma_accepts_at_the_caps(&self, change_set: ChangeSet)
        requires
            forall|i: int|
                0 <= i < change_set.write_sizes().len() ==> change_set.write_sizes()[i]
                    == self.max_bytes_per_write_op,
            total_size(change_set.write_sizes()) == self.max_bytes_all_write_ops_per_transaction,
            forall|i: int|
                0 <= i < change_set.event_sizes().len() ==> change_set.event_sizes()[i]
                    == self.max_bytes_per_event,
            total_size(change_set.event_sizes()) == self.max_bytes_all_events_per_transaction,
        ensures
            self.accepts(change_set),
    {
    }

    /// Deletions count for nothing: a change set of deletions alone, without
    /// events, is accepted under any caps.
    pub proof fn lemma_deletions_are_free(&self, change_set: ChangeSet)
        requires
            forall|i: int|
                0 <= i < change_set.spec_write_set().len()
                    ==> (#[trigger] change_set.spec_write_set()[i]).1.is_deletion(),
            change_set.spec_events().len() == 0,
        ensures
            self.accepts(change_set),
    {
        let sizes = change_set.write_sizes();
        assert forall|i: int| 0 <= i < sizes.len() implies sizes[i] == 0 by {
            assert(change_set.spec_write_set()[i].1.is_deletion());
        }
        lemma_total_size_of_zeros(sizes);
        assert(change_set.event_sizes() =~= Seq::<nat>::empty());
    }
}

/// An entry of size zero changes nothing: with it put in at any place, a
/// sequence of sizes is within limits exactly when it was without it.
pub proof fn lemma_empty_entry_changes_nothing(
    sizes: Seq<nat>,
    i: int,
    max_each: nat,
    max_total: nat,
)
    requires
        0 <= i <= sizes.len(),
    ensures
        within_limits(sizes.insert(i, 0), max_each, max_total) <==> within_limits(
            sizes,
            max_each,
            max_total,
        ),
{
    let with = sizes.insert(i, 0);
    lemma_total_size_insert(sizes, i, 0);
    if within_limits(sizes, max_each, max_total) {
        assert forall|j: int| 0 <= j < with.len() implies with[j] <= max_each by {
            if j < i {
                assert(with[j] == sizes[j]);
            } else if j > i {
                assert(with[j] == sizes[j - 1]);
            }
        }
    }
    if within_limits(with, max_each, max_total) {
        assert forall|j: int| 0 <= j < sizes.len() implies sizes[j] <= max_each by {
            if j < i {
                assert(with[j] == sizes[j]);
            } else {
                assert(with[j + 1] == sizes[j]);
            }
        }
    }
}

impl ChangeSetLimits {
    /// A deletion changes nothing: of two change sets that differ in one
    /// deletion only, which the second has at some place among its writes,
    /// both are accepted or neither is.
    pub proof fn lemma_deletion_changes_nothing(
        &self,
        without: ChangeSet,
        with: ChangeSet,
        i: int,
        key: StateKey,
        op: WriteOp,
    )
        requires
            op.is_deletion(),
            0 <= i <= without.spec_write_set().len(),
            with.spec_write_set() == without.spec_write_set().insert(i, (key, op)),
            with.spec_events() == without.spec_events(),
        ensures
            self.accepts(with) <==> self.accepts(without),
    {
        assert(with.write_sizes() =~= without.write_sizes().insert(i, 0));
        assert(with.event_sizes() =~= without.event_sizes());
        lemma_empty_entry_changes_nothing(
            without.write_sizes(),
            i,
            self.max_bytes_per_write_op as nat,
            self.max_bytes_all_write_ops_per_transaction as nat,
        );
    }
}

/// A deletion counts for no bytes against the write limits, whatever its key.
pub proof fn lemma_deletion_has_no_size(key: StateKey, op: WriteOp)
    requires
        op.is_deletion(),
    ensures
        write_entry_size(key, op) == 0,
{
}

/// Where nothing is capped, every change set passes whose writes and whose
/// events can each be counted in full.
pub proof fn lemma_unlimited_accepts(gas_feature_version: u64, change_set: ChangeSet)
    requires
        total_size(change_set.write_sizes()) <= u64::MAX,
        total_size(change_set.event_sizes()) <= u64::MAX,
    ensures
        unlimited_limits(gas_feature_version).accepts(change_set),
{
    let writes = change_set.write_sizes();
    assert forall|i: int| 0 <= i < writes.len() implies writes[i] <= u64::MAX by {
        lemma_total_size_step(writes, i);
        lemma_total_size_prefix(writes, i + 1);
    }
    let events = change_set.event_sizes();
    assert forall|i: int| 0 <= i < events.len() implies events[i] <= u64::MAX by {
        lemma_total_size_step(events, i);
        lemma_total_size_prefix(events, i + 1);
    }
}

} // verus!
