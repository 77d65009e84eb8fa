//! The price of a read and of a write, in two formula families.
//!
//! The legacy family charges flat rates. The quota family takes its rates from
//! the on-chain schedule and leaves a quota of each write's bytes free. Every
//! cost is the family's formula over the mathematical integers, stopped at the
//! largest representable amount of gas.
use crate::gas_algebra::{
    saturate, InternalGas, InternalGasPerArg, InternalGasPerByte, NumArgs, NumBytes,
};
use crate::gas_params::{AptosGasParameters, StorageGasSchedule, LATEST_GAS_FEATURE_VERSION};
use crate::write_op::{StateKey, WriteKind, WriteOp};
use vstd::prelude::*;

verus! {

/// The quota of free bytes per write at gas feature versions 3 and 4.
pub const FIXED_FREE_WRITE_BYTES_QUOTA: u64 = 1024;

/// The number of bytes that a read loaded, as an integer; zero for a miss.
pub open spec fn loaded_bytes(loaded: Option<NumBytes>) -> int {
    match loaded {
        Some(num_bytes) => num_bytes@ as int,
        None => 0,
    }
}

/// The legacy, flat-rate pricing.
#[derive(Clone, Copy, Debug)]
pub struct StoragePricingV1 {
    write_data_per_op: InternalGasPerArg,
    write_data_per_new_item: InternalGasPerArg,
    write_data_per_byte_in_key: InternalGasPerByte,
    write_data_per_byte_in_val: InternalGasPerByte,
    load_data_base: InternalGas,
    load_data_per_byte: InternalGasPerByte,
    load_data_failure: InternalGas,
}

/// The rates that a `StoragePricingV1` holds.
pub struct LegacyRates {
    pub write_data_per_op: u64,
    pub write_data_per_new_item: u64,
    pub write_data_per_byte_in_key: u64,
    pub write_data_per_byte_in_val: u64,
    pub load_data_base: u64,
    pub load_data_per_byte: u64,
    pub load_data_failure: u64,
}

impl View for StoragePricingV1 {
    type V = LegacyRates;

    closed spec fn view(&self) -> LegacyRates {
        LegacyRates {
            write_data_per_op: self.write_data_per_op@,
            write_data_per_new_item: self.write_data_per_new_item@,
            write_data_per_byte_in_key: self.write_data_per_byte_in_key@,
            write_data_per_byte_in_val: self.write_data_per_byte_in_val@,
            load_data_base: self.load_data_base@,
            load_data_per_byte: self.load_data_per_byte@,
            load_data_failure: self.load_data_failure@,
        }
    }
}

/// The legacy rates that the raw parameters give.
pub open spec fn legacy_rates(gas_params: AptosGasParameters) -> LegacyRates {
    LegacyRates {
        write_data_per_op: gas_params.txn.write_data_per_op@,
        write_data_per_new_item: gas_params.txn.write_data_per_new_item@,
        write_data_per_byte_in_key: gas_params.txn.write_data_per_byte_in_key@,
        write_data_per_byte_in_val: gas_params.txn.write_data_per_byte_in_val@,
        load_data_base: gas_params.txn.load_data_base@,
        load_data_per_byte: gas_params.txn.load_data_per_byte@,
        load_data_failure: gas_params.txn.load_data_failure@,
    }
}

impl LegacyRates {
    /// The price of a read: the base fee and the bytes found, or the base fee
    /// and the penalty for a miss.
    pub open spec fn read_cost(&self, loaded: Option<NumBytes>) -> int {
        self.load_data_base + match loaded {
            Some(num_bytes) => self.load_data_per_byte * num_bytes@,
            None => self.load_data_failure as int,
        }
    }

    /// Whether the encoded key is charged for, and so has to exist.
    pub open spec fn charges_key_bytes(&self) -> bool {
        self.write_data_per_byte_in_key > 0
    }

    /// The part of the price of a write that every kind of write pays: the
    /// flat fee and the bytes of the encoded key.
    pub open spec fn write_base_cost(&self, key: StateKey) -> int {
        self.write_data_per_op + if self.charges_key_bytes() {
            self.write_data_per_byte_in_key * key.encoded_len().unwrap()
        } else {
            0
        }
    }

    /// The price of a write: the base, for a creation the new-item fee, and
    /// for a creation or a modification the bytes of the value.
    pub open spec fn write_cost(&self, key: StateKey, op: WriteOp) -> int {
        self.write_base_cost(key) + match op.kind() {
            WriteKind::Creation => self.write_data_per_new_item
                + self.write_data_per_byte_in_val * op.payload_len(),
            WriteKind::Modification => self.write_data_per_byte_in_val * op.payload_len(),
            WriteKind::Deletion => 0,
        }
    }
}

impl StoragePricingV1 {
    pub fn new(gas_params: &AptosGasParameters) -> (r: Self)
        ensures
            r@ == legacy_rates(*gas_params),
    {
        Self {
            write_data_per_op: gas_params.txn.write_data_per_op,
            write_data_per_new_item: gas_params.txn.write_data_per_new_item,
            write_data_per_byte_in_key: gas_params.txn.write_data_per_byte_in_key,
            write_data_per_byte_in_val: gas_params.txn.write_data_per_byte_in_val,
            load_data_base: gas_params.txn.load_data_base,
            load_data_per_byte: gas_params.txn.load_data_per_byte,
            load_data_failure: gas_params.txn.load_data_failure,
        }
    }

    /// Whether the encoded key is charged for, and so has to exist.
    pub fn charges_key_bytes(&self) -> (charged: bool)
        ensures
            charged == self@.charges_key_bytes(),
    {
        self.write_data_per_byte_in_key.value() > 0
    }

    pub fn calculate_read_gas(&self, loaded: Option<NumBytes>) -> (cost: InternalGas)
        ensures
            cost@ as int == saturate(self@.read_cost(loaded)),
    {
        let rest = match loaded {
            Some(num_bytes) => {
                assert(0 <= self.load_data_per_byte@ * num_bytes@) by (nonlinear_arith);
                self.load_data_per_byte.times(num_bytes)
            },
            None => self.load_data_failure,
        };
        self.load_data_base.plus(rest)
    }

    pub fn io_gas_per_write(&self, key: &StateKey, op: &WriteOp) -> (cost: InternalGas)
        requires
            self@.charges_key_bytes() ==> key.encodable(),
        ensures
            cost@ as int == saturate(self@.write_cost(*key, *op)),
    {
        let value_rate = self.write_data_per_byte_in_val;
        let mut cost = self.write_data_per_op.times(NumArgs::new(1));

        if self.write_data_per_byte_in_key.value() > 0 {
            let encoded_len: usize = key.encoded_len().unwrap();
            assert(0 <= self.write_data_per_byte_in_key@ * encoded_len) by (nonlinear_arith);
            cost = cost.plus(
                self.write_data_per_byte_in_key.times(NumBytes::new(encoded_len as u64)),
            );
        }
        assert(cost@ as int == saturate(self@.write_base_cost(*key)));
        assert(0 <= self@.write_base_cost(*key)) by (nonlinear_arith)
            requires
                self@.charges_key_bytes() ==> key.encodable(),
        ;
        assert(0 <= value_rate@ * op.payload_len()) by (nonlinear_arith);

        match op {
            WriteOp::Creation(data) | WriteOp::CreationWithMetadata { data, .. } => {
                cost = cost.plus(
                    self.write_data_per_new_item.times(NumArgs::new(1)).plus(
                        value_rate.times(NumBytes::new(data.len() as u64)),
                    ),
                );
            },
            WriteOp::Modification(data) | WriteOp::ModificationWithMetadata { data, .. } => {
                cost = cost.plus(value_rate.times(NumBytes::new(data.len() as u64)));
            },
            WriteOp::Deletion | WriteOp::DeletionWithMetadata { .. } => (),
        }

        cost
    }
}

/// The quota-based, tiered pricing.
#[derive(Clone, Copy, Debug)]
pub struct StoragePricingV2 {
    pub feature_version: u64,
    pub free_write_bytes_quota: NumBytes,
    pub per_item_read: InternalGasPerArg,
    pub per_item_create: InternalGasPerArg,
    pub per_item_write: InternalGasPerArg,
    pub per_byte_read: InternalGasPerByte,
    pub per_byte_create: InternalGasPerByte,
    pub per_byte_write: InternalGasPerByte,
}

/// The quota of free bytes per write in force at a gas feature version: that
/// of the raw parameters from version 5 on, 1024 at versions 3 and 4, and
/// zero before, where it is not used.
pub open spec fn resolved_free_write_bytes_quota(
    feature_version: u64,
    gas_params: AptosGasParameters,
) -> u64 {
    if feature_version >= 5 {
        gas_params.txn.free_write_bytes_quota@
    } else if feature_version >= 3 {
        FIXED_FREE_WRITE_BYTES_QUOTA
    } else {
        0
    }
}

/// The bytes of a write that are charged for.
///
/// From gas feature version 3 on: the key's abstract size and the payload,
/// less the free quota, and never less than zero. Before: the key's encoded
/// length and the payload. Either sum stops at the largest byte count.
pub open spec fn chargeable_size(
    feature_version: u64,
    free_write_bytes_quota: u64,
    key: StateKey,
    payload_len: nat,
) -> int {
    if feature_version >= 3 {
        saturate(saturate(key.size() + payload_len) - free_write_bytes_quota)
    } else {
        saturate(key.encoded_len().unwrap() + payload_len)
    }
}

impl StoragePricingV2 {
    /// The pricing holds exactly what the version, the schedule and the raw
    /// parameters give.
    pub open spec fn resolved_from(
        &self,
        feature_version: u64,
        storage_gas_schedule: StorageGasSchedule,
        gas_params: AptosGasParameters,
    ) -> bool {
        &&& self.feature_version == feature_version
        &&& self.free_write_bytes_quota@ == resolved_free_write_bytes_quota(
            feature_version,
            gas_params,
        )
        &&& self.per_item_read@ == storage_gas_schedule.per_item_read
        &&& self.per_item_create@ == storage_gas_schedule.per_item_create
        &&& self.per_item_write@ == storage_gas_schedule.per_item_write
        &&& self.per_byte_read@ == storage_gas_schedule.per_byte_read
        &&& self.per_byte_create@ == storage_gas_schedule.per_byte_create
        &&& self.per_byte_write@ == storage_gas_schedule.per_byte_write
    }

    /// Whether a write reads the key's encoding, which then has to exist.
    pub open spec fn spec_reads_encoded_key(&self, op: &WriteOp) -> bool {
        self.feature_version < 3 && !op.is_deletion()
    }

    /// Whether a write reads the key's encoding, which then has to exist.
    #[verifier::when_used_as_spec(spec_reads_encoded_key)]
    pub fn reads_encoded_key(&self, op: &WriteOp) -> (reads: bool)
        ensures
            reads == self.spec_reads_encoded_key(op),
    {
        self.feature_version < 3 && op.bytes().is_some()
    }

    /// The bytes of a write of `payload_len` bytes that are charged for.
    pub open spec fn spec_write_op_size(&self, key: StateKey, payload_len: nat) -> int {
        chargeable_size(self.feature_version, self.free_write_bytes_quota@, key, payload_len)
    }

    /// The price of a read: the item fee, and the bytes found if any. A miss
    /// pays no penalty.
    pub open spec fn read_cost(&self, loaded: Option<NumBytes>) -> int {
        self.per_item_read@ + self.per_byte_read@ * loaded_bytes(loaded)
    }

    /// The price of a write: the item fee and the chargeable bytes of a
    /// creation or a modification, each at its own rates; nothing for a
    /// deletion.
    pub open spec fn write_cost(&self, key: StateKey, op: WriteOp) -> int {
        match op.kind() {
            WriteKind::Creation => self.per_item_create@ + self.spec_write_op_size(
                key,
                op.payload_len(),
            ) * self.per_byte_create@,
            WriteKind::Modification => self.per_item_write@ + self.spec_write_op_size(
                key,
                op.payload_len(),
            ) * self.per_byte_write@,
            WriteKind::Deletion => 0,
        }
    }

    pub fn zeros() -> (r: Self)
        ensures
            r.feature_version == LATEST_GAS_FEATURE_VERSION,
            r.free_write_bytes_quota@ == 0,
            r.per_item_read@ == 0,
            r.per_item_create@ == 0,
            r.per_item_write@ == 0,
            r.per_byte_read@ == 0,
            r.per_byte_create@ == 0,
            r.per_byte_write@ == 0,
    {
        Self::new(
            LATEST_GAS_FEATURE_VERSION,
            &StorageGasSchedule::zeros(),
            &AptosGasParameters::zeros(),
        )
    }

    pub fn new(
        feature_version: u64,
        storage_gas_schedule: &StorageGasSchedule,
        gas_params: &AptosGasParameters,
    ) -> (r: Self)
        requires
            feature_version > 0,
        ensures
            r.resolved_from(feature_version, *storage_gas_schedule, *gas_params),
    {
        let free_write_bytes_quota = if feature_version >= 5 {
            gas_params.txn.free_write_bytes_quota
        } else if feature_version >= 3 {
            NumBytes::new(FIXED_FREE_WRITE_BYTES_QUOTA)
        } else {
            NumBytes::new(0)
        };

        Self {
            feature_version,
            free_write_bytes_quota,
            per_item_read: InternalGasPerArg::new(storage_gas_schedule.per_item_read),
            per_item_create: InternalGasPerArg::new(storage_gas_schedule.per_item_create),
            per_item_write: InternalGasPerArg::new(storage_gas_schedule.per_item_write),
            per_byte_read: InternalGasPerByte::new(storage_gas_schedule.per_byte_read),
            per_byte_create: InternalGasPerByte::new(storage_gas_schedule.per_byte_create),
            per_byte_write: InternalGasPerByte::new(storage_gas_schedule.per_byte_write),
        }
    }

    pub fn write_op_size(&self, key: &StateKey, value: &[u8]) -> (size: NumBytes)
        requires
            self.feature_version < 3 ==> key.encodable(),
        ensures
            size@ as int == self.spec_write_op_size(*key, value@.len()),
    {
        let value_size = NumBytes::new(value.len() as u64);

        if self.feature_version >= 3 {
            let key_size = NumBytes::new(key.size() as u64);
            match key_size.plus(value_size).checked_sub(self.free_write_bytes_quota) {
                Some(size) => size,
                None => NumBytes::zero(),
            }
        } else {
            let key_size = NumBytes::new(key.encoded_len().unwrap() as u64);
            key_size.plus(value_size)
        }
    }

    pub fn calculate_read_gas(&self, loaded: Option<NumBytes>) -> (cost: InternalGas)
        ensures
            cost@ as int == saturate(self.read_cost(loaded)),
    {
        let rest = match loaded {
            Some(num_bytes) => {
                assert(0 <= self.per_byte_read@ * num_bytes@) by (nonlinear_arith);
                self.per_byte_read.times(num_bytes)
            },
            None => InternalGas::new(0),
        };
        self.per_item_read.times(NumArgs::new(1)).plus(rest)
    }

    pub fn io_gas_per_write(&self, key: &StateKey, op: &WriteOp) -> (cost: InternalGas)
        requires
            self.reads_encoded_key(op) ==> key.encodable(),
        ensures
            cost@ as int == saturate(self.write_cost(*key, *op)),
    {
        match op {
            WriteOp::Creation(data) | WriteOp::CreationWithMetadata { data, .. } => {
                let size = self.write_op_size(key, data.as_slice());
                assert(0 <= size@ * self.per_byte_create@) by (nonlinear_arith);
                self.per_item_create.times(NumArgs::new(1)).plus(size.times(self.per_byte_create))
            },
            WriteOp::Modification(data) | WriteOp::ModificationWithMetadata { data, .. } => {
                let size = self.write_op_size(key, data.as_slice());
                assert(0 <= size@ * self.per_byte_write@) by (nonlinear_arith);
                self.per_item_write.times(NumArgs::new(1)).plus(size.times(self.per_byte_write))
            },
            WriteOp::Deletion | WriteOp::DeletionWithMetadata { .. } => InternalGas::new(0),
        }
    }
}

/// The pricing in force: one of the two families.
#[derive(Clone, Copy, Debug)]
pub enum StoragePricing {
    V1(StoragePricingV1),
    V2(StoragePricingV2),
}

impl StoragePricing {
    /// The price of a read under the family in force.
    pub open spec fn read_cost(&self, loaded: Option<NumBytes>) -> int {
        match self {
            StoragePricing::V1(v1) => v1@.read_cost(loaded),
            StoragePricing::V2(v2) => v2.read_cost(loaded),
        }
    }

    /// The price of a write under the family in force.
    pub open spec fn write_cost(&self, key: StateKey, op: WriteOp) -> int {
        match self {
            StoragePricing::V1(v1) => v1@.write_cost(key, op),
            StoragePricing::V2(v2) => v2.write_cost(key, op),
        }
    }

    /// Whether pricing this write reads the key's encoding, which then has to
    /// exist.
    pub open spec fn spec_reads_encoded_key(&self, op: &WriteOp) -> bool {
        match self {
            StoragePricing::V1(v1) => v1@.charges_key_bytes(),
            StoragePricing::V2(v2) => v2.reads_encoded_key(op),
        }
    }

    /// Whether pricing this write reads the key's encoding, which then has to
    /// exist.
    #[verifier::when_used_as_spec(spec_reads_encoded_key)]
    pub fn reads_encoded_key(&self, op: &WriteOp) -> (reads: bool)
        ensures
            reads == self.spec_reads_encoded_key(op),
    {
        match self {
            StoragePricing::V1(v1) => v1.charges_key_bytes(),
            StoragePricing::V2(v2) => v2.reads_encoded_key(op),
        }
    }

    pub fn calculate_read_gas(&self, loaded: Option<NumBytes>) -> (cost: InternalGas)
        ensures
            cost@ as int == saturate(self.read_cost(loaded)),
    {
        match self {
            StoragePricing::V1(v1) => v1.calculate_read_gas(loaded),
            StoragePricing::V2(v2) => v2.calculate_read_gas(loaded),
        }
    }

    pub fn io_gas_per_write(&self, key: &StateKey, op: &WriteOp) -> (cost: InternalGas)
        requires
            self.reads_encoded_key(op) ==> key.encodable(),
        ensures
            cost@ as int == saturate(self.write_cost(*key, *op)),
    {
        match self {
            StoragePricing::V1(v1) => v1.io_gas_per_write(key, op),
            StoragePricing::V2(v2) => v2.io_gas_per_write(key, op),
        }
    }
}

/// No read and no write has a negative price, under either family and
/// whatever the rates are.
pub proof fn lemma_costs_are_not_negative(
    pricing: StoragePricing,
    key: StateKey,
    op: WriteOp,
    loaded: Option<NumBytes>,
)
    ensures
        0 <= pricing.read_cost(loaded),
        0 <= pricing.write_cost(key, op),
{
    match pricing {
        StoragePricing::V1(v1) => {
            let rates = v1@;
            match loaded {
                Some(num_bytes) => {
                    assert(0 <= rates.load_data_per_byte * num_bytes@) by (nonlinear_arith);
                },
                None => {},
            }
            assert(0 <= rates.write_data_per_byte_in_key * key.encoded_len().unwrap())
                by (nonlinear_arith);
            assert(0 <= rates.write_data_per_byte_in_val * op.payload_len()) by (nonlinear_arith);
        },
        StoragePricing::V2(v2) => {
            assert(0 <= v2.per_byte_read@ * loaded_bytes(loaded)) by (nonlinear_arith)
                requires
                    0 <= loaded_bytes(loaded),
            ;
            let size = v2.spec_write_op_size(key, op.payload_len());
            assert(0 <= size * v2.per_byte_create@) by (nonlinear_arith)
                requires
                    0 <= size,
            ;
            assert(0 <= size * v2.per_byte_write@) by (nonlinear_arith)
                requires
                    0 <= size,
            ;
        },
    }
}

/// The chargeable size of a write from gas feature version 3 on.
///
/// It is never negative. Where the key and the payload together are not
/// larger than the free quota, it is exactly zero. Where they are larger, and
/// can be counted at all, it is what they have over the quota.
pub proof fn lemma_chargeable_size_with_quota(
    feature_version: u64,
    free_write_bytes_quota: u64,
    key: StateKey,
    payload_len: nat,
)
    requires
        feature_version >= 3,
    ensures
        0 <= chargeable_size(feature_version, free_write_bytes_quota, key, payload_len),
        key.size() + payload_len <= free_write_bytes_quota ==> chargeable_size(
            feature_version,
            free_write_bytes_quota,
            key,
            payload_len,
        ) == 0,
        free_write_bytes_quota <= key.size() + payload_len <= u64::MAX ==> chargeable_size(
            feature_version,
            free_write_bytes_quota,
            key,
            payload_len,
        ) == key.size() + payload_len - free_write_bytes_quota,
{
}

/// The chargeable size of a write before gas feature version 3: the key's
/// encoded length and the payload, with no quota, wherever they can be
/// counted at all.
pub proof fn lemma_chargeable_size_without_quota(
    feature_version: u64,
    free_write_bytes_quota: u64,
    key: StateKey,
    payload_len: nat,
)
    requires
        feature_version < 3,
        key.encodable(),
        key.encoded_len().unwrap() + payload_len <= u64::MAX,
    ensures
        chargeable_size(feature_version, free_write_bytes_quota, key, payload_len)
            == key.encoded_len().unwrap() + payload_len,
{
}

/// From gas feature version 5 on, quota pricing charges what the on-chain
/// schedule and the raw parameters' quota say: with another schedule the
/// prices are the same formulas over the other schedule's rates.
pub proof fn lemma_quota_costs_follow_schedule(
    pricing: StoragePricingV2,
    feature_version: u64,
    storage_gas_schedule: StorageGasSchedule,
    gas_params: AptosGasParameters,
    key: StateKey,
    op: WriteOp,
    loaded: Option<NumBytes>,
)
    requires
        feature_version >= 5,
        pricing.resolved_from(feature_version, storage_gas_schedule, gas_params),
    ensures
        pricing.read_cost(loaded) == storage_gas_schedule.per_item_read
            + storage_gas_schedule.per_byte_read * loaded_bytes(loaded),
        pricing.write_cost(key, op) == (match op.kind() {
            WriteKind::Creation => storage_gas_schedule.per_item_create + chargeable_size(
                feature_version,
                gas_params.txn.free_write_bytes_quota@,
                key,
                op.payload_len(),
            ) * storage_gas_schedule.per_byte_create,
            WriteKind::Modification => storage_gas_schedule.per_item_write + chargeable_size(
                feature_version,
                gas_params.txn.free_write_bytes_quota@,
                key,
                op.payload_len(),
            ) * storage_gas_schedule.per_byte_write,
            WriteKind::Deletion => 0,
        }),
{
}

/// Under quota pricing a change of one schedule rate moves a price by its
/// share alone: raising the per-item creation fee by some amount raises the
/// price of every creation by that amount and leaves every other price alone.
pub proof fn lemma_item_fee_moves_creation_cost(
    pricing: StoragePricingV2,
    other: StoragePricingV2,
    key: StateKey,
    op: WriteOp,
    loaded: Option<NumBytes>,
)
    requires
        pricing.feature_version == other.feature_version,
        pricing.free_write_bytes_quota@ == other.free_write_bytes_quota@,
        pricing.per_item_read@ == other.per_item_read@,
        pricing.per_item_write@ == other.per_item_write@,
        pricing.per_byte_read@ == other.per_byte_read@,
        pricing.per_byte_create@ == other.per_byte_create@,
        pricing.per_byte_write@ == other.per_byte_write@,
    ensures
        other.read_cost(loaded) == pricing.read_cost(loaded),
        op.kind() is Creation ==> other.write_cost(key, op) - pricing.write_cost(key, op)
            == other.per_item_create@ - pricing.per_item_create@,
        !(op.kind() is Creation) ==> other.write_cost(key, op) == pricing.write_cost(key, op),
{
}

/// The price of a deletion. Under quota pricing it is nothing. Under legacy
/// pricing it is the part that every write pays, which is the flat fee alone
/// wherever the bytes of the key are not charged for.
pub proof fn lemma_deletion_cost(pricing: StoragePricing, key: StateKey, op: WriteOp)
    requires
        op.is_deletion(),
    ensures
        pricing matches StoragePricing::V2(v2) ==> pricing.write_cost(key, op) == 0,
        pricing matches StoragePricing::V1(v1) ==> pricing.write_cost(key, op)
            == v1@.write_base_cost(key),
        pricing matches StoragePricing::V1(v1) ==> !v1@.charges_key_bytes()
            ==> pricing.write_cost(key, op) == v1@.write_data_per_op,
{
}

/// A miss is charged a penalty under legacy pricing and the item fee alone
/// under quota pricing.
pub proof fn lemma_miss_cost(pricing: StoragePricing)
    ensures
        pricing matches StoragePricing::V1(v1) ==> pricing.read_cost(None)
            == v1@.load_data_base + v1@.load_data_failure,
        pricing matches StoragePricing::V2(v2) ==> pricing.read_cost(None) == v2.per_item_read@,
{
    match pricing {
        StoragePricing::V1(_) => {},
        StoragePricing::V2(v2) => {
            assert(v2.per_byte_read@ * 0 == 0) by (nonlinear_arith);
        },
    }
}

} // verus!
