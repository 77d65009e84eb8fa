//! The raw numbers from which pricing and limits are resolved.
use crate::gas_algebra::{InternalGas, InternalGasPerArg, InternalGasPerByte, NumBytes};
use vstd::prelude::*;

verus! {

/// The latest gas feature version that this crate knows.
pub const LATEST_GAS_FEATURE_VERSION: u64 = 6;

/// The per-transaction constants that storage metering draws on.
#[derive(Clone, Copy, Debug)]
pub struct TransactionGasParameters {
    /// Flat fee of a read.
    pub load_data_base: InternalGas,
    /// Fee per byte read.
    pub load_data_per_byte: InternalGasPerByte,
    /// Fee of a read that found nothing.
    pub load_data_failure: InternalGas,
    /// Flat fee of a write.
    pub write_data_per_op: InternalGasPerArg,
    /// Extra fee of a write that creates a slot.
    pub write_data_per_new_item: InternalGasPerArg,
    /// Fee per byte of the encoded key of a write.
    pub write_data_per_byte_in_key: InternalGasPerByte,
    /// Fee per byte of the value of a write.
    pub write_data_per_byte_in_val: InternalGasPerByte,
    /// Bytes of each write that are not charged for.
    pub free_write_bytes_quota: NumBytes,
    /// Cap on the bytes of one write.
    pub max_bytes_per_write_op: NumBytes,
    /// Cap on the bytes of all writes of a transaction.
    pub max_bytes_all_write_ops_per_transaction: NumBytes,
    /// Cap on the bytes of one event.
    pub max_bytes_per_event: NumBytes,
    /// Cap on the bytes of all events of a transaction.
    pub max_bytes_all_events_per_transaction: NumBytes,
}

impl TransactionGasParameters {
    /// Every constant is zero.
    pub open spec fn is_zeros(&self) -> bool {
        &&& self.load_data_base@ == 0
        &&& self.load_data_per_byte@ == 0
        &&& self.load_data_failure@ == 0
        &&& self.write_data_per_op@ == 0
        &&& self.write_data_per_new_item@ == 0
        &&& self.write_data_per_byte_in_key@ == 0
        &&& self.write_data_per_byte_in_val@ == 0
        &&& self.free_write_bytes_quota@ == 0
        &&& self.max_bytes_per_write_op@ == 0
        &&& self.max_bytes_all_write_ops_per_transaction@ == 0
        &&& self.max_bytes_per_event@ == 0
        &&& self.max_bytes_all_events_per_transaction@ == 0
    }

    pub fn zeros() -> (r: Self)
        ensures
            r.is_zeros(),
    {
        TransactionGasParameters {
            load_data_base: InternalGas::zero(),
            load_data_per_byte: InternalGasPerByte::zero(),
            load_data_failure: InternalGas::zero(),
            write_data_per_op: InternalGasPerArg::zero(),
            write_data_per_new_item: InternalGasPerArg::zero(),
            write_data_per_byte_in_key: InternalGasPerByte::zero(),
            write_data_per_byte_in_val: InternalGasPerByte::zero(),
            free_write_bytes_quota: NumBytes::zero(),
            max_bytes_per_write_op: NumBytes::zero(),
            max_bytes_all_write_ops_per_transaction: NumBytes::zero(),
            max_bytes_per_event: NumBytes::zero(),
            max_bytes_all_events_per_transaction: NumBytes::zero(),
        }
    }
}

/// The raw gas parameters of a configuration epoch.
#[derive(Clone, Copy, Debug)]
pub struct AptosGasParameters {
    pub txn: TransactionGasParameters,
}

impl AptosGasParameters {
    pub fn zeros() -> (r: Self)
        ensures
            r.txn.is_zeros(),
    {
        AptosGasParameters { txn: TransactionGasParameters::zeros() }
    }
}

/// The on-chain schedule of storage rates, which governance can change.
#[derive(Clone, Copy, Debug, PartialEq, Eq)]
pub struct StorageGasSchedule {
    pub per_item_read: u64,
    pub per_item_create: u64,
    pub per_item_write: u64,
    pub per_byte_read: u64,
    pub per_byte_create: u64,
    pub per_byte_write: u64,
}

impl StorageGasSchedule {
    /// Every rate is zero.
    pub open spec fn is_zeros(&self) -> bool {
        &&& self.per_item_read == 0
        &&& self.per_item_create == 0
        &&& self.per_item_write == 0
        &&& self.per_byte_read == 0
        &&& self.per_byte_create == 0
        &&& self.per_byte_write == 0
    }

    pub fn zeros() -> (r: Self)
        ensures
            r.is_zeros(),
    {
        StorageGasSchedule {
            per_item_read: 0,
            per_item_create: 0,
            per_item_write: 0,
            per_byte_read: 0,
            per_byte_create: 0,
            per_byte_write: 0,
        }
    }
}

} // verus!
