//! The pricing and the limits of one configuration epoch, resolved together.
use crate::gas_algebra::NumBytes;
use crate::gas_params::{AptosGasParameters, StorageGasSchedule, LATEST_GAS_FEATURE_VERSION};
use crate::limits::{resolved_limits, unlimited_limits, ChangeSetConfigs};
use crate::pricing::{
    legacy_rates, loaded_bytes, StoragePricing, StoragePricingV1, StoragePricingV2,
};
use crate::write_op::{StateKey, WriteOp};
use vstd::prelude::*;

verus! {

/// What all transactions of one configuration epoch share: how to price their
/// state accesses and how large their change sets may be.
#[derive(Clone, Copy, Debug)]
pub struct StorageGasParameters {
    pub pricing: StoragePricing,
    pub change_set_configs: ChangeSetConfigs,
}

impl StorageGasParameters {
    /// The parameters are what the version, the raw parameters and the
    /// schedule give: quota pricing where there is a schedule, whatever the
    /// version, and legacy pricing where there is none; the limits go by the
    /// version.
    pub open spec fn resolved_from(
        &self,
        feature_version: u64,
        gas_params: AptosGasParameters,
        storage_gas_schedule: Option<StorageGasSchedule>,
    ) -> bool {
        &&& self.change_set_configs@ == resolved_limits(feature_version, gas_params)
        &&& match storage_gas_schedule {
            Some(schedule) => {
                &&& self.pricing matches StoragePricing::V2(v2)
                &&& v2.resolved_from(feature_version, schedule, gas_params)
            },
            None => {
                &&& self.pricing matches StoragePricing::V1(v1)
                &&& v1@ == legacy_rates(gas_params)
            },
        }
    }

    /// Metering at no cost and without limits, at the latest gas feature
    /// version.
    pub open spec fn is_free_and_unlimited(&self) -> bool {
        &&& self.change_set_configs@ == unlimited_limits(LATEST_GAS_FEATURE_VERSION)
        &&& self.pricing matches StoragePricing::V2(v2)
        &&& v2.feature_version == LATEST_GAS_FEATURE_VERSION
        &&& v2.free_write_bytes_quota@ == 0
        &&& v2.per_item_read@ == 0
        &&& v2.per_item_create@ == 0
        &&& v2.per_item_write@ == 0
        &&& v2.per_byte_read@ == 0
        &&& v2.per_byte_create@ == 0
        &&& v2.per_byte_write@ == 0
    }

    /// Resolves the parameters of an epoch. There are none, and metering is
    /// off, at feature version 0 and without raw parameters.
    pub fn new(
        feature_version: u64,
        gas_params: Option<&AptosGasParameters>,
        storage_gas_schedule: Option<&StorageGasSchedule>,
    ) -> (r: Option<Self>)
        ensures
            r.is_none() <==> (feature_version == 0 || gas_params.is_none()),
            r matches Some(params) ==> params.resolved_from(
                feature_version,
                *gas_params.unwrap(),
                match storage_gas_schedule {
                    Some(schedule) => Some(*schedule),
                    None => None,
                },
            ),
    {
        if feature_version == 0 || gas_params.is_none() {
            return None;
        }
        let gas_params = gas_params.unwrap();

        let pricing = match storage_gas_schedule {
            Some(schedule) => {
                StoragePricing::V2(StoragePricingV2::new(feature_version, schedule, gas_params))
            },
            None => StoragePricing::V1(StoragePricingV1::new(gas_params)),
        };

        let change_set_configs = ChangeSetConfigs::new(feature_version, gas_params);

        Some(Self { pricing, change_set_configs })
    }

    pub fn free_and_unlimited() -> (r: Self)
        ensures
            r.is_free_and_unlimited(),
    {
        Self {
            pricing: StoragePricing::V2(StoragePricingV2::zeros()),
            change_set_configs: ChangeSetConfigs::unlimited_at_gas_feature_version(
                LATEST_GAS_FEATURE_VERSION,
            ),
        }
    }

    /// Free and unlimited parameters charge nothing for any read or write,
    /// never read a key's encoding, and do not ask for the legacy creation
    /// rule.
    pub proof fn lemma_free_and_unlimited_is_inert(
        &self,
        key: StateKey,
        op: WriteOp,
        loaded: Option<NumBytes>,
    )
        requires
            self.is_free_and_unlimited(),
        ensures
            self.pricing.read_cost(loaded) == 0,
            self.pricing.write_cost(key, op) == 0,
            !self.pricing.reads_encoded_key(&op),
            !self.change_set_configs@.legacy_resource_creation_as_modification(),
    {
        let v2 = self.pricing->V2_0;
        assert(v2.per_byte_read@ * loaded_bytes(loaded) == 0) by (nonlinear_arith)
            requires
                v2.per_byte_read@ == 0,
        ;
        let size = v2.spec_write_op_size(key, op.payload_len());
        assert(size * v2.per_byte_create@ == 0) by (nonlinear_arith)
            requires
                v2.per_byte_create@ == 0,
        ;
        assert(size * v2.per_byte_write@ == 0) by (nonlinear_arith)
            requires
                v2.per_byte_write@ == 0,
        ;
    }
}

} // verus!
