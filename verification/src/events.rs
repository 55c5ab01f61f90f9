use crate::account::Identity;
use vstd::prelude::*;

verus! {

/// A sensor record was created.
#[derive(Clone, Debug, PartialEq, Eq)]
pub struct AirQualityInitialized {
    pub air_quality: Identity,
    pub location: String,
    pub sensor_id: String,
    pub authority: Identity,
}

/// New readings were written to a sensor record. The event carries the record
/// as it stands after the write.
#[derive(Clone, Copy, Debug, PartialEq, Eq)]
pub struct AirQualityUpdated {
    pub air_quality: Identity,
    pub aqi: u16,
    pub pm25: i32,
    pub pm10: i32,
    pub co2: i32,
    pub humidity: i32,
    pub temperature: i32,
    pub timestamp: i64,
    pub update_count: u32,
}

/// A contract record was created.
#[derive(Clone, Debug, PartialEq, Eq)]
pub struct ContractInitialized {
    pub contract: Identity,
    pub name: String,
    pub description: String,
    pub contract_type: String,
    pub authority: Identity,
}

/// A contract was switched on or off.
#[derive(Clone, Copy, Debug, PartialEq, Eq)]
pub struct ContractStatusUpdated {
    pub contract: Identity,
    pub is_active: bool,
    pub timestamp: i64,
}

/// The name, description or type of a contract was replaced. The event
/// carries all three as they stand after the write.
#[derive(Clone, Debug, PartialEq, Eq)]
pub struct ContractUpdated {
    pub contract: Identity,
    pub name: String,
    pub description: String,
    pub contract_type: String,
    pub version: u32,
    pub timestamp: i64,
}

/// A contract was executed once more.
#[derive(Clone, Copy, Debug, PartialEq, Eq)]
pub struct ContractExecuted {
    pub contract: Identity,
    pub execution_count: u32,
    pub timestamp: i64,
}

/// A batch ran to its end.
#[derive(Clone, Debug, PartialEq, Eq)]
pub struct BatchOperationCompleted {
    pub operation_type: String,
    pub accounts_affected: u8,
    pub timestamp: i64,
}

/// A write was held back because the change did not pay for it.
#[derive(Clone, Debug, PartialEq, Eq)]
pub struct EconomicThresholdNotMet {
    pub account: Identity,
    pub operation: String,
    pub reason: String,
    pub timestamp: i64,
}

} // verus!
