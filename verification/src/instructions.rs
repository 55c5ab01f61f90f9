use crate::account::UpdateOutcome;
use crate::air_quality::{BatchUpdateAirQuality, InitializeAirQuality, SensorData, UpdateAirQuality};
use crate::contract::{
    BatchContractOperation, ExecuteContract, InitializeContract, UpdateContract,
    UpdateContractDetails,
};
use crate::errors::CustomError;
use crate::events::{
    AirQualityInitialized, AirQualityUpdated, ContractExecuted, ContractInitialized,
    ContractStatusUpdated, ContractUpdated,
};
use vstd::prelude::*;

verus! {

/// Creates a sensor at the address handed over, owned by the caller, with
/// the readings of a sensor that has not reported yet.
pub fn initialize_air_quality(
    ctx: &mut InitializeAirQuality,
    location: String,
    sensor_id: String,
    now: i64,
) -> (r: Result<AirQualityInitialized, CustomError>)
    ensures
        r == old(ctx).spec_process(location, sensor_id),
        *final(ctx) == old(ctx).after_process(location, sensor_id, now),
{
    ctx.process(location, sensor_id, now)
}

/// Reports six readings of a sensor. They are written where the caller owns
/// the sensor, the readings lie in their ranges, and the change is worth a
/// write.
pub fn update_air_quality(
    ctx: &mut UpdateAirQuality,
    aqi: u16,
    pm25: i32,
    pm10: i32,
    co2: i32,
    humidity: i32,
    temperature: i32,
    now: i64,
) -> (r: Result<UpdateOutcome<AirQualityUpdated>, CustomError>)
    requires
        old(ctx).spec_process((aqi, pm25, pm10, co2, humidity, temperature), now) matches Ok(
            UpdateOutcome::Updated(_),
        ) ==> old(ctx).air_quality.data.update_count < u32::MAX,
    ensures
        r == old(ctx).spec_process((aqi, pm25, pm10, co2, humidity, temperature), now),
        *final(ctx) == old(ctx).after_process((aqi, pm25, pm10, co2, humidity, temperature), now),
{
    ctx.process(aqi, pm25, pm10, co2, humidity, temperature, now)
}

/// Reports readings of up to three sensors, all of them or none.
pub fn batch_update_air_quality(
    ctx: &mut BatchUpdateAirQuality,
    sensor_data: Vec<SensorData>,
    now: i64,
) -> (r: Result<Vec<UpdateOutcome<AirQualityUpdated>>, CustomError>)
    requires
        forall|i: int|
            old(ctx).writes_entry(sensor_data@, now, i) ==> (#[trigger] old(ctx).slot(
                i,
            )).data.update_count < u32::MAX,
    ensures
        match r {
            Ok(outcomes) => old(ctx).spec_verdict(sensor_data@) is Ok && outcomes@ == old(
                ctx,
            ).spec_outcomes(sensor_data@, now),
            Err(e) => old(ctx).spec_verdict(sensor_data@) == Err::<(), CustomError>(e),
        },
        *final(ctx) == old(ctx).after_batch(sensor_data@, now),
{
    ctx.process(sensor_data, now)
}

/// Creates a contract at the address handed over, owned by the caller,
/// active, at version 1.
pub fn initialize_contract(
    ctx: &mut InitializeContract,
    name: String,
    description: String,
    contract_type: String,
    now: i64,
) -> (r: Result<ContractInitialized, CustomError>)
    ensures
        r == old(ctx).spec_process(name, description, contract_type),
        *final(ctx) == old(ctx).after_process(name, description, contract_type, now),
{
    ctx.process(name, description, contract_type, now)
}

/// Switches a contract on or off. Nothing is written where the switch
/// already stands as asked.
pub fn update_contract_status(ctx: &mut UpdateContract, is_active: bool, now: i64) -> (r: Result<
    UpdateOutcome<ContractStatusUpdated>,
    CustomError,
>)
    ensures
        r == old(ctx).spec_process_status_update(is_active, now),
        *final(ctx) == old(ctx).after_process_status_update(is_active, now),
{
    ctx.process_status_update(is_active, now)
}

/// Replaces those of the name, the description and the type of a contract
/// that are proposed and differ from what is in place.
pub fn update_contract_details(
    ctx: &mut UpdateContractDetails,
    name: Option<String>,
    description: Option<String>,
    contract_type: Option<String>,
    now: i64,
) -> (r: Result<UpdateOutcome<ContractUpdated>, CustomError>)
    requires
        old(ctx).spec_process(name, description, contract_type, now) matches Ok(
            UpdateOutcome::Updated(_),
        ) ==> old(ctx).contract.data.version < u32::MAX,
    ensures
        r == old(ctx).spec_process(name, description, contract_type, now),
        *final(ctx) == old(ctx).after_process(name, description, contract_type, now),
{
    ctx.process(name, description, contract_type, now)
}

/// Executes a contract once.
pub fn execute_contract(ctx: &mut ExecuteContract, now: i64) -> (r: Result<
    ContractExecuted,
    CustomError,
>)
    requires
        old(ctx).spec_process(now) is Ok ==> old(ctx).contract.data.execution_count < u32::MAX,
    ensures
        r == old(ctx).spec_process(now),
        *final(ctx) == old(ctx).after_process(now),
{
    ctx.process(now)
}

/// Switches up to two contracts, all of them or none.
pub fn batch_contract_status_update(
    ctx: &mut BatchContractOperation,
    statuses: Vec<bool>,
    now: i64,
) -> (r: Result<Vec<UpdateOutcome<ContractStatusUpdated>>, CustomError>)
    ensures
        match r {
            Ok(outcomes) => old(ctx).spec_verdict(statuses@) is Ok && outcomes@ == old(
                ctx,
            ).spec_outcomes(statuses@, now),
            Err(e) => old(ctx).spec_verdict(statuses@) == Err::<(), CustomError>(e),
        },
        *final(ctx) == old(ctx).after_batch(statuses@, now),
{
    ctx.process_batch_status_update(statuses, now)
}

} // verus!
