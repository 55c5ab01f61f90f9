use vstd::prelude::*;

verus! {

/// Every way in which an operation of the ledger can fail.
///
/// An error ends the operation that raised it, and leaves every record as it
/// was before the operation began.
#[derive(Clone, Copy, Debug, PartialEq, Eq, Structural)]
pub enum CustomError {
    /// The caller is not the authority that owns the record.
    UnauthorizedAccess,
    /// The air quality index lies above 500.
    InvalidAQIValue,
    /// The PM2.5 concentration lies outside 0 to 1000.
    InvalidPM25Value,
    /// The PM10 concentration lies outside 0 to 1000.
    InvalidPM10Value,
    /// The CO2 concentration lies outside 0 to 10000.
    InvalidCO2Value,
    /// The relative humidity lies outside 0 to 100.
    InvalidHumidityValue,
    /// The temperature lies outside -50 to 100.
    InvalidTemperatureValue,
    /// A contract's name takes more than 50 bytes.
    NameTooLong,
    /// A description takes more than 200 bytes.
    DescriptionTooLong,
    /// A contract type takes more than 30 bytes.
    ContractTypeTooLong,
    /// The contract is switched off and cannot be executed.
    ContractInactive,
    /// A text is blank or too long, or a value lies outside the range asked
    /// for, where no variant names the field.
    InvalidInput,
    /// The operation is not open to this caller in this state.
    OperationNotPermitted,
    /// A record already lives at the address that was to be initialised.
    AccountAlreadyExists,
    /// No record lives at the address that was named.
    AccountNotFound,
    /// The caller's rights do not reach this operation.
    InsufficientPermissions,
    /// Data failed a check that no other variant names.
    DataValidationFailed,
    /// A change stayed under the threshold that a write must cross.
    UpdateThresholdNotMet,
    /// A batch names more entries than one invocation may carry.
    BatchOperationLimitExceeded,
    /// A change scored under the minimum that a write must reach.
    EconomicThresholdNotMet,
    /// A contract's name is empty.
    EmptyName,
    /// A contract's type is empty.
    EmptyContractType,
    /// A sensor's location takes more than 50 bytes.
    LocationTooLong,
    /// A sensor's id takes more than 30 bytes.
    SensorIdTooLong,
}

} // verus!
