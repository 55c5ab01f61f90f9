use civic_ledger::air_quality::AirQuality;
use civic_ledger::contract::Contract;
use civic_ledger::errors::CustomError;
use civic_ledger::utils::ValidationUtils;

#[test]
fn sensor_data_at_both_ends_of_every_range_is_accepted() {
    assert_eq!(AirQuality::validate_sensor_data(0, 0, 0, 0, 0, -50_000), Ok(()));
    assert_eq!(
        AirQuality::validate_sensor_data(500, 1_000_000, 1_000_000, 10_000_000, 100_000, 100_000),
        Ok(())
    );
    assert_eq!(AirQuality::validate_sensor_data(42, 12_500, 30_250, 415_000, 55_500, 21_300), Ok(()));
}

#[test]
fn aqi_one_above_its_range_is_rejected() {
    assert_eq!(
        AirQuality::validate_sensor_data(501, 0, 0, 0, 0, 0),
        Err(CustomError::InvalidAQIValue)
    );
    assert_eq!(
        AirQuality::validate_sensor_data(u16::MAX, 0, 0, 0, 0, 0),
        Err(CustomError::InvalidAQIValue)
    );
}

#[test]
fn pm25_just_outside_its_range_is_rejected() {
    assert_eq!(
        AirQuality::validate_sensor_data(0, -1, 0, 0, 0, 0),
        Err(CustomError::InvalidPM25Value)
    );
    assert_eq!(
        AirQuality::validate_sensor_data(0, 1_000_001, 0, 0, 0, 0),
        Err(CustomError::InvalidPM25Value)
    );
    assert_eq!(
        AirQuality::validate_sensor_data(0, 1_001_000, 0, 0, 0, 0),
        Err(CustomError::InvalidPM25Value)
    );
    assert_eq!(
        AirQuality::validate_sensor_data(0, -1_000, 0, 0, 0, 0),
        Err(CustomError::InvalidPM25Value)
    );
}

#[test]
fn pm10_just_outside_its_range_is_rejected() {
    assert_eq!(
        AirQuality::validate_sensor_data(0, 0, -1, 0, 0, 0),
        Err(CustomError::InvalidPM10Value)
    );
    assert_eq!(
        AirQuality::validate_sensor_data(0, 0, 1_000_001, 0, 0, 0),
        Err(CustomError::InvalidPM10Value)
    );
    assert_eq!(
        AirQuality::validate_sensor_data(0, 0, 1_001_000, 0, 0, 0),
        Err(CustomError::InvalidPM10Value)
    );
}

#[test]
fn co2_just_outside_its_range_is_rejected() {
    assert_eq!(
        AirQuality::validate_sensor_data(0, 0, 0, -1, 0, 0),
        Err(CustomError::InvalidCO2Value)
    );
    assert_eq!(
        AirQuality::validate_sensor_data(0, 0, 0, 10_000_001, 0, 0),
        Err(CustomError::InvalidCO2Value)
    );
    assert_eq!(
        AirQuality::validate_sensor_data(0, 0, 0, 10_001_000, 0, 0),
        Err(CustomError::InvalidCO2Value)
    );
}

#[test]
fn humidity_just_outside_its_range_is_rejected() {
    assert_eq!(
        AirQuality::validate_sensor_data(0, 0, 0, 0, -1, 0),
        Err(CustomError::InvalidHumidityValue)
    );
    assert_eq!(
        AirQuality::validate_sensor_data(0, 0, 0, 0, 100_001, 0),
        Err(CustomError::InvalidHumidityValue)
    );
    assert_eq!(
        AirQuality::validate_sensor_data(0, 0, 0, 0, 101_000, 0),
        Err(CustomError::InvalidHumidityValue)
    );
}

#[test]
fn temperature_just_outside_its_range_is_rejected() {
    assert_eq!(
        AirQuality::validate_sensor_data(0, 0, 0, 0, 0, -50_001),
        Err(CustomError::InvalidTemperatureValue)
    );
    assert_eq!(
        AirQuality::validate_sensor_data(0, 0, 0, 0, 0, -51_000),
        Err(CustomError::InvalidTemperatureValue)
    );
    assert_eq!(
        AirQuality::validate_sensor_data(0, 0, 0, 0, 0, 100_001),
        Err(CustomError::InvalidTemperatureValue)
    );
    assert_eq!(
        AirQuality::validate_sensor_data(0, 0, 0, 0, 0, 101_000),
        Err(CustomError::InvalidTemperatureValue)
    );
}

#[test]
fn the_first_reading_out_of_range_names_the_error() {
    assert_eq!(
        AirQuality::validate_sensor_data(501, -1, -1, -1, -1, -60_000),
        Err(CustomError::InvalidAQIValue)
    );
    assert_eq!(
        AirQuality::validate_sensor_data(500, 0, -1, -1, -1, -60_000),
        Err(CustomError::InvalidPM10Value)
    );
    assert_eq!(
        AirQuality::validate_sensor_data(500, 0, 0, 0, 200_000, 200_000),
        Err(CustomError::InvalidHumidityValue)
    );
}

#[test]
fn contract_data_at_its_limits_is_accepted() {
    let name = "n".repeat(50);
    let description = "d".repeat(200);
    let contract_type = "t".repeat(30);
    assert_eq!(Contract::validate_contract_data(&name, &description, &contract_type), Ok(()));
    assert_eq!(Contract::validate_contract_data("a", "", "b"), Ok(()));
}

#[test]
fn contract_name_one_byte_too_long_is_rejected() {
    let name = "n".repeat(51);
    assert_eq!(
        Contract::validate_contract_data(&name, "fine", "fine"),
        Err(CustomError::NameTooLong)
    );
}

#[test]
fn contract_description_one_byte_too_long_is_rejected() {
    let description = "d".repeat(201);
    assert_eq!(
        Contract::validate_contract_data("fine", &description, "fine"),
        Err(CustomError::DescriptionTooLong)
    );
}

#[test]
fn contract_type_one_byte_too_long_is_rejected() {
    let contract_type = "t".repeat(31);
    assert_eq!(
        Contract::validate_contract_data("fine", "fine", &contract_type),
        Err(CustomError::ContractTypeTooLong)
    );
}

#[test]
fn contract_limits_count_bytes_not_characters() {
    // 26 characters of two bytes each: 52 bytes.
    let name = "é".repeat(26);
    assert_eq!(name.chars().count(), 26);
    assert_eq!(
        Contract::validate_contract_data(&name, "fine", "fine"),
        Err(CustomError::NameTooLong)
    );
    let name = "é".repeat(25);
    assert_eq!(Contract::validate_contract_data(&name, "fine", "fine"), Ok(()));
}

#[test]
fn empty_contract_name_is_rejected_under_its_own_error() {
    assert_eq!(Contract::validate_contract_data("", "d", "t"), Err(CustomError::EmptyName));
    assert_eq!(Contract::validate_contract_data("", "", "t"), Err(CustomError::EmptyName));
}

#[test]
fn empty_contract_type_is_rejected_under_its_own_error() {
    assert_eq!(Contract::validate_contract_data("n", "d", ""), Err(CustomError::EmptyContractType));
    assert_ne!(
        Contract::validate_contract_data("", "d", "t"),
        Contract::validate_contract_data("n", "d", "")
    );
}

#[test]
fn empty_name_is_judged_before_empty_type() {
    assert_eq!(Contract::validate_contract_data("", "d", ""), Err(CustomError::EmptyName));
}

#[test]
fn contract_lengths_are_judged_before_emptiness() {
    let description = "d".repeat(201);
    assert_eq!(
        Contract::validate_contract_data("", &description, ""),
        Err(CustomError::DescriptionTooLong)
    );
    let contract_type = "t".repeat(31);
    assert_eq!(
        Contract::validate_contract_data("", "", &contract_type),
        Err(CustomError::ContractTypeTooLong)
    );
}

#[test]
fn validate_string_accepts_a_text_that_fits() {
    assert_eq!(ValidationUtils::validate_string("north gate", 10, "location"), Ok(()));
    assert_eq!(ValidationUtils::validate_string("  x  ", 5, "location"), Ok(()));
}

#[test]
fn validate_string_rejects_a_text_that_is_too_long() {
    assert_eq!(
        ValidationUtils::validate_string("north gate!", 10, "location"),
        Err(CustomError::InvalidInput)
    );
}

#[test]
fn validate_string_rejects_a_blank_text() {
    assert_eq!(ValidationUtils::validate_string("", 10, "location"), Err(CustomError::InvalidInput));
    assert_eq!(
        ValidationUtils::validate_string("   ", 10, "location"),
        Err(CustomError::InvalidInput)
    );
    assert_eq!(
        ValidationUtils::validate_string(" \t\n\u{a0}\u{3000}", 20, "location"),
        Err(CustomError::InvalidInput)
    );
}

#[test]
fn validate_trimmed_judges_what_trimming_left() {
    assert_eq!(ValidationUtils::validate_trimmed("  x  ", "x", 5), Ok(()));
    assert_eq!(ValidationUtils::validate_trimmed("     ", "", 5), Err(CustomError::InvalidInput));
    assert_eq!(ValidationUtils::validate_trimmed("  x   ", "x", 5), Err(CustomError::InvalidInput));
}

#[test]
fn validate_range_includes_both_ends() {
    let named = CustomError::InvalidAQIValue;
    assert_eq!(ValidationUtils::validate_range(1, 1, 10, named), Ok(()));
    assert_eq!(ValidationUtils::validate_range(10, 1, 10, named), Ok(()));
    assert_eq!(ValidationUtils::validate_range(5i64, 1, 10, named), Ok(()));
}

#[test]
fn validate_range_rejects_with_invalid_input() {
    let named = CustomError::InvalidAQIValue;
    assert_eq!(ValidationUtils::validate_range(0, 1, 10, named), Err(CustomError::InvalidInput));
    assert_eq!(ValidationUtils::validate_range(11, 1, 10, named), Err(CustomError::InvalidInput));
    assert_eq!(
        ValidationUtils::validate_range(-1i32, 0, 0, CustomError::NameTooLong),
        Err(CustomError::InvalidInput)
    );
}

#[test]
fn batch_validation_accepts_valid_entries() {
    let data = vec![(0u16, 0, 0, 0, 0, 0), (500, 1_000_000, 1_000_000, 10_000_000, 100_000, 100_000)];
    assert_eq!(ValidationUtils::validate_air_quality_batch(&data), Ok(()));
    assert_eq!(ValidationUtils::validate_air_quality_batch(&[]), Ok(()));
}

#[test]
fn batch_validation_stops_at_the_first_invalid_entry() {
    let data = vec![
        (10u16, 0, 0, 0, 0, 0),
        (10, 0, 0, 0, 100_001, 0),
        (501, 0, 0, 0, 0, 0),
    ];
    assert_eq!(
        ValidationUtils::validate_air_quality_batch(&data),
        Err(CustomError::InvalidHumidityValue)
    );
}
