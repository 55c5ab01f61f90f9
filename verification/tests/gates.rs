use civic_ledger::account::Identity;
use civic_ledger::air_quality::AirQuality;
use civic_ledger::utils::{EconomicOptimizer, GasOptimizer};

fn sensor(updated_at: i64) -> AirQuality {
    AirQuality {
        location: String::from("north gate"),
        sensor_id: String::from("ng-01"),
        authority: Identity { bytes: [7u8; 32] },
        aqi: 50,
        pm25: 20_000,
        pm10: 40_000,
        co2: 400_000,
        humidity: 50_000,
        temperature: 20_000,
        created_at: 0,
        updated_at,
        update_count: 0,
    }
}

const HOUR: i64 = 3600;

#[test]
fn percentage_threshold_from_zero() {
    assert!(!EconomicOptimizer::meets_percentage_threshold(0, 0, 5_000));
    assert!(EconomicOptimizer::meets_percentage_threshold(0, 1, 5_000));
    assert!(EconomicOptimizer::meets_percentage_threshold(0, -1, 1_000_000));
}

#[test]
fn percentage_threshold_is_reached_at_the_threshold() {
    assert!(EconomicOptimizer::meets_percentage_threshold(100, 105, 5_000));
    assert!(EconomicOptimizer::meets_percentage_threshold(100, 95, 5_000));
    assert!(!EconomicOptimizer::meets_percentage_threshold(100, 104, 5_000));
    assert!(!EconomicOptimizer::meets_percentage_threshold(100, 96, 5_000));
    assert!(EconomicOptimizer::meets_percentage_threshold(-200, -180, 10_000));
    assert!(!EconomicOptimizer::meets_percentage_threshold(-200, -181, 10_000));
    assert!(EconomicOptimizer::meets_percentage_threshold(100, 100, 0));
}

#[test]
fn percentage_threshold_takes_fractions_of_a_percent() {
    // 2.5% of 1000 is 25.
    assert!(EconomicOptimizer::meets_percentage_threshold(1_000, 1_025, 2_500));
    assert!(!EconomicOptimizer::meets_percentage_threshold(1_000, 1_024, 2_500));
    // 0.001% of 100000 is 1.
    assert!(EconomicOptimizer::meets_percentage_threshold(100_000, 100_001, 1));
    assert!(!EconomicOptimizer::meets_percentage_threshold(100_000, 100_000, 1));
    assert!(!EconomicOptimizer::meets_percentage_threshold(100_001, 100_002, 1));
}

#[test]
fn percentage_threshold_at_the_ends_of_the_number_range() {
    assert!(EconomicOptimizer::meets_percentage_threshold(i32::MIN, i32::MAX, 199_000));
    assert!(!EconomicOptimizer::meets_percentage_threshold(i32::MIN, i32::MAX, 200_000));
    assert!(!EconomicOptimizer::meets_percentage_threshold(i32::MAX, i32::MAX, u32::MAX));
    assert!(EconomicOptimizer::meets_percentage_threshold(1, i32::MIN, u32::MAX));
}

#[test]
fn absolute_threshold_is_reached_at_the_threshold() {
    assert!(EconomicOptimizer::meets_absolute_threshold(10, 15, 5));
    assert!(EconomicOptimizer::meets_absolute_threshold(15, 10, 5));
    assert!(!EconomicOptimizer::meets_absolute_threshold(10, 14, 5));
    assert!(EconomicOptimizer::meets_absolute_threshold(10, 10, 0));
    assert!(EconomicOptimizer::meets_absolute_threshold(i32::MIN, i32::MAX, u32::MAX));
    assert!(!EconomicOptimizer::meets_absolute_threshold(i32::MIN, i32::MAX - 1, u32::MAX));
}

#[test]
fn time_threshold_is_reached_at_the_threshold() {
    assert!(EconomicOptimizer::meets_time_threshold(1_000, 1_000 + 86_400, 86_400));
    assert!(!EconomicOptimizer::meets_time_threshold(1_000, 1_000 + 86_399, 86_400));
    assert!(EconomicOptimizer::meets_time_threshold(i64::MIN, i64::MAX, i64::MAX));
    assert!(!EconomicOptimizer::meets_time_threshold(i64::MAX, i64::MIN, 0));
    assert!(EconomicOptimizer::meets_time_threshold(5, 3, -2));
}

#[test]
fn unchanged_readings_within_a_day_are_not_significant() {
    let record = sensor(1_000);
    assert!(!record.is_significant_change(50, 20_000, 40_000, 400_000, 50_000, 20_000, 1_000));
    assert!(!record.is_significant_change(
        50,
        20_000,
        40_000,
        400_000,
        50_000,
        20_000,
        1_000 + 24 * HOUR
    ));
}

#[test]
fn any_readings_after_more_than_a_day_are_significant() {
    let record = sensor(1_000);
    assert!(record.is_significant_change(
        50,
        20_000,
        40_000,
        400_000,
        50_000,
        20_000,
        1_000 + 24 * HOUR + 1
    ));
}

#[test]
fn a_clock_that_ran_backwards_is_not_staleness() {
    let record = sensor(1_000);
    assert!(!record.is_significant_change(50, 20_000, 40_000, 400_000, 50_000, 20_000, i64::MIN));
    let record = sensor(i64::MIN);
    assert!(record.is_significant_change(50, 20_000, 40_000, 400_000, 50_000, 20_000, i64::MAX));
}

#[test]
fn aqi_is_significant_above_five_percent() {
    let record = sensor(1_000);
    // 50 -> 52 is 4%, 50 -> 53 is 6%.
    assert!(!record.is_significant_change(52, 20_000, 40_000, 400_000, 50_000, 20_000, 2_000));
    assert!(record.is_significant_change(53, 20_000, 40_000, 400_000, 50_000, 20_000, 2_000));
    assert!(record.is_significant_change(47, 20_000, 40_000, 400_000, 50_000, 20_000, 2_000));
    let mut record = sensor(1_000);
    record.aqi = 100;
    // Exactly 5% is not more than 5%.
    assert!(!record.is_significant_change(105, 20_000, 40_000, 400_000, 50_000, 20_000, 2_000));
    assert!(record.is_significant_change(106, 20_000, 40_000, 400_000, 50_000, 20_000, 2_000));
}

#[test]
fn aqi_at_zero_is_measured_against_one() {
    let mut record = sensor(1_000);
    record.aqi = 0;
    assert!(!record.is_significant_change(0, 20_000, 40_000, 400_000, 50_000, 20_000, 2_000));
    assert!(record.is_significant_change(1, 20_000, 40_000, 400_000, 50_000, 20_000, 2_000));
}

#[test]
fn pm25_is_significant_above_ten_percent() {
    let record = sensor(1_000);
    assert!(!record.is_significant_change(50, 22_000, 40_000, 400_000, 50_000, 20_000, 2_000));
    assert!(record.is_significant_change(50, 22_001, 40_000, 400_000, 50_000, 20_000, 2_000));
    assert!(!record.is_significant_change(50, 18_000, 40_000, 400_000, 50_000, 20_000, 2_000));
    assert!(record.is_significant_change(50, 17_999, 40_000, 400_000, 50_000, 20_000, 2_000));
}

#[test]
fn pm25_under_one_unit_is_measured_against_one_unit() {
    let mut record = sensor(1_000);
    record.pm25 = 200;
    // A tenth of one unit is 100 thousandths.
    assert!(!record.is_significant_change(50, 300, 40_000, 400_000, 50_000, 20_000, 2_000));
    assert!(record.is_significant_change(50, 301, 40_000, 400_000, 50_000, 20_000, 2_000));
}

#[test]
fn pm10_is_significant_above_ten_percent() {
    let record = sensor(1_000);
    assert!(!record.is_significant_change(50, 20_000, 44_000, 400_000, 50_000, 20_000, 2_000));
    assert!(record.is_significant_change(50, 20_000, 44_001, 400_000, 50_000, 20_000, 2_000));
    assert!(record.is_significant_change(50, 20_000, 35_999, 400_000, 50_000, 20_000, 2_000));
}

#[test]
fn co2_is_significant_above_five_percent() {
    let record = sensor(1_000);
    assert!(!record.is_significant_change(50, 20_000, 40_000, 420_000, 50_000, 20_000, 2_000));
    assert!(record.is_significant_change(50, 20_000, 40_000, 420_001, 50_000, 20_000, 2_000));
    assert!(record.is_significant_change(50, 20_000, 40_000, 379_999, 50_000, 20_000, 2_000));
}

#[test]
fn humidity_is_significant_above_five_units() {
    let record = sensor(1_000);
    assert!(!record.is_significant_change(50, 20_000, 40_000, 400_000, 55_000, 20_000, 2_000));
    assert!(record.is_significant_change(50, 20_000, 40_000, 400_000, 55_001, 20_000, 2_000));
    assert!(!record.is_significant_change(50, 20_000, 40_000, 400_000, 45_000, 20_000, 2_000));
    assert!(record.is_significant_change(50, 20_000, 40_000, 400_000, 44_999, 20_000, 2_000));
}

#[test]
fn temperature_is_significant_above_two_units() {
    let record = sensor(1_000);
    assert!(!record.is_significant_change(50, 20_000, 40_000, 400_000, 50_000, 22_000, 2_000));
    assert!(record.is_significant_change(50, 20_000, 40_000, 400_000, 50_000, 22_001, 2_000));
    assert!(!record.is_significant_change(50, 20_000, 40_000, 400_000, 50_000, 18_000, 2_000));
    assert!(record.is_significant_change(50, 20_000, 40_000, 400_000, 50_000, 17_999, 2_000));
}

#[test]
fn significance_at_the_ends_of_the_number_range() {
    let mut record = sensor(1_000);
    record.pm25 = i32::MIN;
    record.temperature = i32::MAX;
    assert!(record.is_significant_change(u16::MAX, i32::MAX, 40_000, 400_000, 50_000, i32::MIN, 2_000));
    assert!(!record.is_significant_change(50, i32::MIN, 40_000, 400_000, 50_000, i32::MAX, 2_000));
}

#[test]
fn priority_of_no_change_is_zero() {
    assert_eq!(EconomicOptimizer::calculate_update_priority(0, 0, 0, 0, 0, 0, 0), 0);
    assert_eq!(
        EconomicOptimizer::calculate_update_priority(2, 5_000, 10_000, 25_000, 5_000, 2_000, 21_600),
        0
    );
    assert_eq!(EconomicOptimizer::calculate_update_priority(0, 0, 0, 0, 0, 0, i64::MIN), 0);
}

#[test]
fn priority_of_the_lowest_tiers() {
    assert_eq!(
        EconomicOptimizer::calculate_update_priority(3, 5_001, 10_001, 25_001, 5_001, 2_001, 21_601),
        20 + 16 + 12 + 8 + 4 + 6 + 25
    );
    assert_eq!(
        EconomicOptimizer::calculate_update_priority(5, 10_000, 15_000, 50_000, 10_000, 5_000, 43_200),
        91
    );
}

#[test]
fn priority_of_the_middle_tiers() {
    assert_eq!(
        EconomicOptimizer::calculate_update_priority(6, 10_001, 15_001, 50_001, 10_001, 5_001, 43_201),
        50 + 40 + 30 + 20 + 10 + 15 + 50
    );
    assert_eq!(
        EconomicOptimizer::calculate_update_priority(
            10, 15_000, 20_000, 100_000, 20_000, 10_000, 86_400
        ),
        215
    );
}

#[test]
fn priority_of_the_highest_tiers() {
    assert_eq!(
        EconomicOptimizer::calculate_update_priority(
            11, 15_001, 20_001, 100_001, 20_001, 10_001, 86_401
        ),
        430
    );
    assert_eq!(
        EconomicOptimizer::calculate_update_priority(
            u32::MAX,
            u32::MAX,
            u32::MAX,
            u32::MAX,
            u32::MAX,
            u32::MAX,
            i64::MAX
        ),
        430
    );
}

#[test]
fn priority_counts_each_quantity_once() {
    assert_eq!(EconomicOptimizer::calculate_update_priority(11, 0, 0, 0, 0, 0, 0), 100);
    assert_eq!(EconomicOptimizer::calculate_update_priority(0, 15_001, 0, 0, 0, 0, 0), 80);
    assert_eq!(EconomicOptimizer::calculate_update_priority(0, 0, 20_001, 0, 0, 0, 0), 60);
    assert_eq!(EconomicOptimizer::calculate_update_priority(0, 0, 0, 100_001, 0, 0, 0), 40);
    assert_eq!(EconomicOptimizer::calculate_update_priority(0, 0, 0, 0, 20_001, 0, 0), 20);
    assert_eq!(EconomicOptimizer::calculate_update_priority(0, 0, 0, 0, 0, 10_001, 0), 30);
    assert_eq!(EconomicOptimizer::calculate_update_priority(0, 0, 0, 0, 0, 0, 86_401), 100);
}

#[test]
fn priority_never_falls_when_a_quantity_grows() {
    let steps: [u32; 9] = [0, 2, 3, 5, 6, 10, 11, 1_000, u32::MAX];
    let mut last = 0;
    for step in steps {
        let score = EconomicOptimizer::calculate_update_priority(step, 0, 0, 0, 0, 0, 0);
        assert!(score >= last);
        last = score;
    }
    let waits: [i64; 8] = [i64::MIN, 0, 21_600, 21_601, 43_201, 86_400, 86_401, i64::MAX];
    let mut last = 0;
    for wait in waits {
        let score = EconomicOptimizer::calculate_update_priority(0, 0, 0, 0, 0, 0, wait);
        assert!(score >= last);
        last = score;
    }
}

#[test]
fn should_update_compares_the_priority_with_the_minimum() {
    // Index 50 -> 61 scores 100, PM2.5 20 -> 31 units scores 40, 7 hours score 25.
    let update = |minimum: u32| {
        EconomicOptimizer::should_update(
            50, 61, 20_000, 31_000, 0, 0, 0, 0, 0, 0, 0, 0, 1_000, 1_000 + 7 * HOUR, minimum,
        )
    };
    assert!(update(0));
    assert!(update(165));
    assert!(!update(166));
}

#[test]
fn should_update_takes_changes_without_sign() {
    assert!(EconomicOptimizer::should_update(
        61, 50, 31_000, 20_000, 0, 0, 0, 0, 0, 0, 0, 0, 1_000, 1_000, 140,
    ));
    assert!(!EconomicOptimizer::should_update(
        61, 50, 31_000, 20_000, 0, 0, 0, 0, 0, 0, 0, 0, 1_000, 1_000, 141,
    ));
}

#[test]
fn should_update_with_a_wait_beyond_the_number_range() {
    assert!(EconomicOptimizer::should_update(
        0, 0, 0, 0, 0, 0, 0, 0, 0, 0, 0, 0, i64::MIN, i64::MAX, 100,
    ));
    assert!(!EconomicOptimizer::should_update(
        0, 0, 0, 0, 0, 0, 0, 0, 0, 0, 0, 0, i64::MAX, i64::MIN, 1,
    ));
    assert!(EconomicOptimizer::should_update(
        0, u16::MAX, i32::MIN, i32::MAX, 0, 0, 0, 0, 0, 0, i32::MAX, i32::MIN, 0, 0, 210,
    ));
}

#[test]
fn operation_costs() {
    assert_eq!(GasOptimizer::estimate_operation_cost("initialize_air_quality", 100), 6_000);
    assert_eq!(GasOptimizer::estimate_operation_cost("update_air_quality", 100), 3_500);
    assert_eq!(GasOptimizer::estimate_operation_cost("batch_update_air_quality", 100), 3_500);
    assert_eq!(GasOptimizer::estimate_operation_cost("initialize_contract", 100), 7_200);
    assert_eq!(GasOptimizer::estimate_operation_cost("update_contract", 100), 4_300);
    assert_eq!(GasOptimizer::estimate_operation_cost("batch_contract_operation", 100), 4_300);
    assert_eq!(GasOptimizer::estimate_operation_cost("update_contract", 0), 3_500);
}

#[test]
fn unknown_operations_cost_a_flat_estimate() {
    assert_eq!(GasOptimizer::estimate_operation_cost("something else", 100), 5_000);
    assert_eq!(GasOptimizer::estimate_operation_cost("", usize::MAX), 5_000);
    assert_eq!(GasOptimizer::estimate_operation_cost("update_contracts", 100), 5_000);
    assert_eq!(GasOptimizer::estimate_operation_cost("Update_contract", 100), 5_000);
}

#[test]
fn optimal_batch_sizes() {
    assert_eq!(GasOptimizer::optimal_batch_size("air_quality_update"), 3);
    assert_eq!(GasOptimizer::optimal_batch_size("contract_operation"), 2);
    assert_eq!(GasOptimizer::optimal_batch_size("anything"), 1);
    assert_eq!(GasOptimizer::optimal_batch_size(""), 1);
}

#[test]
fn batching_pays_from_the_optimal_size_on() {
    assert!(!GasOptimizer::should_batch(2, "air_quality_update"));
    assert!(GasOptimizer::should_batch(3, "air_quality_update"));
    assert!(!GasOptimizer::should_batch(1, "contract_operation"));
    assert!(GasOptimizer::should_batch(2, "contract_operation"));
    assert!(!GasOptimizer::should_batch(0, "anything"));
    assert!(GasOptimizer::should_batch(1, "anything"));
}
