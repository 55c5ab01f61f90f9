use crate::air_quality::{distance, AirQuality, SensorData, SCALE};
use crate::errors::CustomError;
use crate::text::{byte_len, text_eq, trim, trimmed};
use core::cmp::Ordering;
use vstd::prelude::*;
use vstd::std_specs::cmp::PartialOrdSpec;

verus! {

/// Rules that tell a change worth writing from one that is not.
pub struct EconomicOptimizer;

/// Checks on texts, ranges and lists of readings.
pub struct ValidationUtils;

/// Estimates of what an operation costs, and of when a batch pays.
pub struct GasOptimizer;

/// The size of a number, without its sign.
pub open spec fn magnitude(a: int) -> int {
    if a >= 0 {
        a
    } else {
        -a
    }
}

/// The points that one quantity adds to the priority of an update. Three
/// tiers lie one above the other; the quantity earns the points of the
/// highest tier that it exceeds, and those alone.
pub open spec fn tier(
    delta: int,
    high: int,
    middle: int,
    low: int,
    high_points: int,
    middle_points: int,
    low_points: int,
) -> int {
    if delta > high {
        high_points
    } else if delta > middle {
        middle_points
    } else if delta > low {
        low_points
    } else {
        0
    }
}

fn tier_points(
    delta: i64,
    high: i64,
    middle: i64,
    low: i64,
    high_points: u32,
    middle_points: u32,
    low_points: u32,
) -> (r: u32)
    ensures
        r == tier(
            delta as int,
            high as int,
            middle as int,
            low as int,
            high_points as int,
            middle_points as int,
            low_points as int,
        ),
{
    if delta > high {
        high_points
    } else if delta > middle {
        middle_points
    } else if delta > low {
        low_points
    } else {
        0
    }
}

impl EconomicOptimizer {
    /// Whether the step from `old_value` to `new_value` is at least
    /// `threshold` of the size of `old_value`, where `threshold` counts
    /// thousandths of a percent: 5% is `5 * SCALE`. A step away from zero
    /// always is, and no step at zero is.
    pub open spec fn spec_meets_percentage_threshold(
        old_value: int,
        new_value: int,
        threshold: int,
    ) -> bool {
        if old_value == 0 {
            new_value != 0
        } else {
            distance(new_value, old_value) * 100 * SCALE >= threshold * magnitude(old_value)
        }
    }

    /// Decides whether a relative change reaches a threshold given in
    /// thousandths of a percent.
    pub fn meets_percentage_threshold(old_value: i32, new_value: i32, threshold: u32) -> (r: bool)
        ensures
            r == Self::spec_meets_percentage_threshold(
                old_value as int,
                new_value as int,
                threshold as int,
            ),
    {
        if old_value == 0 {
            return new_value != 0;
        }
        let step: i128 = if new_value >= old_value {
            new_value as i128 - old_value as i128
        } else {
            old_value as i128 - new_value as i128
        };
        let size: i128 = if old_value >= 0 {
            old_value as i128
        } else {
            -(old_value as i128)
        };
        let share: i128 = threshold as i128;
        assert(0 <= share * size <= 0x1_0000_0000 * 0x1_0000_0000) by (nonlinear_arith)
            requires
                0 <= share <= 0x1_0000_0000,
                0 <= size <= 0x1_0000_0000,
        ;
        step * 100 * (SCALE as i128) >= share * size
    }

    /// Decides whether two values lie at least `threshold` apart.
    pub fn meets_absolute_threshold(old_value: i32, new_value: i32, threshold: u32) -> (r: bool)
        ensures
            r == (distance(new_value as int, old_value as int) >= threshold),
    {
        let step: i64 = if new_value >= old_value {
            new_value as i64 - old_value as i64
        } else {
            old_value as i64 - new_value as i64
        };
        step >= threshold as i64
    }

    /// Decides whether at least `threshold_seconds` lie between the last
    /// update and `now`.
    pub fn meets_time_threshold(last_update: i64, now: i64, threshold_seconds: i64) -> (r: bool)
        ensures
            r == (now - last_update >= threshold_seconds),
    {
        now as i128 - last_update as i128 >= threshold_seconds as i128
    }

    /// The priority of an update, from how far each reading moved and how
    /// long the record has waited. Each of the seven quantities adds the
    /// points of its own tiers, and the priority is their sum:
    ///
    /// | quantity    | exceeds              | points      |
    /// |-------------|----------------------|-------------|
    /// | index       | 10 / 5 / 2           | 100/50/20   |
    /// | PM2.5       | 15 / 10 / 5 units    | 80/40/16    |
    /// | PM10        | 20 / 15 / 10 units   | 60/30/12    |
    /// | CO2         | 100 / 50 / 25 units  | 40/20/8     |
    /// | humidity    | 20 / 10 / 5 units    | 20/10/4     |
    /// | temperature | 10 / 5 / 2 units     | 30/15/6     |
    /// | waiting     | 24 / 12 / 6 hours    | 100/50/25   |
    pub open spec fn spec_calculate_update_priority(
        aqi_change: int,
        pm25_change: int,
        pm10_change: int,
        co2_change: int,
        humidity_change: int,
        temp_change: int,
        time_since_update: int,
    ) -> int {
        tier(aqi_change, 10, 5, 2, 100, 50, 20) + tier(
            pm25_change,
            15 * SCALE,
            10 * SCALE,
            5 * SCALE,
            80,
            40,
            16,
        ) + tier(pm10_change, 20 * SCALE, 15 * SCALE, 10 * SCALE, 60, 30, 12) + tier(
            co2_change,
            100 * SCALE,
            50 * SCALE,
            25 * SCALE,
            40,
            20,
            8,
        ) + tier(humidity_change, 20 * SCALE, 10 * SCALE, 5 * SCALE, 20, 10, 4) + tier(
            temp_change,
            10 * SCALE,
            5 * SCALE,
            2 * SCALE,
            30,
            15,
            6,
        ) + tier(time_since_update, 86400, 43200, 21600, 100, 50, 25)
    }

    /// Computes the priority of an update. The changes of the readings are
    /// given without sign, in the units of the readings themselves.
    pub fn calculate_update_priority(
        aqi_change: u32,
        pm25_change: u32,
        pm10_change: u32,
        co2_change: u32,
        humidity_change: u32,
        temp_change: u32,
        time_since_update: i64,
    ) -> (score: u32)
        ensures
            score == Self::spec_calculate_update_priority(
                aqi_change as int,
                pm25_change as int,
                pm10_change as int,
                co2_change as int,
                humidity_change as int,
                temp_change as int,
                time_since_update as int,
            ),
    {
        let unit: i64 = SCALE as i64;
        let mut score: u32 = 0;
        score = score + tier_points(aqi_change as i64, 10, 5, 2, 100, 50, 20);
        score = score + tier_points(pm25_change as i64, 15 * unit, 10 * unit, 5 * unit, 80, 40, 16);
        score = score + tier_points(pm10_change as i64, 20 * unit, 15 * unit, 10 * unit, 60, 30, 12);
        score = score + tier_points(co2_change as i64, 100 * unit, 50 * unit, 25 * unit, 40, 20, 8);
        score = score + tier_points(
            humidity_change as i64,
            20 * unit,
            10 * unit,
            5 * unit,
            20,
            10,
            4,
        );
        score = score + tier_points(temp_change as i64, 10 * unit, 5 * unit, 2 * unit, 30, 15, 6);
        score = score + tier_points(time_since_update, 86400, 43200, 21600, 100, 50, 25);
        score
    }

    /// Raising any of the seven quantities never lowers the priority.
    pub proof fn lemma_priority_monotonic(
        aqi_change: int,
        pm25_change: int,
        pm10_change: int,
        co2_change: int,
        humidity_change: int,
        temp_change: int,
        time_since_update: int,
        aqi_change_2: int,
        pm25_change_2: int,
        pm10_change_2: int,
        co2_change_2: int,
        humidity_change_2: int,
        temp_change_2: int,
        time_since_update_2: int,
    )
        requires
            aqi_change <= aqi_change_2,
            pm25_change <= pm25_change_2,
            pm10_change <= pm10_change_2,
            co2_change <= co2_change_2,
            humidity_change <= humidity_change_2,
            temp_change <= temp_change_2,
            time_since_update <= time_since_update_2,
        ensures
            Self::spec_calculate_update_priority(
                aqi_change,
                pm25_change,
                pm10_change,
                co2_change,
                humidity_change,
                temp_change,
                time_since_update,
            ) <= Self::spec_calculate_update_priority(
                aqi_change_2,
                pm25_change_2,
                pm10_change_2,
                co2_change_2,
                humidity_change_2,
                temp_change_2,
                time_since_update_2,
            ),
    {
    }

    /// The tiers of a quantity shut each other out: it earns the points of
    /// the highest tier that it exceeds and none of a lower one, and no
    /// points where it exceeds no tier.
    pub proof fn lemma_tiers_exclusive(
        delta: int,
        high: int,
        middle: int,
        low: int,
        high_points: int,
        middle_points: int,
        low_points: int,
    )
        requires
            low <= middle <= high,
        ensures
            delta > high ==> tier(delta, high, middle, low, high_points, middle_points, low_points)
                == high_points,
            middle < delta <= high ==> tier(
                delta,
                high,
                middle,
                low,
                high_points,
                middle_points,
                low_points,
            ) == middle_points,
            low < delta <= middle ==> tier(
                delta,
                high,
                middle,
                low,
                high_points,
                middle_points,
                low_points,
            ) == low_points,
            delta <= low ==> tier(delta, high, middle, low, high_points, middle_points, low_points)
                == 0,
    {
    }

    /// No update scores more than 430, and none less than nothing.
    pub proof fn lemma_priority_bounds(
        aqi_change: int,
        pm25_change: int,
        pm10_change: int,
        co2_change: int,
        humidity_change: int,
        temp_change: int,
        time_since_update: int,
    )
        ensures
            0 <= Self::spec_calculate_update_priority(
                aqi_change,
                pm25_change,
                pm10_change,
                co2_change,
                humidity_change,
                temp_change,
                time_since_update,
            ) <= 430,
    {
    }

    /// The priority that gates an update: that of the steps between the
    /// stored and the proposed readings, and of the time since the last
    /// update.
    pub open spec fn spec_update_priority(
        old_aqi: u16,
        new_aqi: u16,
        old_pm25: i32,
        new_pm25: i32,
        old_pm10: i32,
        new_pm10: i32,
        old_co2: i32,
        new_co2: i32,
        old_humidity: i32,
        new_humidity: i32,
        old_temp: i32,
        new_temp: i32,
        last_update: i64,
        now: i64,
    ) -> int {
        Self::spec_calculate_update_priority(
            distance(new_aqi as int, old_aqi as int),
            distance(new_pm25 as int, old_pm25 as int),
            distance(new_pm10 as int, old_pm10 as int),
            distance(new_co2 as int, old_co2 as int),
            distance(new_humidity as int, old_humidity as int),
            distance(new_temp as int, old_temp as int),
            now - last_update,
        )
    }

    /// Decides whether an update scores at least `minimum_score`. This gate
    /// can be tuned; the fixed one is `AirQuality::is_significant_change`.
    pub fn should_update(
        old_aqi: u16,
        new_aqi: u16,
        old_pm25: i32,
        new_pm25: i32,
        old_pm10: i32,
        new_pm10: i32,
        old_co2: i32,
        new_co2: i32,
        old_humidity: i32,
        new_humidity: i32,
        old_temp: i32,
        new_temp: i32,
        last_update: i64,
        now: i64,
        minimum_score: u32,
    ) -> (r: bool)
        ensures
            r == (Self::spec_update_priority(
                old_aqi,
                new_aqi,
                old_pm25,
                new_pm25,
                old_pm10,
                new_pm10,
                old_co2,
                new_co2,
                old_humidity,
                new_humidity,
                old_temp,
                new_temp,
                last_update,
                now,
            ) >= minimum_score),
    {
        let aqi_change = step(old_aqi as i32, new_aqi as i32);
        let pm25_change = step(old_pm25, new_pm25);
        let pm10_change = step(old_pm10, new_pm10);
        let co2_change = step(old_co2, new_co2);
        let humidity_change = step(old_humidity, new_humidity);
        let temp_change = step(old_temp, new_temp);
        let waited: i128 = now as i128 - last_update as i128;
        let time_since_update: i64 = if waited > i64::MAX as i128 {
            i64::MAX
        } else if waited < i64::MIN as i128 {
            i64::MIN
        } else {
            waited as i64
        };
        let priority_score = Self::calculate_update_priority(
            aqi_change,
            pm25_change,
            pm10_change,
            co2_change,
            humidity_change,
            temp_change,
            time_since_update,
        );
        priority_score >= minimum_score
    }
}

fn step(old_value: i32, new_value: i32) -> (r: u32)
    ensures
        r == distance(new_value as int, old_value as int),
{
    if new_value >= old_value {
        (new_value as i64 - old_value as i64) as u32
    } else {
        (old_value as i64 - new_value as i64) as u32
    }
}

impl ValidationUtils {
    /// The verdict on a text of `length` bytes of which `kept` characters are
    /// left after trimming: it must fit in `max_length` bytes and must not be
    /// blank.
    pub open spec fn spec_validate_string(length: nat, kept: nat, max_length: usize) -> Result<
        (),
        CustomError,
    > {
        if length <= max_length && kept > 0 {
            Ok(())
        } else {
            Err(CustomError::InvalidInput)
        }
    }

    /// Checks a text against its limit, given what is left of it after
    /// trimming.
    pub fn validate_trimmed(value: &str, kept: &str, max_length: usize) -> (r: Result<
        (),
        CustomError,
    >)
        ensures
            r == Self::spec_validate_string(byte_len(value@), kept@.len(), max_length),
    {
        if value.as_bytes().len() > max_length {
            return Err(CustomError::InvalidInput);
        }
        if kept.is_empty() {
            return Err(CustomError::InvalidInput);
        }
        Ok(())
    }

    /// Checks that a text fits in `max_length` bytes and holds more than
    /// white space.
    pub fn validate_string(value: &str, max_length: usize, _field_name: &str) -> (r: Result<
        (),
        CustomError,
    >)
        ensures
            r == Self::spec_validate_string(byte_len(value@), trimmed(value@).len(), max_length),
    {
        Self::validate_trimmed(value, trim(value), max_length)
    }

    /// Checks that a value lies between `min` and `max`, both included.
    /// Whatever error is named, the one returned is `InvalidInput`.
    pub fn validate_range<T: PartialOrd + Copy>(value: T, min: T, max: T, _error: CustomError) -> (r:
        Result<(), CustomError>)
        ensures
            r is Err ==> r == Err::<(), CustomError>(CustomError::InvalidInput),
            T::obeys_partial_cmp_spec() ==> (r is Ok <==> (value.partial_cmp_spec(&min) matches Some(
                Ordering::Greater
                | Ordering::Equal,
            ) && value.partial_cmp_spec(&max) matches Some(Ordering::Less | Ordering::Equal))),
    {
        if value >= min && value <= max {
            Ok(())
        } else {
            Err(CustomError::InvalidInput)
        }
    }

    /// The verdict on one entry of a list of readings.
    pub open spec fn entry_verdict(entry: SensorData) -> Result<(), CustomError> {
        AirQuality::spec_validate_sensor_data(
            entry.0,
            entry.1,
            entry.2,
            entry.3,
            entry.4,
            entry.5,
        )
    }

    /// Checks every entry of a list of readings, in order, and stops at the
    /// first that fails.
    pub fn validate_air_quality_batch(data: &[SensorData]) -> (r: Result<(), CustomError>)
        ensures
            match r {
                Ok(()) => forall|i: int|
                    0 <= i < data@.len() ==> (#[trigger] Self::entry_verdict(data@[i])) is Ok,
                Err(e) => exists|i: int|
                    {
                        &&& 0 <= i < data@.len()
                        &&& #[trigger] Self::entry_verdict(data@[i]) == Err::<(), CustomError>(e)
                        &&& forall|j: int|
                            0 <= j < i ==> (#[trigger] Self::entry_verdict(data@[j])) is Ok
                    },
            },
    {
        let count = data.len();
        let mut index: usize = 0;
        while index < count
            invariant
                index <= count,
                count == data@.len(),
                forall|j: int| 0 <= j < index ==> (#[trigger] Self::entry_verdict(data@[j])) is Ok,
            decreases count - index,
        {
            let entry = data[index];
            match AirQuality::validate_sensor_data(
                entry.0,
                entry.1,
                entry.2,
                entry.3,
                entry.4,
                entry.5,
            ) {
                Err(e) => {
                    assert(Self::entry_verdict(data@[index as int]) == Err::<(), CustomError>(e));
                    return Err(e);
                },
                Ok(()) => {},
            }
            index += 1;
        }
        Ok(())
    }
}

impl GasOptimizer {
    /// The estimated cost of an operation on `data_size` bytes: a base, and
    /// a price for each byte, both set by the kind of operation. A kind that
    /// is not known costs a flat 5000.
    pub open spec fn spec_estimate_operation_cost(operation_type: Seq<char>, data_size: int) -> int {
        if operation_type == "initialize_air_quality"@ {
            5000 + data_size * 10
        } else if operation_type == "update_air_quality"@ {
            3000 + data_size * 5
        } else if operation_type == "batch_update_air_quality"@ {
            2000 + data_size * 15
        } else if operation_type == "initialize_contract"@ {
            6000 + data_size * 12
        } else if operation_type == "update_contract"@ {
            3500 + data_size * 8
        } else if operation_type == "batch_contract_operation"@ {
            2500 + data_size * 18
        } else {
            5000
        }
    }

    /// Estimates the cost of an operation.
    pub fn estimate_operation_cost(operation_type: &str, data_size: usize) -> (r: u64)
        requires
            Self::spec_estimate_operation_cost(operation_type@, data_size as int) <= u64::MAX,
        ensures
            r == Self::spec_estimate_operation_cost(operation_type@, data_size as int),
    {
        if text_eq(operation_type, "initialize_air_quality") {
            5000 + (data_size as u64 * 10)
        } else if text_eq(operation_type, "update_air_quality") {
            3000 + (data_size as u64 * 5)
        } else if text_eq(operation_type, "batch_update_air_quality") {
            2000 + (data_size as u64 * 15)
        } else if text_eq(operation_type, "initialize_contract") {
            6000 + (data_size as u64 * 12)
        } else if text_eq(operation_type, "update_contract") {
            3500 + (data_size as u64 * 8)
        } else if text_eq(operation_type, "batch_contract_operation") {
            2500 + (data_size as u64 * 18)
        } else {
            5000
        }
    }

    /// The batch size at which a kind of operation is cheapest per record.
    pub open spec fn spec_optimal_batch_size(operation_type: Seq<char>) -> usize {
        if operation_type == "air_quality_update"@ {
            3
        } else if operation_type == "contract_operation"@ {
            2
        } else {
            1
        }
    }

    /// Gives the batch size at which a kind of operation is cheapest.
    pub fn optimal_batch_size(operation_type: &str) -> (r: usize)
        ensures
            r == Self::spec_optimal_batch_size(operation_type@),
    {
        if text_eq(operation_type, "air_quality_update") {
            3
        } else if text_eq(operation_type, "contract_operation") {
            2
        } else {
            1
        }
    }

    /// Decides whether so many operations of one kind are better sent as a
    /// batch: they are once they fill the cheapest batch.
    pub fn should_batch(operation_count: usize, operation_type: &str) -> (r: bool)
        ensures
            r == (operation_count >= Self::spec_optimal_batch_size(operation_type@)),
    {
        let optimal_size = Self::optimal_batch_size(operation_type);
        operation_count >= optimal_size
    }
}

} // verus!
