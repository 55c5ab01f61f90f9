use crate::account::{Account, Identity, UpdateOutcome};
use crate::errors::CustomError;
use crate::events::{AirQualityInitialized, AirQualityUpdated};
use crate::text::byte_len;
use vstd::prelude::*;

verus! {

/// Readings other than the air quality index are fixed-point numbers: an
/// `i32` that counts thousandths of the unit in which the quantity is
/// measured. One whole unit is `SCALE`.
pub const SCALE: i32 = 1000;

/// The highest air quality index.
pub const MAX_AQI: u16 = 500;

/// The highest concentration of particles, PM2.5 or PM10: 1000 units.
pub const MAX_PARTICLES: i32 = 1000 * SCALE;

/// The highest concentration of CO2: 10000 units.
pub const MAX_CO2: i32 = 10000 * SCALE;

/// The highest relative humidity: 100 units.
pub const MAX_HUMIDITY: i32 = 100 * SCALE;

/// The lowest temperature: 50 units below zero.
pub const MIN_TEMPERATURE: i32 = -50 * SCALE;

/// The highest temperature: 100 units.
pub const MAX_TEMPERATURE: i32 = 100 * SCALE;

/// The most bytes that a sensor's location may take.
pub const MAX_LOCATION_LEN: usize = 50;

/// The most bytes that a sensor's id may take.
pub const MAX_SENSOR_ID_LEN: usize = 30;

/// The seconds after which a record is stale, and any update is written:
/// one day.
pub const STALENESS_WINDOW: i64 = 86400;

/// The CO2 concentration of a sensor that has not reported yet: 400 units,
/// as in open air.
pub const INITIAL_CO2: i32 = 400 * SCALE;

/// The relative humidity of a sensor that has not reported yet: 50 units.
pub const INITIAL_HUMIDITY: i32 = 50 * SCALE;

/// The temperature of a sensor that has not reported yet: 20 units.
pub const INITIAL_TEMPERATURE: i32 = 20 * SCALE;

/// How far two numbers lie apart.
pub open spec fn distance(a: int, b: int) -> int {
    if a >= b {
        a - b
    } else {
        b - a
    }
}

/// Whether the step from `old_value` to `new_value` is more than `percent`
/// hundredths of `old_value`. A stored value under `floor` counts as `floor`,
/// so that a reading near zero is not compared with nothing.
pub open spec fn exceeds_share(old_value: int, new_value: int, floor: int, percent: int) -> bool {
    distance(new_value, old_value) * 100 > percent * (if old_value >= floor {
        old_value
    } else {
        floor
    })
}

/// The latest state of one air quality sensor. One authority owns it for as
/// long as it lives.
#[derive(Clone, Debug, PartialEq, Eq)]
pub struct AirQuality {
    pub location: String,
    pub sensor_id: String,
    pub authority: Identity,
    /// Air quality index, 0 to 500.
    pub aqi: u16,
    /// PM2.5 concentration in thousandths, 0 to 1000 units.
    pub pm25: i32,
    /// PM10 concentration in thousandths, 0 to 1000 units.
    pub pm10: i32,
    /// CO2 concentration in thousandths, 0 to 10000 units.
    pub co2: i32,
    /// Relative humidity in thousandths, 0 to 100 units.
    pub humidity: i32,
    /// Temperature in thousandths, -50 to 100 units.
    pub temperature: i32,
    pub created_at: i64,
    pub updated_at: i64,
    /// Grows by one with every applied update.
    pub update_count: u32,
}

impl AirQuality {
    /// The verdict on six readings. They are judged in the order index,
    /// PM2.5, PM10, CO2, humidity, temperature, and the first that lies
    /// outside its range gives the error. Both ends of a range lie inside.
    pub open spec fn spec_validate_sensor_data(
        aqi: u16,
        pm25: i32,
        pm10: i32,
        co2: i32,
        humidity: i32,
        temperature: i32,
    ) -> Result<(), CustomError> {
        if aqi > MAX_AQI {
            Err(CustomError::InvalidAQIValue)
        } else if !(0 <= pm25 <= MAX_PARTICLES) {
            Err(CustomError::InvalidPM25Value)
        } else if !(0 <= pm10 <= MAX_PARTICLES) {
            Err(CustomError::InvalidPM10Value)
        } else if !(0 <= co2 <= MAX_CO2) {
            Err(CustomError::InvalidCO2Value)
        } else if !(0 <= humidity <= MAX_HUMIDITY) {
            Err(CustomError::InvalidHumidityValue)
        } else if !(MIN_TEMPERATURE <= temperature <= MAX_TEMPERATURE) {
            Err(CustomError::InvalidTemperatureValue)
        } else {
            Ok(())
        }
    }

    /// A record is well formed when its two texts fit and its six readings
    /// pass validation.
    pub open spec fn well_formed(&self) -> bool {
        &&& byte_len(self.location@) <= MAX_LOCATION_LEN
        &&& byte_len(self.sensor_id@) <= MAX_SENSOR_ID_LEN
        &&& Self::spec_validate_sensor_data(
            self.aqi,
            self.pm25,
            self.pm10,
            self.co2,
            self.humidity,
            self.temperature,
        ) is Ok
    }

    /// Checks six readings against their ranges.
    pub fn validate_sensor_data(
        aqi: u16,
        pm25: i32,
        pm10: i32,
        co2: i32,
        humidity: i32,
        temperature: i32,
    ) -> (r: Result<(), CustomError>)
        ensures
            r == Self::spec_validate_sensor_data(aqi, pm25, pm10, co2, humidity, temperature),
    {
        if aqi > MAX_AQI {
            return Err(CustomError::InvalidAQIValue);
        }
        if !(pm25 >= 0 && pm25 <= MAX_PARTICLES) {
            return Err(CustomError::InvalidPM25Value);
        }
        if !(pm10 >= 0 && pm10 <= MAX_PARTICLES) {
            return Err(CustomError::InvalidPM10Value);
        }
        if !(co2 >= 0 && co2 <= MAX_CO2) {
            return Err(CustomError::InvalidCO2Value);
        }
        if !(humidity >= 0 && humidity <= MAX_HUMIDITY) {
            return Err(CustomError::InvalidHumidityValue);
        }
        if !(temperature >= MIN_TEMPERATURE && temperature <= MAX_TEMPERATURE) {
            return Err(CustomError::InvalidTemperatureValue);
        }
        Ok(())
    }

    /// Whether six proposed readings, arriving at time `now`, are worth a
    /// write. They are when any one of these holds:
    /// the index moved by more than 5% of the stored index (at least 1);
    /// PM2.5 or PM10 moved by more than 10% of the stored value (at least one
    /// unit); CO2 moved by more than 5% of the stored value (at least one
    /// unit); humidity moved by more than 5 units; temperature moved by more
    /// than 2 units; or more than a day has passed since the last write.
    pub open spec fn spec_is_significant_change(
        &self,
        aqi: u16,
        pm25: i32,
        pm10: i32,
        co2: i32,
        humidity: i32,
        temperature: i32,
        now: i64,
    ) -> bool {
        ||| exceeds_share(self.aqi as int, aqi as int, 1, 5)
        ||| exceeds_share(self.pm25 as int, pm25 as int, SCALE as int, 10)
        ||| exceeds_share(self.pm10 as int, pm10 as int, SCALE as int, 10)
        ||| exceeds_share(self.co2 as int, co2 as int, SCALE as int, 5)
        ||| distance(humidity as int, self.humidity as int) > 5 * SCALE
        ||| distance(temperature as int, self.temperature as int) > 2 * SCALE
        ||| now - self.updated_at > STALENESS_WINDOW
    }

    /// Decides whether six proposed readings are worth a write.
    pub fn is_significant_change(
        &self,
        aqi: u16,
        pm25: i32,
        pm10: i32,
        co2: i32,
        humidity: i32,
        temperature: i32,
        now: i64,
    ) -> (r: bool)
        ensures
            r == self.spec_is_significant_change(aqi, pm25, pm10, co2, humidity, temperature, now),
    {
        let aqi_change = share_exceeded(self.aqi as i32, aqi as i32, 1, 5);
        let pm25_change = share_exceeded(self.pm25, pm25, SCALE, 10);
        let pm10_change = share_exceeded(self.pm10, pm10, SCALE, 10);
        let co2_change = share_exceeded(self.co2, co2, SCALE, 5);
        let humidity_change = gap(humidity, self.humidity) > 5 * (SCALE as i64);
        let temperature_change = gap(temperature, self.temperature) > 2 * (SCALE as i64);
        let stale = (now as i128) - (self.updated_at as i128) > (STALENESS_WINDOW as i128);
        aqi_change || pm25_change || pm10_change || co2_change || humidity_change
            || temperature_change || stale
    }

    /// The record after six readings are written at time `now`.
    pub open spec fn updated(
        &self,
        aqi: u16,
        pm25: i32,
        pm10: i32,
        co2: i32,
        humidity: i32,
        temperature: i32,
        now: i64,
    ) -> AirQuality {
        AirQuality {
            aqi,
            pm25,
            pm10,
            co2,
            humidity,
            temperature,
            updated_at: now,
            update_count: (self.update_count + 1) as u32,
            ..*self
        }
    }

    /// Writes six readings, provided that they pass validation. Whether the
    /// change is worth a write is not asked here.
    pub fn update_data(
        &mut self,
        aqi: u16,
        pm25: i32,
        pm10: i32,
        co2: i32,
        humidity: i32,
        temperature: i32,
        now: i64,
    ) -> (r: Result<(), CustomError>)
        requires
            Self::spec_validate_sensor_data(aqi, pm25, pm10, co2, humidity, temperature) is Ok
                ==> old(self).update_count < u32::MAX,
        ensures
            r == Self::spec_validate_sensor_data(aqi, pm25, pm10, co2, humidity, temperature),
            r is Ok ==> *final(self) == old(self).updated(
                aqi,
                pm25,
                pm10,
                co2,
                humidity,
                temperature,
                now,
            ),
            r is Err ==> *final(self) == *old(self),
    {
        match Self::validate_sensor_data(aqi, pm25, pm10, co2, humidity, temperature) {
            Err(e) => { return Err(e); },
            Ok(()) => {},
        }
        self.write(aqi, pm25, pm10, co2, humidity, temperature, now);
        Ok(())
    }

    fn write(
        &mut self,
        aqi: u16,
        pm25: i32,
        pm10: i32,
        co2: i32,
        humidity: i32,
        temperature: i32,
        now: i64,
    )
        requires
            old(self).update_count < u32::MAX,
        ensures
            *final(self) == old(self).updated(aqi, pm25, pm10, co2, humidity, temperature, now),
    {
        self.aqi = aqi;
        self.pm25 = pm25;
        self.pm10 = pm10;
        self.co2 = co2;
        self.humidity = humidity;
        self.temperature = temperature;
        self.updated_at = now;
        self.update_count = self.update_count + 1;
    }

    /// Readings that all lie inside their ranges pass validation.
    pub proof fn lemma_readings_in_range_accepted(
        aqi: u16,
        pm25: i32,
        pm10: i32,
        co2: i32,
        humidity: i32,
        temperature: i32,
    )
        requires
            aqi <= MAX_AQI,
            0 <= pm25 <= MAX_PARTICLES,
            0 <= pm10 <= MAX_PARTICLES,
            0 <= co2 <= MAX_CO2,
            0 <= humidity <= MAX_HUMIDITY,
            MIN_TEMPERATURE <= temperature <= MAX_TEMPERATURE,
        ensures
            Self::spec_validate_sensor_data(aqi, pm25, pm10, co2, humidity, temperature) is Ok,
    {
    }

    /// Readings of which exactly one lies outside its range, by however
    /// little, are rejected with the error of that reading.
    pub proof fn lemma_reading_out_of_range_rejected(
        aqi: u16,
        pm25: i32,
        pm10: i32,
        co2: i32,
        humidity: i32,
        temperature: i32,
    )
        ensures
            ({
                let verdict = Self::spec_validate_sensor_data(
                    aqi,
                    pm25,
                    pm10,
                    co2,
                    humidity,
                    temperature,
                );
                let aqi_in = aqi <= MAX_AQI;
                let pm25_in = 0 <= pm25 <= MAX_PARTICLES;
                let pm10_in = 0 <= pm10 <= MAX_PARTICLES;
                let co2_in = 0 <= co2 <= MAX_CO2;
                let humidity_in = 0 <= humidity <= MAX_HUMIDITY;
                let temperature_in = MIN_TEMPERATURE <= temperature <= MAX_TEMPERATURE;
                &&& !aqi_in && pm25_in && pm10_in && co2_in && humidity_in && temperature_in
                    ==> verdict == Err::<(), CustomError>(CustomError::InvalidAQIValue)
                &&& aqi_in && !pm25_in && pm10_in && co2_in && humidity_in && temperature_in
                    ==> verdict == Err::<(), CustomError>(CustomError::InvalidPM25Value)
                &&& aqi_in && pm25_in && !pm10_in && co2_in && humidity_in && temperature_in
                    ==> verdict == Err::<(), CustomError>(CustomError::InvalidPM10Value)
                &&& aqi_in && pm25_in && pm10_in && !co2_in && humidity_in && temperature_in
                    ==> verdict == Err::<(), CustomError>(CustomError::InvalidCO2Value)
                &&& aqi_in && pm25_in && pm10_in && co2_in && !humidity_in && temperature_in
                    ==> verdict == Err::<(), CustomError>(CustomError::InvalidHumidityValue)
                &&& aqi_in && pm25_in && pm10_in && co2_in && humidity_in && !temperature_in
                    ==> verdict == Err::<(), CustomError>(CustomError::InvalidTemperatureValue)
            }),
    {
    }

    /// Readings equal to the stored ones are not worth a write as long as no
    /// more than a day has passed since the last one.
    pub proof fn lemma_same_readings_insignificant(&self, now: i64)
        requires
            now - self.updated_at <= STALENESS_WINDOW,
        ensures
            !self.spec_is_significant_change(
                self.aqi,
                self.pm25,
                self.pm10,
                self.co2,
                self.humidity,
                self.temperature,
                now,
            ),
    {
    }

    /// Readings of which a single one crosses its threshold are worth a
    /// write, whatever the others are and however little time has passed.
    pub proof fn lemma_one_crossing_significant(
        &self,
        aqi: u16,
        pm25: i32,
        pm10: i32,
        co2: i32,
        humidity: i32,
        temperature: i32,
        now: i64,
    )
        requires
            ({
                ||| exceeds_share(self.aqi as int, aqi as int, 1, 5)
                ||| exceeds_share(self.pm25 as int, pm25 as int, SCALE as int, 10)
                ||| exceeds_share(self.pm10 as int, pm10 as int, SCALE as int, 10)
                ||| exceeds_share(self.co2 as int, co2 as int, SCALE as int, 5)
                ||| distance(humidity as int, self.humidity as int) > 5 * SCALE
                ||| distance(temperature as int, self.temperature as int) > 2 * SCALE
            }),
        ensures
            self.spec_is_significant_change(aqi, pm25, pm10, co2, humidity, temperature, now),
    {
    }

    /// After a day without a write, any readings are worth one.
    pub proof fn lemma_stale_record_significant(
        &self,
        aqi: u16,
        pm25: i32,
        pm10: i32,
        co2: i32,
        humidity: i32,
        temperature: i32,
        now: i64,
    )
        requires
            now - self.updated_at > STALENESS_WINDOW,
        ensures
            self.spec_is_significant_change(aqi, pm25, pm10, co2, humidity, temperature, now),
    {
    }

    /// The record of a sensor that `authority` creates at time `now`, before
    /// its first report.
    pub open spec fn created(location: String, sensor_id: String, authority: Identity, now: i64)
        -> AirQuality {
        AirQuality {
            location,
            sensor_id,
            authority,
            aqi: 0,
            pm25: 0,
            pm10: 0,
            co2: INITIAL_CO2,
            humidity: INITIAL_HUMIDITY,
            temperature: INITIAL_TEMPERATURE,
            created_at: now,
            updated_at: now,
            update_count: 0,
        }
    }
}

fn gap(a: i32, b: i32) -> (r: i64)
    ensures
        r == distance(a as int, b as int),
{
    if a >= b {
        a as i64 - b as i64
    } else {
        b as i64 - a as i64
    }
}

fn share_exceeded(old_value: i32, new_value: i32, floor: i32, percent: i64) -> (r: bool)
    requires
        0 <= percent <= 100,
    ensures
        r == exceeds_share(old_value as int, new_value as int, floor as int, percent as int),
{
    let base: i64 = if old_value >= floor {
        old_value as i64
    } else {
        floor as i64
    };
    assert(-0x8000_0000 * 100 <= percent * base <= 0x8000_0000 * 100) by (nonlinear_arith)
        requires
            0 <= percent <= 100,
            -0x8000_0000 <= base < 0x8000_0000,
    ;
    gap(new_value, old_value) * 100 > percent * base
}

/// Six readings of one sensor, in the order index, PM2.5, PM10, CO2,
/// humidity, temperature.
pub type SensorData = (u16, i32, i32, i32, i32, i32);

/// The most sensors that one batch may update.
pub const MAX_SENSOR_BATCH: usize = 3;

/// Whether `authority` may write `data` to a stored sensor. It may not where
/// it does not own the sensor, nor where the readings fail validation; the
/// ownership is judged first.
pub open spec fn sensor_verdict(account: Account<AirQuality>, authority: Identity, data: SensorData)
    -> Result<(), CustomError> {
    if account.data.authority != authority {
        Err(CustomError::UnauthorizedAccess)
    } else {
        AirQuality::spec_validate_sensor_data(data.0, data.1, data.2, data.3, data.4, data.5)
    }
}

/// Whether `data`, arriving at time `now`, is worth a write to a stored
/// sensor.
pub open spec fn sensor_significant(account: Account<AirQuality>, data: SensorData, now: i64)
    -> bool {
    account.data.spec_is_significant_change(data.0, data.1, data.2, data.3, data.4, data.5, now)
}

/// A stored sensor after `data` is offered to it at time `now`: written
/// where the change is worth it, as it was where not.
pub open spec fn sensor_applied(account: Account<AirQuality>, data: SensorData, now: i64)
    -> Account<AirQuality> {
    if sensor_significant(account, data, now) {
        Account {
            key: account.key,
            data: account.data.updated(data.0, data.1, data.2, data.3, data.4, data.5, now),
        }
    } else {
        account
    }
}

/// What offering `data` to a stored sensor reports: an event that shows the
/// record as written, or a skip.
pub open spec fn sensor_outcome(account: Account<AirQuality>, data: SensorData, now: i64)
    -> UpdateOutcome<AirQualityUpdated> {
    if sensor_significant(account, data, now) {
        UpdateOutcome::Updated(
            AirQualityUpdated {
                air_quality: account.key,
                aqi: data.0,
                pm25: data.1,
                pm10: data.2,
                co2: data.3,
                humidity: data.4,
                temperature: data.5,
                timestamp: now,
                update_count: (account.data.update_count + 1) as u32,
            },
        )
    } else {
        UpdateOutcome::Skipped
    }
}

/// Offering readings that passed validation to a stored sensor keeps its
/// owner, its address, its location, its id and its time of creation; a
/// well-formed record stays well formed; the counter stays or grows by one;
/// and with a clock that does not run backwards the time of the last write
/// does not either.
pub proof fn lemma_offer_keeps_sensor_sound(
    account: Account<AirQuality>,
    data: SensorData,
    now: i64,
)
    requires
        AirQuality::spec_validate_sensor_data(data.0, data.1, data.2, data.3, data.4, data.5)
            is Ok,
        sensor_significant(account, data, now) ==> account.data.update_count < u32::MAX,
    ensures
        ({
            let after = sensor_applied(account, data, now);
            &&& after.key == account.key
            &&& after.data.authority == account.data.authority
            &&& after.data.location == account.data.location
            &&& after.data.sensor_id == account.data.sensor_id
            &&& after.data.created_at == account.data.created_at
            &&& account.data.well_formed() ==> after.data.well_formed()
            &&& after.data.update_count == account.data.update_count || after.data.update_count
                == account.data.update_count + 1
            &&& now >= account.data.updated_at ==> after.data.updated_at
                >= account.data.updated_at
        }),
{
}

fn check_sensor(account: &Account<AirQuality>, authority: &Identity, data: SensorData) -> (r: Result<
    (),
    CustomError,
>)
    ensures
        r == sensor_verdict(*account, *authority, data),
{
    if !account.data.authority.same_as(authority) {
        return Err(CustomError::UnauthorizedAccess);
    }
    AirQuality::validate_sensor_data(data.0, data.1, data.2, data.3, data.4, data.5)
}

fn apply_sensor(account: &mut Account<AirQuality>, data: SensorData, now: i64) -> (r: UpdateOutcome<
    AirQualityUpdated,
>)
    requires
        sensor_significant(*old(account), data, now) ==> old(account).data.update_count
            < u32::MAX,
    ensures
        r == sensor_outcome(*old(account), data, now),
        *final(account) == sensor_applied(*old(account), data, now),
{
    if !account.data.is_significant_change(data.0, data.1, data.2, data.3, data.4, data.5, now) {
        return UpdateOutcome::Skipped;
    }
    account.data.write(data.0, data.1, data.2, data.3, data.4, data.5, now);
    UpdateOutcome::Updated(
        AirQualityUpdated {
            air_quality: account.key,
            aqi: data.0,
            pm25: data.1,
            pm10: data.2,
            co2: data.3,
            humidity: data.4,
            temperature: data.5,
            timestamp: account.data.updated_at,
            update_count: account.data.update_count,
        },
    )
}

/// What an authority hands over to create a sensor: the address at which it
/// is to live, with whatever lives there already, and its own identity.
#[derive(Clone, Debug, PartialEq, Eq)]
pub struct InitializeAirQuality {
    pub air_quality: Account<Option<AirQuality>>,
    pub authority: Identity,
}

/// What an authority hands over to report new readings of a sensor.
#[derive(Clone, Debug, PartialEq, Eq)]
pub struct UpdateAirQuality {
    pub air_quality: Account<AirQuality>,
    pub authority: Identity,
}

/// What an authority hands over to report readings of up to three sensors in
/// one go.
#[derive(Clone, Debug, PartialEq, Eq)]
pub struct BatchUpdateAirQuality {
    pub air_quality_1: Account<AirQuality>,
    pub air_quality_2: Account<AirQuality>,
    pub air_quality_3: Account<AirQuality>,
    pub authority: Identity,
}

impl InitializeAirQuality {
    /// What creating the sensor comes to. It fails where a record already
    /// lives at the address, then where the location is too long, then where
    /// the id is, each with an error of its own. Else it reports the new
    /// sensor.
    pub open spec fn spec_process(&self, location: String, sensor_id: String) -> Result<
        AirQualityInitialized,
        CustomError,
    > {
        if self.air_quality.data is Some {
            Err(CustomError::AccountAlreadyExists)
        } else if byte_len(location@) > MAX_LOCATION_LEN {
            Err(CustomError::LocationTooLong)
        } else if byte_len(sensor_id@) > MAX_SENSOR_ID_LEN {
            Err(CustomError::SensorIdTooLong)
        } else {
            Ok(
                AirQualityInitialized {
                    air_quality: self.air_quality.key,
                    location,
                    sensor_id,
                    authority: self.authority,
                },
            )
        }
    }

    /// What is handed back: the new sensor at the address where creation
    /// succeeds, everything as it was where it fails.
    pub open spec fn after_process(&self, location: String, sensor_id: String, now: i64)
        -> InitializeAirQuality {
        if self.spec_process(location, sensor_id) is Ok {
            InitializeAirQuality {
                air_quality: Account {
                    key: self.air_quality.key,
                    data: Some(AirQuality::created(location, sensor_id, self.authority, now)),
                },
                authority: self.authority,
            }
        } else {
            *self
        }
    }

    /// Creates the sensor, owned by the caller.
    pub fn process(&mut self, location: String, sensor_id: String, now: i64) -> (r: Result<
        AirQualityInitialized,
        CustomError,
    >)
        ensures
            r == old(self).spec_process(location, sensor_id),
            *final(self) == old(self).after_process(location, sensor_id, now),
    {
        if self.air_quality.data.is_some() {
            return Err(CustomError::AccountAlreadyExists);
        }
        if location.as_str().as_bytes().len() > MAX_LOCATION_LEN {
            return Err(CustomError::LocationTooLong);
        }
        if sensor_id.as_str().as_bytes().len() > MAX_SENSOR_ID_LEN {
            return Err(CustomError::SensorIdTooLong);
        }
        let event = AirQualityInitialized {
            air_quality: self.air_quality.key,
            location: location.clone(),
            sensor_id: sensor_id.clone(),
            authority: self.authority,
        };
        self.air_quality.data = Some(
            AirQuality {
                location,
                sensor_id,
                authority: self.authority,
                aqi: 0,
                pm25: 0,
                pm10: 0,
                co2: INITIAL_CO2,
                humidity: INITIAL_HUMIDITY,
                temperature: INITIAL_TEMPERATURE,
                created_at: now,
                updated_at: now,
                update_count: 0,
            },
        );
        Ok(event)
    }

    /// At an address where nothing lives yet, a location that is too long is
    /// rejected with the error of the location, and an id that is too long
    /// beside a location that fits with the error of the id.
    pub proof fn lemma_long_text_rejected(&self, location: String, sensor_id: String)
        requires
            self.air_quality.data is None,
        ensures
            byte_len(location@) > MAX_LOCATION_LEN ==> self.spec_process(location, sensor_id)
                == Err::<AirQualityInitialized, CustomError>(CustomError::LocationTooLong),
            byte_len(location@) <= MAX_LOCATION_LEN && byte_len(sensor_id@) > MAX_SENSOR_ID_LEN
                ==> self.spec_process(location, sensor_id) == Err::<
                AirQualityInitialized,
                CustomError,
            >(CustomError::SensorIdTooLong),
            byte_len(location@) <= MAX_LOCATION_LEN && byte_len(sensor_id@) <= MAX_SENSOR_ID_LEN
                ==> self.spec_process(location, sensor_id) is Ok,
    {
    }

    /// A sensor that is created is well formed, belongs to the caller, has
    /// never been updated, and was created and last written at `now`.
    pub proof fn lemma_created_sensor_sound(&self, location: String, sensor_id: String, now: i64)
        requires
            self.spec_process(location, sensor_id) is Ok,
        ensures
            self.after_process(location, sensor_id, now).air_quality.data matches Some(record)
                && record.well_formed() && record.authority == self.authority
                && record.location == location && record.sensor_id == sensor_id
                && record.update_count == 0 && record.created_at == now && record.updated_at
                == now,
            self.after_process(location, sensor_id, now).air_quality.key == self.air_quality.key,
    {
    }
}

impl UpdateAirQuality {
    /// What a report of six readings at time `now` comes to. It fails where
    /// the caller does not own the sensor, then where a reading lies outside
    /// its range. Else it reports the record as written, or a skip where the
    /// change is not worth a write.
    pub open spec fn spec_process(&self, data: SensorData, now: i64) -> Result<
        UpdateOutcome<AirQualityUpdated>,
        CustomError,
    > {
        let verdict = sensor_verdict(self.air_quality, self.authority, data);
        if verdict is Err {
            Err(verdict->Err_0)
        } else {
            Ok(sensor_outcome(self.air_quality, data, now))
        }
    }

    /// What is handed back: the sensor written where the report is applied,
    /// everything as it was where it fails or is skipped.
    pub open spec fn after_process(&self, data: SensorData, now: i64) -> UpdateAirQuality {
        if sensor_verdict(self.air_quality, self.authority, data) is Err {
            *self
        } else {
            UpdateAirQuality {
                air_quality: sensor_applied(self.air_quality, data, now),
                authority: self.authority,
            }
        }
    }

    /// Reports six readings of the sensor. They are written only where the
    /// change is worth a write.
    pub fn process(
        &mut self,
        aqi: u16,
        pm25: i32,
        pm10: i32,
        co2: i32,
        humidity: i32,
        temperature: i32,
        now: i64,
    ) -> (r: Result<UpdateOutcome<AirQualityUpdated>, CustomError>)
        requires
            old(self).spec_process((aqi, pm25, pm10, co2, humidity, temperature), now) matches Ok(
                UpdateOutcome::Updated(_),
            ) ==> old(self).air_quality.data.update_count < u32::MAX,
        ensures
            r == old(self).spec_process((aqi, pm25, pm10, co2, humidity, temperature), now),
            *final(self) == old(self).after_process(
                (aqi, pm25, pm10, co2, humidity, temperature),
                now,
            ),
    {
        let data: SensorData = (aqi, pm25, pm10, co2, humidity, temperature);
        match check_sensor(&self.air_quality, &self.authority, data) {
            Err(e) => { return Err(e); },
            Ok(()) => {},
        }
        Ok(apply_sensor(&mut self.air_quality, data, now))
    }

    /// A report that may be written but is not worth a write is skipped, and
    /// leaves the counter, the readings and the time of the last write as
    /// they were.
    pub proof fn lemma_insignificant_report_skipped(&self, data: SensorData, now: i64)
        requires
            sensor_verdict(self.air_quality, self.authority, data) is Ok,
            !sensor_significant(self.air_quality, data, now),
        ensures
            self.spec_process(data, now) == Ok::<UpdateOutcome<AirQualityUpdated>, CustomError>(
                UpdateOutcome::Skipped,
            ),
            self.after_process(data, now) == *self,
    {
    }

    /// A report that may be written and is worth a write is written: the
    /// counter grows by exactly one, the time of the last write is `now`, and
    /// the record holds the six readings.
    pub proof fn lemma_significant_report_written(&self, data: SensorData, now: i64)
        requires
            sensor_verdict(self.air_quality, self.authority, data) is Ok,
            sensor_significant(self.air_quality, data, now),
            self.air_quality.data.update_count < u32::MAX,
        ensures
            self.spec_process(data, now) matches Ok(UpdateOutcome::Updated(event))
                && event.update_count == self.air_quality.data.update_count + 1
                && event.timestamp == now,
            self.after_process(data, now).air_quality.data.update_count
                == self.air_quality.data.update_count + 1,
            self.after_process(data, now).air_quality.data.updated_at == now,
            self.after_process(data, now).air_quality.data.aqi == data.0,
            self.after_process(data, now).air_quality.data.pm25 == data.1,
            self.after_process(data, now).air_quality.data.pm10 == data.2,
            self.after_process(data, now).air_quality.data.co2 == data.3,
            self.after_process(data, now).air_quality.data.humidity == data.4,
            self.after_process(data, now).air_quality.data.temperature == data.5,
    {
    }

    /// Whatever a report comes to, the sensor keeps its owner, its address,
    /// its location, its id and its time of creation; a well-formed record
    /// stays well formed; the counter stays or grows by one; and with a clock
    /// that does not run backwards the time of the last write does not
    /// either.
    pub proof fn lemma_report_keeps_record_sound(&self, data: SensorData, now: i64)
        requires
            self.spec_process(data, now) matches Ok(UpdateOutcome::Updated(_))
                ==> self.air_quality.data.update_count < u32::MAX,
        ensures
            ({
                let before = self.air_quality;
                let after = self.after_process(data, now).air_quality;
                &&& self.after_process(data, now).authority == self.authority
                &&& after.key == before.key
                &&& after.data.authority == before.data.authority
                &&& after.data.location == before.data.location
                &&& after.data.sensor_id == before.data.sensor_id
                &&& after.data.created_at == before.data.created_at
                &&& before.data.well_formed() ==> after.data.well_formed()
                &&& after.data.update_count == before.data.update_count
                    || after.data.update_count == before.data.update_count + 1
                &&& now >= before.data.updated_at ==> after.data.updated_at
                    >= before.data.updated_at
            }),
    {
    }
}

impl BatchUpdateAirQuality {
    /// The stored sensor that the entry at `index` is for: the first for
    /// entry 0, the second for entry 1, the third for every other.
    pub open spec fn slot(&self, index: int) -> Account<AirQuality> {
        if index == 0 {
            self.air_quality_1
        } else if index == 1 {
            self.air_quality_2
        } else {
            self.air_quality_3
        }
    }

    /// Whether the batch may run. It fails where it has more entries than
    /// sensors, then at the first entry, in order, that the caller may not
    /// write to its sensor.
    pub open spec fn spec_verdict(&self, sensor_data: Seq<SensorData>) -> Result<(), CustomError> {
        let first = sensor_verdict(self.air_quality_1, self.authority, sensor_data[0]);
        let second = sensor_verdict(self.air_quality_2, self.authority, sensor_data[1]);
        let third = sensor_verdict(self.air_quality_3, self.authority, sensor_data[2]);
        if sensor_data.len() > MAX_SENSOR_BATCH {
            Err(CustomError::BatchOperationLimitExceeded)
        } else if sensor_data.len() > 0 && first is Err {
            first
        } else if sensor_data.len() > 1 && second is Err {
            second
        } else if sensor_data.len() > 2 && third is Err {
            third
        } else {
            Ok(())
        }
    }

    /// Whether the batch writes to the sensor of the entry at `index`: it
    /// does where the batch runs, the entry exists, and its change is worth a
    /// write.
    pub open spec fn writes_entry(&self, sensor_data: Seq<SensorData>, now: i64, index: int)
        -> bool {
        &&& self.spec_verdict(sensor_data) is Ok
        &&& 0 <= index < sensor_data.len()
        &&& sensor_significant(self.slot(index), sensor_data[index], now)
    }

    /// What a batch that runs reports: for each entry, in order, what
    /// offering it to its sensor reports.
    pub open spec fn spec_outcomes(&self, sensor_data: Seq<SensorData>, now: i64) -> Seq<
        UpdateOutcome<AirQualityUpdated>,
    > {
        Seq::new(sensor_data.len(), |i: int| sensor_outcome(self.slot(i), sensor_data[i], now))
    }

    /// What is handed back: every sensor that has an entry after the entry
    /// is offered to it where the batch runs, everything as it was where the
    /// batch fails.
    pub open spec fn after_batch(&self, sensor_data: Seq<SensorData>, now: i64)
        -> BatchUpdateAirQuality {
        if self.spec_verdict(sensor_data) is Err {
            *self
        } else {
            BatchUpdateAirQuality {
                air_quality_1: if sensor_data.len() > 0 {
                    sensor_applied(self.air_quality_1, sensor_data[0], now)
                } else {
                    self.air_quality_1
                },
                air_quality_2: if sensor_data.len() > 1 {
                    sensor_applied(self.air_quality_2, sensor_data[1], now)
                } else {
                    self.air_quality_2
                },
                air_quality_3: if sensor_data.len() > 2 {
                    sensor_applied(self.air_quality_3, sensor_data[2], now)
                } else {
                    self.air_quality_3
                },
                authority: self.authority,
            }
        }
    }

    /// Reports readings of up to three sensors, all of them or none. The
    /// entries go to the sensors in order; a sensor without an entry is left
    /// alone. An entry whose change is not worth a write is skipped without
    /// stopping the others; an entry that may not be written stops them all,
    /// and nothing is written.
    pub fn process(&mut self, sensor_data: Vec<SensorData>, now: i64) -> (r: Result<
        Vec<UpdateOutcome<AirQualityUpdated>>,
        CustomError,
    >)
        requires
            forall|i: int|
                old(self).writes_entry(sensor_data@, now, i) ==> (#[trigger] old(self).slot(
                    i,
                )).data.update_count < u32::MAX,
        ensures
            match r {
                Ok(outcomes) => old(self).spec_verdict(sensor_data@) is Ok && outcomes@ == old(
                    self,
                ).spec_outcomes(sensor_data@, now),
                Err(e) => old(self).spec_verdict(sensor_data@) == Err::<(), CustomError>(e),
            },
            *final(self) == old(self).after_batch(sensor_data@, now),
    {
        let count = sensor_data.len();
        if count > MAX_SENSOR_BATCH {
            return Err(CustomError::BatchOperationLimitExceeded);
        }
        if count > 0 {
            match check_sensor(&self.air_quality_1, &self.authority, sensor_data[0]) {
                Err(e) => { return Err(e); },
                Ok(()) => {},
            }
        }
        if count > 1 {
            match check_sensor(&self.air_quality_2, &self.authority, sensor_data[1]) {
                Err(e) => { return Err(e); },
                Ok(()) => {},
            }
        }
        if count > 2 {
            match check_sensor(&self.air_quality_3, &self.authority, sensor_data[2]) {
                Err(e) => { return Err(e); },
                Ok(()) => {},
            }
        }
        proof {
            assert(self.slot(0) == self.air_quality_1);
            assert(self.slot(1) == self.air_quality_2);
            assert(self.slot(2) == self.air_quality_3);
        }
        let mut outcomes: Vec<UpdateOutcome<AirQualityUpdated>> = Vec::new();
        if count > 0 {
            outcomes.push(apply_sensor(&mut self.air_quality_1, sensor_data[0], now));
        }
        if count > 1 {
            outcomes.push(apply_sensor(&mut self.air_quality_2, sensor_data[1], now));
        }
        if count > 2 {
            outcomes.push(apply_sensor(&mut self.air_quality_3, sensor_data[2], now));
        }
        assert(outcomes@ =~= old(self).spec_outcomes(sensor_data@, now));
        Ok(outcomes)
    }
    /// A batch in which any entry may not be written fails as a whole, and
    /// nothing is written for any entry.
    pub proof fn lemma_bad_entry_stops_batch(
        &self,
        sensor_data: Seq<SensorData>,
        now: i64,
        index: int,
    )
        requires
            0 <= index < sensor_data.len(),
            sensor_verdict(self.slot(index), self.authority, sensor_data[index]) is Err,
        ensures
            self.spec_verdict(sensor_data) is Err,
            self.after_batch(sensor_data, now) == *self,
    {
    }

    /// A batch with more entries than sensors fails with the error of the
    /// limit, and nothing is written.
    pub proof fn lemma_long_batch_refused(&self, sensor_data: Seq<SensorData>, now: i64)
        requires
            sensor_data.len() > MAX_SENSOR_BATCH,
        ensures
            self.spec_verdict(sensor_data) == Err::<(), CustomError>(
                CustomError::BatchOperationLimitExceeded,
            ),
            self.after_batch(sensor_data, now) == *self,
    {
    }

    /// A batch of entries that may all be written runs, and treats each
    /// sensor as a single report of its entry would.
    pub proof fn lemma_batch_runs_entry_by_entry(
        &self,
        sensor_data: Seq<SensorData>,
        now: i64,
        index: int,
    )
        requires
            sensor_data.len() <= MAX_SENSOR_BATCH,
            forall|i: int|
                0 <= i < sensor_data.len() ==> sensor_verdict(
                    self.slot(i),
                    self.authority,
                    #[trigger] sensor_data[i],
                ) is Ok,
            0 <= index < sensor_data.len(),
        ensures
            self.spec_verdict(sensor_data) is Ok,
            self.after_batch(sensor_data, now).slot(index) == sensor_applied(
                self.slot(index),
                sensor_data[index],
                now,
            ),
            self.spec_outcomes(sensor_data, now)[index] == sensor_outcome(
                self.slot(index),
                sensor_data[index],
                now,
            ),
            self.spec_outcomes(sensor_data, now).len() == sensor_data.len(),
    {
    }
}

} // verus!
