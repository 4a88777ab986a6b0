use vstd::prelude::*;
use crate::series::daily_max_field;

verus! {

/// The units of the current-conditions block of a weather response.
pub struct CurrentUnits {
    /// The time of the weather data.
    pub time: String,
    /// The interval of the weather data.
    pub interval: String,
    /// The unit for temperature at 2 meters above ground.
    pub temperature_2m: String,
    /// The unit for wind speed at 10 meters above ground.
    pub wind_speed_10m: String,
}

/// A geographic coordinate in millionths of a degree.
#[derive(Clone, Copy, Debug, PartialEq, Eq, Structural)]
pub struct Coordinate {
    pub lat_micro: i32,
    pub lon_micro: i32,
}

/// The latitude used when none usable is given (New York City).
pub const DEFAULT_LAT_MICRO: i32 = 40712800;

/// The longitude used when none usable is given (New York City).
pub const DEFAULT_LON_MICRO: i32 = -74006000;

/// A latitude, in millionths of a degree, lies within `[-90, 90]` degrees.
pub open spec fn valid_latitude(v: int) -> bool {
    -90_000000 <= v <= 90_000000
}

/// A longitude, in millionths of a degree, lies within `[-180, 180]` degrees.
pub open spec fn valid_longitude(v: int) -> bool {
    -180_000000 <= v <= 180_000000
}

impl Coordinate {
    pub open spec fn wf(&self) -> bool {
        valid_latitude(self.lat_micro as int) && valid_longitude(self.lon_micro as int)
    }

    /// The coordinate `(lat, lon)`, or `None` when either is out of range.
    pub fn new(lat_micro: i32, lon_micro: i32) -> (r: Option<Coordinate>)
        ensures
            r is Some <==> valid_latitude(lat_micro as int) && valid_longitude(lon_micro as int),
            r matches Some(c) ==> c.lat_micro == lat_micro && c.lon_micro == lon_micro,
    {
        if -90_000000 <= lat_micro && lat_micro <= 90_000000 && -180_000000 <= lon_micro
            && lon_micro <= 180_000000 {
            Some(Coordinate { lat_micro, lon_micro })
        } else {
            None
        }
    }
}

/// The coordinate to forecast for, from what the command line gave: each
/// component that is missing, was not a number or is out of range takes the
/// default one.
pub fn location_from_args(lat: Option<i32>, lon: Option<i32>) -> (r: Coordinate)
    ensures
        r.wf(),
        r.lat_micro == (match lat {
            Some(v) => if valid_latitude(v as int) { v } else { DEFAULT_LAT_MICRO },
            None => DEFAULT_LAT_MICRO,
        }),
        r.lon_micro == (match lon {
            Some(v) => if valid_longitude(v as int) { v } else { DEFAULT_LON_MICRO },
            None => DEFAULT_LON_MICRO,
        }),
{
    let lat_micro = match lat {
        Some(v) => if -90_000000 <= v && v <= 90_000000 { v } else { DEFAULT_LAT_MICRO },
        None => DEFAULT_LAT_MICRO,
    };
    let lon_micro = match lon {
        Some(v) => if -180_000000 <= v && v <= 180_000000 { v } else { DEFAULT_LON_MICRO },
        None => DEFAULT_LON_MICRO,
    };
    Coordinate { lat_micro, lon_micro }
}

/// The unit in which temperatures are asked for.
#[derive(Clone, Copy, Debug, PartialEq, Eq, Structural)]
pub enum TemperatureUnit {
    Celsius,
    Fahrenheit,
}

/// The number of days of forecast asked for.
pub const FORECAST_DAYS: u8 = 10;

/// What one fetch asks the weather service for.
pub struct ForecastRequest {
    pub location: Coordinate,
    /// The daily fields requested.
    pub daily: Vec<String>,
    pub temperature_unit: TemperatureUnit,
    /// The forecast horizon, in days.
    pub forecast_days: u8,
}

impl ForecastRequest {
    /// A request for the daily highest temperature at `location`, in
    /// Fahrenheit, over the next `FORECAST_DAYS` days.
    pub fn daily_high_temperatures(location: Coordinate) -> (r: ForecastRequest)
        ensures
            r.location == location,
            r.daily@.len() == 1,
            r.daily@[0]@ == daily_max_field(),
            r.temperature_unit == TemperatureUnit::Fahrenheit,
            r.forecast_days == FORECAST_DAYS,
    {
        proof {
            reveal_strlit("temperature_2m_max");
        }
        let field = String::from_str("temperature_2m_max");
        assert(field@ =~= daily_max_field());
        let mut daily: Vec<String> = Vec::new();
        daily.push(field);
        ForecastRequest {
            location,
            daily,
            temperature_unit: TemperatureUnit::Fahrenheit,
            forecast_days: FORECAST_DAYS,
        }
    }
}

} // verus!
