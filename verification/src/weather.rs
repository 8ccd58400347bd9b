use crate::foreign::local_hour;
use crate::text::{joined, decimal, decimal_text};
use vstd::prelude::*;

verus! {

/// A source of weather data with a city it prefers.
pub trait WeatherProvider {
    /// The city used when a request names none.
    spec fn favourite(&self) -> Seq<char>;

    /// Returns the city used when a request names none.
    fn get_favourite_city(&self) -> (city: String)
        ensures
            city@ == self.favourite(),
    ;
}

/// Where the coordinates of `city` are asked for.
pub open spec fn geolocation_query(city: Seq<char>) -> Seq<char> {
    "https://geocoding-api.open-meteo.com/v1/search?name="@ + city
        + "&count=1&language=en&format=json"@
}

/// Where the hourly temperatures at a place are asked for, over `days` days.
pub open spec fn forecast_query(lat: Seq<char>, long: Seq<char>, days: nat) -> Seq<char> {
    "https://api.open-meteo.com/v1/forecast?latitude="@ + lat + "&longitude="@ + long
        + "&hourly=temperature_2m&forecast_days="@ + decimal(days)
}

/// The place in a list of `readings` hourly temperatures that is reported
/// at the given hour of the day: the reading of the hour before. There is
/// none at midnight, nor where the list is too short.
pub open spec fn reading_at(hour: nat, readings: nat) -> Option<nat> {
    if 1 <= hour <= readings {
        Some((hour - 1) as nat)
    } else {
        None
    }
}

/// The Open-Meteo weather service.
#[derive(Clone)]
pub struct OpenMeteo {
    api_key: String,
    pub favourite_city: String,
}

impl OpenMeteo {
    /// The key this service was made with.
    pub closed spec fn key(&self) -> Seq<char> {
        self.api_key@
    }

    pub fn new(api_key: String, default_city: String) -> (service: Self)
        ensures
            service.key() == api_key@,
            service.favourite() == default_city@,
    {
        Self { api_key, favourite_city: default_city }
    }

    /// The key this service was made with.
    pub fn api_key(&self) -> (key: &str)
        ensures
            key@ == self.key(),
    {
        self.api_key.as_str()
    }

    /// Where the coordinates of `city` are asked for.
    pub fn geolocation_url(city: &str) -> (url: String)
        ensures
            url@ == geolocation_query(city@),
    {
        let mut url = joined("https://geocoding-api.open-meteo.com/v1/search?name=", city);
        url.append("&count=1&language=en&format=json");
        url
    }

    /// Where the hourly temperatures at the given coordinates are asked for.
    pub fn get_forecast_url(lat: &str, long: &str, days: u32) -> (url: String)
        ensures
            url@ == forecast_query(lat@, long@, days as nat),
    {
        let mut url = joined("https://api.open-meteo.com/v1/forecast?latitude=", lat);
        url.append("&longitude=");
        url.append(long);
        url.append("&hourly=temperature_2m&forecast_days=");
        let count = decimal_text(days as u64);
        url.append(count.as_str());
        url
    }

    /// Picks the reading that is reported at `hour` out of `readings` hourly
    /// temperatures.
    pub fn reading_for_hour(hour: u32, readings: usize) -> (place: Option<usize>)
        ensures
            match place {
                Some(index) => reading_at(hour as nat, readings as nat) == Some(index as nat),
                None => reading_at(hour as nat, readings as nat) is None,
            },
    {
        if hour >= 1 && ((hour - 1) as usize) < readings {
            Some((hour - 1) as usize)
        } else {
            None
        }
    }

    /// Picks the reading that is reported now, by the local clock, out of
    /// `readings` hourly temperatures.
    pub fn current_reading(readings: usize) -> (place: Option<usize>)
        ensures
            match place {
                Some(index) => exists|hour: nat|
                    hour < 24 && #[trigger] reading_at(hour, readings as nat) == Some(
                        index as nat,
                    ),
                None => exists|hour: nat|
                    hour < 24 && #[trigger] reading_at(hour, readings as nat) is None,
            },
    {
        let hour = local_hour();
        let place = Self::reading_for_hour(hour, readings);
        assert(match place {
            Some(index) => reading_at(hour as nat, readings as nat) == Some(index as nat),
            None => reading_at(hour as nat, readings as nat) is None,
        });
        place
    }
}

impl WeatherProvider for OpenMeteo {
    closed spec fn favourite(&self) -> Seq<char> {
        self.favourite_city@
    }

    fn get_favourite_city(&self) -> (city: String) {
        self.favourite_city.clone()
    }
}

} // verus!
