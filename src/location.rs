use vstd::prelude::*;

use crate::error::WeatherError;
use crate::text::{is_blank, text_eq, trim, trim_spec};

verus! {

/// A place to ask the weather for.
#[derive(Debug, Clone, PartialEq, Eq)]
pub enum Location {
    /// A place given by name.
    Query { query: String },
    /// A place found by geolocation; coordinates in millionths of a degree.
    Resolved { latitude: i64, longitude: i64, city: String, country: String },
}

impl Location {
    /// The text the weather provider is asked with: the name, or the city.
    pub open spec fn query_spec(&self) -> Seq<char> {
        match self {
            Location::Query { query } => query@,
            Location::Resolved { city, .. } => city@,
        }
    }

    pub fn query_text(&self) -> (r: &str)
        ensures
            r@ == self.query_spec(),
    {
        match self {
            Location::Query { query } => query.as_str(),
            Location::Resolved { city, .. } => city.as_str(),
        }
    }
}

/// A cached location lives this many seconds.
pub const CACHE_TTL_SECS: u64 = 86400;

/// A location with the time (seconds since the Unix epoch) it was found at.
#[derive(Debug, Clone, PartialEq, Eq)]
pub struct CachedLocation {
    pub location: Location,
    pub fetched_at: u64,
}

/// Fresh while less than the time to live has passed since it was fetched.
pub open spec fn is_fresh_spec(fetched_at: u64, now: u64) -> bool {
    now - fetched_at < CACHE_TTL_SECS
}

impl CachedLocation {
    pub fn is_fresh(&self, now: u64) -> (r: bool)
        ensures
            r == is_fresh_spec(self.fetched_at, now),
    {
        now < self.fetched_at || now - self.fetched_at < CACHE_TTL_SECS
    }
}

/// What the geolocation provider reported; coordinates in millionths of a degree.
#[derive(Debug, Clone, PartialEq, Eq)]
pub struct GeoInfo {
    pub status: String,
    pub city: String,
    pub country: String,
    pub lat: i64,
    pub lon: i64,
}

/// The first step of resolving a place from an optional explicit name.
///
/// A blank name fails at once; a name is used trimmed; without one the place
/// must be looked up (`Ok(None)`).
pub fn begin_resolve(explicit: Option<&str>) -> (r: Result<Option<Location>, WeatherError>)
    ensures
        explicit is None ==> r == Ok::<Option<Location>, WeatherError>(None),
        explicit is Some && trim_spec(explicit->Some_0@).len() == 0 ==> r == Err::<
            Option<Location>,
            WeatherError,
        >(WeatherError::EmptyInput),
        explicit is Some && trim_spec(explicit->Some_0@).len() > 0 ==> (match r {
            Ok(Some(Location::Query { query })) => query@ == trim_spec(explicit->Some_0@),
            _ => false,
        }),
{
    match explicit {
        None => Ok(None),
        Some(s) => {
            if is_blank(s) {
                Err(WeatherError::EmptyInput)
            } else {
                Ok(Some(Location::Query { query: trim(s) }))
            }
        },
    }
}

/// The cached location, where there is one and it is fresh at `now`.
pub fn resolve_from_cache(cached: Option<CachedLocation>, now: u64) -> (r: Option<Location>)
    ensures
        r is Some <==> cached is Some && is_fresh_spec(cached->Some_0.fetched_at, now),
        r is Some ==> r->Some_0 == cached->Some_0.location,
{
    match cached {
        Some(c) => {
            if c.is_fresh(now) {
                Some(c.location)
            } else {
                None
            }
        },
        None => None,
    }
}

/// The reason given when the geolocation provider answers without success.
pub const GEO_NO_SUCCESS: &'static str = "geolocation reported no success";

/// The outcome of a geolocation request made at `now`: a location to cache, or a
/// transient failure where the request failed or the provider reported no success.
pub fn resolve_from_geolocation(reply: Result<GeoInfo, String>, now: u64) -> (r: Result<
    CachedLocation,
    WeatherError,
>)
    ensures
        r is Ok <==> reply is Ok && reply->Ok_0.status@ == "success"@,
        reply is Err ==> r == Err::<CachedLocation, WeatherError>(
            WeatherError::Transient { http_status: None, reason: reply->Err_0 },
        ),
        reply is Ok && reply->Ok_0.status@ != "success"@ ==> (match r {
            Err(WeatherError::Transient { http_status, reason }) => http_status is None && reason@
                == GEO_NO_SUCCESS@,
            _ => false,
        }),
        r is Ok ==> ({
            let g = reply->Ok_0;
            &&& r->Ok_0.fetched_at == now
            &&& (match r->Ok_0.location {
                Location::Resolved { latitude, longitude, city, country } => latitude == g.lat
                    && longitude == g.lon && city@ == g.city@ && country@ == g.country@,
                _ => false,
            })
        }),
{
    match reply {
        Err(reason) => Err(WeatherError::Transient { http_status: None, reason }),
        Ok(g) => {
            if text_eq(g.status.as_str(), "success") {
                Ok(
                    CachedLocation {
                        location: Location::Resolved {
                            latitude: g.lat,
                            longitude: g.lon,
                            city: g.city,
                            country: g.country,
                        },
                        fetched_at: now,
                    },
                )
            } else {
                Err(
                    WeatherError::Transient {
                        http_status: None,
                        reason: String::from_str(GEO_NO_SUCCESS),
                    },
                )
            }
        },
    }
}

} // verus!
