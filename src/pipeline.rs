use vstd::prelude::*;

use crate::error::{FormatProblem, WeatherError};
use crate::location::{
    begin_resolve, is_fresh_spec, CACHE_TTL_SECS, GEO_NO_SUCCESS, resolve_from_cache, resolve_from_geolocation, CachedLocation,
    GeoInfo, Location,
};
use crate::models::OpenWeatherData;
use crate::notify::{notice_spec, notification_for, readings_in_range, NotifyData};
use crate::temperature::TempUnit;
use crate::text::trim_spec;
use crate::weather::{
    classify_reply, excerpt_spec, is_client_error, is_success, weather_url, weather_url_spec,
    SERVER_FAILURE,
};

verus! {

/// A network step is tried at most this many times.
pub const MAX_ATTEMPTS: u32 = 3;

/// The wait before the second try; each later try waits twice as long.
pub const BACKOFF_BASE_MS: u64 = 500;

/// The wait before try `attempt + 1`, after `attempt` failed tries.
pub open spec fn backoff_spec(attempt: u32) -> int
    decreases attempt,
{
    if attempt <= 1 {
        BACKOFF_BASE_MS as int
    } else {
        2 * backoff_spec((attempt - 1) as u32)
    }
}

pub fn backoff_ms(attempt: u32) -> (r: u64)
    requires
        1 <= attempt <= MAX_ATTEMPTS,
    ensures
        r == backoff_spec(attempt),
{
    let mut r: u64 = BACKOFF_BASE_MS;
    let mut i: u32 = 1;
    while i < attempt
        invariant
            1 <= i <= attempt <= MAX_ATTEMPTS,
            r == backoff_spec(i),
            (i == 1 && r == 500) || (i == 2 && r == 1000) || (i == 3 && r == 2000),
        decreases attempt - i,
    {
        r = r * 2;
        i = i + 1;
    }
    r
}

/// What a run is configured with.
#[derive(Debug, Clone)]
pub struct Settings {
    pub base_url: String,
    pub api_key: String,
    pub unit: TempUnit,
    pub decimal_places: u32,
}

/// The displayed temperature is rounded to this many places unless configured otherwise.
pub const DEFAULT_DECIMAL_PLACES: u32 = 2;

impl Settings {
    /// Settings for the provider at `base_url`, with the default rounding. A missing
    /// or empty API key (read from `variable`) is a configuration failure.
    pub fn configure(base_url: &str, api_key: Option<String>, variable: &str, unit: TempUnit) -> (r:
        Result<Settings, WeatherError>)
        ensures
            r is Ok <==> api_key is Some && api_key->Some_0@.len() > 0,
            r is Ok ==> ({
                let s = r->Ok_0;
                &&& s.base_url@ == base_url@
                &&& s.api_key == api_key->Some_0
                &&& s.unit == unit
                &&& s.decimal_places == DEFAULT_DECIMAL_PLACES
            }),
            r is Err ==> (match r->Err_0 {
                WeatherError::Config { variable: v } => v@ == variable@,
                _ => false,
            }),
    {
        match api_key {
            Some(key) => {
                if key.as_str().unicode_len() == 0 {
                    Err(WeatherError::Config { variable: String::from_str(variable) })
                } else {
                    Ok(
                        Settings {
                            base_url: String::from_str(base_url),
                            api_key: key,
                            unit,
                            decimal_places: DEFAULT_DECIMAL_PLACES,
                        },
                    )
                }
            },
            None => Err(WeatherError::Config { variable: String::from_str(variable) }),
        }
    }
}

/// Where a run stands.
#[derive(Debug, Clone)]
pub enum Stage {
    /// Waiting for the cached location.
    AwaitCache,
    /// Waiting for geolocation try `attempt`.
    AwaitGeolocation { attempt: u32 },
    /// Waiting for the new location to be stored.
    AwaitSave { place: Location },
    /// Waiting for weather request try `attempt` for `place`.
    AwaitWeather { place: Location, attempt: u32 },
    /// Waiting for the notification to be shown.
    AwaitNotify { report: OpenWeatherData },
    /// The run is over.
    Finished,
}

/// What happened outside since the last action.
#[derive(Debug)]
pub enum Event {
    /// The cache was read at `now` (seconds since the Unix epoch).
    CacheLoaded { cached: Option<CachedLocation>, now: u64 },
    /// The geolocation provider answered, or the request failed, at `now`.
    Geolocated { reply: Result<GeoInfo, String>, now: u64 },
    /// The location was stored (or storing it failed, which a later run survives).
    Saved,
    /// The weather provider answered with `status`; `decoded` is the body read as a
    /// report, `None` where it could not be read.
    WeatherReplied { status: u16, decoded: Option<OpenWeatherData>, body: String },
    /// The weather request failed before an answer (timeout, connection, name lookup).
    WeatherUnreachable { reason: String },
    /// The notification sink reported success or a failure.
    Notified { outcome: Result<(), String> },
}

/// What the caller is to do next.
#[derive(Debug)]
pub enum Action {
    ReadCache,
    /// Ask the geolocation provider after waiting `delay_ms`.
    Geolocate { delay_ms: u64 },
    /// Store the location (atomically).
    SaveCache { entry: CachedLocation },
    /// Issue one GET of `url` after waiting `delay_ms`.
    FetchWeather { url: String, delay_ms: u64 },
    /// Show the notification.
    Notify { payload: NotifyData },
    /// The run is over, with the report or the failure.
    Finish { outcome: Result<OpenWeatherData, WeatherError> },
}

/// One run: resolve the place, fetch its weather, notify, in that order.
pub struct Pipeline {
    pub settings: Settings,
    pub stage: Stage,
}

/// The action asks for the weather of `place`.
pub open spec fn fetches(a: Action, s: Settings, place: Location, delay: int) -> bool {
    match a {
        Action::FetchWeather { url, delay_ms } => url@ == weather_url_spec(
            s.base_url@,
            place.query_spec(),
            s.api_key@,
        ) && delay_ms == delay,
        _ => false,
    }
}

/// The action ends the run with `e`.
pub open spec fn fails_with(a: Action, e: WeatherError) -> bool {
    match a {
        Action::Finish { outcome } => outcome == Err::<OpenWeatherData, WeatherError>(e),
        _ => false,
    }
}

/// The action ends the run with some failure.
pub open spec fn fails(a: Action) -> bool {
    match a {
        Action::Finish { outcome } => outcome is Err,
        _ => false,
    }
}

/// `place` is the location that the geolocation report `g` describes.
pub open spec fn located_at(place: Location, g: GeoInfo) -> bool {
    match place {
        Location::Resolved { latitude, longitude, city, country } => latitude == g.lat && longitude
            == g.lon && city@ == g.city@ && country@ == g.country@,
        _ => false,
    }
}

/// After a transient failure of try `attempt` of a weather request for `place`,
/// with `status` and `reason`: the next try after the backoff, or, once the tries
/// are used up, the end of the run with that failure.
pub open spec fn weather_retry(
    s: Settings,
    place: Location,
    attempt: u32,
    status: Option<u16>,
    reason: Seq<char>,
    after: Stage,
    action: Action,
) -> bool {
    if attempt < MAX_ATTEMPTS {
        &&& after == Stage::AwaitWeather { place, attempt: (attempt + 1) as u32 }
        &&& fetches(action, s, place, backoff_spec(attempt))
    } else {
        &&& after is Finished
        &&& ends_transient(action, status, reason)
    }
}

/// The action ends the run with a transient failure with `status` and `reason`.
pub open spec fn ends_transient(a: Action, status: Option<u16>, reason: Seq<char>) -> bool {
    match a {
        Action::Finish { outcome: Err(WeatherError::Transient { http_status, reason: r }) } =>
            http_status == status && r@ == reason,
        _ => false,
    }
}

/// The action ends the run with a data-format failure of kind `problem` that
/// keeps the leading part of `body`.
pub open spec fn ends_data_format(a: Action, problem: FormatProblem, body: Seq<char>) -> bool {
    match a {
        Action::Finish { outcome: Err(WeatherError::DataFormat { problem: p, excerpt }) } => p
            == problem && excerpt@ == excerpt_spec(body),
        _ => false,
    }
}

/// The transitions of a run. An event that the stage does not wait for gives no
/// action and leaves the stage as it was.
pub open spec fn steps_to(
    s: Settings,
    before: Stage,
    event: Event,
    after: Stage,
    action: Option<Action>,
) -> bool {
    match (before, event) {
        (Stage::AwaitCache, Event::CacheLoaded { cached, now }) => {
            &&& action is Some
            &&& if cached is Some && is_fresh_spec(cached->Some_0.fetched_at, now) {
                &&& after == Stage::AwaitWeather { place: cached->Some_0.location, attempt: 1 }
                &&& fetches(action->Some_0, s, cached->Some_0.location, 0)
            } else {
                &&& after == Stage::AwaitGeolocation { attempt: 1 }
                &&& action->Some_0 == Action::Geolocate { delay_ms: 0 }
            }
        },
        (Stage::AwaitGeolocation { attempt }, Event::Geolocated { reply, now }) => {
            &&& action is Some
            &&& if reply is Ok && reply->Ok_0.status@ == "success"@ {
                match (after, action->Some_0) {
                    (Stage::AwaitSave { place }, Action::SaveCache { entry }) => {
                        &&& entry.location == place
                        &&& entry.fetched_at == now
                        &&& located_at(place, reply->Ok_0)
                    },
                    _ => false,
                }
            } else if attempt < MAX_ATTEMPTS {
                &&& after == Stage::AwaitGeolocation { attempt: (attempt + 1) as u32 }
                &&& action->Some_0 == Action::Geolocate { delay_ms: backoff_spec(attempt) as u64 }
            } else {
                &&& after is Finished
                &&& if reply is Err {
                    ends_transient(action->Some_0, None, reply->Err_0@)
                } else {
                    ends_transient(action->Some_0, None, GEO_NO_SUCCESS@)
                }
            }
        },
        (Stage::AwaitSave { place }, Event::Saved) => {
            &&& action is Some
            &&& after == Stage::AwaitWeather { place, attempt: 1 }
            &&& fetches(action->Some_0, s, place, 0)
        },
        (Stage::AwaitWeather { place, attempt }, Event::WeatherReplied { status, decoded, body }) => {
            &&& action is Some
            &&& if is_success(status) {
                if decoded is Some && decoded->Some_0.has_conditions() {
                    let report = decoded->Some_0;
                    if readings_in_range(report.main) {
                        &&& after == Stage::AwaitNotify { report }
                        &&& (match action->Some_0 {
                            Action::Notify { payload } => payload@ == notice_spec(
                                place.query_spec(),
                                report,
                                s.unit,
                                s.decimal_places,
                            ),
                            _ => false,
                        })
                    } else {
                        &&& after is Finished
                        &&& fails_with(action->Some_0, WeatherError::Numeric)
                    }
                } else {
                    &&& after is Finished
                    &&& ends_data_format(
                        action->Some_0,
                        if decoded is None {
                            FormatProblem::MalformedBody
                        } else {
                            FormatProblem::NoConditions
                        },
                        body@,
                    )
                }
            } else if is_client_error(status) {
                &&& after is Finished
                &&& (match action->Some_0 {
                    Action::Finish { outcome: Err(WeatherError::Client { status: st, query }) } =>
                        st == status && query@ == place.query_spec(),
                    _ => false,
                })
            } else {
                weather_retry(s, place, attempt, Some(status), SERVER_FAILURE@, after, action->Some_0)
            }
        },
        (Stage::AwaitWeather { place, attempt }, Event::WeatherUnreachable { reason }) => {
            &&& action is Some
            &&& weather_retry(s, place, attempt, None, reason@, after, action->Some_0)
        },
        (Stage::AwaitNotify { report }, Event::Notified { outcome }) => {
            &&& action is Some
            &&& after is Finished
            &&& if outcome is Ok {
                action->Some_0 == Action::Finish {
                    outcome: Ok::<OpenWeatherData, WeatherError>(report),
                }
            } else {
                fails_with(action->Some_0, WeatherError::Notify { reason: outcome->Err_0 })
            }
        },
        _ => action is None && after == before,
    }
}

/// A stage that waits for something: tries are counted from one up to the limit.
pub open spec fn stage_ok(stage: Stage) -> bool {
    match stage {
        Stage::AwaitGeolocation { attempt } => 1 <= attempt <= MAX_ATTEMPTS,
        Stage::AwaitWeather { attempt, .. } => 1 <= attempt <= MAX_ATTEMPTS,
        _ => true,
    }
}

/// A copy of a location, equal to it.
pub fn copy_location(l: &Location) -> (r: Location)
    ensures
        r == *l,
{
    match l {
        Location::Query { query } => Location::Query { query: query.clone() },
        Location::Resolved { latitude, longitude, city, country } => Location::Resolved {
            latitude: *latitude,
            longitude: *longitude,
            city: city.clone(),
            country: country.clone(),
        },
    }
}

impl Pipeline {
    fn fetch(settings: &Settings, place: &Location, delay_ms: u64) -> (r: Action)
        ensures
            fetches(r, *settings, *place, delay_ms as int),
    {
        let url = weather_url(
            settings.base_url.as_str(),
            place.query_text(),
            settings.api_key.as_str(),
        );
        Action::FetchWeather { url, delay_ms }
    }

    /// Starts a run for an optional explicit place.
    ///
    /// A blank place ends the run at once, before any request. A given place is
    /// fetched directly; geolocation is never asked. Without one the cache is read.
    pub fn start(explicit: Option<&str>, settings: Settings) -> (r: (Pipeline, Action))
        ensures
            r.0.settings == settings,
            explicit is Some && trim_spec(explicit->Some_0@).len() == 0 ==> {
                &&& r.0.stage is Finished
                &&& fails_with(r.1, WeatherError::EmptyInput)
            },
            explicit is Some && trim_spec(explicit->Some_0@).len() > 0 ==> (match r.0.stage {
                Stage::AwaitWeather { place, attempt } => attempt == 1 && place.query_spec()
                    == trim_spec(explicit->Some_0@) && fetches(r.1, settings, place, 0),
                _ => false,
            }),
            explicit is None ==> r.0.stage is AwaitCache && r.1 is ReadCache,
            stage_ok(r.0.stage),
    {
        match begin_resolve(explicit) {
            Err(e) => (
                Pipeline { settings, stage: Stage::Finished },
                Action::Finish { outcome: Err(e) },
            ),
            Ok(None) => (Pipeline { settings, stage: Stage::AwaitCache }, Action::ReadCache),
            Ok(Some(place)) => {
                let action = Self::fetch(&settings, &place, 0);
                (Pipeline { settings, stage: Stage::AwaitWeather { place, attempt: 1 } }, action)
            },
        }
    }

    /// Ends the run with `e`, or schedules the next weather request for `place`
    /// where `e` is transient and tries are left.
    fn after_weather_failure(&mut self, place: Location, attempt: u32, e: WeatherError) -> (r:
        Action)
        requires
            1 <= attempt <= MAX_ATTEMPTS,
        ensures
            final(self).settings == old(self).settings,
            stage_ok(final(self).stage),
            (match e {
                WeatherError::Transient { http_status, reason } => weather_retry(
                    old(self).settings,
                    place,
                    attempt,
                    http_status,
                    reason@,
                    final(self).stage,
                    r,
                ),
                _ => true,
            }),
            !(e is Transient) ==> final(self).stage is Finished && fails_with(r, e),
    {
        match Self::retry_delay(&e, attempt) {
            Some(d) => {
                let action = Self::fetch(&self.settings, &place, d);
                self.stage = Stage::AwaitWeather { place, attempt: attempt + 1 };
                action
            },
            None => {
                self.stage = Stage::Finished;
                Action::Finish { outcome: Err(e) }
            },
        }
    }

    /// Takes in what happened outside and returns what to do next.
    pub fn step(&mut self, event: Event) -> (r: Option<Action>)
        requires
            stage_ok(old(self).stage),
        ensures
            final(self).settings == old(self).settings,
            stage_ok(final(self).stage),
            steps_to(old(self).settings, old(self).stage, event, final(self).stage, r),
    {
        let mut stage = Stage::Finished;
        std::mem::swap(&mut self.stage, &mut stage);
        match (stage, event) {
            (Stage::AwaitCache, Event::CacheLoaded { cached, now }) => {
                match resolve_from_cache(cached, now) {
                    Some(place) => {
                        let action = Self::fetch(&self.settings, &place, 0);
                        self.stage = Stage::AwaitWeather { place, attempt: 1 };
                        Some(action)
                    },
                    None => {
                        self.stage = Stage::AwaitGeolocation { attempt: 1 };
                        Some(Action::Geolocate { delay_ms: 0 })
                    },
                }
            },
            (Stage::AwaitGeolocation { attempt }, Event::Geolocated { reply, now }) => {
                match resolve_from_geolocation(reply, now) {
                    Ok(entry) => {
                        self.stage = Stage::AwaitSave { place: copy_location(&entry.location) };
                        Some(Action::SaveCache { entry })
                    },
                    Err(e) => {
                        match Self::retry_delay(&e, attempt) {
                            Some(d) => {
                                self.stage = Stage::AwaitGeolocation { attempt: attempt + 1 };
                                Some(Action::Geolocate { delay_ms: d })
                            },
                            None => {
                                self.stage = Stage::Finished;
                                Some(Action::Finish { outcome: Err(e) })
                            },
                        }
                    },
                }
            },
            (Stage::AwaitSave { place }, Event::Saved) => {
                let action = Self::fetch(&self.settings, &place, 0);
                self.stage = Stage::AwaitWeather { place, attempt: 1 };
                Some(action)
            },
            (
                Stage::AwaitWeather { place, attempt },
                Event::WeatherReplied { status, decoded, body },
            ) => {
                match classify_reply(status, decoded, body.as_str(), place.query_text()) {
                    Ok(report) => {
                        match notification_for(
                            place.query_text(),
                            &report,
                            self.settings.unit,
                            self.settings.decimal_places,
                        ) {
                            Ok(payload) => {
                                self.stage = Stage::AwaitNotify { report };
                                Some(Action::Notify { payload })
                            },
                            Err(e) => {
                                self.stage = Stage::Finished;
                                Some(Action::Finish { outcome: Err(e) })
                            },
                        }
                    },
                    Err(e) => Some(self.after_weather_failure(place, attempt, e)),
                }
            },
            (Stage::AwaitWeather { place, attempt }, Event::WeatherUnreachable { reason }) => {
                let e = WeatherError::Transient { http_status: None, reason };
                Some(self.after_weather_failure(place, attempt, e))
            },
            (Stage::AwaitNotify { report }, Event::Notified { outcome }) => {
                self.stage = Stage::Finished;
                match outcome {
                    Ok(()) => Some(Action::Finish { outcome: Ok(report) }),
                    Err(reason) => Some(Action::Finish { outcome: Err(WeatherError::Notify { reason }) }),
                }
            },
            (other, _) => {
                self.stage = other;
                None
            },
        }
    }

    /// After a failed try `attempt` of a network step: the wait before the next
    /// try, or `None` when the tries are used up or the failure is not retryable.
    pub fn retry_delay(error: &WeatherError, attempt: u32) -> (r: Option<u64>)
        requires
            1 <= attempt <= MAX_ATTEMPTS,
        ensures
            r is Some <==> error is Transient && attempt < MAX_ATTEMPTS,
            r is Some ==> r->Some_0 == backoff_spec(attempt),
    {
        if error.is_retryable() && attempt < MAX_ATTEMPTS {
            Some(backoff_ms(attempt))
        } else {
            None
        }
    }
}

/// A cached location whose age has reached the time to live is stale: the run
/// passes it by and asks the geolocation provider, with no wait.
pub proof fn law_stale_cache_asks_geolocation(
    s: Settings,
    cached: CachedLocation,
    now: u64,
    after: Stage,
    action: Option<Action>,
)
    requires
        now - cached.fetched_at >= CACHE_TTL_SECS,
        steps_to(s, Stage::AwaitCache, Event::CacheLoaded { cached: Some(cached), now }, after, action),
    ensures
        after == (Stage::AwaitGeolocation { attempt: 1 }),
        action == Some(Action::Geolocate { delay_ms: 0 }),
{
}

/// A fresh cached location is used as it is: the weather of that place is asked
/// for at once, and geolocation is not.
pub proof fn law_fresh_cache_skips_geolocation(
    s: Settings,
    cached: CachedLocation,
    now: u64,
    after: Stage,
    action: Option<Action>,
)
    requires
        now - cached.fetched_at < CACHE_TTL_SECS,
        steps_to(s, Stage::AwaitCache, Event::CacheLoaded { cached: Some(cached), now }, after, action),
    ensures
        after == (Stage::AwaitWeather { place: cached.location, attempt: 1 }),
        fetches(action->Some_0, s, cached.location, 0),
{
}

} // verus!
