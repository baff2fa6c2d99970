use vstd::prelude::*;

verus! {

/// Geographic position, in millionths of a degree.
#[derive(Debug, Clone, PartialEq, Eq)]
pub struct Coord {
    pub lon: i64,
    pub lat: i64,
}

/// One reported weather condition.
#[derive(Debug, Clone, PartialEq, Eq)]
pub struct WeatherEntity {
    pub id: i32,
    pub main: String,
    pub description: String,
    pub icon: String,
}

/// Temperatures are in thousandths of a Kelvin, as the provider reports Kelvin.
#[derive(Debug, Clone, PartialEq, Eq)]
pub struct Main {
    pub temp: i64,
    pub feels_like: i64,
    pub temp_min: i64,
    pub temp_max: i64,
    pub pressure: i32,
    pub humidity: i32,
}

/// Wind speed in thousandths of a metre per second, direction in degrees.
#[derive(Debug, Clone, PartialEq, Eq)]
pub struct Wind {
    pub speed: i64,
    pub deg: i32,
}

#[derive(Debug, Clone, PartialEq, Eq)]
pub struct Clouds {
    pub all: i32,
}

#[derive(Debug, Clone, PartialEq, Eq)]
pub struct Sys {
    pub type_sys: i32,
    pub id: i32,
    pub country: String,
    pub sunrise: i32,
    pub sunset: i32,
}

/// Current conditions for one place, as the weather provider reports them.
#[derive(Debug, Clone, PartialEq, Eq)]
pub struct OpenWeatherData {
    pub coord: Coord,
    pub weather: Option<Vec<WeatherEntity>>,
    pub base: String,
    pub main: Main,
    pub visibility: i32,
    pub wind: Wind,
    pub clouds: Clouds,
    pub dt: i32,
    pub sys: Sys,
    pub timezone: i32,
    pub id: i32,
    pub name: String,
    pub cod: i32,
}

impl OpenWeatherData {
    /// True when the report lists at least one condition.
    pub open spec fn has_conditions(&self) -> bool {
        &&& self.weather is Some
        &&& self.weather->Some_0@.len() > 0
    }

    /// A complete sample report: broken clouds over London.
    pub fn new() -> (r: Self)
        ensures
            r.has_conditions(),
            r.weather->Some_0@.len() == 1,
            r.weather->Some_0@[0].id == 803,
            r.weather->Some_0@[0].main@ == "Clouds"@,
            r.weather->Some_0@[0].description@ == "broken clouds"@,
            r.weather->Some_0@[0].icon@ == " 04n"@,
            r.coord.lon == -125700,
            r.coord.lat == 51508500,
            r.base@ == "stations"@,
            r.main.temp == 280340,
            r.main.feels_like == 276760,
            r.main.temp_min == 278640,
            r.main.temp_max == 281620,
            r.main.pressure == 1021,
            r.main.humidity == 86,
            r.visibility == 10_000,
            r.wind.speed == 6170,
            r.wind.deg == 300,
            r.clouds.all == 75,
            r.dt == 1675061138,
            r.sys.type_sys == 2,
            r.sys.id == 2075535,
            r.sys.country@ == "GB"@,
            r.sys.sunrise == 1675064547,
            r.sys.sunset == 1675097090,
            r.timezone == 0,
            r.id == 2643743,
            r.name@ == "London"@,
            r.cod == 200,
    {
        let entity = WeatherEntity {
            id: 803,
            main: String::from_str("Clouds"),
            description: String::from_str("broken clouds"),
            icon: String::from_str(" 04n"),
        };
        let conditions = vec![entity];
        assert(conditions@.len() == 1 && conditions@[0] == entity);
        OpenWeatherData {
            coord: Coord { lon: -125700, lat: 51508500 },
            weather: Some(conditions),
            base: String::from_str("stations"),
            main: Main {
                temp: 280340,
                feels_like: 276760,
                temp_min: 278640,
                temp_max: 281620,
                pressure: 1021,
                humidity: 86,
            },
            visibility: 10_000,
            wind: Wind { speed: 6170, deg: 300 },
            clouds: Clouds { all: 75 },
            dt: 1675061138,
            sys: Sys {
                type_sys: 2,
                id: 2075535,
                country: String::from_str("GB"),
                sunrise: 1675064547,
                sunset: 1675097090,
            },
            timezone: 0,
            id: 2643743,
            name: String::from_str("London"),
            cod: 200,
        }
    }

    pub fn with_coord(self, coord: Coord) -> (r: Self)
        ensures
            r == (OpenWeatherData { coord, ..self }),
    {
        OpenWeatherData { coord, ..self }
    }

    pub fn with_name(self, name: &str) -> (r: Self)
        ensures
            r.name@ == name@,
            r == (OpenWeatherData { name: r.name, ..self }),
    {
        OpenWeatherData { name: String::from_str(name), ..self }
    }
}

} // verus!
