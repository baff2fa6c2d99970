use mausam::error::{FormatProblem, WeatherError};
use mausam::models::{Coord, Main, OpenWeatherData, WeatherEntity};
use mausam::notify::{compose, display_temperatures, icon_for, notification_for, NotifyData};
use mausam::decimal::DecimalValue;
use mausam::temperature::TempUnit;
use mausam::text::{capitalize, is_blank, text_eq, trim};
use mausam::weather::{classify_reply, excerpt, weather_url, EXCERPT_CHARS, SERVER_FAILURE};

fn paris() -> OpenWeatherData {
    let mut data = OpenWeatherData::new().with_name("Paris");
    data.weather = Some(vec![WeatherEntity {
        id: 804,
        main: "Clouds".to_string(),
        description: "overcast clouds".to_string(),
        icon: "04d".to_string(),
    }]);
    data.main = Main {
        temp: 283180,
        feels_like: 282120,
        temp_min: 282580,
        temp_max: 283920,
        pressure: 1031,
        humidity: 72,
    };
    data
}

#[test]
fn sample_report_is_london() {
    let data = OpenWeatherData::new();
    assert_eq!(data.name, "London");
    assert_eq!(data.sys.country, "GB");
    assert_eq!(data.main.temp, 280340);
    assert_eq!(data.weather.as_ref().map(|w| w.len()), Some(1));
    assert_eq!(data.weather.as_ref().unwrap()[0].description, "broken clouds");
    assert_eq!(data.cod, 200);
    assert_eq!(
        data.weather,
        Some(vec![WeatherEntity {
            id: 803,
            main: "Clouds".to_string(),
            description: "broken clouds".to_string(),
            icon: " 04n".to_string(),
        }])
    );
    assert_eq!(data.coord, Coord { lon: -125700, lat: 51508500 });
    assert_eq!(data.base, "stations");
    assert_eq!(data.visibility, 10_000);
    assert_eq!(data.wind.speed, 6170);
    assert_eq!(data.wind.deg, 300);
    assert_eq!(data.clouds.all, 75);
    assert_eq!(data.dt, 1675061138);
    assert_eq!(data.sys.type_sys, 2);
    assert_eq!(data.sys.id, 2075535);
    assert_eq!(data.sys.sunrise, 1675064547);
    assert_eq!(data.sys.sunset, 1675097090);
    assert_eq!(data.timezone, 0);
    assert_eq!(data.id, 2643743);
}

#[test]
fn builders_replace_one_field() {
    let data = OpenWeatherData::new().with_coord(Coord { lon: 2348800, lat: 48853400 });
    assert_eq!(data.coord, Coord { lon: 2348800, lat: 48853400 });
    assert_eq!(data.name, "London");
    let renamed = OpenWeatherData::new().with_name("Paris");
    assert_eq!(renamed.name, "Paris");
    assert_eq!(renamed.main, OpenWeatherData::new().main);
}

#[test]
fn request_url() {
    assert_eq!(
        weather_url("https://api.openweathermap.org/data/2.5", "Paris", "KEY"),
        "https://api.openweathermap.org/data/2.5/weather?q=Paris&appid=KEY"
    );
}

#[test]
fn excerpt_is_bounded() {
    let long = "x".repeat(EXCERPT_CHARS + 100);
    assert_eq!(excerpt(&long).chars().count(), EXCERPT_CHARS);
    assert_eq!(excerpt("short"), "short");
    assert_eq!(excerpt(""), "");
}

#[test]
fn success_with_conditions_is_the_report() {
    let got = classify_reply(200, Some(paris()), "{}", "Paris");
    assert_eq!(got, Ok(paris()));
}

#[test]
fn empty_conditions_is_a_data_format_error() {
    let mut data = paris();
    data.weather = Some(vec![]);
    let body = r#"{"weather":[]}"#;
    match classify_reply(200, Some(data), body, "Paris") {
        Err(WeatherError::DataFormat { problem, excerpt }) => {
            assert_eq!(problem, FormatProblem::NoConditions);
            assert_eq!(excerpt, body);
        }
        other => panic!("unexpected {other:?}"),
    }
}

#[test]
fn missing_conditions_is_a_data_format_error() {
    let mut data = paris();
    data.weather = None;
    match classify_reply(204, Some(data), "{}", "Paris") {
        Err(WeatherError::DataFormat { problem, .. }) => {
            assert_eq!(problem, FormatProblem::NoConditions)
        }
        other => panic!("unexpected {other:?}"),
    }
}

#[test]
fn malformed_body_is_a_data_format_error_with_excerpt() {
    match classify_reply(200, None, "<html>oops</html>", "Paris") {
        Err(WeatherError::DataFormat { problem, excerpt }) => {
            assert_eq!(problem, FormatProblem::MalformedBody);
            assert_eq!(excerpt, "<html>oops</html>");
        }
        other => panic!("unexpected {other:?}"),
    }
}

#[test]
fn client_status_is_a_client_error() {
    assert_eq!(
        classify_reply(404, None, "{\"cod\":\"404\"}", "Atlantis"),
        Err(WeatherError::Client { status: 404, query: "Atlantis".to_string() })
    );
    assert_eq!(
        classify_reply(401, Some(paris()), "", "Paris"),
        Err(WeatherError::Client { status: 401, query: "Paris".to_string() })
    );
}

#[test]
fn server_status_is_transient() {
    match classify_reply(503, None, "", "Paris") {
        Err(e @ WeatherError::Transient { http_status: Some(503), .. }) => {
            assert!(e.is_retryable());
            assert!(matches!(e, WeatherError::Transient { ref reason, .. } if reason == SERVER_FAILURE));
        }
        other => panic!("unexpected {other:?}"),
    }
    assert!(!WeatherError::EmptyInput.is_retryable());
    assert!(!WeatherError::Numeric.is_retryable());
}

#[test]
fn paris_end_to_end_notification() {
    let n = notification_for("Paris", &paris(), TempUnit::Celsius, 2).unwrap();
    assert_eq!(n.summary(), "Paris 10.03°C");
    assert_eq!(n.body(), "Overcast clouds... 9°C / 11°C");
    assert_eq!(n.icon(), "weather-few-clouds");
    assert_eq!(n.timeout(), None);
}

#[test]
fn notification_in_fahrenheit_with_one_place() {
    let n = notification_for("Paris", &paris(), TempUnit::Fahrenheit, 1).unwrap();
    // 283.18 K = 50.054 °F; 282.58 K = 48.974 °F; 283.92 K = 51.386 °F.
    assert_eq!(n.summary(), "Paris 50.1°F");
    assert_eq!(n.body(), "Overcast clouds... 48°F / 52°F");
}

#[test]
fn display_temperatures_round_floor_and_ceil() {
    let (t, lo, hi) = display_temperatures(&paris().main, TempUnit::Celsius, 2).unwrap();
    assert_eq!(t, DecimalValue { mantissa: 1003, scale: 2 });
    assert_eq!(lo, 9);
    assert_eq!(hi, 11);
}

#[test]
fn out_of_range_reading_is_a_numeric_error() {
    let mut data = paris();
    data.main.temp_max = i64::MAX;
    assert_eq!(display_temperatures(&data.main, TempUnit::Celsius, 2), Err(WeatherError::Numeric));
    assert!(matches!(
        notification_for("Paris", &data, TempUnit::Celsius, 2),
        Err(WeatherError::Numeric)
    ));
}

#[test]
fn report_without_conditions_gives_no_notification() {
    let mut data = paris();
    data.weather = Some(vec![]);
    assert!(matches!(
        notification_for("Paris", &data, TempUnit::Celsius, 2),
        Err(WeatherError::DataFormat { problem: FormatProblem::NoConditions, .. })
    ));
}

#[test]
fn compose_uses_the_first_condition() {
    let mut data = paris();
    data.weather = Some(vec![
        WeatherEntity {
            id: 500,
            main: "Rain".to_string(),
            description: "light rain".to_string(),
            icon: "10d".to_string(),
        },
        WeatherEntity {
            id: 800,
            main: "Clear".to_string(),
            description: "clear sky".to_string(),
            icon: "01d".to_string(),
        },
    ]);
    let n = compose("Oslo", &data, DecimalValue { mantissa: -4, scale: 0 }, -6, -2, TempUnit::Celsius);
    assert_eq!(n.summary(), "Oslo -4°C");
    assert_eq!(n.body(), "Light rain... -6°C / -2°C");
    assert_eq!(n.icon(), "weather-showers");
}

#[test]
fn icons_by_keyword() {
    assert_eq!(icon_for("Clear"), "weather-clear");
    assert_eq!(icon_for("Clouds"), "weather-few-clouds");
    assert_eq!(icon_for("Drizzle"), "weather-showers");
    assert_eq!(icon_for("Thunderstorm"), "weather-storm");
    assert_eq!(icon_for("Snow"), "weather-snow");
    assert_eq!(icon_for("Haze"), "weather-fog");
    assert_eq!(icon_for("Tornado"), "dialog-information");
    assert_eq!(icon_for(""), "dialog-information");
}

#[test]
fn notify_data_requires_every_field() {
    assert!(NotifyData::new("s", "b", "i").is_some());
    assert!(NotifyData::new("", "b", "i").is_none());
    assert!(NotifyData::new("s", "", "i").is_none());
    assert!(NotifyData::new("s", "b", "").is_none());
    let n = NotifyData::new("s", "b", "i").unwrap().with_timeout(5000);
    assert_eq!(n.timeout(), Some(5000));
    assert_eq!(n.summary(), "s");
    assert_eq!(n.body(), "b");
    assert_eq!(n.icon(), "i");
}

#[test]
fn text_helpers() {
    assert_eq!(trim("  Paris \t\n"), "Paris");
    assert_eq!(trim("new york"), "new york");
    assert_eq!(trim("\u{3000}x\u{a0}"), "x");
    assert!(is_blank(""));
    assert!(is_blank("   "));
    assert!(is_blank("\t\n"));
    assert!(!is_blank(" a "));
    assert_eq!(capitalize("broken clouds"), "Broken clouds");
    assert_eq!(capitalize("éclair"), "Éclair");
    assert_eq!(capitalize(""), "");
    assert!(text_eq("Clear", "Clear"));
    assert!(!text_eq("Clear", "clear"));
}
