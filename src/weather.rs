use vstd::prelude::*;

use crate::error::{FormatProblem, WeatherError};
use crate::models::OpenWeatherData;
use crate::text::push_str;

verus! {

/// At most this many characters of a body are kept for diagnostics.
pub const EXCERPT_CHARS: usize = 200;

/// The request URL: `{base}/weather?q={query}&appid={api_key}`.
pub open spec fn weather_url_spec(base: Seq<char>, query: Seq<char>, api_key: Seq<char>) -> Seq<char> {
    base + "/weather?q="@ + query + "&appid="@ + api_key
}

pub fn weather_url(base: &str, query: &str, api_key: &str) -> (r: String)
    ensures
        r@ == weather_url_spec(base@, query@, api_key@),
{
    let mut url = String::from_str(base);
    push_str(&mut url, "/weather?q=");
    push_str(&mut url, query);
    push_str(&mut url, "&appid=");
    push_str(&mut url, api_key);
    url
}

/// The leading part of a body that is kept for diagnostics.
pub open spec fn excerpt_spec(body: Seq<char>) -> Seq<char> {
    if body.len() <= EXCERPT_CHARS {
        body
    } else {
        body.take(EXCERPT_CHARS as int)
    }
}

pub fn excerpt(body: &str) -> (r: String)
    ensures
        r@ == excerpt_spec(body@),
{
    let n = body.unicode_len();
    let end = if n <= EXCERPT_CHARS {
        n
    } else {
        EXCERPT_CHARS
    };
    let r = String::from_str(body.substring_char(0, end));
    assert(r@ =~= excerpt_spec(body@));
    r
}

/// The reason given for a reply that is neither a success nor a client error.
pub const SERVER_FAILURE: &'static str = "server error";

pub open spec fn is_success(status: u16) -> bool {
    200 <= status <= 299
}

pub open spec fn is_client_error(status: u16) -> bool {
    400 <= status <= 499
}

/// Classifies the provider's reply to one request for `query`.
///
/// `decoded` is the body read as a report, or `None` where it could not be read.
/// A 2xx reply is a report when it lists a condition, a data-format failure
/// otherwise; a 4xx reply is a client failure; any other status is transient.
pub fn classify_reply(status: u16, decoded: Option<OpenWeatherData>, body: &str, query: &str) -> (r:
    Result<OpenWeatherData, WeatherError>)
    ensures
        r is Ok <==> is_success(status) && decoded is Some && decoded->Some_0.has_conditions(),
        r is Ok ==> r->Ok_0 == decoded->Some_0,
        is_success(status) && decoded is None ==> (match r {
            Err(WeatherError::DataFormat { problem, excerpt }) => problem
                == FormatProblem::MalformedBody && excerpt@ == excerpt_spec(body@),
            _ => false,
        }),
        is_success(status) && decoded is Some && !decoded->Some_0.has_conditions() ==> (match r {
            Err(WeatherError::DataFormat { problem, excerpt }) => problem
                == FormatProblem::NoConditions && excerpt@ == excerpt_spec(body@),
            _ => false,
        }),
        is_client_error(status) ==> (match r {
            Err(WeatherError::Client { status: s, query: q }) => s == status && q@ == query@,
            _ => false,
        }),
        !is_success(status) && !is_client_error(status) ==> (match r {
            Err(WeatherError::Transient { http_status, reason }) => http_status == Some(status)
                && reason@ == SERVER_FAILURE@,
            _ => false,
        }),
{
    if 200 <= status && status <= 299 {
        match decoded {
            None => Err(
                WeatherError::DataFormat {
                    problem: FormatProblem::MalformedBody,
                    excerpt: excerpt(body),
                },
            ),
            Some(data) => {
                let listed = match &data.weather {
                    Some(list) => list.len() > 0,
                    None => false,
                };
                if listed {
                    Ok(data)
                } else {
                    Err(
                        WeatherError::DataFormat {
                            problem: FormatProblem::NoConditions,
                            excerpt: excerpt(body),
                        },
                    )
                }
            },
        }
    } else if 400 <= status && status <= 499 {
        Err(WeatherError::Client { status, query: String::from_str(query) })
    } else {
        Err(WeatherError::Transient { http_status: Some(status), reason: String::from_str(SERVER_FAILURE) })
    }
}

} // verus!
