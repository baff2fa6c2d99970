use vstd::prelude::*;

verus! {

/// What was wrong with a weather provider's body.
#[derive(Debug, Clone, Copy, PartialEq, Eq, Structural)]
pub enum FormatProblem {
    /// The body is not a JSON document of the expected shape.
    MalformedBody,
    /// The report lists no weather condition.
    NoConditions,
}

/// The classified failures of a run.
#[derive(Debug, Clone, PartialEq, Eq)]
pub enum WeatherError {
    /// The API key variable is not set.
    Config { variable: String },
    /// The explicitly given place is blank.
    EmptyInput,
    /// A timeout, a connection failure or a server-side status; a retry may succeed.
    Transient { http_status: Option<u16>, reason: String },
    /// The provider refused the request (a 4xx status); not retried.
    Client { status: u16, query: String },
    /// The provider's body does not have the expected shape.
    DataFormat { problem: FormatProblem, excerpt: String },
    /// A temperature outside the range of readings.
    Numeric,
    /// The notification sink reported a failure.
    Notify { reason: String },
}

impl WeatherError {
    /// Transient failures are the ones a caller may retry.
    pub fn is_retryable(&self) -> (r: bool)
        ensures
            r <==> self is Transient,
    {
        match self {
            WeatherError::Transient { .. } => true,
            _ => false,
        }
    }
}

} // verus!
