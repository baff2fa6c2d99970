//! Weather notifier core: temperature arithmetic in fixed point, location
//! resolution with a cached location, classification of the weather provider's
//! replies, composition of the notification, and the run that sequences them.

pub mod decimal;
pub mod error;
pub mod location;
pub mod models;
pub mod notify;
pub mod pipeline;
pub mod temperature;
pub mod text;
pub mod weather;
