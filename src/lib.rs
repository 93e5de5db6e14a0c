//! Battery status and charge forecasts computed from capacity telemetry.

pub mod time;
pub mod capacity;
pub mod forecast;
pub mod cycle;
pub mod session;
