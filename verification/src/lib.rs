//! Conversions between signed epoch-millisecond timestamps and UTC
//! calendar/clock representations.
//!
//! The arithmetic core — splitting a signed millisecond count into a
//! whole-second count plus a forward-only nanosecond offset, and rounding a
//! nanosecond count back to milliseconds — is fully verified.  Calendar
//! rendering and date-time parsing are delegated to the chrono crate through
//! a small set of trusted declarations in `chrono_api`.

pub mod chrono_api;
pub mod convert;
pub mod parse;
pub mod split;
pub mod text;

pub use chrono_api::UtcInstant;
pub use convert::{
    time_ms_to_utc, time_ms_to_utc_string, time_ms_to_utc_z_string, utc_now_to_time_ms,
    utc_to_time_ms,
};
pub use parse::{dt_str_to_utc_time_ms, TimeError, TzMassaging};
pub use split::{nanos_to_time_ms, time_ms_to_secs_nsecs};
