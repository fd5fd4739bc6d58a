//! Building the requests an ONVIF client sends and taking the decisions of
//! its network loops.

pub mod calendar;
pub mod calendar_order;
pub mod discovery;
pub mod reply;
pub mod security;
pub mod retry;
pub mod soap;

pub use calendar::{chrono_countdown, days_before_month, is_leap, month_from_day_of_year};
pub use security::ws_security_header;
pub use soap::{soap_msg, Messages};
