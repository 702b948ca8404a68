//! Verified client logic for a product-sales REST API: request construction,
//! a pure response decoder from (status code, JSON body) to typed records,
//! calendar-date handling, and the command dispatcher.

pub mod cli;
pub mod date;
pub mod decode;
pub mod error;
pub mod json;
pub mod json_raw;
pub mod model;
pub mod numbers;
pub mod request;
pub mod text;
