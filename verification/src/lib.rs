//! A gateway in front of a conversational API: the rules by which it admits,
//! routes and answers requests, keeps credentials alive, and watches one
//! cookie go by, each with its contract.

pub mod bucket;
pub mod codec;
pub mod convert;
pub mod cookie;
pub mod credential;
pub mod date;
pub mod error;
pub mod json;
pub mod limiter;
pub mod page;
pub mod preauth;
pub mod reply;
pub mod route;
pub mod serve;
pub mod session;
pub mod sni;
pub mod table;
pub mod text;
