//! Capture-and-replay of HTTP traffic: the rules by which exchanges with an
//! upstream service are recorded, identified, stored and answered again.

pub mod capture;
pub mod headers;
pub mod key;
pub mod message;
pub mod persist;
pub mod proxy;
pub mod replay;
pub mod store;
pub mod target;
pub mod text;
