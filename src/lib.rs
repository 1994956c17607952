//! Cache-aside factorial service: input validation, arbitrary-precision
//! factorial computation, and the decisions around a key-value cache with a
//! time-to-live.

pub mod decimal;
pub mod factorial;
pub mod request;
pub mod service;
pub mod store_model;
