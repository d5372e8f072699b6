//! Resilient fetch engine for a line-oriented crawler of two remote HTTP
//! services.
//!
//! The library holds the verified core: the exponential backoff timer, the
//! rate-limit signal extraction and the retry decision step, the request
//! descriptions that the two service clients build, the pagination cursor,
//! and the JSON decode/encode boundary. The surrounding binary performs the
//! actual network and console I/O and drives the loops, handing this library
//! plain values (status codes, header strings, response bodies) and acting on
//! what it returns.

pub mod commands;
pub mod fetch;
pub mod github;
pub mod json;
pub mod numtext;
pub mod ossinsight;
pub mod request;
pub mod timer;
