//! The asynchronous runtime: futures over device work, and what becomes of
//! results whose future was dropped while the work was in flight.

pub mod device_future;
pub mod error;
pub mod laws;
pub mod reclaim;
