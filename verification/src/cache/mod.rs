//! Cache keys and the cache-aside protocol.

pub mod aside;
pub mod canonical;
pub mod key;
pub mod unique;
