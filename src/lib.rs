//! Finds a subtitle for a local media file by asking remote subtitle
//! services in priority order and keeping the first one that succeeds.

pub mod file;
pub mod fingerprint;
pub mod http;
pub mod providers;
pub mod subtitle;
