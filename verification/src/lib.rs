//! Bridges a native storage engine's leveled logging into an
//! application-supplied logger: level decoding, threshold filtering, bounded
//! formatting, single-dispatch routing, and single-owner handle teardown.

pub mod logging;

pub use logging::map_level;
pub use logging::CppLoggerWrapper;
pub use logging::Dispatch;
pub use logging::LogLevel;
pub use logging::LogOutcome;
pub use logging::RocksDbLogger;
pub use logging::ShimLogger;
pub use logging::LOG_BUFFER_SIZE;
