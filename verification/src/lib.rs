//! Remote-control scanning engine for a software-defined-radio receiver.
//!
//! The library holds the verified core of an unattended band scanner: the
//! validated configuration, the squelch decision logic, the sweep and
//! bookmark cursors, the dwell/listen state machine, the line codec of the
//! receiver's remote-control protocol, and the timestamp layouts used for
//! operator-visible reports. Network and clock handling live with the
//! caller, which feeds the engine plain values and performs the actions it
//! decides on.

pub mod bookmarks;
pub mod config;
pub mod cursor;
pub mod engine;
pub mod numbers;
pub mod protocol;
pub mod timefmt;
pub mod udp;
pub mod squelch;

pub use config::ConfigError;
pub use config::DateFormat;
pub use config::ScanConfig;
pub use config::ScanModes;
