//! Download speed measurement: the decisions of one measurement run, as a
//! state machine that a driver feeds with what the network reported.

pub mod discovery;
pub mod engine;
pub mod error;
pub mod events;
pub mod laws;
pub mod snapshot;

pub use discovery::{Client, Location, SpeedTest, Target};
pub use engine::{Command, Event, Measurement, Phase, Step};
pub use error::SpeedTestError;
pub use events::{Notice, SpeedTestEvents};
pub use snapshot::TargetDownloadInformation;
