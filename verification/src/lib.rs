//! Driver logic for the MAX7456 and AT7456E on-screen display chips.

pub mod bus;
pub mod config;
pub mod error;
pub mod init;
pub mod laws;
pub mod registers;
pub mod transaction;

pub use bus::DeviceType;
pub use bus::DisplayPosition;
pub use bus::Max7456Async;
pub use bus::Max7456Blocking;
pub use bus::RuntimeState;
pub use bus::Status;
pub use config::BackgroundMode;
pub use config::Config;
pub use config::ScreenGeometry;
pub use config::SyncSource;
pub use config::VideoMode;
pub use error::ConfigError;
pub use error::ConfigField;
pub use error::Error;
pub use init::InitAction;
pub use init::InitMachine;
pub use transaction::Transaction;
