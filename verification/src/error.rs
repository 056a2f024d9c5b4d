use vstd::prelude::*;

verus! {

/// A field of [`crate::config::Config`] that a check refers to.
#[derive(Debug, Clone, Copy, PartialEq, Eq)]
pub enum ConfigField {
    BlackLevel,
    WhiteLevel,
    BackgroundGray,
    HOffset,
    VOffset,
    SyncSource,
    VideoMode,
}

/// Why a configuration value was refused.
#[derive(Debug, Clone, Copy, PartialEq, Eq)]
pub enum ConfigError {
    OutOfRange { field: ConfigField, min: i16, max: i16, got: i16 },
    Unsupported { field: ConfigField },
}

impl ConfigError {
    pub fn out_of_range(field: ConfigField, min: i16, max: i16, got: i16) -> (e: Self)
        ensures
            e == (ConfigError::OutOfRange { field, min, max, got }),
    {
        ConfigError::OutOfRange { field, min, max, got }
    }

    pub fn unsupported(field: ConfigField) -> (e: Self)
        ensures
            e == (ConfigError::Unsupported { field }),
    {
        ConfigError::Unsupported { field }
    }
}

/// Errors of the driver; `SpiError` is the error of the SPI device.
#[allow(inconsistent_fields)]
#[derive(Debug, Clone, Copy, PartialEq, Eq)]
pub enum Error<SpiError> {
    Spi(SpiError),
    NotFound { osdm: u8 },
    ResetTimeout,
    NvrBusyTimeout,
    Uninitialized,
    OutOfBounds { position: u16, len: u16 },
    InvalidCoordinate { x: u8, y: u8, columns: u8, rows: u8 },
    InputTooLong { len: usize, max: u16 },
    Config(ConfigError),
}

impl<SpiError> From<SpiError> for Error<SpiError> {
    fn from(value: SpiError) -> (e: Self) {
        Error::Spi(value)
    }
}

impl<SpiError> vstd::std_specs::convert::FromSpecImpl<SpiError> for Error<SpiError> {
    open spec fn obeys_from_spec() -> bool {
        true
    }

    open spec fn from_spec(v: SpiError) -> Self {
        Error::Spi(v)
    }
}

} // verus!
