use vstd::prelude::*;

use crate::error::ConfigError;
use crate::error::ConfigField;

verus! {

/// The video standard of the overlay.
#[derive(Debug, Clone, Copy, PartialEq, Eq)]
pub enum VideoMode {
    Pal,
    Ntsc,
    /// Detected from the chip's status register during initialization.
    Auto,
}

/// The character grid of a video standard.
#[derive(Debug, Clone, Copy, PartialEq, Eq)]
pub struct ScreenGeometry {
    pub columns: u8,
    pub rows: u8,
    pub len: u16,
}

/// The grid of PAL: 30 columns, 16 rows.
pub open spec fn pal_geometry() -> ScreenGeometry {
    ScreenGeometry { columns: 30, rows: 16, len: 480 }
}

/// The grid of NTSC: 30 columns, 13 rows.
pub open spec fn ntsc_geometry() -> ScreenGeometry {
    ScreenGeometry { columns: 30, rows: 13, len: 390 }
}

/// The grid of a video mode; `Auto` has none until it is resolved.
pub open spec fn mode_geometry(mode: VideoMode) -> Option<ScreenGeometry> {
    match mode {
        VideoMode::Pal => Some(pal_geometry()),
        VideoMode::Ntsc => Some(ntsc_geometry()),
        VideoMode::Auto => None,
    }
}

impl VideoMode {
    pub fn geometry(self) -> (g: Option<ScreenGeometry>)
        ensures
            g == mode_geometry(self),
    {
        match self {
            VideoMode::Pal => Some(ScreenGeometry { columns: 30, rows: 16, len: 480 }),
            VideoMode::Ntsc => Some(ScreenGeometry { columns: 30, rows: 13, len: 390 }),
            VideoMode::Auto => None,
        }
    }
}

impl ScreenGeometry {
    /// Whether the cell `(x, y)` lies on the grid.
    pub open spec fn holds(self, x: u8, y: u8) -> bool {
        x < self.columns && y < self.rows
    }

    /// Row-major index of the cell `(x, y)`.
    pub open spec fn cell_index(self, x: u8, y: u8) -> int {
        y * self.columns + x
    }

    pub fn cell_count(self) -> (n: u16)
        ensures
            n == self.len,
    {
        self.len
    }

    pub fn contains(self, x: u8, y: u8) -> (b: bool)
        ensures
            b == self.holds(x, y),
    {
        x < self.columns && y < self.rows
    }

    pub fn index(self, x: u8, y: u8) -> (i: Option<u16>)
        ensures
            self.holds(x, y) ==> i == Some(self.cell_index(x, y) as u16),
            self.holds(x, y) ==> self.cell_index(x, y) < 0x10000,
            !self.holds(x, y) ==> i == None::<u16>,
    {
        if self.contains(x, y) {
            let cols: u16 = self.columns as u16;
            let row: u16 = y as u16;
            assert(row * cols <= 254 * 255) by (nonlinear_arith)
                requires
                    row < 255,
                    cols <= 255,
            ;
            Some(row * cols + x as u16)
        } else {
            None
        }
    }
}

/// Where the chip takes its sync from.
#[derive(Debug, Clone, Copy, PartialEq, Eq)]
pub enum SyncSource {
    Auto,
    Internal,
    External,
}

/// What the chip shows behind the characters.
#[derive(Debug, Clone, Copy, PartialEq, Eq)]
pub enum BackgroundMode {
    Transparent,
    Gray,
}

/// Settings that initialization writes to the chip.
#[derive(Debug, Clone, Copy, PartialEq, Eq)]
pub struct Config {
    pub reset_settle_delay_us: u32,
    pub reset_poll_max_tries: u16,
    pub video_mode: VideoMode,
    pub sync_source: SyncSource,
    pub h_offset: i8,
    pub v_offset: i8,
    pub osd_enabled: bool,
    pub invert: bool,
    pub black_level: u8,
    pub white_level: u8,
    pub background_mode: BackgroundMode,
    pub background_gray: u8,
}

/// The default configuration: the reset timing and levels that Betaflight uses.
pub open spec fn default_config() -> Config {
    Config {
        reset_settle_delay_us: 200,
        reset_poll_max_tries: 1024,
        video_mode: VideoMode::Auto,
        sync_source: SyncSource::Auto,
        h_offset: 0,
        v_offset: 0,
        osd_enabled: true,
        invert: false,
        black_level: 0,
        white_level: 2,
        background_mode: BackgroundMode::Transparent,
        background_gray: 4,
    }
}

/// The ranges that the chip's registers take: black and white levels 0..=3,
/// background gray 0..=7, horizontal offset -32..=31, vertical offset -16..=15.
pub open spec fn config_in_range(config: Config) -> bool {
    &&& config.black_level <= 3
    &&& config.white_level <= 3
    &&& config.background_gray <= 7
    &&& -32 <= config.h_offset <= 31
    &&& -16 <= config.v_offset <= 15
}

impl Default for Config {
    fn default() -> (c: Self)
        ensures
            c == default_config(),
    {
        Config {
            // Matches Betaflight behavior.
            reset_settle_delay_us: 200,
            reset_poll_max_tries: 1024,
            video_mode: VideoMode::Auto,
            sync_source: SyncSource::Auto,
            h_offset: 0,
            v_offset: 0,
            osd_enabled: true,
            invert: false,
            black_level: 0,
            white_level: 2,
            background_mode: BackgroundMode::Transparent,
            // 28% brightness (chip default in BF).
            background_gray: 4,
        }
    }
}

impl Config {
    pub fn auto() -> (c: Self)
        ensures
            c == (Config { video_mode: VideoMode::Auto, ..default_config() }),
    {
        Config { video_mode: VideoMode::Auto, ..Self::default() }
    }

    pub fn pal() -> (c: Self)
        ensures
            c == (Config { video_mode: VideoMode::Pal, ..default_config() }),
    {
        Config { video_mode: VideoMode::Pal, ..Self::default() }
    }

    pub fn ntsc() -> (c: Self)
        ensures
            c == (Config { video_mode: VideoMode::Ntsc, ..default_config() }),
    {
        Config { video_mode: VideoMode::Ntsc, ..Self::default() }
    }

    pub fn with_sync_source(self, sync_source: SyncSource) -> (c: Self)
        ensures
            c == (Config { sync_source, ..self }),
    {
        let mut c = self;
        c.sync_source = sync_source;
        c
    }

    pub fn with_osd_enabled(self, enabled: bool) -> (c: Self)
        ensures
            c == (Config { osd_enabled: enabled, ..self }),
    {
        let mut c = self;
        c.osd_enabled = enabled;
        c
    }

    pub fn with_invert(self, invert: bool) -> (c: Self)
        ensures
            c == (Config { invert, ..self }),
    {
        let mut c = self;
        c.invert = invert;
        c
    }

    pub fn with_transparent_background(self) -> (c: Self)
        ensures
            c == (Config { background_mode: BackgroundMode::Transparent, ..self }),
    {
        let mut c = self;
        c.background_mode = BackgroundMode::Transparent;
        c
    }

    pub fn with_gray_background(self, gray: u8) -> (r: Result<Self, ConfigError>)
        ensures
            gray > 7 ==> r == Err::<Config, ConfigError>(
                ConfigError::OutOfRange {
                    field: ConfigField::BackgroundGray,
                    min: 0,
                    max: 7,
                    got: gray as i16,
                },
            ),
            gray <= 7 ==> r == Ok::<Config, ConfigError>(
                Config { background_mode: BackgroundMode::Gray, background_gray: gray, ..self },
            ),
    {
        if gray > 7 {
            return Err(ConfigError::out_of_range(ConfigField::BackgroundGray, 0, 7, gray as i16));
        }
        let mut c = self;
        c.background_mode = BackgroundMode::Gray;
        c.background_gray = gray;
        Ok(c)
    }

    pub fn with_offsets(self, h_offset: i8, v_offset: i8) -> (r: Result<Self, ConfigError>)
        ensures
            !(-32 <= h_offset <= 31) ==> r == Err::<Config, ConfigError>(
                ConfigError::OutOfRange {
                    field: ConfigField::HOffset,
                    min: -32i16,
                    max: 31,
                    got: h_offset as i16,
                },
            ),
            (-32 <= h_offset <= 31 && !(-16 <= v_offset <= 15)) ==> r == Err::<
                Config,
                ConfigError,
            >(
                ConfigError::OutOfRange {
                    field: ConfigField::VOffset,
                    min: -16i16,
                    max: 15,
                    got: v_offset as i16,
                },
            ),
            (-32 <= h_offset <= 31 && -16 <= v_offset <= 15) ==> r == Ok::<Config, ConfigError>(
                Config { h_offset, v_offset, ..self },
            ),
    {
        if !(-32 <= h_offset && h_offset <= 31) {
            return Err(ConfigError::out_of_range(ConfigField::HOffset, -32, 31, h_offset as i16));
        }
        if !(-16 <= v_offset && v_offset <= 15) {
            return Err(ConfigError::out_of_range(ConfigField::VOffset, -16, 15, v_offset as i16));
        }
        let mut c = self;
        c.h_offset = h_offset;
        c.v_offset = v_offset;
        Ok(c)
    }

    pub fn with_brightness(self, black: u8, white: u8) -> (r: Result<Self, ConfigError>)
        ensures
            black > 3 ==> r == Err::<Config, ConfigError>(
                ConfigError::OutOfRange {
                    field: ConfigField::BlackLevel,
                    min: 0,
                    max: 3,
                    got: black as i16,
                },
            ),
            (black <= 3 && white > 3) ==> r == Err::<Config, ConfigError>(
                ConfigError::OutOfRange {
                    field: ConfigField::WhiteLevel,
                    min: 0,
                    max: 3,
                    got: white as i16,
                },
            ),
            (black <= 3 && white <= 3) ==> r == Ok::<Config, ConfigError>(
                Config { black_level: black, white_level: white, ..self },
            ),
    {
        if black > 3 {
            return Err(ConfigError::out_of_range(ConfigField::BlackLevel, 0, 3, black as i16));
        }
        if white > 3 {
            return Err(ConfigError::out_of_range(ConfigField::WhiteLevel, 0, 3, white as i16));
        }
        let mut c = self;
        c.black_level = black;
        c.white_level = white;
        Ok(c)
    }
}

} // verus!
