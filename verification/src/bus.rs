//! The driver's types and the register values that it computes.

use vstd::prelude::*;

use crate::config::BackgroundMode;
use crate::config::Config;
use crate::config::ScreenGeometry;
use crate::config::SyncSource;
use crate::config::VideoMode;
use crate::config::config_in_range;
use crate::config::mode_geometry;
use crate::error::ConfigError;
use crate::error::ConfigField;
use crate::error::Error;
use crate::registers;

verus! {

/// Attempts to see the NVR busy flag clear before device detection gives up.
pub const NVR_BUSY_POLL_TRIES: u16 = 32;

/// The chip found during initialization.
#[derive(Debug, Clone, Copy, PartialEq, Eq)]
pub enum DeviceType {
    Max7456,
    At7456e,
}

/// What initialization wrote to the chip, kept by a configured driver.
#[derive(Debug, Clone, Copy, PartialEq, Eq)]
pub struct RuntimeState {
    pub device_type: DeviceType,
    pub video_mode: VideoMode,
    pub geometry: ScreenGeometry,
    pub vm0: u8,
    pub vm1: u8,
    pub dmm: u8,
}

/// A cell of the display memory that lies on the screen.
#[derive(Debug, Clone, Copy, PartialEq, Eq)]
pub struct DisplayPosition {
    index: u16,
}

impl View for DisplayPosition {
    type V = u16;

    closed spec fn view(&self) -> u16 {
        self.index
    }
}

impl DisplayPosition {
    /// A position is determined by its index.
    pub proof fn lemma_view_injective(a: Self, b: Self)
        ensures
            a@ == b@ <==> a == b,
    {
    }

    pub fn index(self) -> (i: u16)
        ensures
            i == self@,
    {
        self.index
    }
}

/// The chip's status register.
#[derive(Debug, Clone, Copy, PartialEq, Eq)]
pub struct Status {
    raw: u8,
}

impl View for Status {
    type V = u8;

    closed spec fn view(&self) -> u8 {
        self.raw
    }
}

impl Status {
    /// A status is determined by its byte, so `Status::from_raw(s.raw()) == s`.
    pub proof fn lemma_view_injective(a: Self, b: Self)
        ensures
            a@ == b@ <==> a == b,
    {
    }

    pub fn from_raw(raw: u8) -> (s: Self)
        ensures
            s@ == raw,
    {
        Status { raw }
    }

    pub fn raw(self) -> (r: u8)
        ensures
            r == self@,
    {
        self.raw
    }

    /// Loss of sync.
    pub fn video_lost(self) -> (b: bool)
        ensures
            b == (self@ & registers::STAT_LOS != 0),
    {
        (self.raw & registers::STAT_LOS) != 0
    }

    /// A PAL signal is present.
    pub fn pal(self) -> (b: bool)
        ensures
            b == (self@ & registers::STAT_LOS == 0 && self@ & registers::STAT_PAL != 0),
    {
        !self.video_lost() && (self.raw & registers::STAT_PAL) != 0
    }

    /// An NTSC signal is present.
    pub fn ntsc(self) -> (b: bool)
        ensures
            b == (self@ & registers::STAT_LOS == 0 && self@ & registers::STAT_NTSC != 0),
    {
        !self.video_lost() && (self.raw & registers::STAT_NTSC) != 0
    }

    /// The character memory is busy.
    pub fn nvr_busy(self) -> (b: bool)
        ensures
            b == (self@ & registers::STAT_NVR_BUSY != 0),
    {
        (self.raw & registers::STAT_NVR_BUSY) != 0
    }
}

/// Typestate of a driver that has not been initialized.
#[derive(Debug, Clone, Copy, Default, PartialEq, Eq)]
pub struct Uninitialized;

/// A state that a configured chip runs in: PAL or NTSC, with that standard's
/// grid.
pub open spec fn resolved_runtime(state: RuntimeState) -> bool {
    &&& (state.video_mode is Pal || state.video_mode is Ntsc)
    &&& mode_geometry(state.video_mode) == Some(state.geometry)
}

/// Typestate of an initialized driver: what initialization wrote.
#[derive(Debug, Clone, Copy, PartialEq, Eq)]
pub struct Configured {
    runtime: RuntimeState,
}

impl View for Configured {
    type V = RuntimeState;

    closed spec fn view(&self) -> RuntimeState {
        self.runtime
    }
}

impl Configured {
    /// The kept state always has a resolved video mode and its grid.
    #[verifier::type_invariant]
    spec fn resolved(self) -> bool {
        resolved_runtime(self.runtime)
    }

    /// A configured typestate is determined by its state.
    pub proof fn lemma_view_injective(a: Self, b: Self)
        ensures
            a@ == b@ <==> a == b,
    {
    }

    /// Only initialization makes one.
    pub(crate) fn new(runtime: RuntimeState) -> (c: Self)
        requires
            resolved_runtime(runtime),
        ensures
            c@ == runtime,
    {
        Configured { runtime }
    }

    /// The kept state of a value that exists.
    pub fn runtime(&self) -> (s: RuntimeState)
        ensures
            s == self@,
            resolved_runtime(s),
    {
        proof {
            use_type_invariant(self);
        }
        self.runtime
    }
}

/// A failed initialization: the driver, still uninitialized, and the error.
#[derive(Debug)]
pub struct InitError<Driver, SpiError> {
    pub driver: Driver,
    pub error: Error<SpiError>,
}

impl<Driver, SpiError> InitError<Driver, SpiError> {
    pub fn into_parts(self) -> (r: (Driver, Error<SpiError>))
        ensures
            r == (self.driver, self.error),
    {
        (self.driver, self.error)
    }

    pub fn error(&self) -> (e: &Error<SpiError>)
        ensures
            *e == self.error,
    {
        &self.error
    }

    pub fn driver(&self) -> (d: &Driver)
        ensures
            *d == self.driver,
    {
        &self.driver
    }
}

// ---------------------------------------------------------------------------
// Register values
// ---------------------------------------------------------------------------

/// The first range check that `config` fails, in the order black level, white
/// level, background gray, horizontal offset, vertical offset.
pub open spec fn config_error(config: Config) -> Option<ConfigError> {
    if config.black_level > 3 {
        Some(
            ConfigError::OutOfRange {
                field: ConfigField::BlackLevel,
                min: 0,
                max: 3,
                got: config.black_level as i16,
            },
        )
    } else if config.white_level > 3 {
        Some(
            ConfigError::OutOfRange {
                field: ConfigField::WhiteLevel,
                min: 0,
                max: 3,
                got: config.white_level as i16,
            },
        )
    } else if config.background_gray > 7 {
        Some(
            ConfigError::OutOfRange {
                field: ConfigField::BackgroundGray,
                min: 0,
                max: 7,
                got: config.background_gray as i16,
            },
        )
    } else if !(-32 <= config.h_offset <= 31) {
        Some(
            ConfigError::OutOfRange {
                field: ConfigField::HOffset,
                min: -32i16,
                max: 31,
                got: config.h_offset as i16,
            },
        )
    } else if !(-16 <= config.v_offset <= 15) {
        Some(
            ConfigError::OutOfRange {
                field: ConfigField::VOffset,
                min: -16i16,
                max: 15,
                got: config.v_offset as i16,
            },
        )
    } else {
        None
    }
}

pub fn validate_config<SpiError>(config: Config) -> (r: Result<(), Error<SpiError>>)
    ensures
        config_error(config) is None ==> r == Ok::<(), Error<SpiError>>(()),
        config_error(config) matches Some(e) ==> r == Err::<(), Error<SpiError>>(Error::Config(e)),
        r is Ok <==> config_in_range(config),
{
    if config.black_level > 3 {
        return Err(
            Error::Config(
                ConfigError::out_of_range(ConfigField::BlackLevel, 0, 3, config.black_level as i16),
            ),
        );
    }
    if config.white_level > 3 {
        return Err(
            Error::Config(
                ConfigError::out_of_range(ConfigField::WhiteLevel, 0, 3, config.white_level as i16),
            ),
        );
    }
    if config.background_gray > 7 {
        return Err(
            Error::Config(
                ConfigError::out_of_range(
                    ConfigField::BackgroundGray,
                    0,
                    7,
                    config.background_gray as i16,
                ),
            ),
        );
    }
    if !(-32 <= config.h_offset && config.h_offset <= 31) {
        return Err(
            Error::Config(
                ConfigError::out_of_range(ConfigField::HOffset, -32, 31, config.h_offset as i16),
            ),
        );
    }
    if !(-16 <= config.v_offset && config.v_offset <= 15) {
        return Err(
            Error::Config(
                ConfigError::out_of_range(ConfigField::VOffset, -16, 15, config.v_offset as i16),
            ),
        );
    }
    Ok(())
}

/// The VM0 sync select field for a sync source.
pub open spec fn sync_field(sync_source: SyncSource) -> int {
    match sync_source {
        SyncSource::Auto => 0,
        SyncSource::External => registers::VM0_SYNC_MODE_EXTERNAL as int,
        SyncSource::Internal => registers::VM0_SYNC_MODE_INTERNAL as int,
    }
}

/// VM0: the sync select field, the OSD enable bit and the video standard bit
/// (PAL for `Pal`, NTSC otherwise).
pub open spec fn vm0_spec(config: Config, video_mode: VideoMode) -> u8 {
    (sync_field(config.sync_source) + (if config.osd_enabled {
        registers::VM0_OSD_ENABLE as int
    } else {
        0
    }) + (if video_mode is Pal {
        registers::VM0_VIDEO_MODE_PAL as int
    } else {
        registers::VM0_VIDEO_MODE_NTSC as int
    })) as u8
}

/// VM1: blink time 1 and a 75/25 duty cycle, the gray background bit, and the
/// low three bits of the background gray level in bits 6..4.
pub open spec fn vm1_spec(config: Config) -> u8 {
    ((if config.background_mode is Gray {
        registers::VM1_BACKGROUND_MODE_GRAY as int
    } else {
        0
    }) + (config.background_gray % 8) * 16 + registers::VM1_BLINK_TIME_1 as int
        + registers::VM1_BLINK_DUTY_75_25 as int) as u8
}

/// DMM: only the invert bit, as the configuration asks.
pub open spec fn dmm_spec(config: Config) -> u8 {
    if config.invert {
        registers::DMM_INVERT_PIXEL_COLOR
    } else {
        0
    }
}

pub fn vm0_value(config: Config, video_mode: VideoMode) -> (vm0: u8)
    ensures
        vm0 == vm0_spec(config, video_mode),
{
    let sync: u8 = match config.sync_source {
        SyncSource::Auto => 0,
        SyncSource::External => registers::VM0_SYNC_MODE_EXTERNAL,
        SyncSource::Internal => registers::VM0_SYNC_MODE_INTERNAL,
    };
    let mut vm0: u8 = sync;
    if config.osd_enabled {
        vm0 = vm0 | registers::VM0_OSD_ENABLE;
    }
    let mode: u8 = match video_mode {
        VideoMode::Pal => registers::VM0_VIDEO_MODE_PAL,
        VideoMode::Ntsc | VideoMode::Auto => registers::VM0_VIDEO_MODE_NTSC,
    };
    let with_osd: u8 = vm0;
    vm0 = vm0 | mode;
    assert(sync == 0 || sync == 0x20 || sync == 0x30);
    assert(mode == 0 || mode == 0x40);
    assert((sync == 0u8 || sync == 0x20u8 || sync == 0x30u8) ==> (sync | 0x08u8) == sync + 8)
        by (bit_vector);
    assert((with_osd == 0u8 || with_osd == 0x20u8 || with_osd == 0x30u8 || with_osd == 0x08u8
        || with_osd == 0x28u8 || with_osd == 0x38u8) && (mode == 0u8 || mode == 0x40u8) ==> (
    with_osd | mode) == with_osd + mode) by (bit_vector);
    vm0
}

pub fn vm1_value(config: Config) -> (vm1: u8)
    ensures
        vm1 == vm1_spec(config),
{
    let mut vm1: u8 = registers::VM1_BLINK_TIME_1 | registers::VM1_BLINK_DUTY_75_25;
    assert(registers::VM1_BLINK_TIME_1 | registers::VM1_BLINK_DUTY_75_25 == 7u8) by (bit_vector);
    let gray_mode = match config.background_mode {
        BackgroundMode::Gray => true,
        BackgroundMode::Transparent => false,
    };
    if gray_mode {
        vm1 = vm1 | registers::VM1_BACKGROUND_MODE_GRAY;
        assert(7u8 | 0x80u8 == 0x87u8) by (bit_vector);
    }
    let g: u8 = config.background_gray;
    let level: u8 = (g & 0x07) << 4;
    assert((g & 0x07u8) << 4u8 == (g % 8) * 16) by (bit_vector);
    assert((vm1 == 7u8 || vm1 == 0x87u8) && level == (g % 8) * 16 ==> (vm1 | level) == vm1
        + level) by (bit_vector);
    vm1 | level
}

pub fn dmm_value(config: Config) -> (dmm: u8)
    ensures
        dmm == dmm_spec(config),
        dmm & !registers::DMM_INVERT_PIXEL_COLOR == 0,
        (dmm & registers::DMM_INVERT_PIXEL_COLOR != 0) == config.invert,
{
    proof {
        assert(8u8 & !8u8 == 0u8 && 8u8 & 8u8 != 0u8 && 0u8 & !8u8 == 0u8 && 0u8 & 8u8 == 0u8)
            by (bit_vector);
    }
    if config.invert {
        registers::DMM_INVERT_PIXEL_COLOR
    } else {
        0
    }
}

/// The state that initialization keeps for a device, a configuration and a
/// resolved video mode.
pub open spec fn runtime_spec(
    device_type: DeviceType,
    config: Config,
    video_mode: VideoMode,
    geometry: ScreenGeometry,
) -> RuntimeState {
    RuntimeState {
        device_type,
        video_mode,
        geometry,
        vm0: vm0_spec(config, video_mode),
        vm1: vm1_spec(config),
        dmm: dmm_spec(config),
    }
}

pub fn runtime_state_from_config<SpiError>(
    device_type: DeviceType,
    config: Config,
    video_mode: VideoMode,
) -> (r: Result<RuntimeState, Error<SpiError>>)
    ensures
        mode_geometry(video_mode) is None ==> r == Err::<RuntimeState, Error<SpiError>>(
            Error::Config(ConfigError::Unsupported { field: ConfigField::VideoMode }),
        ),
        mode_geometry(video_mode) matches Some(g) ==> r == Ok::<RuntimeState, Error<SpiError>>(
            runtime_spec(device_type, config, video_mode, g),
        ),
{
    let geometry = match video_mode.geometry() {
        Some(g) => g,
        None => {
            return Err(Error::Config(ConfigError::unsupported(ConfigField::VideoMode)));
        },
    };
    Ok(
        RuntimeState {
            device_type,
            video_mode,
            geometry,
            vm0: vm0_value(config, video_mode),
            vm1: vm1_value(config),
            dmm: dmm_value(config),
        },
    )
}

/// DMM with the invert bit set or cleared and every other bit kept.
pub open spec fn toggled_dmm_spec(dmm: u8, invert: bool) -> u8 {
    if invert {
        dmm | registers::DMM_INVERT_PIXEL_COLOR
    } else {
        dmm & !registers::DMM_INVERT_PIXEL_COLOR
    }
}

pub fn toggled_dmm(dmm: u8, invert: bool) -> (r: u8)
    ensures
        r == toggled_dmm_spec(dmm, invert),
        (r & registers::DMM_INVERT_PIXEL_COLOR != 0) == invert,
        r & !registers::DMM_INVERT_PIXEL_COLOR == dmm & !registers::DMM_INVERT_PIXEL_COLOR,
{
    proof {
        lemma_toggled_dmm_bits(dmm, invert);
    }
    if invert {
        dmm | registers::DMM_INVERT_PIXEL_COLOR
    } else {
        dmm & !registers::DMM_INVERT_PIXEL_COLOR
    }
}

/// The invert bit of the result is as asked, the other bits are kept, and
/// only the last setting counts.
pub proof fn lemma_toggled_dmm_bits(dmm: u8, invert: bool)
    ensures
        (toggled_dmm_spec(dmm, invert) & registers::DMM_INVERT_PIXEL_COLOR != 0) == invert,
        toggled_dmm_spec(dmm, invert) & !registers::DMM_INVERT_PIXEL_COLOR == dmm
            & !registers::DMM_INVERT_PIXEL_COLOR,
        forall|later: bool|
            #[trigger] toggled_dmm_spec(toggled_dmm_spec(dmm, invert), later) == toggled_dmm_spec(
                dmm,
                later,
            ),
{
    assert((dmm | 8u8) & 8u8 != 0) by (bit_vector);
    assert((dmm & !8u8) & 8u8 == 0) by (bit_vector);
    assert((dmm | 8u8) & !8u8 == dmm & !8u8) by (bit_vector);
    assert((dmm & !8u8) & !8u8 == dmm & !8u8) by (bit_vector);
    assert((dmm | 8u8) | 8u8 == dmm | 8u8) by (bit_vector);
    assert((dmm & !8u8) | 8u8 == dmm | 8u8) by (bit_vector);
}

/// Index one past the last cell of row `y`.
pub fn row_end(geometry: ScreenGeometry, y: u8) -> (e: u16)
    ensures
        e == (y + 1) * geometry.columns,
{
    let row: u16 = y as u16 + 1;
    let cols: u16 = geometry.columns as u16;
    assert(row * cols <= 256 * 255) by (nonlinear_arith)
        requires
            row <= 256,
            cols <= 255,
    ;
    row * cols
}

/// Where text written at `(x, y)` starts; text must end on the row it starts on.
pub fn write_text_position<SpiError>(
    geometry: ScreenGeometry,
    x: u8,
    y: u8,
    values: &[u8],
) -> (r: Result<DisplayPosition, Error<SpiError>>)
    ensures
        !geometry.holds(x, y) ==> r == Err::<DisplayPosition, Error<SpiError>>(
            Error::InvalidCoordinate { x, y, columns: geometry.columns, rows: geometry.rows },
        ),
        geometry.holds(x, y) && values.len() > u16::MAX ==> r == Err::<
            DisplayPosition,
            Error<SpiError>,
        >(Error::InputTooLong { len: values.len(), max: u16::MAX }),
        geometry.holds(x, y) && values.len() <= u16::MAX && geometry.cell_index(x, y)
            + values.len() > (y + 1) * geometry.columns ==> r == Err::<
            DisplayPosition,
            Error<SpiError>,
        >(
            Error::OutOfBounds {
                position: geometry.cell_index(x, y) as u16,
                len: ((y + 1) * geometry.columns) as u16,
            },
        ),
        geometry.holds(x, y) && values.len() <= u16::MAX && geometry.cell_index(x, y)
            + values.len() <= (y + 1) * geometry.columns ==> (r matches Ok(p) && p@
            == geometry.cell_index(x, y)),
{
    let position = match display_position(geometry, x, y) {
        Ok(p) => p,
        Err(e) => {
            return Err(e);
        },
    };
    let len: u16 = match display_slice_len(values) {
        Ok(l) => l,
        Err(e) => {
            return Err(e);
        },
    };
    let row_end: u16 = row_end(geometry, y);
    let end: u16 = match position.index().checked_add(len) {
        Some(end) => end,
        None => {
            return Err(Error::OutOfBounds { position: position.index(), len: row_end });
        },
    };
    if end > row_end {
        return Err(Error::OutOfBounds { position: position.index(), len: row_end });
    }
    Ok(position)
}

/// Whether `len` cells from `position` stay in the display memory.
pub fn check_display_range<SpiError>(geometry: ScreenGeometry, position: u16, len: u16) -> (r:
    Result<(), Error<SpiError>>)
    ensures
        position + len > geometry.len ==> r == Err::<(), Error<SpiError>>(
            Error::OutOfBounds { position, len: geometry.len },
        ),
        position + len <= geometry.len ==> r == Ok::<(), Error<SpiError>>(()),
{
    let end: u16 = match position.checked_add(len) {
        Some(end) => end,
        None => {
            return Err(Error::OutOfBounds { position, len: geometry.len });
        },
    };
    if end > geometry.len {
        return Err(Error::OutOfBounds { position, len: geometry.len });
    }
    Ok(())
}

/// The brightness register value: black level in bits 3..2 and the white
/// level counted down from 3 in bits 1..0.
pub open spec fn brightness_spec(black: u8, white: u8) -> u8 {
    (black * 4 + (3 - white)) as u8
}

pub fn brightness_register<SpiError>(black: u8, white: u8) -> (r: Result<u8, Error<SpiError>>)
    ensures
        black > 3 ==> r == Err::<u8, Error<SpiError>>(
            Error::Config(
                ConfigError::OutOfRange {
                    field: ConfigField::BlackLevel,
                    min: 0,
                    max: 3,
                    got: black as i16,
                },
            ),
        ),
        black <= 3 && white > 3 ==> r == Err::<u8, Error<SpiError>>(
            Error::Config(
                ConfigError::OutOfRange {
                    field: ConfigField::WhiteLevel,
                    min: 0,
                    max: 3,
                    got: white as i16,
                },
            ),
        ),
        black <= 3 && white <= 3 ==> r == Ok::<u8, Error<SpiError>>(brightness_spec(black, white)),
{
    if black > 3 || white > 3 {
        let (field, got) = if black > 3 {
            (ConfigField::BlackLevel, black as i16)
        } else {
            (ConfigField::WhiteLevel, white as i16)
        };
        return Err(Error::Config(ConfigError::out_of_range(field, 0, 3, got)));
    }
    let low: u8 = 3 - white;
    assert(black <= 3 && low <= 3 ==> (black << 2u8) | low == black * 4 + low) by (bit_vector);
    Ok((black << 2) | low)
}

/// HOS: 32 minus the horizontal offset, truncated to a byte.
pub fn hos_from_offset(offset: i8) -> (r: u8)
    ensures
        r == (32 - offset) as u8,
        -32 <= offset <= 31 ==> r == 32 - offset,
{
    (32 - offset as i16) as u8
}

/// VOS: 16 minus the vertical offset, truncated to a byte.
pub fn vos_from_offset(offset: i8) -> (r: u8)
    ensures
        r == (16 - offset) as u8,
        -16 <= offset <= 15 ==> r == 16 - offset,
{
    (16 - offset as i16) as u8
}

/// A byte for the display memory: END_STRING would end auto-increment mode,
/// so it is written as a space.
pub open spec fn sanitize_spec(value: u8) -> u8 {
    if value == registers::END_STRING {
        0x20
    } else {
        value
    }
}

pub fn sanitize_display_byte(value: u8) -> (r: u8)
    ensures
        r == sanitize_spec(value),
        r != registers::END_STRING,
        value != registers::END_STRING ==> r == value,
        value == registers::END_STRING ==> r == 0x20,
{
    if value == registers::END_STRING {
        0x20u8
    } else {
        value
    }
}

pub fn display_slice_len<SpiError>(values: &[u8]) -> (r: Result<u16, Error<SpiError>>)
    ensures
        values.len() > u16::MAX ==> r == Err::<u16, Error<SpiError>>(
            Error::InputTooLong { len: values.len(), max: u16::MAX },
        ),
        values.len() <= u16::MAX ==> r == Ok::<u16, Error<SpiError>>(values.len() as u16),
{
    if values.len() > u16::MAX as usize {
        Err(Error::InputTooLong { len: values.len(), max: u16::MAX })
    } else {
        Ok(values.len() as u16)
    }
}

pub fn display_position<SpiError>(geometry: ScreenGeometry, x: u8, y: u8) -> (r: Result<
    DisplayPosition,
    Error<SpiError>,
>)
    ensures
        !geometry.holds(x, y) ==> r == Err::<DisplayPosition, Error<SpiError>>(
            Error::InvalidCoordinate { x, y, columns: geometry.columns, rows: geometry.rows },
        ),
        geometry.holds(x, y) ==> (r matches Ok(p) && p@ == geometry.cell_index(x, y)),
{
    match geometry.index(x, y) {
        Some(index) => Ok(DisplayPosition { index }),
        None => Err(
            Error::InvalidCoordinate { x, y, columns: geometry.columns, rows: geometry.rows },
        ),
    }
}

/// The video mode that a status byte reports: NTSC when sync is present and
/// the PAL bit is clear, PAL otherwise (also when sync is lost).
pub open spec fn detected_mode_spec(stat: u8) -> VideoMode {
    if stat & registers::STAT_LOS == 0 && stat & registers::STAT_PAL == 0 {
        VideoMode::Ntsc
    } else {
        VideoMode::Pal
    }
}

pub fn detect_video_mode_from_stat(stat: u8) -> (m: VideoMode)
    ensures
        m == detected_mode_spec(stat),
        m is Pal || m is Ntsc,
        stat & registers::STAT_LOS == 0 ==> (m is Pal <==> stat & registers::STAT_PAL != 0),
        stat & registers::STAT_LOS != 0 ==> m is Pal,
{
    let los = (stat & registers::STAT_LOS) != 0;
    let pal = (stat & registers::STAT_PAL) != 0;
    if !los && pal {
        VideoMode::Pal
    } else if !los && !pal {
        // BF-compatible alt behavior: !LOS && !PAL => NTSC.
        VideoMode::Ntsc
    } else {
        // No valid signal, fallback to PAL like BF.
        VideoMode::Pal
    }
}

// ---------------------------------------------------------------------------
// Drivers
// ---------------------------------------------------------------------------

/// Driver for an SPI device with async transactions; `State` is
/// [`Uninitialized`] or [`Configured`].
#[derive(Debug)]
pub struct Max7456Async<SPI, State = Uninitialized> {
    pub(crate) bus: SPI,
    state: State,
}

impl<SPI, State> Max7456Async<SPI, State> {
    /// The SPI device that the driver holds.
    pub closed spec fn device(&self) -> SPI {
        self.bus
    }

    /// The driver's typestate.
    pub closed spec fn typestate(&self) -> State {
        self.state
    }

    pub fn bus(&mut self) -> (b: &mut SPI)
        ensures
            *b == old(self).device(),
            final(self).device() == *final(b),
            final(self).typestate() == old(self).typestate(),
    {
        &mut self.bus
    }

    pub fn release(self) -> (bus: SPI)
        ensures
            bus == self.device(),
    {
        self.bus
    }
}

impl<SPI> Max7456Async<SPI, Uninitialized> {
    pub fn new(bus: SPI) -> (d: Self)
        ensures
            d.device() == bus,
    {
        Max7456Async { bus, state: Uninitialized }
    }

    /// The configured driver that a successful initialization hands back.
    pub fn into_configured(self, configured: Configured) -> (d: Max7456Async<SPI, Configured>)
        ensures
            d.device() == self.device(),
            d.runtime() == configured@,
            resolved_runtime(d.runtime()),
    {
        proof {
            use_type_invariant(&configured);
        }
        Max7456Async { bus: self.bus, state: configured }
    }
}

impl<SPI> Max7456Async<SPI, Configured> {
    /// What initialization wrote, as kept since.
    pub open spec fn runtime(&self) -> RuntimeState {
        self.typestate()@
    }

    pub fn state(&self) -> (s: RuntimeState)
        ensures
            s == self.runtime(),
            resolved_runtime(s),
    {
        self.state.runtime()
    }

    pub fn geometry(&self) -> (g: ScreenGeometry)
        ensures
            g == self.runtime().geometry,
            mode_geometry(self.runtime().video_mode) == Some(g),
    {
        self.state.runtime().geometry
    }

    pub fn position(&self, x: u8, y: u8) -> (r: Result<
        DisplayPosition,
        Error<core::convert::Infallible>,
    >)
        ensures
            !self.runtime().geometry.holds(x, y) ==> r == Err::<
                DisplayPosition,
                Error<core::convert::Infallible>,
            >(
                Error::InvalidCoordinate {
                    x,
                    y,
                    columns: self.runtime().geometry.columns,
                    rows: self.runtime().geometry.rows,
                },
            ),
            self.runtime().geometry.holds(x, y) ==> (r matches Ok(p) && p@
                == self.runtime().geometry.cell_index(x, y)),
    {
        display_position(self.geometry(), x, y)
    }

    /// Keeps the invert bit that a successful write of
    /// [`RuntimeState::invert_transactions`] set.
    pub fn record_invert(&mut self, invert: bool)
        ensures
            final(self).runtime() == old(self).runtime().inverted(invert),
            final(self).device() == old(self).device(),
    {
        let runtime = self.state.runtime().with_invert(invert);
        self.state = Configured::new(runtime);
    }
}

/// Driver for an SPI device with blocking transactions; `State` is
/// [`Uninitialized`] or [`Configured`].
#[derive(Debug)]
pub struct Max7456Blocking<SPI, State = Uninitialized> {
    pub(crate) bus: SPI,
    state: State,
}

impl<SPI, State> Max7456Blocking<SPI, State> {
    /// The SPI device that the driver holds.
    pub closed spec fn device(&self) -> SPI {
        self.bus
    }

    /// The driver's typestate.
    pub closed spec fn typestate(&self) -> State {
        self.state
    }

    pub fn bus(&mut self) -> (b: &mut SPI)
        ensures
            *b == old(self).device(),
            final(self).device() == *final(b),
            final(self).typestate() == old(self).typestate(),
    {
        &mut self.bus
    }

    pub fn release(self) -> (bus: SPI)
        ensures
            bus == self.device(),
    {
        self.bus
    }
}

impl<SPI> Max7456Blocking<SPI, Uninitialized> {
    pub fn new(bus: SPI) -> (d: Self)
        ensures
            d.device() == bus,
    {
        Max7456Blocking { bus, state: Uninitialized }
    }

    /// The configured driver that a successful initialization hands back.
    pub fn into_configured(self, configured: Configured) -> (d: Max7456Blocking<SPI, Configured>)
        ensures
            d.device() == self.device(),
            d.runtime() == configured@,
            resolved_runtime(d.runtime()),
    {
        proof {
            use_type_invariant(&configured);
        }
        Max7456Blocking { bus: self.bus, state: configured }
    }
}

impl<SPI> Max7456Blocking<SPI, Configured> {
    /// What initialization wrote, as kept since.
    pub open spec fn runtime(&self) -> RuntimeState {
        self.typestate()@
    }

    pub fn state(&self) -> (s: RuntimeState)
        ensures
            s == self.runtime(),
            resolved_runtime(s),
    {
        self.state.runtime()
    }

    pub fn geometry(&self) -> (g: ScreenGeometry)
        ensures
            g == self.runtime().geometry,
            mode_geometry(self.runtime().video_mode) == Some(g),
    {
        self.state.runtime().geometry
    }

    pub fn position(&self, x: u8, y: u8) -> (r: Result<
        DisplayPosition,
        Error<core::convert::Infallible>,
    >)
        ensures
            !self.runtime().geometry.holds(x, y) ==> r == Err::<
                DisplayPosition,
                Error<core::convert::Infallible>,
            >(
                Error::InvalidCoordinate {
                    x,
                    y,
                    columns: self.runtime().geometry.columns,
                    rows: self.runtime().geometry.rows,
                },
            ),
            self.runtime().geometry.holds(x, y) ==> (r matches Ok(p) && p@
                == self.runtime().geometry.cell_index(x, y)),
    {
        display_position(self.geometry(), x, y)
    }

    /// Keeps the invert bit that a successful write of
    /// [`RuntimeState::invert_transactions`] set.
    pub fn record_invert(&mut self, invert: bool)
        ensures
            final(self).runtime() == old(self).runtime().inverted(invert),
            final(self).device() == old(self).device(),
    {
        let runtime = self.state.runtime().with_invert(invert);
        self.state = Configured::new(runtime);
    }
}

} // verus!
