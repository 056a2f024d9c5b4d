//! Properties of the driver that span several functions or every input.

use vstd::prelude::*;

use crate::bus::DeviceType;
use crate::bus::RuntimeState;
use crate::bus::brightness_spec;
use crate::bus::config_error;
use crate::bus::detected_mode_spec;
use crate::bus::dmm_spec;
use crate::bus::sanitize_spec;
use crate::bus::runtime_spec;
use crate::bus::lemma_toggled_dmm_bits;
use crate::bus::resolved_runtime;
use crate::bus::toggled_dmm_spec;
use crate::bus::Configured;
use crate::init::InitMachine;
use crate::bus::vm0_spec;
use crate::bus::vm1_spec;
use crate::bus::sync_field;
use crate::config::BackgroundMode;
use crate::config::Config;
use crate::config::ScreenGeometry;
use crate::config::SyncSource;
use crate::config::VideoMode;
use crate::config::config_in_range;
use crate::config::default_config;
use crate::config::mode_geometry;
use crate::error::Error;
use crate::init::InitAction;
use crate::init::InitPhase;
use crate::init::configured_state;
use crate::init::phase_ok;
use crate::init::step_spec;
use crate::init::config_writes;
use crate::registers;
use crate::transaction::Transaction;
use crate::transaction::run_plan;
use crate::transaction::byte_plan;

verus! {

/// An upper bound on the steps that initialization of `config` takes from
/// `phase` until it is done or fails.
pub open spec fn steps_left(config: Config, phase: InitPhase) -> nat {
    let max: nat = config.reset_poll_max_tries as nat;
    match phase {
        InitPhase::Start => max + 66,
        InitPhase::EndStringSent => max + 65,
        InitPhase::OsdmRequested => max + 64,
        InitPhase::Vm0Cleared => max + 63,
        InitPhase::NvrPolled { tries } => (max + 31 + (32 - tries)) as nat,
        InitPhase::CmalWritten { attempt } => (max + 26 + 2 * (3 - attempt)) as nat,
        InitPhase::CmalRequested { attempt } => (max + 25 + 2 * (3 - attempt)) as nat,
        InitPhase::ResetRequested { .. } => max + 24,
        InitPhase::Settling { .. } => max + 23,
        InitPhase::ResetPolled { tries, .. } => (max - tries + 23) as nat,
        InitPhase::VideoStatusRequested { .. } => 22,
        InitPhase::Configuring { written, .. } => (22 - written) as nat,
    }
}

/// Initialization always ends: every step that goes on leads to a reachable
/// phase with fewer steps left, and from the start at most
/// `reset_poll_max_tries + 66` steps remain.
pub proof fn lemma_init_progress<SpiError>(
    config: Config,
    phase: InitPhase,
    reply: u8,
    action: InitAction<SpiError>,
)
    requires
        phase_ok(config, phase),
        step_spec(config, phase, reply, action),
    ensures
        steps_left(config, InitPhase::Start) == config.reset_poll_max_tries + 66,
        action matches InitAction::Transfer(m, _) ==> m@.0 == config && phase_ok(config, m@.1)
            && steps_left(config, m@.1) < steps_left(config, phase),
        action matches InitAction::Delay(m, _) ==> m@.0 == config && phase_ok(config, m@.1)
            && steps_left(config, m@.1) < steps_left(config, phase),
{
    match phase {
        InitPhase::ResetPolled { device, tries } => {
            if reply & registers::VM0_RESET == 0 {
                if config_error(config) is None {
                    lemma_config_error_in_range(config);
                    if !(config.video_mode is Auto) {
                        lemma_configured(config, device, config.video_mode);
                    }
                }
            }
        },
        InitPhase::VideoStatusRequested { device } => {
            lemma_detected_mode_resolved(reply);
            lemma_configured(config, device, detected_mode_spec(reply));
        },
        _ => {},
    }
}

proof fn lemma_configured(config: Config, device: DeviceType, mode: VideoMode)
    requires
        config_in_range(config),
        mode is Pal || mode is Ntsc,
        config.video_mode is Auto || config.video_mode == mode,
    ensures
        mode_geometry(mode) matches Some(g) && configured_state(
            config,
            runtime_spec(device, config, mode, g),
        ),
{
}

/// The configuration check fails exactly on the values out of the chip's
/// ranges.
pub proof fn lemma_config_error_in_range(config: Config)
    ensures
        config_error(config) is None <==> config_in_range(config),
{
}

/// A successful initialization keeps what the configuration gives for the
/// detected chip and a resolved video mode: PAL or NTSC, the one the
/// configuration names unless it asks for automatic detection, with that
/// standard's grid.
pub proof fn lemma_init_done<SpiError>(
    config: Config,
    phase: InitPhase,
    reply: u8,
    action: InitAction<SpiError>,
)
    requires
        phase_ok(config, phase),
        step_spec(config, phase, reply, action),
    ensures
        action matches InitAction::Done(c) ==> configured_state(config, c@) && config_in_range(
            config,
        ) && (c@.video_mode is Pal || c@.video_mode is Ntsc) && mode_geometry(c@.video_mode)
            == Some(c@.geometry) && c@ == runtime_spec(
            c@.device_type,
            config,
            c@.video_mode,
            c@.geometry,
        ),
{
}

/// A step is determined by the machine's configuration and phase and by the
/// reply: two runs of initialization that are given the same replies perform
/// the same transactions and delays and end with the same result, whoever
/// performs them.
pub proof fn lemma_step_deterministic<SpiError>(
    config: Config,
    phase: InitPhase,
    reply: u8,
    a1: InitAction<SpiError>,
    a2: InitAction<SpiError>,
)
    requires
        step_spec(config, phase, reply, a1),
        step_spec(config, phase, reply, a2),
    ensures
        a1 == a2,
{
    match (a1, a2) {
        (InitAction::Transfer(m1, _), InitAction::Transfer(m2, _)) => {
            InitMachine::lemma_view_injective(m1, m2);
        },
        (InitAction::Delay(m1, _), InitAction::Delay(m2, _)) => {
            InitMachine::lemma_view_injective(m1, m2);
        },
        (InitAction::Done(c1), InitAction::Done(c2)) => {
            Configured::lemma_view_injective(c1, c2);
        },
        _ => {},
    }
}

/// The chip is reported missing exactly when the OSDM read gives another
/// value than its power-up default, and the error carries that value.
pub proof fn lemma_init_not_found<SpiError>(
    config: Config,
    phase: InitPhase,
    reply: u8,
    action: InitAction<SpiError>,
    osdm: u8,
)
    requires
        step_spec(config, phase, reply, action),
    ensures
        action == InitAction::<SpiError>::Fail(Error::NotFound { osdm }) <==> (phase
            == InitPhase::OsdmRequested && reply != registers::OSDM_DEFAULT && osdm == reply),
{
}

/// The grids of PAL and NTSC hold `columns * rows` cells.
pub proof fn lemma_mode_geometry_cells(mode: VideoMode)
    ensures
        mode_geometry(mode) matches Some(g) ==> g.len == g.columns * g.rows,
        mode_geometry(mode) is None <==> mode is Auto,
{
}

/// On a grid of `columns * rows` cells, a cell on the grid has an index
/// below the cell count, and the cells of a row run up to the row's end.
pub proof fn lemma_cell_index_in_display(geometry: ScreenGeometry, x: u8, y: u8)
    requires
        geometry.len == geometry.columns * geometry.rows,
        geometry.holds(x, y),
    ensures
        geometry.cell_index(x, y) < (y + 1) * geometry.columns,
        (y + 1) * geometry.columns <= geometry.len,
        geometry.cell_index(x, y) < geometry.len,
{
    let c: int = geometry.columns as int;
    let r: int = geometry.rows as int;
    let yy: int = y as int;
    assert((yy + 1) * c <= r * c) by (nonlinear_arith)
        requires
            yy + 1 <= r,
            0 <= c,
    ;
    assert(yy * c + c == (yy + 1) * c) by (nonlinear_arith);
    assert(r * c == c * r) by (nonlinear_arith);
}

/// On such a grid, text that ends on its row also stays in the display
/// memory, so writing text never fails the display range check.
pub proof fn lemma_text_within_display(geometry: ScreenGeometry, x: u8, y: u8, len: nat)
    requires
        geometry.len == geometry.columns * geometry.rows,
        geometry.holds(x, y),
        geometry.cell_index(x, y) + len <= (y + 1) * geometry.columns,
    ensures
        geometry.cell_index(x, y) + len <= geometry.len,
{
    lemma_cell_index_in_display(geometry, x, y);
}

/// A status byte always resolves to PAL or NTSC, which both have a grid;
/// a lost sync resolves to PAL.
pub proof fn lemma_detected_mode_resolved(stat: u8)
    ensures
        detected_mode_spec(stat) is Pal || detected_mode_spec(stat) is Ntsc,
        mode_geometry(detected_mode_spec(stat)) is Some,
        stat & registers::STAT_LOS != 0 ==> detected_mode_spec(stat) is Pal,
{
}

/// A run of bytes never writes END_STRING to DMDI, ends auto-increment mode
/// with END_STRING only right before DMM is restored, and leaves DMM as it
/// was; a run of `n` bytes, `n >= 2`, takes `n + 5` transactions.
pub proof fn lemma_run_plan_shape(dmm: u8, index: u16, values: Seq<u8>)
    ensures
        forall|i: int|
            0 <= i < run_plan(dmm, index, values).len() ==> (#[trigger] run_plan(dmm, index, values)[i] matches Transaction::Write {
                register,
                value,
            } ==> (register == registers::DMDI ==> value != registers::END_STRING)),
        values.len() >= 2 ==> {
            let plan = run_plan(dmm, index, values);
            &&& plan.len() == values.len() + 5
            &&& plan[0] == Transaction::Write {
                register: registers::DMM,
                value: dmm | registers::DMM_AUTO_INCREMENT,
            }
            &&& plan[plan.len() - 2] == Transaction::EndString
            &&& plan.last() == Transaction::Write { register: registers::DMM, value: dmm }
            &&& forall|i: int| 0 <= i < plan.len() - 2 ==> #[trigger] plan[i] != Transaction::EndString
        },
        values.len() <= 1 ==> forall|i: int|
            0 <= i < run_plan(dmm, index, values).len() ==> #[trigger] run_plan(dmm, index, values)[i]
                != Transaction::EndString,
{
}

/// Setting the invert bit: the bit is as asked, the other DMM bits and the
/// rest of the state are kept, and only the last setting counts.
pub proof fn lemma_invert(state: RuntimeState, a: bool, b: bool)
    ensures
        (state.inverted(a).dmm & registers::DMM_INVERT_PIXEL_COLOR != 0) == a,
        state.inverted(a).dmm & !registers::DMM_INVERT_PIXEL_COLOR == state.dmm
            & !registers::DMM_INVERT_PIXEL_COLOR,
        state.inverted(a).inverted(b) == state.inverted(b),
        state.inverted(a).geometry == state.geometry,
        state.inverted(a).video_mode == state.video_mode,
        resolved_runtime(state) ==> resolved_runtime(state.inverted(a)),
{
    lemma_toggled_dmm_bits(state.dmm, a);
    lemma_toggled_dmm_bits(toggled_dmm_spec(state.dmm, a), b);
    assert(toggled_dmm_spec(toggled_dmm_spec(state.dmm, a), b) == toggled_dmm_spec(state.dmm, b));
}

/// VM0 as configured: the OSD enable bit as asked, the PAL bit exactly for
/// PAL, the sync field as asked, and the reset bit clear.
pub proof fn lemma_vm0_fields(config: Config, mode: VideoMode)
    ensures
        (vm0_spec(config, mode) & registers::VM0_OSD_ENABLE != 0) == config.osd_enabled,
        (vm0_spec(config, mode) & registers::VM0_VIDEO_MODE_PAL != 0) == (mode is Pal),
        vm0_spec(config, mode) & 0x30u8 == sync_field(config.sync_source),
        vm0_spec(config, mode) & registers::VM0_RESET == 0,
{
    let v: u8 = vm0_spec(config, mode);
    let s: u8 = sync_field(config.sync_source) as u8;
    let o: u8 = if config.osd_enabled { 8u8 } else { 0u8 };
    let p: u8 = if mode is Pal { 0x40u8 } else { 0u8 };
    assert(v == s + o + p);
    assert((s == 0u8 || s == 0x20u8 || s == 0x30u8) && (o == 0u8 || o == 8u8) && (p == 0u8 || p
        == 0x40u8) ==> {
        &&& ((s + o + p) as u8 & 8u8 != 0) == (o == 8u8)
        &&& ((s + o + p) as u8 & 0x40u8 != 0) == (p == 0x40u8)
        &&& (s + o + p) as u8 & 0x30u8 == s
        &&& (s + o + p) as u8 & 2u8 == 0u8
    }) by (bit_vector);
}

/// VM1 as configured: the gray background bit exactly for a gray background
/// and the gray level in bits 6..4.
pub proof fn lemma_vm1_fields(config: Config)
    requires
        config.background_gray <= 7,
    ensures
        (vm1_spec(config) & registers::VM1_BACKGROUND_MODE_GRAY != 0) == (config.background_mode is Gray),
        (vm1_spec(config) >> 4u8) & 7u8 == config.background_gray,
{
    let v: u8 = vm1_spec(config);
    let g: u8 = if config.background_mode is Gray { 0x80u8 } else { 0u8 };
    let b: u8 = config.background_gray;
    assert(v == g + b * 16 + 7);
    assert((g == 0u8 || g == 0x80u8) && b <= 7 ==> {
        &&& ((g + b * 16 + 7) as u8 & 0x80u8 != 0) == (g == 0x80u8)
        &&& (((g + b * 16 + 7) as u8) >> 4u8) & 7u8 == b
    }) by (bit_vector);
}

/// The brightness register gives back the levels: black in bits 3..2, the
/// white level as 3 minus bits 1..0.
pub proof fn lemma_brightness_levels(black: u8, white: u8)
    requires
        black <= 3,
        white <= 3,
    ensures
        brightness_spec(black, white) < 16,
        brightness_spec(black, white) / 4 == black,
        3 - brightness_spec(black, white) % 4 == white,
{
    let v: u8 = brightness_spec(black, white);
    assert(v == black * 4 + (3 - white));
    let low: int = 3 - white;
    assert(v / 4 == black && v % 4 == low) by (nonlinear_arith)
        requires
            v == black * 4 + low,
            0 <= low < 4,
    ;
}

/// The register values of offsets in their ranges give the offsets back; they
/// fit the six-bit HOS and five-bit VOS fields except for the lowest offsets,
/// -32 and -16, whose values are 64 and 32.
pub proof fn lemma_offset_registers(h_offset: i8, v_offset: i8)
    requires
        -32 <= h_offset <= 31,
        -16 <= v_offset <= 15,
    ensures
        h_offset > -32 ==> ((32 - h_offset) as u8) < 64,
        v_offset > -16 ==> ((16 - v_offset) as u8) < 32,
        32 - ((32 - h_offset) as u8) == h_offset,
        16 - ((16 - v_offset) as u8) == v_offset,
{
    assert(-32 <= h_offset <= 31 ==> (32 - h_offset) as u8 == 32 - h_offset) by (bit_vector);
    assert(-16 <= v_offset <= 15 ==> (16 - v_offset) as u8 == 16 - v_offset) by (bit_vector);
}

/// The presets and every builder keep a configuration in the chip's ranges,
/// so a configuration made from them passes the check at initialization.
pub proof fn lemma_builders_keep_range(
    config: Config,
    sync_source: SyncSource,
    flag: bool,
    gray: u8,
    h_offset: i8,
    v_offset: i8,
    black: u8,
    white: u8,
)
    requires
        config_in_range(config),
    ensures
        config_in_range(default_config()),
        config_in_range(Config { video_mode: VideoMode::Auto, ..default_config() }),
        config_in_range(Config { video_mode: VideoMode::Pal, ..default_config() }),
        config_in_range(Config { video_mode: VideoMode::Ntsc, ..default_config() }),
        config_in_range(Config { sync_source, ..config }),
        config_in_range(Config { osd_enabled: flag, ..config }),
        config_in_range(Config { invert: flag, ..config }),
        config_in_range(Config { background_mode: BackgroundMode::Transparent, ..config }),
        gray <= 7 ==> config_in_range(
            Config { background_mode: BackgroundMode::Gray, background_gray: gray, ..config },
        ),
        -32 <= h_offset <= 31 && -16 <= v_offset <= 15 ==> config_in_range(
            Config { h_offset, v_offset, ..config },
        ),
        black <= 3 && white <= 3 ==> config_in_range(
            Config { black_level: black, white_level: white, ..config },
        ),
{
}

/// Video detection follows the status bits: with sync present the mode is
/// PAL exactly when the PAL bit is set, whatever the other bits; with sync
/// lost it is PAL.
pub proof fn lemma_detected_mode_follows_pal_bit(stat: u8)
    ensures
        stat & registers::STAT_LOS == 0 ==> (detected_mode_spec(stat) is Pal <==> stat
            & registers::STAT_PAL != 0),
        stat & registers::STAT_LOS == 0 ==> (detected_mode_spec(stat) is Ntsc <==> stat
            & registers::STAT_PAL == 0),
        stat & registers::STAT_LOS != 0 ==> detected_mode_spec(stat) is Pal,
{
}

/// Only END_STRING is changed by sanitizing, and it becomes a space.
pub proof fn lemma_sanitize_changes_only_end_string(value: u8)
    ensures
        value != registers::END_STRING ==> sanitize_spec(value) == value,
        value == registers::END_STRING ==> sanitize_spec(value) == 0x20,
        sanitize_spec(value) != registers::END_STRING,
{
}

/// The byte that the display shows for `value`: the byte itself, except
/// END_STRING, which shows as a space.
pub open spec fn shown_byte(value: u8) -> u8 {
    if value == 0xffu8 {
        0x20u8
    } else {
        value
    }
}

/// Every byte of a run reaches DMDI as given, except END_STRING, which is
/// written as a space: for a single byte as the third transaction, for a
/// longer run from the fourth transaction on, in order.
pub proof fn lemma_run_data_bytes(dmm: u8, index: u16, values: Seq<u8>, value: u8)
    ensures
        byte_plan(index, value).len() == 3,
        byte_plan(index, value)[2] == (Transaction::Write {
            register: registers::DMDI,
            value: shown_byte(value),
        }),
        values.len() == 1 ==> run_plan(dmm, index, values) == byte_plan(index, values[0]),
        values.len() >= 2 ==> forall|i: int|
            0 <= i < values.len() ==> #[trigger] run_plan(dmm, index, values)[3 + i] == (
            Transaction::Write { register: registers::DMDI, value: shown_byte(values[i]) }),
{
    lemma_sanitize_changes_only_end_string(value);
    if values.len() >= 2 {
        assert forall|i: int| 0 <= i < values.len() implies #[trigger] run_plan(dmm, index, values)[3
            + i] == (Transaction::Write { register: registers::DMDI, value: shown_byte(values[i]) })
            by {
            lemma_sanitize_changes_only_end_string(values[i]);
        }
    }
}

/// DMM as configured holds only the invert bit, set exactly when the
/// configuration asks for inverted pixels.
pub proof fn lemma_dmm_only_invert_bit(config: Config)
    ensures
        dmm_spec(config) & !registers::DMM_INVERT_PIXEL_COLOR == 0,
        (dmm_spec(config) & registers::DMM_INVERT_PIXEL_COLOR != 0) == config.invert,
{
    assert(8u8 & !8u8 == 0u8 && 8u8 & 8u8 != 0u8 && 0u8 & !8u8 == 0u8 && 0u8 & 8u8 == 0u8)
        by (bit_vector);
}

/// The configuration writes of initialization, in order: VM0, HOS, VOS, VM1,
/// DMM, then RB0 to RB15. HOS and VOS give back the horizontal and vertical
/// offsets, VM0, VM1 and DMM carry the kept state, and every brightness
/// register gives back the black and white levels.
pub proof fn lemma_config_writes_registers(config: Config, state: RuntimeState)
    requires
        config_in_range(config),
    ensures
        config_writes(config, state).len() == 21,
        config_writes(config, state)[0] matches Transaction::Write { register, value } && register
            == registers::VM0 && value == state.vm0,
        config_writes(config, state)[1] matches Transaction::Write { register, value } && register
            == registers::HOS && 32 - value == config.h_offset,
        config_writes(config, state)[2] matches Transaction::Write { register, value } && register
            == registers::VOS && 16 - value == config.v_offset,
        config_writes(config, state)[3] matches Transaction::Write { register, value } && register
            == registers::VM1 && value == state.vm1,
        config_writes(config, state)[4] matches Transaction::Write { register, value } && register
            == registers::DMM && value == state.dmm,
        forall|k: int|
            0 <= k < 16 ==> (#[trigger] config_writes(config, state)[5 + k] matches Transaction::Write {
                register,
                value,
            } && register == registers::RB0 + k && value / 4 == config.black_level && 3 - value % 4
                == config.white_level),
{
    lemma_offset_registers(config.h_offset, config.v_offset);
    lemma_brightness_levels(config.black_level, config.white_level);
    let w = config_writes(config, state);
    assert(w[1] == Transaction::Write {
        register: registers::HOS,
        value: (32 - config.h_offset) as u8,
    });
    assert(w[2] == Transaction::Write {
        register: registers::VOS,
        value: (16 - config.v_offset) as u8,
    });
    assert forall|k: int| 0 <= k < 16 implies (#[trigger] w[5 + k] matches Transaction::Write {
        register,
        value,
    } && register == registers::RB0 + k && value / 4 == config.black_level && 3 - value % 4
        == config.white_level) by {
        assert(w[5 + k] == Transaction::Write {
            register: (registers::RB0 + k) as u8,
            value: brightness_spec(config.black_level, config.white_level),
        });
    }
}

} // verus!
