//! Initialization as a state machine: each step takes the byte that the last
//! transaction read and hands back the next thing to do.
//!
//! The runner performs [`InitAction::Transfer`] on the SPI device (a failed
//! transaction ends initialization with [`Error::Spi`]), waits for
//! [`InitAction::Delay`], and stops at [`InitAction::Done`] or
//! [`InitAction::Fail`].

use vstd::prelude::*;

use crate::bus::Configured;
use crate::bus::DeviceType;
use crate::bus::NVR_BUSY_POLL_TRIES;
use crate::bus::RuntimeState;
use crate::bus::brightness_register;
use crate::bus::brightness_spec;
use crate::bus::config_error;
use crate::bus::detect_video_mode_from_stat;
use crate::bus::detected_mode_spec;
use crate::bus::hos_from_offset;
use crate::bus::runtime_spec;
use crate::bus::runtime_state_from_config;
use crate::bus::validate_config;
use crate::bus::vos_from_offset;
use crate::config::Config;
use crate::config::ScreenGeometry;
use crate::config::VideoMode;
use crate::config::config_in_range;
use crate::config::mode_geometry;
use crate::error::ConfigError;
use crate::error::ConfigField;
use crate::error::Error;
use crate::registers;
use crate::transaction::Transaction;
use crate::transaction::read_register;
use crate::transaction::read_spec;

verus! {

/// Attempts at reading back the CMAL bit that only an AT7456E keeps.
pub const DEVICE_DETECT_TRIES: u8 = 3;

/// Number of register writes that apply a configuration: VM0, HOS, VOS, VM1,
/// DMM and the 16 brightness registers.
pub const CONFIG_WRITES: u8 = 21;

/// Where initialization stands: the transaction or delay it waits on.
#[derive(Debug, Clone, Copy, PartialEq, Eq)]
pub enum InitPhase {
    /// Nothing sent yet.
    Start,
    /// END_STRING was written, leaving any auto-increment mode.
    EndStringSent,
    /// OSDM was read.
    OsdmRequested,
    /// VM0 was cleared.
    Vm0Cleared,
    /// STAT was read for the `tries`-th time, waiting for the NVR to be idle.
    NvrPolled { tries: u16 },
    /// The CA8 bit was written to CMAL in attempt `attempt`.
    CmalWritten { attempt: u8 },
    /// CMAL was read back in attempt `attempt`.
    CmalRequested { attempt: u8 },
    /// The software reset bit was written to VM0.
    ResetRequested { device: DeviceType },
    /// The settle delay after the reset was taken.
    Settling { device: DeviceType },
    /// VM0 was read for the `tries`-th time, waiting for the reset to end.
    ResetPolled { device: DeviceType, tries: u16 },
    /// STAT was read to resolve an automatic video mode.
    VideoStatusRequested { device: DeviceType },
    /// The first `written` configuration writes of `state` were sent.
    Configuring { state: RuntimeState, written: u8 },
}

/// What the runner does next.
pub enum InitAction<SpiError> {
    /// Perform the transaction, then step the machine with the byte it read
    /// (any byte when it reads none).
    Transfer(InitMachine, Transaction),
    /// Wait this many microseconds, then step the machine.
    Delay(InitMachine, u32),
    /// The chip is configured as the value says.
    Done(Configured),
    /// Initialization failed.
    Fail(Error<SpiError>),
}

/// Initialization of a chip with a configuration, in progress.
pub struct InitMachine {
    config: Config,
    phase: InitPhase,
}

impl View for InitMachine {
    type V = (Config, InitPhase);

    closed spec fn view(&self) -> (Config, InitPhase) {
        (self.config, self.phase)
    }
}

/// The register writes that apply `config` as `state`, in order.
pub open spec fn config_writes(config: Config, state: RuntimeState) -> Seq<Transaction> {
    seq![
        Transaction::Write { register: registers::VM0, value: state.vm0 },
        Transaction::Write { register: registers::HOS, value: (32 - config.h_offset) as u8 },
        Transaction::Write { register: registers::VOS, value: (16 - config.v_offset) as u8 },
        Transaction::Write { register: registers::VM1, value: state.vm1 },
        Transaction::Write { register: registers::DMM, value: state.dmm },
    ] + Seq::new(
        16,
        |i: int|
            Transaction::Write {
                register: (registers::RB0 + i) as u8,
                value: brightness_spec(config.black_level, config.white_level),
            },
    )
}

/// `state` is what `config` gives on some chip once its video mode is resolved.
pub open spec fn configured_state(config: Config, state: RuntimeState) -> bool {
    &&& config_in_range(config)
    &&& (state.video_mode is Pal || state.video_mode is Ntsc)
    &&& (config.video_mode is Auto || config.video_mode == state.video_mode)
    &&& mode_geometry(state.video_mode) == Some(state.geometry)
    &&& state == runtime_spec(state.device_type, config, state.video_mode, state.geometry)
}

/// The phases that initialization of `config` can reach.
pub open spec fn phase_ok(config: Config, phase: InitPhase) -> bool {
    match phase {
        InitPhase::NvrPolled { tries } => 1 <= tries <= NVR_BUSY_POLL_TRIES,
        InitPhase::CmalWritten { attempt } => 1 <= attempt <= DEVICE_DETECT_TRIES,
        InitPhase::CmalRequested { attempt } => 1 <= attempt <= DEVICE_DETECT_TRIES,
        InitPhase::ResetPolled { tries, .. } => 1 <= tries <= config.reset_poll_max_tries,
        InitPhase::VideoStatusRequested { .. } => config_in_range(config)
            && config.video_mode is Auto,
        InitPhase::Configuring { state, written } => 1 <= written <= CONFIG_WRITES
            && configured_state(config, state),
        _ => true,
    }
}

/// The action performs `t` and goes on in `phase`.
pub open spec fn emits<SpiError>(
    action: InitAction<SpiError>,
    config: Config,
    phase: InitPhase,
    t: Transaction,
) -> bool {
    action matches InitAction::Transfer(m, t2) && m@ == (config, phase) && t2 == t
}

/// The first configuration write for a resolved video mode.
pub open spec fn configure_spec<SpiError>(
    config: Config,
    device: DeviceType,
    mode: VideoMode,
    action: InitAction<SpiError>,
) -> bool {
    match mode_geometry(mode) {
        None => action == InitAction::<SpiError>::Fail(
            Error::Config(ConfigError::Unsupported { field: ConfigField::VideoMode }),
        ),
        Some(g) => {
            let state = runtime_spec(device, config, mode, g);
            emits(action, config, InitPhase::Configuring { state, written: 1 }, config_writes(config, state)[0])
        },
    }
}

/// Once the reset is done: check the configuration, then resolve the video
/// mode from STAT if it is automatic.
pub open spec fn apply_spec<SpiError>(
    config: Config,
    device: DeviceType,
    action: InitAction<SpiError>,
) -> bool {
    match config_error(config) {
        Some(e) => action == InitAction::<SpiError>::Fail(Error::Config(e)),
        None => if config.video_mode is Auto {
            emits(action, config, InitPhase::VideoStatusRequested { device }, read_spec(registers::STAT))
        } else {
            configure_spec(config, device, config.video_mode, action)
        },
    }
}

/// One step of initialization of `config` from `phase`, where `reply` is the
/// byte that the last transaction read.
pub open spec fn step_spec<SpiError>(
    config: Config,
    phase: InitPhase,
    reply: u8,
    action: InitAction<SpiError>,
) -> bool {
    match phase {
        InitPhase::Start => emits(action, config, InitPhase::EndStringSent, Transaction::EndString),
        InitPhase::EndStringSent => emits(
            action,
            config,
            InitPhase::OsdmRequested,
            read_spec(registers::OSDM),
        ),
        InitPhase::OsdmRequested => if reply != registers::OSDM_DEFAULT {
            action == InitAction::<SpiError>::Fail(Error::NotFound { osdm: reply })
        } else {
            emits(
                action,
                config,
                InitPhase::Vm0Cleared,
                Transaction::Write { register: registers::VM0, value: 0 },
            )
        },
        InitPhase::Vm0Cleared => emits(
            action,
            config,
            InitPhase::NvrPolled { tries: 1 },
            read_spec(registers::STAT),
        ),
        InitPhase::NvrPolled { tries } => if reply & registers::STAT_NVR_BUSY == 0 {
            emits(
                action,
                config,
                InitPhase::CmalWritten { attempt: 1 },
                Transaction::Write { register: registers::CMAL, value: registers::CMAL_CA8_BIT },
            )
        } else if tries < NVR_BUSY_POLL_TRIES {
            emits(
                action,
                config,
                InitPhase::NvrPolled { tries: (tries + 1) as u16 },
                read_spec(registers::STAT),
            )
        } else {
            action == InitAction::<SpiError>::Fail(Error::NvrBusyTimeout)
        },
        InitPhase::CmalWritten { attempt } => emits(
            action,
            config,
            InitPhase::CmalRequested { attempt },
            read_spec(registers::CMAL),
        ),
        InitPhase::CmalRequested { attempt } => if reply & registers::CMAL_CA8_BIT != 0 {
            emits(
                action,
                config,
                InitPhase::ResetRequested { device: DeviceType::At7456e },
                Transaction::Write { register: registers::VM0, value: registers::VM0_RESET },
            )
        } else if attempt < DEVICE_DETECT_TRIES {
            emits(
                action,
                config,
                InitPhase::CmalWritten { attempt: (attempt + 1) as u8 },
                Transaction::Write { register: registers::CMAL, value: registers::CMAL_CA8_BIT },
            )
        } else {
            emits(
                action,
                config,
                InitPhase::ResetRequested { device: DeviceType::Max7456 },
                Transaction::Write { register: registers::VM0, value: registers::VM0_RESET },
            )
        },
        InitPhase::ResetRequested { device } => action matches InitAction::Delay(m, us) && m@ == (
            config,
            InitPhase::Settling { device },
        ) && us == config.reset_settle_delay_us,
        InitPhase::Settling { device } => if config.reset_poll_max_tries == 0 {
            action == InitAction::<SpiError>::Fail(Error::ResetTimeout)
        } else {
            emits(
                action,
                config,
                InitPhase::ResetPolled { device, tries: 1 },
                read_spec(registers::VM0),
            )
        },
        InitPhase::ResetPolled { device, tries } => if reply & registers::VM0_RESET == 0 {
            apply_spec(config, device, action)
        } else if tries < config.reset_poll_max_tries {
            emits(
                action,
                config,
                InitPhase::ResetPolled { device, tries: (tries + 1) as u16 },
                read_spec(registers::VM0),
            )
        } else {
            action == InitAction::<SpiError>::Fail(Error::ResetTimeout)
        },
        InitPhase::VideoStatusRequested { device } => configure_spec(
            config,
            device,
            detected_mode_spec(reply),
            action,
        ),
        InitPhase::Configuring { state, written } => if written < CONFIG_WRITES {
            emits(
                action,
                config,
                InitPhase::Configuring { state, written: (written + 1) as u8 },
                config_writes(config, state)[written as int],
            )
        } else {
            action matches InitAction::Done(c) && c@ == state
        },
    }
}

/// The `k`-th configuration write.
fn config_write(config: Config, state: RuntimeState, k: u8) -> (t: Transaction)
    requires
        k < CONFIG_WRITES,
        config_in_range(config),
    ensures
        t == config_writes(config, state)[k as int],
{
    if k == 0 {
        Transaction::Write { register: registers::VM0, value: state.vm0 }
    } else if k == 1 {
        Transaction::Write { register: registers::HOS, value: hos_from_offset(config.h_offset) }
    } else if k == 2 {
        Transaction::Write { register: registers::VOS, value: vos_from_offset(config.v_offset) }
    } else if k == 3 {
        Transaction::Write { register: registers::VM1, value: state.vm1 }
    } else if k == 4 {
        Transaction::Write { register: registers::DMM, value: state.dmm }
    } else {
        let rb: u8 = brightness_register::<()>(config.black_level, config.white_level).unwrap();
        Transaction::Write { register: registers::RB0 + (k - 5), value: rb }
    }
}

impl InitMachine {
    #[verifier::type_invariant]
    spec fn reachable(self) -> bool {
        phase_ok(self.config, self.phase)
    }

    /// A machine is determined by its configuration and phase.
    pub proof fn lemma_view_injective(a: Self, b: Self)
        ensures
            a@ == b@ <==> a == b,
    {
    }

    /// Initialization of a chip with `config`, before anything is sent.
    pub fn new(config: Config) -> (m: Self)
        ensures
            m@ == (config, InitPhase::Start),
    {
        InitMachine { config, phase: InitPhase::Start }
    }

    pub fn config(&self) -> (c: Config)
        ensures
            c == self@.0,
    {
        self.config
    }

    pub fn phase(&self) -> (p: InitPhase)
        ensures
            p == self@.1,
    {
        self.phase
    }

    fn goto<SpiError>(self, phase: InitPhase, t: Transaction) -> (a: InitAction<SpiError>)
        requires
            phase_ok(self.config, phase),
        ensures
            emits(a, self@.0, phase, t),
    {
        InitAction::Transfer(InitMachine { config: self.config, phase }, t)
    }

    /// The first configuration write once the video mode is known.
    fn configure<SpiError>(self, device: DeviceType, mode: VideoMode) -> (a: InitAction<SpiError>)
        requires
            config_in_range(self.config),
            mode is Pal || mode is Ntsc,
            self.config.video_mode is Auto || self.config.video_mode == mode,
        ensures
            configure_spec(self@.0, device, mode, a),
    {
        let config = self.config;
        match runtime_state_from_config::<SpiError>(device, config, mode) {
            Ok(state) => {
                let t = config_write(config, state, 0);
                self.goto(InitPhase::Configuring { state, written: 1 }, t)
            },
            Err(e) => InitAction::Fail(e),
        }
    }

    /// Checks the configuration and resolves the video mode, once the reset
    /// is done.
    fn apply<SpiError>(self, device: DeviceType) -> (a: InitAction<SpiError>)
        ensures
            apply_spec(self@.0, device, a),
    {
        let config = self.config;
        match validate_config::<SpiError>(config) {
            Ok(()) => {},
            Err(e) => {
                return InitAction::Fail(e);
            },
        }
        match config.video_mode {
            VideoMode::Auto => self.goto(
                InitPhase::VideoStatusRequested { device },
                read_register(registers::STAT),
            ),
            VideoMode::Pal => self.configure(device, VideoMode::Pal),
            VideoMode::Ntsc => self.configure(device, VideoMode::Ntsc),
        }
    }

    /// One step: `reply` is the byte that the last transaction read.
    pub fn step<SpiError>(self, reply: u8) -> (a: InitAction<SpiError>)
        ensures
            step_spec(self@.0, self@.1, reply, a),
    {
        proof {
            use_type_invariant(&self);
        }
        let config = self.config;
        match self.phase {
            InitPhase::Start => self.goto(InitPhase::EndStringSent, Transaction::EndString),
            InitPhase::EndStringSent => self.goto(
                InitPhase::OsdmRequested,
                read_register(registers::OSDM),
            ),
            InitPhase::OsdmRequested => {
                if reply != registers::OSDM_DEFAULT {
                    InitAction::Fail(Error::NotFound { osdm: reply })
                } else {
                    self.goto(
                        InitPhase::Vm0Cleared,
                        Transaction::Write { register: registers::VM0, value: 0 },
                    )
                }
            },
            InitPhase::Vm0Cleared => self.goto(
                InitPhase::NvrPolled { tries: 1 },
                read_register(registers::STAT),
            ),
            InitPhase::NvrPolled { tries } => {
                if reply & registers::STAT_NVR_BUSY == 0 {
                    self.goto(
                        InitPhase::CmalWritten { attempt: 1 },
                        Transaction::Write {
                            register: registers::CMAL,
                            value: registers::CMAL_CA8_BIT,
                        },
                    )
                } else if tries < NVR_BUSY_POLL_TRIES {
                    self.goto(
                        InitPhase::NvrPolled { tries: tries + 1 },
                        read_register(registers::STAT),
                    )
                } else {
                    InitAction::Fail(Error::NvrBusyTimeout)
                }
            },
            InitPhase::CmalWritten { attempt } => self.goto(
                InitPhase::CmalRequested { attempt },
                read_register(registers::CMAL),
            ),
            InitPhase::CmalRequested { attempt } => {
                let reset = Transaction::Write {
                    register: registers::VM0,
                    value: registers::VM0_RESET,
                };
                if reply & registers::CMAL_CA8_BIT != 0 {
                    self.goto(InitPhase::ResetRequested { device: DeviceType::At7456e }, reset)
                } else if attempt < DEVICE_DETECT_TRIES {
                    self.goto(
                        InitPhase::CmalWritten { attempt: attempt + 1 },
                        Transaction::Write {
                            register: registers::CMAL,
                            value: registers::CMAL_CA8_BIT,
                        },
                    )
                } else {
                    self.goto(InitPhase::ResetRequested { device: DeviceType::Max7456 }, reset)
                }
            },
            InitPhase::ResetRequested { device } => InitAction::Delay(
                InitMachine { config, phase: InitPhase::Settling { device } },
                config.reset_settle_delay_us,
            ),
            InitPhase::Settling { device } => {
                if config.reset_poll_max_tries == 0 {
                    InitAction::Fail(Error::ResetTimeout)
                } else {
                    self.goto(
                        InitPhase::ResetPolled { device, tries: 1 },
                        read_register(registers::VM0),
                    )
                }
            },
            InitPhase::ResetPolled { device, tries } => {
                if reply & registers::VM0_RESET == 0 {
                    self.apply(device)
                } else if tries < config.reset_poll_max_tries {
                    self.goto(
                        InitPhase::ResetPolled { device, tries: tries + 1 },
                        read_register(registers::VM0),
                    )
                } else {
                    InitAction::Fail(Error::ResetTimeout)
                }
            },
            InitPhase::VideoStatusRequested { device } => {
                let mode = detect_video_mode_from_stat(reply);
                self.configure(device, mode)
            },
            InitPhase::Configuring { state, written } => {
                if written < CONFIG_WRITES {
                    let t = config_write(config, state, written);
                    self.goto(InitPhase::Configuring { state, written: written + 1 }, t)
                } else {
                    InitAction::Done(Configured::new(state))
                }
            },
        }
    }
}

} // verus!
