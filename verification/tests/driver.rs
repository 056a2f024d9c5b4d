use embedded_hal::spi::ErrorKind;
use embedded_hal::spi::Operation;
use embedded_hal::spi::SpiDevice;
use embedded_hal_mock::eh1::spi::Mock as SpiMock;
use embedded_hal_mock::eh1::spi::Transaction as SpiTransaction;
use uf_max7456::bus::brightness_register;
use uf_max7456::bus::detect_video_mode_from_stat;
use uf_max7456::bus::dmm_value;
use uf_max7456::bus::hos_from_offset;
use uf_max7456::bus::vm0_value;
use uf_max7456::bus::vm1_value;
use uf_max7456::bus::vos_from_offset;
use uf_max7456::bus::Configured;
use uf_max7456::bus::InitError;
use uf_max7456::bus::NVR_BUSY_POLL_TRIES;
use uf_max7456::registers;
use uf_max7456::Config;
use uf_max7456::DeviceType;
use uf_max7456::Error;
use uf_max7456::InitAction;
use uf_max7456::InitMachine;
use uf_max7456::Max7456Async;
use uf_max7456::Max7456Blocking;
use uf_max7456::ScreenGeometry;
use uf_max7456::Transaction;
use uf_max7456::VideoMode;

/// Performs one transaction on the mock device, as the drivers do.
fn perform(spi: &mut SpiMock<u8>, transaction: Transaction) -> Result<u8, ErrorKind> {
    match transaction {
        Transaction::Write { register, value } => {
            let tx = [register, value];
            spi.transaction(&mut [Operation::Write(&tx)])?;
            Ok(0)
        }
        Transaction::Read { address } => {
            let tx = [address];
            let mut value = [0_u8];
            spi.transaction(&mut [Operation::Write(&tx), Operation::Read(&mut value)])?;
            Ok(value[0])
        }
        Transaction::EndString => {
            let tx = [registers::END_STRING];
            spi.transaction(&mut [Operation::Write(&tx)])?;
            Ok(0)
        }
    }
}

fn perform_all(spi: &mut SpiMock<u8>, plan: &[Transaction]) -> Result<(), Error<ErrorKind>> {
    for t in plan {
        perform(spi, *t)?;
    }
    Ok(())
}

/// Runs initialization on the mock device; delays take no time.
fn run_init(spi: &mut SpiMock<u8>, config: Config) -> Result<Configured, Error<ErrorKind>> {
    let mut machine = InitMachine::new(config);
    let mut reply = 0_u8;
    loop {
        match machine.step(reply) {
            InitAction::Transfer(next, t) => {
                reply = perform(spi, t).map_err(Error::Spi)?;
                machine = next;
            }
            InitAction::Delay(next, _us) => {
                reply = 0;
                machine = next;
            }
            InitAction::Done(configured) => return Ok(configured),
            InitAction::Fail(error) => return Err(error),
        }
    }
}

/// Initialization of a blocking driver on the mock device: the configured
/// driver, or the driver handed back with the error.
fn init_blocking(
    mut driver: Max7456Blocking<SpiMock<u8>>,
    config: Config,
) -> Result<Max7456Blocking<SpiMock<u8>, Configured>, InitError<Max7456Blocking<SpiMock<u8>>, ErrorKind>>
{
    match run_init(driver.bus(), config) {
        Ok(configured) => Ok(driver.into_configured(configured)),
        Err(error) => Err(InitError { driver, error }),
    }
}

/// The same for an async driver; the mock answers at once.
fn init_async(
    mut driver: Max7456Async<SpiMock<u8>>,
    config: Config,
) -> Result<Max7456Async<SpiMock<u8>, Configured>, InitError<Max7456Async<SpiMock<u8>>, ErrorKind>> {
    match run_init(driver.bus(), config) {
        Ok(configured) => Ok(driver.into_configured(configured)),
        Err(error) => Err(InitError { driver, error }),
    }
}

fn test_config() -> Config {
    Config {
        video_mode: VideoMode::Pal,
        ..Config::default()
    }
}

fn push_write(expectations: &mut Vec<SpiTransaction<u8>>, register: u8, value: u8) {
    expectations.push(SpiTransaction::transaction_start());
    expectations.push(SpiTransaction::write_vec(vec![register, value]));
    expectations.push(SpiTransaction::transaction_end());
}

fn push_read(expectations: &mut Vec<SpiTransaction<u8>>, register: u8, value: u8) {
    expectations.push(SpiTransaction::transaction_start());
    expectations.push(SpiTransaction::write_vec(vec![register | registers::READ]));
    expectations.push(SpiTransaction::read(value));
    expectations.push(SpiTransaction::transaction_end());
}

fn init_success_expectations(cmal_readback: u8) -> Vec<SpiTransaction<u8>> {
    init_success_expectations_with_config(cmal_readback, test_config(), None)
}

fn init_success_expectations_with_config(
    cmal_readback: u8,
    config: Config,
    auto_video_stat: Option<u8>,
) -> Vec<SpiTransaction<u8>> {
    let mut expectations: Vec<SpiTransaction<u8>> = vec![
        SpiTransaction::transaction_start(),
        SpiTransaction::write_vec(vec![registers::END_STRING]),
        SpiTransaction::transaction_end(),
        SpiTransaction::transaction_start(),
        SpiTransaction::write_vec(vec![registers::OSDM | registers::READ]),
        SpiTransaction::read(0x1b),
        SpiTransaction::transaction_end(),
        SpiTransaction::transaction_start(),
        SpiTransaction::write_vec(vec![registers::VM0, 0]),
        SpiTransaction::transaction_end(),
    ];

    push_read(&mut expectations, registers::STAT, 0x00);
    let detect_tries = if (cmal_readback & registers::CMAL_CA8_BIT) != 0 {
        1
    } else {
        3
    };
    for _ in 0..detect_tries {
        push_write(&mut expectations, registers::CMAL, registers::CMAL_CA8_BIT);
        push_read(&mut expectations, registers::CMAL, cmal_readback);
    }

    expectations.extend([
        SpiTransaction::transaction_start(),
        SpiTransaction::write_vec(vec![registers::VM0, registers::VM0_RESET]),
        SpiTransaction::transaction_end(),
        SpiTransaction::transaction_start(),
        SpiTransaction::write_vec(vec![registers::VM0 | registers::READ]),
        SpiTransaction::read(0x00),
        SpiTransaction::transaction_end(),
    ]);

    if let Some(stat) = auto_video_stat {
        push_read(&mut expectations, registers::STAT, stat);
    }

    let resolved_mode = if let Some(stat) = auto_video_stat {
        detect_video_mode_from_stat(stat)
    } else {
        config.video_mode
    };
    push_write(
        &mut expectations,
        registers::VM0,
        vm0_value(config, resolved_mode),
    );
    push_write(
        &mut expectations,
        registers::HOS,
        hos_from_offset(config.h_offset),
    );
    push_write(
        &mut expectations,
        registers::VOS,
        vos_from_offset(config.v_offset),
    );
    push_write(&mut expectations, registers::VM1, vm1_value(config));
    push_write(&mut expectations, registers::DMM, dmm_value(config));

    for register in registers::RB0..=registers::RB15 {
        let rb = brightness_register::<()>(config.black_level, config.white_level).unwrap();
        push_write(&mut expectations, register, rb);
    }

    expectations
}

#[test]
fn test_basic_blocking() {
    let expectations: &[SpiTransaction<u8>] = &[];
    let spi = SpiMock::new(expectations);

    let driver = Max7456Blocking::new(spi);
    let mut spi = driver.release();
    spi.done();
}

#[test]
fn test_basic_async() {
    let expectations: &[SpiTransaction<u8>] = &[];
    let spi = SpiMock::new(expectations);

    let driver = Max7456Async::new(spi);
    let mut spi = driver.release();
    spi.done();
}

#[test]
fn test_init_at7456e_blocking() {
    let expectations = init_success_expectations(registers::CMAL_CA8_BIT);
    let spi = SpiMock::new(&expectations);
    let driver = Max7456Blocking::new(spi);
    let driver = init_blocking(driver, test_config()).unwrap();
    let state = driver.state();
    assert_eq!(state.device_type, DeviceType::At7456e);
    assert_eq!(state.video_mode, VideoMode::Pal);
    assert_eq!(
        state.geometry,
        ScreenGeometry {
            columns: 30,
            rows: 16,
            len: 480
        }
    );
    let mut spi = driver.release();
    spi.done();
}

#[test]
fn test_init_at7456e_async() {
    let expectations = init_success_expectations(registers::CMAL_CA8_BIT);
    let spi = SpiMock::new(&expectations);
    let driver = Max7456Async::new(spi);
    let driver = init_async(driver, test_config()).unwrap();
    let state = driver.state();
    assert_eq!(state.device_type, DeviceType::At7456e);
    assert_eq!(state.geometry.len, 480);
    let mut spi = driver.release();
    spi.done();
}

#[test]
fn test_init_max7456_blocking() {
    let expectations = init_success_expectations(0);
    let spi = SpiMock::new(&expectations);
    let driver = Max7456Blocking::new(spi);
    let driver = init_blocking(driver, test_config()).unwrap();
    let state = driver.state();
    assert_eq!(state.device_type, DeviceType::Max7456);
    let mut spi = driver.release();
    spi.done();
}

#[test]
fn test_init_auto_video_detects_ntsc_geometry() {
    let config = Config {
        video_mode: VideoMode::Auto,
        ..Config::default()
    };
    let expectations =
        init_success_expectations_with_config(registers::CMAL_CA8_BIT, config, Some(0));
    let spi = SpiMock::new(&expectations);
    let driver = Max7456Blocking::new(spi);
    let driver = init_blocking(driver, config).unwrap();
    let state = driver.state();
    assert_eq!(state.video_mode, VideoMode::Ntsc);
    assert_eq!(state.geometry.rows, 13);
    assert_eq!(state.geometry.len, 390);
    let mut spi = driver.release();
    spi.done();
}

#[test]
fn test_init_not_found_blocking() {
    let expectations: &[SpiTransaction<u8>] = &[
        SpiTransaction::transaction_start(),
        SpiTransaction::write_vec(vec![registers::END_STRING]),
        SpiTransaction::transaction_end(),
        SpiTransaction::transaction_start(),
        SpiTransaction::write_vec(vec![registers::OSDM | registers::READ]),
        SpiTransaction::read(0x00),
        SpiTransaction::transaction_end(),
    ];
    let spi = SpiMock::new(expectations);
    let driver = Max7456Blocking::new(spi);
    let init_err = init_blocking(driver, test_config()).err().unwrap();
    assert!(matches!(init_err.error, Error::NotFound { osdm: 0x00 }));
    let mut spi = init_err.driver.release();
    spi.done();
}

#[test]
fn test_init_not_found_async() {
    let expectations: &[SpiTransaction<u8>] = &[
        SpiTransaction::transaction_start(),
        SpiTransaction::write_vec(vec![registers::END_STRING]),
        SpiTransaction::transaction_end(),
        SpiTransaction::transaction_start(),
        SpiTransaction::write_vec(vec![registers::OSDM | registers::READ]),
        SpiTransaction::read(0x00),
        SpiTransaction::transaction_end(),
    ];
    let spi = SpiMock::new(expectations);
    let driver = Max7456Async::new(spi);
    let init_err = init_async(driver, test_config()).err().unwrap();
    assert!(matches!(init_err.error, Error::NotFound { osdm: 0x00 }));
    let mut spi = init_err.driver.release();
    spi.done();
}

#[test]
fn test_init_nvr_busy_timeout_blocking() {
    let mut expectations = vec![
        SpiTransaction::transaction_start(),
        SpiTransaction::write_vec(vec![registers::END_STRING]),
        SpiTransaction::transaction_end(),
        SpiTransaction::transaction_start(),
        SpiTransaction::write_vec(vec![registers::OSDM | registers::READ]),
        SpiTransaction::read(registers::OSDM_DEFAULT),
        SpiTransaction::transaction_end(),
        SpiTransaction::transaction_start(),
        SpiTransaction::write_vec(vec![registers::VM0, 0]),
        SpiTransaction::transaction_end(),
    ];
    for _ in 0..NVR_BUSY_POLL_TRIES {
        push_read(&mut expectations, registers::STAT, registers::STAT_NVR_BUSY);
    }

    let spi = SpiMock::new(&expectations);
    let driver = Max7456Blocking::new(spi);
    let init_err = init_blocking(driver, test_config()).err().unwrap();
    assert!(matches!(init_err.error, Error::NvrBusyTimeout));
    let mut spi = init_err.driver.release();
    spi.done();
}

#[test]
fn test_display_byte_writes_address_and_sanitized_data() {
    let mut expectations = init_success_expectations(registers::CMAL_CA8_BIT);
    push_write(&mut expectations, registers::DMAH, 0x01);
    push_write(&mut expectations, registers::DMAL, 0xdf);
    push_write(&mut expectations, registers::DMDI, b' ');

    let spi = SpiMock::new(&expectations);
    let driver = Max7456Blocking::new(spi);
    let mut driver = init_blocking(driver, test_config()).unwrap();
    let plan = driver
        .state()
        .char_transactions::<ErrorKind>(29, 15, registers::END_STRING)
        .unwrap();
    perform_all(driver.bus(), &plan).unwrap();
    let mut spi = driver.release();
    spi.done();
}

#[test]
fn test_display_run_uses_auto_increment_and_restores_dmm() {
    let config = Config {
        invert: true,
        ..test_config()
    };
    let mut expectations =
        init_success_expectations_with_config(registers::CMAL_CA8_BIT, config, None);
    push_write(
        &mut expectations,
        registers::DMM,
        registers::DMM_INVERT_PIXEL_COLOR | registers::DMM_AUTO_INCREMENT,
    );
    push_write(&mut expectations, registers::DMAH, 0x00);
    push_write(&mut expectations, registers::DMAL, 0x00);
    push_write(&mut expectations, registers::DMDI, b'A');
    push_write(&mut expectations, registers::DMDI, b' ');
    push_write(&mut expectations, registers::DMDI, b'C');
    expectations.push(SpiTransaction::transaction_start());
    expectations.push(SpiTransaction::write_vec(vec![registers::END_STRING]));
    expectations.push(SpiTransaction::transaction_end());
    push_write(
        &mut expectations,
        registers::DMM,
        registers::DMM_INVERT_PIXEL_COLOR,
    );

    let spi = SpiMock::new(&expectations);
    let driver = Max7456Blocking::new(spi);
    let mut driver = init_blocking(driver, config).unwrap();
    let plan = driver
        .state()
        .text_transactions::<ErrorKind>(0, 0, &[b'A', registers::END_STRING, b'C'])
        .unwrap();
    perform_all(driver.bus(), &plan).unwrap();
    assert_eq!(driver.state().dmm, registers::DMM_INVERT_PIXEL_COLOR);
    let mut spi = driver.release();
    spi.done();
}

#[test]
fn test_display_write_bounds_after_init() {
    let expectations = init_success_expectations(registers::CMAL_CA8_BIT);
    let spi = SpiMock::new(&expectations);
    let driver = Max7456Blocking::new(spi);
    let driver = init_blocking(driver, test_config()).unwrap();
    let err = driver
        .state()
        .char_transactions::<ErrorKind>(30, 0, b'A')
        .err()
        .unwrap();
    assert!(matches!(
        err,
        Error::InvalidCoordinate {
            x: 30,
            y: 0,
            columns: 30,
            rows: 16
        }
    ));
    let mut spi = driver.release();
    spi.done();
}
