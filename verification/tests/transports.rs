use lemnos_linux::chip_discovery::{is_gpio_chip_entry, is_pwm_chip_entry};
use lemnos_linux::errors::{IoErrorKind, OpenFailure};
use lemnos_linux::uart::{SerialErrorKind, UartOpenFailure};
use lemnos_linux::backend::InterfaceKind;
use lemnos_linux::descriptor::{DeviceAddress, DeviceDescriptor, DeviceHealth, DeviceKind, Value};
use lemnos_linux::gpio::{
    check_write_level, parse_level, resolve_global_line, should_unexport_on_close, GpioDirection,
    GpioLevel, GpioWriteError,
};
use lemnos_linux::i2c::{session_devnode, transaction_writes, I2cOperation};
use lemnos_linux::pwm::{with_duty_cycle, with_period, PwmConfiguration, PwmPolarity};
use lemnos_linux::session::{close, gate_write_first, opened, SessionRefusal};
use lemnos_linux::targets::{descriptor_driver, gpio_chip_devnode, i2c_controller_devnode, pwm_open_target};
use lemnos_linux::util::existing_path_string;
use lemnos_linux::{LinuxBackend, LinuxPaths, LinuxTransportConfig};

fn test_paths() -> LinuxPaths {
    LinuxPaths::new()
        .with_sys_class_root("/t/sys/class")
        .with_sys_bus_root("/t/sys/bus")
        .with_dev_root("/t/dev")
}

#[test]
fn gpio_writes_need_write_access_and_an_output_line() {
    assert_eq!(check_write_level(false, GpioDirection::Output), Err(GpioWriteError::ReadOnly));
    assert_eq!(check_write_level(true, GpioDirection::Input), Err(GpioWriteError::NotOutput));
    assert_eq!(check_write_level(true, GpioDirection::Output), Ok(()));
}

#[test]
fn gpio_levels_and_global_lines() {
    assert_eq!(parse_level("0"), Some(GpioLevel::Low));
    assert_eq!(parse_level("1"), Some(GpioLevel::High));
    assert_eq!(parse_level("2"), None);
    assert_eq!(resolve_global_line(Some(512), 7), Some(519));
    assert_eq!(resolve_global_line(Some(u32::MAX), 1), None);
    assert_eq!(resolve_global_line(None, 3), None);
    assert!(should_unexport_on_close(true, true));
    assert!(!should_unexport_on_close(false, true));
    assert!(!should_unexport_on_close(true, false));
}

#[test]
fn sysfs_export_paths_follow_the_class_root() {
    let paths = test_paths();
    assert_eq!(paths.gpio_line_root(17), "/t/sys/class/gpio/gpio17");
    assert_eq!(paths.gpio_export_path(), "/t/sys/class/gpio/export");
    assert_eq!(paths.gpio_unexport_path(), "/t/sys/class/gpio/unexport");
    assert_eq!(paths.pwm_export_path("pwmchip0"), "/t/sys/class/pwm/pwmchip0/export");
    assert_eq!(paths.pwm_unexport_path("pwmchip0"), "/t/sys/class/pwm/pwmchip0/unexport");
    assert_eq!(existing_path_string("/t/dev/gpiochip0", true), Some("/t/dev/gpiochip0".to_string()));
    assert_eq!(existing_path_string("/t/dev/gpiochip0", false), None);
}

#[test]
fn open_targets_resolve_devnodes() {
    let paths = test_paths();
    let mut line = DeviceDescriptor::start("gpiochip0-line3".into(), DeviceKind::GpioLine);
    line.address = Some(DeviceAddress::GpioLine { chip_name: "gpiochip0".into(), offset: 3 });
    assert_eq!(gpio_chip_devnode(&paths, &line), Some("/t/dev/gpiochip0".to_string()));
    line.add_property("devnode", Value::Text("/dev/gpiochip9".into()));
    assert_eq!(gpio_chip_devnode(&paths, &line), Some("/dev/gpiochip9".to_string()));

    let mut channel = DeviceDescriptor::start("pwmchip1-pwm2".into(), DeviceKind::PwmChannel);
    assert_eq!(pwm_open_target(&paths, &channel), None);
    channel.address = Some(DeviceAddress::PwmChannel { chip_name: "pwmchip1".into(), channel: 2 });
    assert_eq!(
        pwm_open_target(&paths, &channel),
        Some(("pwmchip1".to_string(), 2, "/t/sys/class/pwm/pwmchip1/pwm2".to_string()))
    );

    let bus = DeviceDescriptor::start("linux.i2c.bus4".into(), DeviceKind::I2cBus);
    assert_eq!(i2c_controller_devnode(&paths, &bus, 4), Some("/t/dev/i2c-4".to_string()));
    assert_eq!(i2c_controller_devnode(&paths, &channel, 4), None);
    assert_eq!(session_devnode(&paths, Some("/dev/i2c-9"), 4), "/dev/i2c-9");
    assert_eq!(session_devnode(&paths, None, 4), "/t/dev/i2c-4");

    let mut driven = DeviceDescriptor::start("linux.i2c.bus1.0x0050".into(), DeviceKind::I2cDevice);
    assert_eq!(descriptor_driver(&driven), None);
    driven.add_property("driver", Value::Text("at24".into()));
    assert_eq!(descriptor_driver(&driven), Some("at24".to_string()));
}

#[test]
fn read_only_sessions_refuse_writes_before_state() {
    assert_eq!(gate_write_first(close(opened()), false, true), Err(SessionRefusal::ReadOnly));
    assert_eq!(gate_write_first(close(opened()), true, true), Err(SessionRefusal::Closed));
    assert_eq!(gate_write_first(opened(), false, false), Ok(()));
    assert!(transaction_writes(&[I2cOperation::Read { length: 1 }, I2cOperation::Write { bytes: vec![1] }]));
    assert!(!transaction_writes(&[I2cOperation::Read { length: 2 }]));
}

#[test]
fn pwm_setters_change_one_field() {
    let current = PwmConfiguration { period_ns: 1000, duty_cycle_ns: 250, enabled: true, polarity: PwmPolarity::Normal };
    assert_eq!(with_period(&current, 2000), PwmConfiguration { period_ns: 2000, ..current });
    assert_eq!(with_duty_cycle(&current, 500), PwmConfiguration { duty_cycle_ns: 500, ..current });
}

#[test]
fn backend_constructors_and_probe_order() {
    let paths = test_paths();
    let backend = LinuxBackend::with_paths(paths.clone());
    assert_eq!(backend.paths(), &paths);
    assert_eq!(backend.transport_config(), &LinuxTransportConfig::new());
    let config = LinuxTransportConfig::new().with_usb_timeout_ms(9);
    let both = LinuxBackend::with_paths_and_config(paths.clone(), config);
    assert_eq!(both.transport_config(), &config);
    assert_eq!(LinuxBackend::planned_interfaces(), LinuxBackend::supported_interfaces());
    assert_eq!(LinuxBackend::planned_interfaces().len(), 6);
    assert!(LinuxBackend::planned_interfaces().contains(&InterfaceKind::Usb));
    assert_eq!(
        backend.probe_names(),
        vec!["linux-gpio", "linux-leds", "linux-pwm", "linux-hwmon", "linux-i2c", "linux-spi", "linux-uart", "linux-usb"]
    );
}

#[test]
fn spi_and_uart_open_reasons_name_the_device() {
    let (failure, reason) =
        lemnos_linux::spi::describe_open_error(IoErrorKind::NotFound, Some(2), "/dev/spidev0.1", "No such file or directory");
    assert_eq!(failure, OpenFailure::SessionUnavailable);
    assert_eq!(reason, "Linux SPI device '/dev/spidev0.1' is not currently available: No such file or directory");
    let (failure, reason) = lemnos_linux::spi::describe_open_error(IoErrorKind::Other, Some(16), "/dev/spidev0.1", "busy");
    assert_eq!(failure, OpenFailure::AccessConflict);
    assert_eq!(reason, "Linux SPI device '/dev/spidev0.1' is already in use");
    let (failure, reason) = lemnos_linux::spi::describe_open_error(IoErrorKind::Other, Some(25), "/tmp/file", "Inappropriate ioctl");
    assert_eq!(failure, OpenFailure::TransportFailure);
    assert_eq!(reason, "failed to open Linux SPI device '/tmp/file': Inappropriate ioctl");

    let (failure, reason) =
        lemnos_linux::uart::describe_open_error(SerialErrorKind::Io(IoErrorKind::NotFound), "/dev/ttyS9", "gone");
    assert_eq!(failure, UartOpenFailure::SessionUnavailable);
    assert_eq!(reason, "Linux UART device '/dev/ttyS9' is not currently available: gone");
    let (failure, reason) = lemnos_linux::uart::describe_open_error(SerialErrorKind::InvalidInput, "/dev/ttyS9", "bad");
    assert_eq!(failure, UartOpenFailure::InvalidConfiguration);
    assert_eq!(reason, "invalid Linux UART target '/dev/ttyS9': bad");
    let (failure, reason) =
        lemnos_linux::uart::describe_open_error(SerialErrorKind::Io(IoErrorKind::WouldBlock), "/dev/ttyS9", "locked");
    assert_eq!(failure, UartOpenFailure::AccessConflict);
    assert_eq!(reason, "Linux UART device '/dev/ttyS9' is already in use");
    let (failure, reason) =
        lemnos_linux::uart::describe_open_error(SerialErrorKind::Io(IoErrorKind::PermissionDenied), "/dev/ttyS9", "denied");
    assert_eq!(failure, UartOpenFailure::PermissionDenied);
    assert_eq!(reason, "failed to open Linux UART device '/dev/ttyS9': denied");
}

#[test]
fn defaults_match_new() {
    assert_eq!(LinuxPaths::default(), LinuxPaths::new());
    let backend = LinuxBackend::default();
    assert_eq!(backend.paths(), &LinuxPaths::new());
    assert_eq!(backend.transport_config(), &LinuxTransportConfig::new());
}

#[test]
fn chip_entries_are_told_apart_by_name() {
    assert!(is_gpio_chip_entry("gpiochip0"));
    assert!(!is_gpio_chip_entry("export"));
    assert!(!is_gpio_chip_entry("gpio17"));
    assert!(is_pwm_chip_entry("pwmchip3"));
    assert!(!is_pwm_chip_entry("pwm0"));
}

#[test]
fn devnode_marks_missing_nodes_degraded_and_keeps_health_otherwise() {
    let mut with_node = DeviceDescriptor::start("gpiochip0".into(), DeviceKind::GpioChip);
    with_node.add_devnode(Some("/dev/gpiochip0".into()));
    assert_eq!(with_node.health, DeviceHealth::Healthy);
    assert_eq!(with_node.property("devnode"), Some(&Value::Text("/dev/gpiochip0".into())));

    let mut without = DeviceDescriptor::start("gpiochip1".into(), DeviceKind::GpioChip);
    without.add_devnode(None);
    assert_eq!(without.health, DeviceHealth::Degraded);
    assert_eq!(without.property("devnode"), None);

    let mut degraded = DeviceDescriptor::start("gpiochip2".into(), DeviceKind::GpioChip);
    degraded.health = DeviceHealth::Degraded;
    degraded.add_devnode(Some("/dev/gpiochip2".into()));
    assert_eq!(degraded.health, DeviceHealth::Degraded);
    degraded.add_devnode(None);
    assert_eq!(degraded.health, DeviceHealth::Degraded);
}
