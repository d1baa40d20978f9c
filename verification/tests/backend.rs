use lemnos_linux::backend::InterfaceKind;
use lemnos_linux::descriptor::{DeviceAddress, DeviceDescriptor, DeviceKind, Value};
use lemnos_linux::targets::{
    descriptor_devnode, i2c_open_target, spi_open_target, supports_i2c, supports_pwm, supports_spi,
    supports_uart, supports_usb, uart_open_target,
};
use lemnos_linux::{LinuxBackend, LinuxPaths, LinuxTransportConfig};

fn property_only(id: &str, kind: DeviceKind, properties: &[(&str, Value)]) -> DeviceDescriptor {
    let mut device = DeviceDescriptor::start(id.to_string(), kind);
    for (key, value) in properties {
        device.add_property(key, value.clone());
    }
    device
}

#[test]
fn linux_backend_exposes_transport_config_overrides() {
    let transport_config = LinuxTransportConfig::new()
        .with_uart_default_baud_rate(57_600)
        .with_uart_timeout_ms(125)
        .with_usb_timeout_ms(250)
        .with_sysfs_export_retries(12)
        .with_sysfs_export_delay_ms(15);
    let backend = LinuxBackend::with_config(transport_config);

    assert_eq!(backend.transport_config(), &transport_config);
}

#[test]
fn i2c_supports_descriptor_requires_typed_address() {
    let property_only = property_only(
        "linux.i2c.bus1.0x0050",
        DeviceKind::I2cDevice,
        &[("devnode", Value::Text("/dev/i2c-1".into()))],
    );
    assert!(!supports_i2c(&property_only));
}

#[test]
fn pwm_supports_descriptor_uses_typed_address_without_property_fallbacks() {
    let mut with_address = DeviceDescriptor::start("pwmchip2-pwm1".into(), DeviceKind::PwmChannel);
    with_address.address = Some(DeviceAddress::PwmChannel { chip_name: "pwmchip2".into(), channel: 1 });
    assert!(supports_pwm(&with_address));

    let property_only = property_only(
        "pwmchip2-pwm1",
        DeviceKind::PwmChannel,
        &[("chip_name", Value::Text("pwmchip2".into())), ("channel", Value::U64(1))],
    );
    assert!(!supports_pwm(&property_only));
}

#[test]
fn spi_supports_descriptor_requires_typed_address() {
    let property_only = property_only(
        "linux.spi.bus0.cs1",
        DeviceKind::SpiDevice,
        &[("devnode", Value::Text("/dev/spidev0.1".into()))],
    );
    assert!(!supports_spi(&property_only));
}

#[test]
fn uart_supports_descriptor_requires_typed_address() {
    let property_only = property_only(
        "linux.uart.port.ttyUSB0",
        DeviceKind::UartPort,
        &[("port", Value::Text("ttyUSB0".into())), ("devnode", Value::Text("/dev/ttyUSB0".into()))],
    );
    assert!(!supports_uart(&property_only));
}

#[test]
fn backend_supports_typed_gpio_line_and_rejects_property_only_identity() {
    let backend = LinuxBackend::new();
    let mut typed = DeviceDescriptor::start("linux.gpio.line.gpiochip0.0".into(), DeviceKind::GpioLine);
    typed.address = Some(DeviceAddress::GpioLine { chip_name: "gpiochip0".into(), offset: 0 });
    assert!(backend.supports_device(&typed));

    let untyped = property_only(
        "linux.gpio.line.gpiochip0.0",
        DeviceKind::GpioLine,
        &[
            ("chip_name", Value::Text("gpiochip0".into())),
            ("offset", Value::U64(0)),
            ("global_line", Value::U64(32)),
        ],
    );
    assert!(!backend.supports_device(&untyped));
}

#[test]
fn usb_support_accepts_device_and_interface_addresses() {
    let mut interface = DeviceDescriptor::start("usb0-if0".into(), DeviceKind::UsbInterface);
    interface.address = Some(DeviceAddress::UsbInterface {
        bus: 1,
        ports: vec![2],
        interface_number: 0,
        vendor_id: Some(0x1209),
        product_id: Some(0x0001),
    });
    assert!(supports_usb(&interface));
    let bare = DeviceDescriptor::start("usb0".into(), DeviceKind::UsbDevice);
    assert!(!supports_usb(&bare));
}

#[test]
fn open_targets_prefer_the_recorded_devnode() {
    let paths = LinuxPaths::new();
    let mut device = DeviceDescriptor::start("linux.i2c.bus1.0x0050".into(), DeviceKind::I2cDevice);
    device.address = Some(DeviceAddress::I2cDevice { bus: 1, address: 0x50 });
    assert_eq!(i2c_open_target(&paths, &device), Some((1, 0x50, "/dev/i2c-1".to_string())));
    device.add_property("devnode", Value::Text("/tmp/i2c-fake".into()));
    assert_eq!(descriptor_devnode(&device), Some("/tmp/i2c-fake".to_string()));
    assert_eq!(i2c_open_target(&paths, &device), Some((1, 0x50, "/tmp/i2c-fake".to_string())));

    let mut spi = DeviceDescriptor::start("linux.spi.bus0.cs1".into(), DeviceKind::SpiDevice);
    spi.address = Some(DeviceAddress::SpiDevice { bus: 0, chip_select: 1 });
    assert_eq!(spi_open_target(&paths, &spi), Some((0, 1, "/dev/spidev0.1".to_string())));

    let mut uart = DeviceDescriptor::start("linux.uart.port.ttyUSB0".into(), DeviceKind::UartPort);
    uart.address = Some(DeviceAddress::UartPort { port: "ttyUSB0".into() });
    assert_eq!(
        uart_open_target(&paths, &uart),
        Some(("ttyUSB0".to_string(), "/dev/ttyUSB0".to_string()))
    );
    assert_eq!(uart.interface(), InterfaceKind::Uart);
}
