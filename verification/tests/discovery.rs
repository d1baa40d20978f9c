use lemnos_linux::backend::InterfaceKind;
use lemnos_linux::bus_discovery::{discover_i2c, discover_spi, I2cBusFacts, I2cDeviceFacts, SpiDeviceFacts};
use lemnos_linux::chip_discovery::{discover_gpio, discover_pwm, GpioChipFacts, PwmChipFacts};
use lemnos_linux::class_discovery::{discover_hwmon, discover_leds, HwmonFacts, LedFacts};
use lemnos_linux::descriptor::{DeviceAddress, DeviceDescriptor, DeviceKind, Value};
use lemnos_linux::port_discovery::{discover_uart, UartPortFacts};
use lemnos_linux::targets::descriptor_devnode;
use lemnos_linux::usb_discovery::{
    discover_usb, UsbDeviceFacts, UsbEntry, UsbEntryFacts, UsbInterfaceFacts,
};
use lemnos_linux::util::{read_hex_u16, read_hex_u8, read_trimmed, read_u32};
use lemnos_linux::LinuxPaths;

fn test_paths() -> LinuxPaths {
    LinuxPaths::new()
        .with_sys_class_root("/t/sys/class")
        .with_sys_bus_root("/t/sys/bus")
        .with_dev_root("/t/dev")
}

fn find<'a>(devices: &'a [DeviceDescriptor], kind: DeviceKind) -> &'a DeviceDescriptor {
    devices.iter().find(|d| d.kind == kind).expect("descriptor of the kind")
}

#[test]
fn hwmon_probe_discovers_linux_pwm_fan_device() {
    let paths = test_paths();
    let facts = HwmonFacts {
        name: "hwmon3".into(),
        path: "/t/sys/class/hwmon/hwmon3".into(),
        is_dir: true,
        has_pwm1: true,
        label: Ok(read_trimmed(Some("pwmfan\n"))),
        pwm: Ok(read_u32(Some("120\n"))),
        pwm_mode: Ok(read_u32(Some("1\n"))),
        rpm: Ok(read_u32(Some("4321\n"))),
        driver: Ok(Some("pwm-fan".into())),
        device_name: Ok(Some("pwmfan".into())),
    };
    let discovery = discover_hwmon(&paths.hwmon_class_root(), true, &[facts]);

    assert_eq!(discovery.devices.len(), 1);
    let device = discovery.devices.first().expect("hwmon fan descriptor");
    assert_eq!(device.kind, DeviceKind::Unspecified(InterfaceKind::Pwm));
    assert_eq!(
        device.address,
        Some(DeviceAddress::Custom {
            interface: InterfaceKind::Pwm,
            scheme: "linux-hwmon-fan".into(),
            value: "hwmon3".into(),
        })
    );
    assert_eq!(device.property("linux.driver"), Some(&Value::Text("pwm-fan".into())));
    assert_eq!(device.property("fan.pwm"), Some(&Value::U64(120)));
    assert_eq!(device.property("fan.rpm"), Some(&Value::U64(4321)));
    assert_eq!(device.control_root, Some("/t/sys/class/hwmon/hwmon3".to_string()));
}

#[test]
fn led_probe_discovers_linux_led_class_device() {
    let paths = test_paths();
    let facts = LedFacts {
        name: "ACT".into(),
        path: "/t/sys/class/leds/ACT".into(),
        is_dir: true,
        brightness: Ok(read_u32(Some("1\n"))),
        max_brightness: Ok(read_u32(Some("255\n"))),
        trigger: Ok(read_trimmed(Some("none timer [default-on] heartbeat\n"))),
        driver: Ok(Some("leds-gpio".into())),
        device_name: Ok(Some("leds".into())),
    };
    let discovery = discover_leds(&paths.led_class_root(), true, &[facts]);

    assert_eq!(discovery.devices.len(), 1);
    assert!(discovery.notes.is_empty());

    let device = discovery.devices.first().expect("led descriptor");
    assert_eq!(device.kind, DeviceKind::Unspecified(InterfaceKind::Gpio));
    assert_eq!(
        device.address,
        Some(DeviceAddress::Custom {
            interface: InterfaceKind::Gpio,
            scheme: "linux-led-class".into(),
            value: "ACT".into(),
        })
    );
    assert_eq!(device.property("linux.subsystem"), Some(&Value::Text("leds".into())));
    assert_eq!(device.property("linux.driver"), Some(&Value::Text("leds-gpio".into())));
    assert_eq!(device.property("led.active_trigger"), Some(&Value::Text("default-on".into())));
    assert_eq!(device.control_root, Some("/t/sys/class/leds/ACT".to_string()));
    assert_eq!(device.capabilities.len(), 4);
}

#[test]
fn gpio_probe_discovers_linux_chip_and_lines() {
    let paths = test_paths();
    let facts = GpioChipFacts {
        name: "gpiochip0".into(),
        path: "/t/sys/class/gpio/gpiochip0".into(),
        label: Ok(read_trimmed(Some("soc-gpio\n"))),
        base: Ok(read_u32(Some("32\n"))),
        line_count: Ok(read_u32(Some("2\n"))),
        devnode_exists: true,
    };
    let discovery =
        discover_gpio(&paths, &paths.gpio_class_root(), true, &[facts]).expect("discover gpio devices");

    assert_eq!(discovery.devices.len(), 3);
    assert!(discovery.notes.is_empty());

    let chip = find(&discovery.devices, DeviceKind::GpioChip);
    assert_eq!(
        chip.address,
        Some(DeviceAddress::GpioChip { chip_name: "gpiochip0".into(), base_line: Some(32) })
    );
    assert_eq!(chip.property("line_count"), Some(&Value::U64(2)));
    let chip_devnode = paths.gpio_devnode("gpiochip0");
    assert_eq!(descriptor_devnode(chip), Some(chip_devnode));

    let line = discovery
        .devices
        .iter()
        .find(|device| {
            device.kind == DeviceKind::GpioLine
                && device.address
                    == Some(DeviceAddress::GpioLine { chip_name: "gpiochip0".into(), offset: 1 })
        })
        .expect("gpio line descriptor");
    assert_eq!(line.driver_hint.as_deref(), Some("lemnos.gpio.generic"));
    assert_eq!(line.capabilities.len(), 4);
    assert!(line.parents.iter().any(|parent| *parent == chip.id));
    assert_eq!(line.property("global_line"), Some(&Value::U64(33)));
}

#[test]
fn i2c_probe_discovers_linux_bus_and_device() {
    let paths = test_paths();
    let bus_facts = I2cBusFacts {
        name: "i2c-10".into(),
        path: "/t/sys/class/i2c-dev/i2c-10".into(),
        adapter_name: Ok(read_trimmed(Some("DesignWare I2C adapter\n"))),
        devnode_exists: true,
    };
    let device_facts = I2cDeviceFacts {
        name: "10-0060".into(),
        path: "/t/sys/bus/i2c/devices/10-0060".into(),
        device_name: Ok(read_trimmed(Some("ina219\n"))),
        modalias: Ok(read_trimmed(Some("i2c:ina219\n"))),
        driver: Ok(None),
        devnode_exists: true,
    };
    let discovery = discover_i2c(
        &paths,
        &paths.i2c_class_root(),
        &paths.i2c_devices_root(),
        true,
        &[bus_facts],
        &[device_facts],
    );

    assert_eq!(discovery.devices.len(), 2);
    assert!(discovery.notes.is_empty());

    let bus = find(&discovery.devices, DeviceKind::I2cBus);
    assert_eq!(bus.address, Some(DeviceAddress::I2cBus { bus: 10 }));
    assert_eq!(
        bus.property("adapter_name"),
        Some(&Value::Text("DesignWare I2C adapter".into()))
    );

    let device = find(&discovery.devices, DeviceKind::I2cDevice);
    assert_eq!(device.address, Some(DeviceAddress::I2cDevice { bus: 10, address: 0x60 }));
    assert_eq!(device.driver_hint.as_deref(), Some("lemnos.i2c.generic"));
    assert_eq!(device.modalias.as_deref(), Some("i2c:ina219"));
    assert_eq!(device.capabilities.len(), 4);
    assert!(device.parents.iter().any(|parent| *parent == bus.id));
    let i2c_devnode = paths.i2c_devnode(10);
    assert_eq!(descriptor_devnode(device), Some(i2c_devnode));
}

#[test]
fn pwm_probe_discovers_linux_chip_and_channels() {
    let paths = test_paths();
    let facts = PwmChipFacts {
        name: "pwmchip2".into(),
        path: "/t/sys/class/pwm/pwmchip2".into(),
        channel_count: Ok(read_u32(Some("2\n"))),
        exported: vec![false, true],
    };
    let discovery = discover_pwm(&paths.pwm_class_root(), true, &[facts]).expect("discover pwm devices");

    assert_eq!(discovery.devices.len(), 3);
    assert!(discovery.notes.is_empty());

    let chip = find(&discovery.devices, DeviceKind::PwmChip);
    assert_eq!(chip.address, Some(DeviceAddress::PwmChip { chip_name: "pwmchip2".into() }));
    assert_eq!(chip.property("channel_count"), Some(&Value::U64(2)));

    let channel = discovery
        .devices
        .iter()
        .find(|device| {
            device.kind == DeviceKind::PwmChannel
                && device.address
                    == Some(DeviceAddress::PwmChannel { chip_name: "pwmchip2".into(), channel: 1 })
        })
        .expect("pwm channel descriptor");
    assert_eq!(channel.driver_hint.as_deref(), Some("lemnos.pwm.generic"));
    assert_eq!(channel.capabilities.len(), 5);
    assert!(channel.parents.iter().any(|parent| *parent == chip.id));
    assert_eq!(channel.property("exported"), Some(&Value::Bool(true)));
}

#[test]
fn spi_probe_discovers_linux_bus_and_device() {
    let paths = test_paths();
    let facts = SpiDeviceFacts {
        name: "spi0.1".into(),
        path: "/t/sys/bus/spi/devices/spi0.1".into(),
        modalias: Ok(read_trimmed(Some("spi:st7735r\n"))),
        driver: Ok(None),
        devnode_exists: true,
    };
    let discovery = discover_spi(&paths, &paths.spi_devices_root(), true, &[facts]);

    assert_eq!(discovery.devices.len(), 2);
    assert!(discovery.notes.is_empty());

    let bus = find(&discovery.devices, DeviceKind::SpiBus);
    assert_eq!(bus.address, Some(DeviceAddress::SpiBus { bus: 0 }));

    let device = find(&discovery.devices, DeviceKind::SpiDevice);
    assert_eq!(device.address, Some(DeviceAddress::SpiDevice { bus: 0, chip_select: 1 }));
    assert_eq!(device.driver_hint.as_deref(), Some("lemnos.spi.generic"));
    assert_eq!(device.modalias.as_deref(), Some("spi:st7735r"));
    assert_eq!(device.capabilities.len(), 4);
    assert!(device.parents.iter().any(|parent| *parent == bus.id));
    let spi_devnode = paths.spi_devnode(0, 1);
    assert_eq!(descriptor_devnode(device), Some(spi_devnode));
}

#[test]
fn uart_probe_discovers_linux_port() {
    let paths = test_paths();
    let facts = UartPortFacts {
        name: "ttyUSB0".into(),
        path: "/t/sys/class/tty/ttyUSB0".into(),
        devnode_exists: true,
        has_device: true,
        dev: Ok(read_trimmed(Some("188:0\n"))),
        modalias: Ok(read_trimmed(Some("usb:v067Bp2303\n"))),
        driver: Ok(None),
    };
    let discovery = discover_uart(&paths, &paths.tty_class_root(), true, &[facts]);

    assert_eq!(discovery.devices.len(), 1);
    assert!(discovery.notes.is_empty());

    let device = discovery.devices.first().expect("uart port descriptor");
    assert_eq!(device.kind, DeviceKind::UartPort);
    assert_eq!(device.address, Some(DeviceAddress::UartPort { port: "ttyUSB0".into() }));
    assert_eq!(device.driver_hint.as_deref(), Some("lemnos.uart.generic"));
    assert_eq!(device.modalias.as_deref(), Some("usb:v067Bp2303"));
    assert_eq!(device.capabilities.len(), 5);
    let uart_devnode = paths.tty_devnode("ttyUSB0");
    assert_eq!(descriptor_devnode(device), Some(uart_devnode));
}

fn usb_fixture() -> Vec<UsbEntry> {
    vec![
        UsbEntry {
            name: "1-2".into(),
            path: "/t/sys/bus/usb/devices/1-2".into(),
            facts: UsbEntryFacts::Device(UsbDeviceFacts {
                kernel_name: "1-2".into(),
                sysfs_path: "/t/sys/bus/usb/devices/1-2".into(),
                vendor_id: Ok(read_hex_u16(Some("1209\n"))),
                product_id: Ok(read_hex_u16(Some("0001\n"))),
                device_number: Ok(read_u32(Some("5\n"))),
                modalias: Ok(read_trimmed(Some("usb:v1209p0001\n"))),
                manufacturer: Ok(read_trimmed(Some("Test Vendor\n"))),
                product: Ok(read_trimmed(Some("Test Gadget\n"))),
                serial_number: Ok(None),
                devnode_exists: true,
            }),
        },
        UsbEntry {
            name: "1-2:1.0".into(),
            path: "/t/sys/bus/usb/devices/1-2:1.0".into(),
            facts: UsbEntryFacts::Interface(UsbInterfaceFacts {
                kernel_name: "1-2:1.0".into(),
                sysfs_path: "/t/sys/bus/usb/devices/1-2:1.0".into(),
                interface_number: Ok(read_hex_u8(Some("00\n"))),
                alternate_setting: Ok(read_hex_u8(Some("00\n"))),
                class_code: Ok(read_hex_u8(Some("ff\n"))),
                subclass_code: Ok(read_hex_u8(Some("00\n"))),
                protocol_code: Ok(read_hex_u8(Some("00\n"))),
                driver: Ok(None),
                modalias: Ok(None),
            }),
        },
        UsbEntry {
            name: "usb1".into(),
            path: "/t/sys/bus/usb/devices/usb1".into(),
            facts: UsbEntryFacts::Bus(Ok(read_trimmed(Some("Root Hub\n")))),
        },
    ]
}

#[test]
fn usb_probe_discovers_linux_bus_device_and_interface() {
    let paths = test_paths();
    let discovery = discover_usb(&paths, &paths.usb_devices_root(), true, &usb_fixture());

    assert_eq!(discovery.devices.len(), 3);
    assert!(discovery.notes.is_empty());

    let bus = find(&discovery.devices, DeviceKind::UsbBus);
    assert_eq!(bus.address, Some(DeviceAddress::UsbBus { bus: 1 }));

    let device = find(&discovery.devices, DeviceKind::UsbDevice);
    assert_eq!(
        device.address,
        Some(DeviceAddress::UsbDevice {
            bus: 1,
            ports: vec![2],
            vendor_id: Some(0x1209),
            product_id: Some(0x0001),
        })
    );
    assert_eq!(device.driver_hint.as_deref(), Some("lemnos.usb.generic"));
    let usb_devnode = paths.usb_bus_devnode(1, 5);
    assert_eq!(descriptor_devnode(device), Some(usb_devnode));
    assert!(device.parents.iter().any(|parent| *parent == bus.id));

    let interface = find(&discovery.devices, DeviceKind::UsbInterface);
    assert_eq!(
        interface.address,
        Some(DeviceAddress::UsbInterface {
            bus: 1,
            ports: vec![2],
            interface_number: 0,
            vendor_id: Some(0x1209),
            product_id: Some(0x0001),
        })
    );
    assert_eq!(interface.capabilities.len(), 7);
    assert!(interface.parents.iter().any(|parent| *parent == device.id));
}
