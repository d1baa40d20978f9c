use lemnos_linux::bus_discovery::{discover_i2c, discover_spi, I2cBusFacts, I2cDeviceFacts, SpiDeviceFacts};
use lemnos_linux::chip_discovery::{discover_gpio, discover_pwm, GpioChipFacts, PwmChipFacts};
use lemnos_linux::class_discovery::{discover_hwmon, discover_leds, parse_trigger_state, HwmonFacts, LedFacts};
use lemnos_linux::descriptor::{DeviceHealth, DeviceKind, Value};
use lemnos_linux::port_discovery::{build_port_descriptor, UartPortFacts};
use lemnos_linux::usb_discovery::{
    classify_usb_entry, discover_usb, UsbDeviceFacts, UsbEntry, UsbEntryFacts, UsbEntryKind,
    UsbInterfaceFacts,
};
use lemnos_linux::LinuxPaths;

fn device_facts(name: &str, vendor: Result<Option<u16>, String>) -> UsbDeviceFacts {
    UsbDeviceFacts {
        kernel_name: name.into(),
        sysfs_path: format!("/s/{name}"),
        vendor_id: vendor,
        product_id: Ok(None),
        device_number: Ok(None),
        modalias: Ok(None),
        manufacturer: Ok(None),
        product: Ok(None),
        serial_number: Ok(None),
        devnode_exists: false,
    }
}

fn interface_facts(name: &str) -> UsbInterfaceFacts {
    UsbInterfaceFacts {
        kernel_name: name.into(),
        sysfs_path: format!("/s/{name}"),
        interface_number: Ok(None),
        alternate_setting: Ok(None),
        class_code: Ok(None),
        subclass_code: Ok(None),
        protocol_code: Ok(None),
        driver: Ok(Some("usbhid".into())),
        modalias: Ok(None),
    }
}

#[test]
fn trigger_state_names_the_bracketed_trigger() {
    let (active, available) = parse_trigger_state(Some("none timer [default-on] heartbeat"));
    assert_eq!(active.as_deref(), Some("default-on"));
    assert_eq!(available, vec!["none", "timer", "default-on", "heartbeat"]);
    assert_eq!(parse_trigger_state(None), (None, Vec::new()));
    let (active, available) = parse_trigger_state(Some("[a] [b]  [ c"));
    assert_eq!(active.as_deref(), Some("b"));
    assert_eq!(available, vec!["a", "b", "[", "c"]);
}

#[test]
fn usb_entry_names_are_classified() {
    assert_eq!(classify_usb_entry("usb3"), UsbEntryKind::Bus(3));
    assert_eq!(classify_usb_entry("1-2.4"), UsbEntryKind::Device(1, vec![2, 4]));
    assert_eq!(classify_usb_entry("1-2.4:1.0"), UsbEntryKind::Interface(1, vec![2, 4], 1, 0));
    assert_eq!(classify_usb_entry("port1"), UsbEntryKind::Other);
}

#[test]
fn usb_interfaces_without_a_described_device_are_noted() {
    let paths = LinuxPaths::new();
    let entries = vec![UsbEntry {
        name: "3-1:1.0".into(),
        path: "/s/3-1:1.0".into(),
        facts: UsbEntryFacts::Interface(interface_facts("3-1:1.0")),
    }];
    let discovery = discover_usb(&paths, "/s", true, &entries);
    assert!(discovery.devices.is_empty());
    assert_eq!(
        discovery.notes,
        vec!["skipping Linux USB interface '3-1:1.0' because parent device '3-1' was not discovered".to_string()]
    );
}

#[test]
fn usb_read_failures_become_notes_and_buses_are_described_once() {
    let paths = LinuxPaths::new();
    let entries = vec![
        UsbEntry {
            name: "1-1".into(),
            path: "/s/1-1".into(),
            facts: UsbEntryFacts::Device(device_facts("1-1", Err("I/O error".into()))),
        },
        UsbEntry {
            name: "1-2".into(),
            path: "/s/1-2".into(),
            facts: UsbEntryFacts::Device(device_facts("1-2", Ok(Some(0xabcd)))),
        },
        UsbEntry {
            name: "1-2:1.3".into(),
            path: "/s/1-2:1.3".into(),
            facts: UsbEntryFacts::Interface(interface_facts("1-2:1.3")),
        },
        UsbEntry { name: "usb1".into(), path: "/s/usb1".into(), facts: UsbEntryFacts::Bus(Ok(None)) },
    ];
    let discovery = discover_usb(&paths, "/s", true, &entries);
    assert_eq!(
        discovery.notes,
        vec!["failed to read Linux USB vendor ID for '1-1' at '/s/1-1': I/O error".to_string()]
    );
    let kinds: Vec<DeviceKind> = discovery.devices.iter().map(|d| d.kind).collect();
    assert_eq!(kinds, vec![DeviceKind::UsbBus, DeviceKind::UsbDevice, DeviceKind::UsbInterface]);
    let device = &discovery.devices[1];
    assert_eq!(device.id, "linux.usb.bus1.ports2");
    assert_eq!(device.display_name.as_deref(), Some("usb-1-2"));
    assert_eq!(device.vendor.as_deref(), Some("abcd"));
    assert_eq!(device.health, DeviceHealth::Degraded);
    let interface = &discovery.devices[2];
    assert_eq!(interface.id, "linux.usb.bus1.ports2.if3");
    assert_eq!(interface.display_name.as_deref(), Some("usb-1-2:if3"));
    assert_eq!(interface.property("driver"), Some(&Value::Text("usbhid".into())));
    assert_eq!(interface.labels.last(), Some(&("driver".to_string(), "usbhid".to_string())));
}

#[test]
fn missing_roots_are_noted() {
    let paths = LinuxPaths::new();
    let usb = discover_usb(&paths, "/nowhere/usb", false, &[]);
    assert_eq!(usb.notes, vec!["USB sysfs root '/nowhere/usb' is not present".to_string()]);
    let leds = discover_leds("/nowhere/leds", false, &[]);
    assert_eq!(leds.notes, vec!["Linux LED sysfs root '/nowhere/leds' is not present".to_string()]);
    let i2c = discover_i2c(&paths, "/a", "/b", false, &[], &[]);
    assert_eq!(i2c.notes, vec!["I2C sysfs roots '/a' and '/b' are not present".to_string()]);
    let gpio = discover_gpio(&paths, "/g", false, &[]).expect("note only");
    assert_eq!(gpio.notes, vec!["GPIO sysfs root '/g' is not present".to_string()]);
}

#[test]
fn failed_chip_reads_fail_the_probe() {
    let paths = LinuxPaths::new();
    let chips = vec![GpioChipFacts {
        name: "gpiochip0".into(),
        path: "/sys/class/gpio/gpiochip0".into(),
        label: Ok(None),
        base: Err("Permission denied".into()),
        line_count: Ok(Some(4)),
        devnode_exists: false,
    }];
    let failure = discover_gpio(&paths, "/sys/class/gpio", true, &chips).expect_err("probe fails");
    assert_eq!(failure.probe, "linux-gpio");
    assert_eq!(failure.message, "read GPIO base at '/sys/class/gpio/gpiochip0': Permission denied");

    let pwm = vec![PwmChipFacts {
        name: "pwmchip0".into(),
        path: "/p".into(),
        channel_count: Err("gone".into()),
        exported: vec![],
    }];
    let failure = discover_pwm("/sys/class/pwm", true, &pwm).expect_err("probe fails");
    assert_eq!(failure.message, "read PWM channel count at '/p': gone");
}

#[test]
fn chips_without_devnode_are_degraded_and_other_entries_skipped() {
    let paths = LinuxPaths::new();
    let chips = vec![
        GpioChipFacts {
            name: "export".into(),
            path: "/sys/class/gpio/export".into(),
            label: Err("not a chip".into()),
            base: Ok(None),
            line_count: Ok(None),
            devnode_exists: false,
        },
        GpioChipFacts {
            name: "gpiochip4".into(),
            path: "/sys/class/gpio/gpiochip4".into(),
            label: Ok(None),
            base: Ok(Some(u32::MAX)),
            line_count: Ok(Some(2)),
            devnode_exists: false,
        },
    ];
    let discovery = discover_gpio(&paths, "/sys/class/gpio", true, &chips).expect("discovered");
    assert_eq!(discovery.devices.len(), 3);
    let chip = &discovery.devices[0];
    assert_eq!(chip.display_name.as_deref(), Some("gpiochip4"));
    assert_eq!(chip.health, DeviceHealth::Degraded);
    assert_eq!(discovery.devices[1].property("global_line"), Some(&Value::U64(u32::MAX as u64)));
    assert_eq!(discovery.devices[2].property("global_line"), None);
    assert_eq!(discovery.devices[2].id, "linux.gpio.line.gpiochip4.1");
}

#[test]
fn pwm_chip_index_comes_from_the_name() {
    let pwm = vec![PwmChipFacts {
        name: "pwmchip7".into(),
        path: "/p".into(),
        channel_count: Ok(None),
        exported: vec![],
    }];
    let discovery = discover_pwm("/sys/class/pwm", true, &pwm).expect("discovered");
    assert_eq!(discovery.devices.len(), 1);
    assert_eq!(discovery.devices[0].property("chip_index"), Some(&Value::U64(7)));
    assert_eq!(discovery.devices[0].property("channel_count"), Some(&Value::U64(0)));
}

#[test]
fn spi_and_i2c_devices_share_one_bus_descriptor() {
    let paths = LinuxPaths::new();
    let spi = vec![
        SpiDeviceFacts { name: "spi1.0".into(), path: "/a".into(), modalias: Ok(None), driver: Ok(None), devnode_exists: false },
        SpiDeviceFacts { name: "spi1.1".into(), path: "/b".into(), modalias: Ok(None), driver: Ok(Some("spidev".into())), devnode_exists: true },
        SpiDeviceFacts { name: "bogus".into(), path: "/c".into(), modalias: Ok(None), driver: Ok(None), devnode_exists: true },
    ];
    let discovery = discover_spi(&paths, "/sys/bus/spi/devices", true, &spi);
    let kinds: Vec<DeviceKind> = discovery.devices.iter().map(|d| d.kind).collect();
    assert_eq!(kinds, vec![DeviceKind::SpiBus, DeviceKind::SpiDevice, DeviceKind::SpiDevice]);
    assert_eq!(discovery.devices[0].id, "linux.spi.bus.1");
    assert_eq!(discovery.devices[1].health, DeviceHealth::Degraded);
    assert_eq!(discovery.devices[2].property("devnode"), Some(&Value::Text("/dev/spidev1.1".into())));

    let buses = vec![I2cBusFacts {
        name: "i2c-3".into(),
        path: "/sys/class/i2c-dev/i2c-3".into(),
        adapter_name: Err("EIO".into()),
        devnode_exists: true,
    }];
    let devices = vec![I2cDeviceFacts {
        name: "3-0050".into(),
        path: "/d".into(),
        device_name: Ok(None),
        modalias: Ok(None),
        driver: Ok(None),
        devnode_exists: true,
    }];
    let discovery = discover_i2c(&paths, "/c", "/d", true, &buses, &devices);
    assert_eq!(
        discovery.notes,
        vec!["failed to read Linux I2C bus name for bus 3 at '/sys/class/i2c-dev/i2c-3/name': EIO".to_string()]
    );
    assert_eq!(discovery.devices.len(), 2);
    assert_eq!(discovery.devices[0].id, "linux.i2c.bus.3");
    assert_eq!(discovery.devices[1].id, "linux.i2c.bus3.0x0050");
    assert_eq!(discovery.devices[1].display_name.as_deref(), Some("i2c-3-0x0050"));
}

#[test]
fn class_probes_skip_what_is_not_theirs() {
    let hwmon = vec![HwmonFacts {
        name: "hwmon0".into(),
        path: "/h".into(),
        is_dir: true,
        has_pwm1: false,
        label: Err("unread".into()),
        pwm: Ok(None),
        pwm_mode: Ok(None),
        rpm: Ok(None),
        driver: Ok(None),
        device_name: Ok(None),
    }];
    let discovery = discover_hwmon("/sys/class/hwmon", true, &hwmon);
    assert!(discovery.devices.is_empty() && discovery.notes.is_empty());

    let leds = vec![LedFacts {
        name: "input0::capslock".into(),
        path: "/l".into(),
        is_dir: true,
        brightness: Ok(None),
        max_brightness: Ok(Some(1)),
        trigger: Ok(None),
        driver: Ok(None),
        device_name: Ok(None),
    }];
    let discovery = discover_leds("/sys/class/leds", true, &leds);
    assert_eq!(discovery.devices[0].health, DeviceHealth::Degraded);
    assert_eq!(discovery.devices[0].id, "linux.gpio.led.input0::capslock");
    assert_eq!(discovery.devices[0].property("led.available_triggers"), None);

    let paths = LinuxPaths::new();
    let virtual_console = UartPortFacts {
        name: "tty1".into(),
        path: "/t".into(),
        devnode_exists: false,
        has_device: false,
        dev: Ok(None),
        modalias: Ok(None),
        driver: Ok(None),
    };
    assert_eq!(build_port_descriptor(&paths, &virtual_console), Ok(None));
}
