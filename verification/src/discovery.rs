//! The discovery probes of the Linux backend: one per sysfs subsystem, each
//! bound to the backend's filesystem roots.
use crate::backend::{InterfaceKind, LinuxBackend};
use crate::bus_discovery::{
    discover_i2c, discover_spi, spec_i2c_roots_missing_note, spec_i2c_walk, spec_spi_walk, I2cBusFacts,
    I2cDeviceFacts, SpiDeviceFacts,
};
use crate::chip_discovery::{
    discover_gpio, discover_pwm, failure_view, spec_gpio_walk, spec_pwm_walk, GpioChipFacts, PwmChipFacts,
};
use crate::class_discovery::{
    discover_hwmon, discover_leds, spec_build_hwmon, spec_build_led, spec_class_discovery, HwmonFacts, LedFacts,
};
use crate::descriptor::{
    descriptors_view, outcome_of, DescriptorView, spec_root_missing_note, strings_view, ProbeDiscovery, ProbeFailure,
};
use crate::paths::{path_join, spec_gpio_class_root, spec_pwm_class_root, LinuxPaths};
use crate::port_discovery::{discover_uart, spec_build_uart, UartPortFacts};
use crate::usb_discovery::{discover_usb, spec_usb_walk, UsbEntry};
use vstd::prelude::*;

verus! {

/// GPIO chips and lines under `/sys/class/gpio`.
#[derive(Debug, Clone, PartialEq, Eq)]
pub struct GpioDiscoveryProbe {
    pub paths: LinuxPaths,
}

/// LED class devices under `/sys/class/leds`.
#[derive(Debug, Clone, PartialEq, Eq)]
pub struct LedDiscoveryProbe {
    pub paths: LinuxPaths,
}

/// PWM chips and channels under `/sys/class/pwm`.
#[derive(Debug, Clone, PartialEq, Eq)]
pub struct PwmDiscoveryProbe {
    pub paths: LinuxPaths,
}

/// PWM fans under `/sys/class/hwmon`.
#[derive(Debug, Clone, PartialEq, Eq)]
pub struct HwmonDiscoveryProbe {
    pub paths: LinuxPaths,
}

/// I2C buses and clients under `/sys/class/i2c-dev` and `/sys/bus/i2c`.
#[derive(Debug, Clone, PartialEq, Eq)]
pub struct I2cDiscoveryProbe {
    pub paths: LinuxPaths,
}

/// SPI devices under `/sys/bus/spi`.
#[derive(Debug, Clone, PartialEq, Eq)]
pub struct SpiDiscoveryProbe {
    pub paths: LinuxPaths,
}

/// Serial ports under `/sys/class/tty`.
#[derive(Debug, Clone, PartialEq, Eq)]
pub struct UartDiscoveryProbe {
    pub paths: LinuxPaths,
}

/// USB buses, devices and interfaces under `/sys/bus/usb`.
#[derive(Debug, Clone, PartialEq, Eq)]
pub struct UsbDiscoveryProbe {
    pub paths: LinuxPaths,
}

impl GpioDiscoveryProbe {
    pub fn new(paths: LinuxPaths) -> (r: Self)
        ensures
            r.paths == paths,
    {
        Self { paths }
    }

    pub fn name(&self) -> (r: &'static str)
        ensures
            r@ == "linux-gpio"@,
    {
        "linux-gpio"
    }

    pub fn interfaces(&self) -> (r: Vec<InterfaceKind>)
        ensures
            r@ == seq![InterfaceKind::Gpio],
    {
        let r = vec![InterfaceKind::Gpio];
        assert(r@ =~= seq![InterfaceKind::Gpio]);
        r
    }
}

impl LedDiscoveryProbe {
    pub fn new(paths: LinuxPaths) -> (r: Self)
        ensures
            r.paths == paths,
    {
        Self { paths }
    }

    pub fn name(&self) -> (r: &'static str)
        ensures
            r@ == "linux-leds"@,
    {
        "linux-leds"
    }

    /// LEDs are reported as GPIO-family devices.
    pub fn interfaces(&self) -> (r: Vec<InterfaceKind>)
        ensures
            r@ == seq![InterfaceKind::Gpio],
    {
        let r = vec![InterfaceKind::Gpio];
        assert(r@ =~= seq![InterfaceKind::Gpio]);
        r
    }
}

impl PwmDiscoveryProbe {
    pub fn new(paths: LinuxPaths) -> (r: Self)
        ensures
            r.paths == paths,
    {
        Self { paths }
    }

    pub fn name(&self) -> (r: &'static str)
        ensures
            r@ == "linux-pwm"@,
    {
        "linux-pwm"
    }

    pub fn interfaces(&self) -> (r: Vec<InterfaceKind>)
        ensures
            r@ == seq![InterfaceKind::Pwm],
    {
        let r = vec![InterfaceKind::Pwm];
        assert(r@ =~= seq![InterfaceKind::Pwm]);
        r
    }
}

impl HwmonDiscoveryProbe {
    pub fn new(paths: LinuxPaths) -> (r: Self)
        ensures
            r.paths == paths,
    {
        Self { paths }
    }

    pub fn name(&self) -> (r: &'static str)
        ensures
            r@ == "linux-hwmon"@,
    {
        "linux-hwmon"
    }

    /// Fans driven by PWM are reported as PWM-family devices.
    pub fn interfaces(&self) -> (r: Vec<InterfaceKind>)
        ensures
            r@ == seq![InterfaceKind::Pwm],
    {
        let r = vec![InterfaceKind::Pwm];
        assert(r@ =~= seq![InterfaceKind::Pwm]);
        r
    }
}

impl I2cDiscoveryProbe {
    pub fn new(paths: LinuxPaths) -> (r: Self)
        ensures
            r.paths == paths,
    {
        Self { paths }
    }

    pub fn name(&self) -> (r: &'static str)
        ensures
            r@ == "linux-i2c"@,
    {
        "linux-i2c"
    }

    pub fn interfaces(&self) -> (r: Vec<InterfaceKind>)
        ensures
            r@ == seq![InterfaceKind::I2c],
    {
        let r = vec![InterfaceKind::I2c];
        assert(r@ =~= seq![InterfaceKind::I2c]);
        r
    }
}

impl SpiDiscoveryProbe {
    pub fn new(paths: LinuxPaths) -> (r: Self)
        ensures
            r.paths == paths,
    {
        Self { paths }
    }

    pub fn name(&self) -> (r: &'static str)
        ensures
            r@ == "linux-spi"@,
    {
        "linux-spi"
    }

    pub fn interfaces(&self) -> (r: Vec<InterfaceKind>)
        ensures
            r@ == seq![InterfaceKind::Spi],
    {
        let r = vec![InterfaceKind::Spi];
        assert(r@ =~= seq![InterfaceKind::Spi]);
        r
    }
}

impl UartDiscoveryProbe {
    pub fn new(paths: LinuxPaths) -> (r: Self)
        ensures
            r.paths == paths,
    {
        Self { paths }
    }

    pub fn name(&self) -> (r: &'static str)
        ensures
            r@ == "linux-uart"@,
    {
        "linux-uart"
    }

    pub fn interfaces(&self) -> (r: Vec<InterfaceKind>)
        ensures
            r@ == seq![InterfaceKind::Uart],
    {
        let r = vec![InterfaceKind::Uart];
        assert(r@ =~= seq![InterfaceKind::Uart]);
        r
    }
}

impl UsbDiscoveryProbe {
    pub fn new(paths: LinuxPaths) -> (r: Self)
        ensures
            r.paths == paths,
    {
        Self { paths }
    }

    pub fn name(&self) -> (r: &'static str)
        ensures
            r@ == "linux-usb"@,
    {
        "linux-usb"
    }

    pub fn interfaces(&self) -> (r: Vec<InterfaceKind>)
        ensures
            r@ == seq![InterfaceKind::Usb],
    {
        let r = vec![InterfaceKind::Usb];
        assert(r@ =~= seq![InterfaceKind::Usb]);
        r
    }
}

impl LinuxBackend {
    pub fn gpio_probe(&self) -> (r: GpioDiscoveryProbe)
        ensures
            r.paths == self.spec_paths(),
    {
        GpioDiscoveryProbe::new(self.paths().clone())
    }

    pub fn led_probe(&self) -> (r: LedDiscoveryProbe)
        ensures
            r.paths == self.spec_paths(),
    {
        LedDiscoveryProbe::new(self.paths().clone())
    }

    pub fn pwm_probe(&self) -> (r: PwmDiscoveryProbe)
        ensures
            r.paths == self.spec_paths(),
    {
        PwmDiscoveryProbe::new(self.paths().clone())
    }

    pub fn hwmon_probe(&self) -> (r: HwmonDiscoveryProbe)
        ensures
            r.paths == self.spec_paths(),
    {
        HwmonDiscoveryProbe::new(self.paths().clone())
    }

    pub fn i2c_probe(&self) -> (r: I2cDiscoveryProbe)
        ensures
            r.paths == self.spec_paths(),
    {
        I2cDiscoveryProbe::new(self.paths().clone())
    }

    pub fn spi_probe(&self) -> (r: SpiDiscoveryProbe)
        ensures
            r.paths == self.spec_paths(),
    {
        SpiDiscoveryProbe::new(self.paths().clone())
    }

    pub fn uart_probe(&self) -> (r: UartDiscoveryProbe)
        ensures
            r.paths == self.spec_paths(),
    {
        UartDiscoveryProbe::new(self.paths().clone())
    }

    pub fn usb_probe(&self) -> (r: UsbDiscoveryProbe)
        ensures
            r.paths == self.spec_paths(),
    {
        UsbDiscoveryProbe::new(self.paths().clone())
    }
}

impl GpioDiscoveryProbe {
    /// Discovery over what was read of the GPIO class directory: the same
    /// as [`discover_gpio`] under this probe's roots.
    pub fn discover_from(&self, root_exists: bool, entries: &[GpioChipFacts]) -> (r: Result<ProbeDiscovery, ProbeFailure>)
        ensures
            !root_exists ==> (r matches Ok(d) && strings_view(d.notes@) == seq![
                spec_root_missing_note("GPIO sysfs root"@, spec_gpio_class_root(self.paths)),
            ] && descriptors_view(d.devices@) == Seq::<DescriptorView>::empty()),
            root_exists ==> match (r, spec_gpio_walk(self.paths, entries@)) {
                (Ok(d), Ok(ds)) => descriptors_view(d.devices@) == ds,
                (Err(e), Err(m)) => failure_view(e) == m,
                _ => false,
            },
    {
        let root = self.paths.gpio_class_root();
        discover_gpio(&self.paths, root.as_str(), root_exists, entries)
    }
}

impl PwmDiscoveryProbe {
    /// Discovery over what was read of the PWM class directory.
    pub fn discover_from(&self, root_exists: bool, entries: &[PwmChipFacts]) -> (r: Result<ProbeDiscovery, ProbeFailure>)
        ensures
            !root_exists ==> (r matches Ok(d) && strings_view(d.notes@) == seq![
                spec_root_missing_note("PWM sysfs root"@, spec_pwm_class_root(self.paths)),
            ] && descriptors_view(d.devices@) == Seq::<DescriptorView>::empty()),
            root_exists ==> match (r, spec_pwm_walk(entries@)) {
                (Ok(d), Ok(ds)) => descriptors_view(d.devices@) == ds,
                (Err(e), Err(m)) => failure_view(e) == m,
                _ => false,
            },
    {
        let root = self.paths.pwm_class_root();
        discover_pwm(root.as_str(), root_exists, entries)
    }
}

impl LedDiscoveryProbe {
    /// Discovery over what was read of the LED class directory.
    pub fn discover_from(&self, root_exists: bool, entries: &[LedFacts]) -> (r: ProbeDiscovery)
        ensures
            (descriptors_view(r.devices@), strings_view(r.notes@)) == spec_class_discovery(
                path_join(self.paths.sys_class_root@, "leds"@),
                "Linux LED sysfs root"@,
                root_exists,
                entries@.map_values(|f: LedFacts| outcome_of(spec_build_led(f))),
            ),
    {
        let root = self.paths.led_class_root();
        discover_leds(root.as_str(), root_exists, entries)
    }
}

impl HwmonDiscoveryProbe {
    /// Discovery over what was read of the hwmon class directory.
    pub fn discover_from(&self, root_exists: bool, entries: &[HwmonFacts]) -> (r: ProbeDiscovery)
        ensures
            (descriptors_view(r.devices@), strings_view(r.notes@)) == spec_class_discovery(
                path_join(self.paths.sys_class_root@, "hwmon"@),
                "Linux hwmon sysfs root"@,
                root_exists,
                entries@.map_values(|f: HwmonFacts| outcome_of(spec_build_hwmon(f))),
            ),
    {
        let root = self.paths.hwmon_class_root();
        discover_hwmon(root.as_str(), root_exists, entries)
    }
}

impl I2cDiscoveryProbe {
    /// Discovery over what was read of the I2C adapter class directory and
    /// the I2C devices directory.
    pub fn discover_from(&self, roots_exist: bool, buses: &[I2cBusFacts], devices: &[I2cDeviceFacts]) -> (r:
        ProbeDiscovery)
        ensures
            roots_exist ==> descriptors_view(r.devices@) == spec_i2c_walk(self.paths, buses@, devices@).devices
                && strings_view(r.notes@) == spec_i2c_walk(self.paths, buses@, devices@).notes,
            !roots_exist ==> descriptors_view(r.devices@) == Seq::<DescriptorView>::empty() && strings_view(r.notes@) == seq![
                spec_i2c_roots_missing_note(
                    path_join(self.paths.sys_class_root@, "i2c-dev"@),
                    path_join(path_join(self.paths.sys_bus_root@, "i2c"@), "devices"@),
                ),
            ],
    {
        let class_root = self.paths.i2c_class_root();
        let devices_root = self.paths.i2c_devices_root();
        discover_i2c(&self.paths, class_root.as_str(), devices_root.as_str(), roots_exist, buses, devices)
    }
}

impl SpiDiscoveryProbe {
    /// Discovery over what was read of the SPI devices directory.
    pub fn discover_from(&self, root_exists: bool, entries: &[SpiDeviceFacts]) -> (r: ProbeDiscovery)
        ensures
            root_exists ==> descriptors_view(r.devices@) == spec_spi_walk(self.paths, entries@).devices
                && strings_view(r.notes@) == spec_spi_walk(self.paths, entries@).notes,
            !root_exists ==> descriptors_view(r.devices@) == Seq::<DescriptorView>::empty() && strings_view(r.notes@) == seq![
                spec_root_missing_note(
                    "SPI sysfs root"@,
                    path_join(path_join(self.paths.sys_bus_root@, "spi"@), "devices"@),
                ),
            ],
    {
        let root = self.paths.spi_devices_root();
        discover_spi(&self.paths, root.as_str(), root_exists, entries)
    }
}

impl UartDiscoveryProbe {
    /// Discovery over what was read of the tty class directory.
    pub fn discover_from(&self, root_exists: bool, entries: &[UartPortFacts]) -> (r: ProbeDiscovery)
        ensures
            (descriptors_view(r.devices@), strings_view(r.notes@)) == spec_class_discovery(
                path_join(self.paths.sys_class_root@, "tty"@),
                "TTY sysfs root"@,
                root_exists,
                entries@.map_values(|f: UartPortFacts| outcome_of(spec_build_uart(self.paths, f))),
            ),
    {
        let root = self.paths.tty_class_root();
        discover_uart(&self.paths, root.as_str(), root_exists, entries)
    }
}

impl UsbDiscoveryProbe {
    /// Discovery over what was read of the USB devices directory.
    pub fn discover_from(&self, root_exists: bool, entries: &[UsbEntry]) -> (r: ProbeDiscovery)
        ensures
            root_exists ==> descriptors_view(r.devices@) == spec_usb_walk(self.paths, entries@).devices
                && strings_view(r.notes@) == spec_usb_walk(self.paths, entries@).notes,
            !root_exists ==> descriptors_view(r.devices@) == Seq::<DescriptorView>::empty() && strings_view(r.notes@) == seq![
                spec_root_missing_note(
                    "USB sysfs root"@,
                    path_join(path_join(self.paths.sys_bus_root@, "usb"@), "devices"@),
                ),
            ],
    {
        let root = self.paths.usb_devices_root();
        discover_usb(&self.paths, root.as_str(), root_exists, entries)
    }
}

impl LinuxBackend {
    /// The names of the backend's probes, in the order discovery runs them.
    pub fn probe_names(&self) -> (r: Vec<&'static str>)
        ensures
            r@.map_values(|n: &'static str| n@) == seq![
                "linux-gpio"@,
                "linux-leds"@,
                "linux-pwm"@,
                "linux-hwmon"@,
                "linux-i2c"@,
                "linux-spi"@,
                "linux-uart"@,
                "linux-usb"@,
            ],
    {
        let r = vec![
            self.gpio_probe().name(),
            self.led_probe().name(),
            self.pwm_probe().name(),
            self.hwmon_probe().name(),
            self.i2c_probe().name(),
            self.spi_probe().name(),
            self.uart_probe().name(),
            self.usb_probe().name(),
        ];
        assert(r@.map_values(|n: &'static str| n@) =~= seq![
            "linux-gpio"@,
            "linux-leds"@,
            "linux-pwm"@,
            "linux-hwmon"@,
            "linux-i2c"@,
            "linux-spi"@,
            "linux-uart"@,
            "linux-usb"@,
        ]);
        r
    }
}

} // verus!
