//! The Linux backend: where it looks for devices, how its transports are
//! tuned, the bus interfaces it serves and the discovery probes it runs.
use crate::config::LinuxTransportConfig;
use crate::paths::LinuxPaths;
use vstd::prelude::*;

verus! {

/// The bus families that Lemnos models.
#[derive(Debug, Clone, Copy, PartialEq, Eq, Structural)]
pub enum InterfaceKind {
    Gpio,
    Pwm,
    I2c,
    Spi,
    Uart,
    Usb,
}

/// Every bus family, in the order the backend lists them.
pub open spec fn all_interfaces() -> Seq<InterfaceKind> {
    seq![
        InterfaceKind::Gpio,
        InterfaceKind::Pwm,
        InterfaceKind::I2c,
        InterfaceKind::Spi,
        InterfaceKind::Uart,
        InterfaceKind::Usb,
    ]
}

/// The backend's name in session metadata and errors.
pub const BACKEND_NAME: &'static str = "linux";

/// The Linux backend: filesystem roots and transport configuration.
#[derive(Debug, Clone, PartialEq, Eq)]
pub struct LinuxBackend {
    paths: LinuxPaths,
    transport_config: LinuxTransportConfig,
}

impl LinuxBackend {
    pub closed spec fn spec_paths(&self) -> LinuxPaths {
        self.paths
    }

    pub closed spec fn spec_transport_config(&self) -> LinuxTransportConfig {
        self.transport_config
    }

    /// The standard roots and the default transport configuration.
    pub fn new() -> (r: Self)
        ensures
            r.spec_paths().sys_class_root@ == "/sys/class"@,
            r.spec_paths().sys_bus_root@ == "/sys/bus"@,
            r.spec_paths().dev_root@ == "/dev"@,
            r.spec_transport_config().uart_default_baud_rate == 115_200,
            r.spec_transport_config().uart_timeout_ms == 50,
            r.spec_transport_config().usb_timeout_ms == 100,
            r.spec_transport_config().sysfs_export_retries == 10,
            r.spec_transport_config().sysfs_export_delay_ms == 10,
    {
        LinuxBackend { paths: LinuxPaths::new(), transport_config: LinuxTransportConfig::new() }
    }

    /// Custom roots with the default transport configuration.
    pub fn with_paths(paths: LinuxPaths) -> (r: Self)
        ensures
            r.spec_paths() == paths,
            r.spec_transport_config().uart_default_baud_rate == 115_200,
            r.spec_transport_config().uart_timeout_ms == 50,
            r.spec_transport_config().usb_timeout_ms == 100,
            r.spec_transport_config().sysfs_export_retries == 10,
            r.spec_transport_config().sysfs_export_delay_ms == 10,
    {
        LinuxBackend { paths, transport_config: LinuxTransportConfig::new() }
    }

    /// The standard roots with a custom transport configuration.
    pub fn with_config(transport_config: LinuxTransportConfig) -> (r: Self)
        ensures
            r.spec_paths().sys_class_root@ == "/sys/class"@,
            r.spec_paths().sys_bus_root@ == "/sys/bus"@,
            r.spec_paths().dev_root@ == "/dev"@,
            r.spec_transport_config() == transport_config,
    {
        LinuxBackend { paths: LinuxPaths::new(), transport_config }
    }

    pub fn with_paths_and_config(paths: LinuxPaths, transport_config: LinuxTransportConfig) -> (r:
        Self)
        ensures
            r.spec_paths() == paths,
            r.spec_transport_config() == transport_config,
    {
        LinuxBackend { paths, transport_config }
    }

    pub fn paths(&self) -> (r: &LinuxPaths)
        ensures
            *r == self.spec_paths(),
    {
        &self.paths
    }

    pub fn transport_config(&self) -> (r: &LinuxTransportConfig)
        ensures
            *r == self.spec_transport_config(),
    {
        &self.transport_config
    }

    /// `"linux"`.
    pub fn name(&self) -> (r: &'static str)
        ensures
            r@ == BACKEND_NAME@,
    {
        BACKEND_NAME
    }

    /// The interfaces this backend opens sessions for: all six families.
    pub fn supported_interfaces() -> (r: Vec<InterfaceKind>)
        ensures
            r@ == all_interfaces(),
    {
        let r = vec![
            InterfaceKind::Gpio,
            InterfaceKind::Pwm,
            InterfaceKind::I2c,
            InterfaceKind::Spi,
            InterfaceKind::Uart,
            InterfaceKind::Usb,
        ];
        assert(r@ =~= all_interfaces());
        r
    }

    /// The interfaces planned for this backend: the same as those supported.
    pub fn planned_interfaces() -> (r: Vec<InterfaceKind>)
        ensures
            r@ == all_interfaces(),
    {
        Self::supported_interfaces()
    }
}

impl Default for LinuxBackend {
    /// The backend `new` gives.
    fn default() -> (r: Self)
        ensures
            r.spec_paths().sys_class_root@ == "/sys/class"@,
            r.spec_paths().sys_bus_root@ == "/sys/bus"@,
            r.spec_paths().dev_root@ == "/dev"@,
            r.spec_transport_config().uart_default_baud_rate == 115_200,
            r.spec_transport_config().uart_timeout_ms == 50,
            r.spec_transport_config().usb_timeout_ms == 100,
            r.spec_transport_config().sysfs_export_retries == 10,
            r.spec_transport_config().sysfs_export_delay_ms == 10,
    {
        Self::new()
    }
}

} // verus!
