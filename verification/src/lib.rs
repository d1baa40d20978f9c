//! Linux hardware discovery and transport logic for the Lemnos workspace:
//! sysfs name parsing, path layout, runtime transport configuration and the
//! decision logic of the GPIO, PWM, I2C, SPI, UART and USB transports.
#![allow(unused_imports)]

pub mod text;
pub mod util;
pub mod paths;
pub mod config;
pub mod pwm;
pub mod gpio;
pub mod cdev;
pub mod backend;
pub mod errors;
pub mod i2c;
pub mod session;
pub mod spi;
pub mod uart;
pub mod usb;
pub mod discovery;
pub mod descriptor;
pub mod usb_discovery;
pub mod class_discovery;
pub mod chip_discovery;
pub mod port_discovery;
pub mod bus_discovery;
pub mod targets;
pub mod annotations;
pub mod configured;
pub mod hotplug;

pub use backend::{InterfaceKind, LinuxBackend};
pub use config::LinuxTransportConfig;
pub use discovery::{
    GpioDiscoveryProbe, HwmonDiscoveryProbe, I2cDiscoveryProbe, LedDiscoveryProbe, PwmDiscoveryProbe,
    SpiDiscoveryProbe, UartDiscoveryProbe, UsbDiscoveryProbe,
};
pub use paths::LinuxPaths;
