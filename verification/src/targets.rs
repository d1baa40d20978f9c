//! Which descriptors the Linux transports serve, and what each transport
//! opens for one: the address it reads from the descriptor and the device
//! node it uses (the descriptor's `devnode` property, else the standard
//! node for the address).
use crate::backend::{InterfaceKind, LinuxBackend};
use crate::descriptor::{
    opt_string_view, spec_kind_interface, AddressView, DescriptorView, DeviceAddress, DeviceDescriptor, DeviceKind,
    Value, ValueView,
};
use crate::paths::{path_join, spec_pwm_chip_root, LinuxPaths};
use crate::bus_discovery::{spec_i2c_device_descriptor, spec_spi_device_descriptor, I2cDeviceFacts, SpiDeviceFacts};
use crate::chip_discovery::{spec_gpio_line_descriptor, spec_pwm_channel_descriptor, GpioChipDataView, PwmChipDataView};
use crate::port_discovery::{spec_uart_descriptor, UartPortFacts};
use crate::usb_discovery::{
    spec_usb_device_descriptor, spec_usb_interface_descriptor, UsbDeviceFacts, UsbInterfaceFacts, UsbInterfacePlaceView,
};
use crate::text::{copy_bytes, dec_digits, str_eq, zero_pad};
use vstd::prelude::*;

verus! {

/// The text of the latest property `key`, where it is text.
pub open spec fn string_property(props: Seq<(Seq<char>, ValueView)>, key: Seq<char>) -> Option<Seq<char>>
    decreases props.len(),
{
    if props.len() == 0 {
        None
    } else if props.last().0 == key {
        match props.last().1 {
            ValueView::Text(s) => Some(s),
            _ => None,
        }
    } else {
        string_property(props.drop_last(), key)
    }
}

/// The text of the latest property `key` of a descriptor.
pub fn descriptor_string_property(d: &DeviceDescriptor, key: &str) -> (r: Option<String>)
    ensures
        opt_string_view(r) == string_property(d@.properties, key@),
{
    let ghost props = d@.properties;
    let mut i: usize = d.properties.len();
    assert(props.take(props.len() as int) =~= props);
    while i > 0
        invariant
            i <= d.properties@.len(),
            props == d@.properties,
            props.len() == d.properties@.len(),
            string_property(props, key@) == string_property(props.take(i as int), key@),
        decreases i,
    {
        i = i - 1;
        let ghost t = props.take(i as int + 1);
        assert(t.drop_last() =~= props.take(i as int));
        assert(t.last() == props[i as int]);
        assert(props[i as int] == (d.properties@[i as int].0@, d.properties@[i as int].1@));
        if str_eq(d.properties[i].0.as_str(), key) {
            return match &d.properties[i].1 {
                Value::Text(s) => Some(s.clone()),
                _ => None,
            };
        }
    }
    assert(props.take(0) =~= Seq::<(Seq<char>, ValueView)>::empty());
    None
}

/// The device node recorded in a descriptor (its `devnode` property).
pub fn descriptor_devnode(d: &DeviceDescriptor) -> (r: Option<String>)
    ensures
        opt_string_view(r) == string_property(d@.properties, "devnode"@),
{
    descriptor_string_property(d, "devnode")
}

/// The bound driver recorded in a descriptor (its `driver` property).
pub fn descriptor_driver(d: &DeviceDescriptor) -> (r: Option<String>)
    ensures
        opt_string_view(r) == string_property(d@.properties, "driver"@),
{
    descriptor_string_property(d, "driver")
}

/// The chip and offset of a GPIO line's address.
pub fn gpio_line_address(d: &DeviceDescriptor) -> (r: Option<(String, u32)>)
    ensures
        match (r, d@.address) {
            (Some((c, o)), Some(AddressView::GpioLine { chip_name, offset })) => c@ == chip_name && o == offset,
            (None, Some(AddressView::GpioLine { .. })) => false,
            (Some(_), _) => false,
            (None, _) => true,
        },
{
    match &d.address {
        Some(DeviceAddress::GpioLine { chip_name, offset }) => Some((chip_name.clone(), *offset)),
        _ => None,
    }
}

/// The chip and channel of a PWM channel's address.
pub fn pwm_channel_address(d: &DeviceDescriptor) -> (r: Option<(String, u32)>)
    ensures
        match (r, d@.address) {
            (Some((c, n)), Some(AddressView::PwmChannel { chip_name, channel })) => c@ == chip_name && n == channel,
            (None, Some(AddressView::PwmChannel { .. })) => false,
            (Some(_), _) => false,
            (None, _) => true,
        },
{
    match &d.address {
        Some(DeviceAddress::PwmChannel { chip_name, channel }) => Some((chip_name.clone(), *channel)),
        _ => None,
    }
}

/// The bus and address of an I2C device's address.
pub fn i2c_bus_address(d: &DeviceDescriptor) -> (r: Option<(u32, u16)>)
    ensures
        r == match d@.address {
            Some(AddressView::I2cDevice { bus, address }) => Some((bus, address)),
            _ => None,
        },
{
    match &d.address {
        Some(DeviceAddress::I2cDevice { bus, address }) => Some((*bus, *address)),
        _ => None,
    }
}

/// The bus and chip select of an SPI device's address.
pub fn spi_bus_chip_select(d: &DeviceDescriptor) -> (r: Option<(u32, u16)>)
    ensures
        r == match d@.address {
            Some(AddressView::SpiDevice { bus, chip_select }) => Some((bus, chip_select)),
            _ => None,
        },
{
    match &d.address {
        Some(DeviceAddress::SpiDevice { bus, chip_select }) => Some((*bus, *chip_select)),
        _ => None,
    }
}

/// The port name of a serial port's address.
pub fn uart_port_name(d: &DeviceDescriptor) -> (r: Option<String>)
    ensures
        opt_string_view(r) == match d@.address {
            Some(AddressView::UartPort { port }) => Some(port),
            _ => None,
        },
{
    match &d.address {
        Some(DeviceAddress::UartPort { port }) => Some(port.clone()),
        _ => None,
    }
}

/// The bus and port path of a USB device's or interface's address.
pub fn usb_bus_ports(d: &DeviceDescriptor) -> (r: Option<(u16, Vec<u8>)>)
    ensures
        match (r, d@.address) {
            (Some((b, p)), Some(AddressView::UsbDevice { bus, ports, .. })) => b == bus && p@ == ports,
            (Some((b, p)), Some(AddressView::UsbInterface { bus, ports, .. })) => b == bus && p@ == ports,
            (None, Some(AddressView::UsbDevice { .. })) => false,
            (None, Some(AddressView::UsbInterface { .. })) => false,
            (Some(_), _) => false,
            (None, _) => true,
        },
{
    match &d.address {
        Some(DeviceAddress::UsbDevice { bus, ports, .. }) => Some((*bus, copy_bytes(ports.as_slice()))),
        Some(DeviceAddress::UsbInterface { bus, ports, .. }) => Some((*bus, copy_bytes(ports.as_slice()))),
        _ => None,
    }
}

/// Whether a transport of this backend serves a descriptor: a GPIO line, a
/// PWM channel, an I2C device, an SPI device, a serial port, or a USB
/// device or interface, each with an address of its own kind.
pub open spec fn spec_supports(d: DescriptorView) -> bool {
    match (d.kind, d.address) {
        (DeviceKind::GpioLine, Some(AddressView::GpioLine { .. })) => true,
        (DeviceKind::PwmChannel, Some(AddressView::PwmChannel { .. })) => true,
        (DeviceKind::I2cDevice, Some(AddressView::I2cDevice { .. })) => true,
        (DeviceKind::SpiDevice, Some(AddressView::SpiDevice { .. })) => true,
        (DeviceKind::UartPort, Some(AddressView::UartPort { .. })) => true,
        (DeviceKind::UsbDevice, Some(AddressView::UsbDevice { .. })) => true,
        (DeviceKind::UsbDevice, Some(AddressView::UsbInterface { .. })) => true,
        (DeviceKind::UsbInterface, Some(AddressView::UsbDevice { .. })) => true,
        (DeviceKind::UsbInterface, Some(AddressView::UsbInterface { .. })) => true,
        _ => false,
    }
}

/// Whether the GPIO transport serves a descriptor.
pub fn supports_gpio(d: &DeviceDescriptor) -> (r: bool)
    ensures
        r == (d@.kind == DeviceKind::GpioLine && d@.address matches Some(AddressView::GpioLine { .. })),
{
    d.kind == DeviceKind::GpioLine && gpio_line_address(d).is_some()
}

/// Whether the PWM transport serves a descriptor.
pub fn supports_pwm(d: &DeviceDescriptor) -> (r: bool)
    ensures
        r == (d@.kind == DeviceKind::PwmChannel && d@.address matches Some(AddressView::PwmChannel { .. })),
{
    d.kind == DeviceKind::PwmChannel && pwm_channel_address(d).is_some()
}

/// Whether the I2C transport serves a descriptor.
pub fn supports_i2c(d: &DeviceDescriptor) -> (r: bool)
    ensures
        r == (d@.kind == DeviceKind::I2cDevice && d@.address matches Some(AddressView::I2cDevice { .. })),
{
    d.kind == DeviceKind::I2cDevice && i2c_bus_address(d).is_some()
}

/// Whether the SPI transport serves a descriptor.
pub fn supports_spi(d: &DeviceDescriptor) -> (r: bool)
    ensures
        r == (d@.kind == DeviceKind::SpiDevice && d@.address matches Some(AddressView::SpiDevice { .. })),
{
    d.kind == DeviceKind::SpiDevice && spi_bus_chip_select(d).is_some()
}

/// Whether the UART transport serves a descriptor.
pub fn supports_uart(d: &DeviceDescriptor) -> (r: bool)
    ensures
        r == (d@.kind == DeviceKind::UartPort && d@.address matches Some(AddressView::UartPort { .. })),
{
    d.kind == DeviceKind::UartPort && uart_port_name(d).is_some()
}

/// Whether the USB transport serves a descriptor.
pub fn supports_usb(d: &DeviceDescriptor) -> (r: bool)
    ensures
        r == ((d@.kind == DeviceKind::UsbDevice || d@.kind == DeviceKind::UsbInterface) && (d@.address matches Some(
            AddressView::UsbDevice { .. },
        ) || d@.address matches Some(AddressView::UsbInterface { .. }))),
{
    (d.kind == DeviceKind::UsbDevice || d.kind == DeviceKind::UsbInterface) && usb_bus_ports(d).is_some()
}

impl LinuxBackend {
    /// Whether any transport of this backend serves a descriptor.
    pub fn supports_device(&self, d: &DeviceDescriptor) -> (r: bool)
        ensures
            r == spec_supports(d@),
    {
        supports_gpio(d) || supports_pwm(d) || supports_i2c(d) || supports_spi(d) || supports_uart(d)
            || supports_usb(d)
    }
}

/// The recorded device node, else `fallback`.
pub open spec fn node_or(d: DescriptorView, fallback: Seq<char>) -> Seq<char> {
    match string_property(d.properties, "devnode"@) {
        Some(n) => n,
        None => fallback,
    }
}

/// What the I2C transport opens for a device: its bus and address and its
/// node, `<dev>/i2c-{bus}` unless the descriptor records one; none for a
/// descriptor it does not serve.
pub fn i2c_open_target(paths: &LinuxPaths, d: &DeviceDescriptor) -> (r: Option<(u32, u16, String)>)
    ensures
        match r {
            Some((bus, address, node)) => spec_supports(d@) && d@.kind == DeviceKind::I2cDevice && d@.address
                == Some(AddressView::I2cDevice { bus, address }) && node@ == node_or(
                d@,
                path_join(paths.dev_root@, "i2c-"@ + dec_digits(bus as nat)),
            ),
            None => !(d@.kind == DeviceKind::I2cDevice && d@.address matches Some(AddressView::I2cDevice { .. })),
        },
{
    if !supports_i2c(d) {
        return None;
    }
    let (bus, address) = match i2c_bus_address(d) {
        Some(t) => t,
        None => { return None; },
    };
    let node = match descriptor_devnode(d) {
        Some(n) => n,
        None => paths.i2c_devnode(bus),
    };
    Some((bus, address, node))
}

/// What the I2C controller transport opens for bus `bus` on behalf of
/// `owner`: the owner's recorded node, else `<dev>/i2c-{bus}`; none where
/// the owner is not an I2C device.
pub fn i2c_controller_devnode(paths: &LinuxPaths, owner: &DeviceDescriptor, bus: u32) -> (r: Option<String>)
    ensures
        spec_kind_interface(owner@.kind) != InterfaceKind::I2c ==> r is None,
        spec_kind_interface(owner@.kind) == InterfaceKind::I2c ==> (r matches Some(n) && n@ == node_or(
            owner@,
            path_join(paths.dev_root@, "i2c-"@ + dec_digits(bus as nat)),
        )),
{
    if owner.interface() != InterfaceKind::I2c {
        return None;
    }
    match descriptor_devnode(owner) {
        Some(n) => Some(n),
        None => Some(paths.i2c_devnode(bus)),
    }
}

/// What the SPI transport opens for a device.
pub fn spi_open_target(paths: &LinuxPaths, d: &DeviceDescriptor) -> (r: Option<(u32, u16, String)>)
    ensures
        match r {
            Some((bus, chip_select, node)) => d@.kind == DeviceKind::SpiDevice && d@.address == Some(
                AddressView::SpiDevice { bus, chip_select },
            ) && node@ == node_or(
                d@,
                path_join(
                    paths.dev_root@,
                    "spidev"@ + dec_digits(bus as nat) + seq!['.'] + dec_digits(chip_select as nat),
                ),
            ),
            None => !(d@.kind == DeviceKind::SpiDevice && d@.address matches Some(AddressView::SpiDevice { .. })),
        },
{
    if !supports_spi(d) {
        return None;
    }
    let (bus, chip_select) = match spi_bus_chip_select(d) {
        Some(t) => t,
        None => { return None; },
    };
    let node = match descriptor_devnode(d) {
        Some(n) => n,
        None => paths.spi_devnode(bus, chip_select),
    };
    Some((bus, chip_select, node))
}

/// What the UART transport opens for a port: its name and its node,
/// `<dev>/{port}` unless the descriptor records one.
pub fn uart_open_target(paths: &LinuxPaths, d: &DeviceDescriptor) -> (r: Option<(String, String)>)
    ensures
        match r {
            Some((port, node)) => d@.kind == DeviceKind::UartPort && d@.address == Some(
                AddressView::UartPort { port: port@ },
            ) && node@ == node_or(d@, path_join(paths.dev_root@, port@)),
            None => !(d@.kind == DeviceKind::UartPort && d@.address matches Some(AddressView::UartPort { .. })),
        },
{
    if !supports_uart(d) {
        return None;
    }
    let port = match uart_port_name(d) {
        Some(p) => p,
        None => { return None; },
    };
    let node = match descriptor_devnode(d) {
        Some(n) => n,
        None => paths.tty_devnode(port.as_str()),
    };
    Some((port, node))
}

/// The node of the chip of a GPIO line, for the character-device
/// transport: the recorded node, else `<dev>/{chip}`.
pub fn gpio_chip_devnode(paths: &LinuxPaths, d: &DeviceDescriptor) -> (r: Option<String>)
    ensures
        match string_property(d@.properties, "devnode"@) {
            Some(n) => r matches Some(s) && s@ == n,
            None => match d@.address {
                Some(AddressView::GpioLine { chip_name, .. }) => r matches Some(s) && s@ == path_join(
                    paths.dev_root@,
                    chip_name,
                ),
                _ => r is None,
            },
        },
{
    if let Some(n) = descriptor_devnode(d) {
        return Some(n);
    }
    match gpio_line_address(d) {
        Some((chip, _)) => Some(paths.gpio_devnode(chip.as_str())),
        None => None,
    }
}

/// What the PWM transport opens for a channel: the chip, the channel and
/// the channel's directory.
pub fn pwm_open_target(paths: &LinuxPaths, d: &DeviceDescriptor) -> (r: Option<(String, u32, String)>)
    ensures
        match r {
            Some((chip, channel, root)) => d@.address == Some(AddressView::PwmChannel { chip_name: chip@, channel })
                && root@ == path_join(spec_pwm_chip_root(*paths, chip@), "pwm"@ + dec_digits(channel as nat)),
            None => !(d@.address matches Some(AddressView::PwmChannel { .. })),
        },
{
    match pwm_channel_address(d) {
        Some((chip, channel)) => {
            let root = paths.pwm_channel_root(chip.as_str(), channel);
            Some((chip, channel, root))
        },
        None => None,
    }
}

/// What discovery describes as a line, a channel, a device on a bus, a
/// port or a USB device or interface, a transport of this backend serves:
/// each such descriptor carries the typed address its transport opens.
pub proof fn law_discovered_endpoints_are_supported(
    paths: LinuxPaths,
    gpio_chip: GpioChipDataView,
    offset: u32,
    pwm_chip: PwmChipDataView,
    channel: u32,
    bus_id: Seq<char>,
    bus: u32,
    address: u16,
    i2c: I2cDeviceFacts,
    chip_select: u16,
    spi: SpiDeviceFacts,
    uart: UartPortFacts,
    usb_bus: u16,
    ports: Seq<u8>,
    usb: UsbDeviceFacts,
    place: UsbInterfacePlaceView,
    interface: UsbInterfaceFacts,
)
    ensures
        spec_supports(spec_gpio_line_descriptor(gpio_chip, offset)),
        spec_supports(spec_pwm_channel_descriptor(pwm_chip, channel)),
        spec_supports(spec_i2c_device_descriptor(paths, bus_id, bus, address, i2c)),
        spec_supports(spec_spi_device_descriptor(paths, bus_id, bus, chip_select, spi)),
        spec_supports(spec_uart_descriptor(paths, uart)),
        spec_supports(
            spec_usb_device_descriptor(
                paths,
                bus_id,
                usb_bus,
                ports,
                usb.kernel_name@,
                usb.sysfs_path@,
                usb.vendor_id->Ok_0,
                usb.product_id->Ok_0,
                usb.device_number->Ok_0,
                opt_string_view(usb.modalias->Ok_0),
                opt_string_view(usb.manufacturer->Ok_0),
                opt_string_view(usb.product->Ok_0),
                opt_string_view(usb.serial_number->Ok_0),
                usb.devnode_exists,
            ),
        ),
        spec_supports(spec_usb_interface_descriptor(place, interface)),
{
}

} // verus!
