//! USB discovery: the descriptors of buses, devices and interfaces found
//! under `/sys/bus/usb/devices`, and the walk that ties each interface to
//! its device and each device to its bus.
use crate::descriptor::{
    opt_string_view, optional_property, read_failure_note, root_missing_note, spec_root_missing_note, spec_read_failure_note, spec_started, text, text_of,
    text_value,
    AddressView, CapabilityAccess, DescriptorView, ProbeDiscovery, described_before, lemma_described_push,
    lemma_parents_described_push, parents_described, descriptors_view, strings_view, DeviceAddress, DeviceDescriptor, DeviceHealth, DeviceKind, Value,
    ValueView,
};
use crate::paths::{path_join, LinuxPaths};
use crate::text::{copy_bytes, dec_digits, hex_digits, push_dec, push_hex_padded, push_str_chars, string_from_chars, zero_pad};
use crate::util::{
    parse_usb_bus_name, parse_usb_device_name, parse_usb_interface_name, ports_display, ports_label,
    spec_parse_usb_bus_name, spec_parse_usb_device_name, spec_parse_usb_interface_name, spec_ports_joined,
    spec_usb_device_key, usb_device_key,
};
use vstd::prelude::*;

verus! {

/// What was read from the sysfs directory of a USB device. Each attribute
/// is `Ok(None)` where the file is absent, `Err(message)` where reading it
/// failed.
pub struct UsbDeviceFacts {
    /// The directory's name, such as `1-1.4`.
    pub kernel_name: String,
    pub sysfs_path: String,
    pub vendor_id: Result<Option<u16>, String>,
    pub product_id: Result<Option<u16>, String>,
    pub device_number: Result<Option<u32>, String>,
    pub modalias: Result<Option<String>, String>,
    pub manufacturer: Result<Option<String>, String>,
    pub product: Result<Option<String>, String>,
    pub serial_number: Result<Option<String>, String>,
    /// Whether the usbfs node of the device (`usb_bus_devnode`) exists.
    pub devnode_exists: bool,
}

/// The requests a USB device or interface offers.
pub open spec fn spec_usb_capabilities() -> Seq<(Seq<char>, CapabilityAccess)> {
    seq![
        ("usb.control_transfer"@, CapabilityAccess::ReadWrite),
        ("usb.bulk_read"@, CapabilityAccess::Read),
        ("usb.bulk_write"@, CapabilityAccess::Write),
        ("usb.interrupt_read"@, CapabilityAccess::Read),
        ("usb.interrupt_write"@, CapabilityAccess::Write),
        ("usb.claim_interface"@, CapabilityAccess::Configure),
        ("usb.release_interface"@, CapabilityAccess::Configure),
    ]
}

fn add_usb_capabilities(d: &mut DeviceDescriptor)
    ensures
        final(d)@ == (DescriptorView {
            capabilities: old(d)@.capabilities + spec_usb_capabilities(),
            ..old(d)@
        }),
{
    let ghost before = d@;
    d.add_capability("usb.control_transfer", CapabilityAccess::ReadWrite);
    d.add_capability("usb.bulk_read", CapabilityAccess::Read);
    d.add_capability("usb.bulk_write", CapabilityAccess::Write);
    d.add_capability("usb.interrupt_read", CapabilityAccess::Read);
    d.add_capability("usb.interrupt_write", CapabilityAccess::Write);
    d.add_capability("usb.claim_interface", CapabilityAccess::Configure);
    d.add_capability("usb.release_interface", CapabilityAccess::Configure);
    assert(d@.capabilities =~= before.capabilities + spec_usb_capabilities());
}

pub open spec fn opt_u16_hex(v: Option<u16>) -> Option<Seq<char>> {
    match v {
        Some(v) => Some(zero_pad(hex_digits(v as nat), 4)),
        None => None,
    }
}

pub open spec fn opt_u16_value(v: Option<u16>) -> Option<ValueView> {
    match v {
        Some(v) => Some(ValueView::U64(v as u64)),
        None => None,
    }
}

pub open spec fn opt_u32_value(v: Option<u32>) -> Option<ValueView> {
    match v {
        Some(v) => Some(ValueView::U64(v as u64)),
        None => None,
    }
}

/// `linux.usb.bus{bus}.ports{ports joined by '_'}`.
pub open spec fn spec_usb_device_id(bus: u16, ports: Seq<u8>) -> Seq<char> {
    "linux.usb.bus"@ + dec_digits(bus as nat) + ".ports"@ + spec_ports_joined(ports, '_')
}

/// `usb-{bus}-{ports joined by '.'}`.
pub open spec fn spec_usb_device_display_name(bus: u16, ports: Seq<u8>) -> Seq<char> {
    "usb-"@ + dec_digits(bus as nat) + "-"@ + spec_ports_joined(ports, '.')
}

/// The usbfs node of device `device_number` on `bus`, where the number
/// fits a `u16` and the node exists.
pub open spec fn spec_usb_devnode(paths: LinuxPaths, bus: u16, device_number: Option<u32>, exists: bool) -> Option<Seq<char>> {
    match device_number {
        Some(n) => if n <= u16::MAX && exists {
            Some(
                path_join(
                    path_join(
                        path_join(path_join(paths.dev_root@, "bus"@), "usb"@),
                        zero_pad(dec_digits(bus as nat), 3),
                    ),
                    zero_pad(dec_digits(n as nat), 3),
                ),
            )
        } else {
            None
        },
        None => None,
    }
}

/// A device is degraded where it has no device number, or where its
/// number fits a `u16` but its usbfs node is missing.
pub open spec fn spec_usb_device_health(device_number: Option<u32>, exists: bool) -> DeviceHealth {
    match device_number {
        Some(n) => if n <= u16::MAX && !exists {
            DeviceHealth::Degraded
        } else {
            DeviceHealth::Healthy
        },
        None => DeviceHealth::Degraded,
    }
}

pub open spec fn usb_id_properties(vendor_id: Option<u16>, product_id: Option<u16>) -> Seq<(Seq<char>, ValueView)> {
    optional_property("vendor_id"@, opt_u16_value(vendor_id)) + optional_property(
        "product_id"@,
        opt_u16_value(product_id),
    )
}

pub open spec fn usb_text_properties(modalias: Option<Seq<char>>, manufacturer: Option<Seq<char>>, product: Option<Seq<char>>) -> Seq<
    (Seq<char>, ValueView),
> {
    optional_property("modalias"@, text_value(modalias)) + optional_property(
        "manufacturer"@,
        text_value(manufacturer),
    ) + optional_property("product"@, text_value(product))
}

pub open spec fn usb_number_properties(paths: LinuxPaths, bus: u16, device_number: Option<u32>, exists: bool) -> Seq<
    (Seq<char>, ValueView),
> {
    optional_property("device_number"@, opt_u32_value(device_number)) + optional_property(
        "devnode"@,
        text_value(spec_usb_devnode(paths, bus, device_number, exists)),
    )
}

/// The descriptor of a USB device whose attributes were all read.
pub open spec fn spec_usb_device_descriptor(
    paths: LinuxPaths,
    bus_id: Seq<char>,
    bus: u16,
    ports: Seq<u8>,
    kernel_name: Seq<char>,
    sysfs_path: Seq<char>,
    vendor_id: Option<u16>,
    product_id: Option<u16>,
    device_number: Option<u32>,
    modalias: Option<Seq<char>>,
    manufacturer: Option<Seq<char>>,
    product: Option<Seq<char>>,
    serial_number: Option<Seq<char>>,
    devnode_exists: bool,
) -> DescriptorView {
    DescriptorView {
        id: spec_usb_device_id(bus, ports),
        kind: DeviceKind::UsbDevice,
        display_name: Some(spec_usb_device_display_name(bus, ports)),
        summary: Some("Linux USB device"@),
        address: Some(
            AddressView::UsbDevice { bus, ports, vendor_id, product_id },
        ),
        driver_hint: Some("lemnos.usb.generic"@),
        vendor: opt_u16_hex(vendor_id),
        model: opt_u16_hex(product_id),
        serial_number,
        modalias,
        health: spec_usb_device_health(device_number, devnode_exists),
        control_root: None,
        labels: seq![("backend"@, "linux"@), ("bus"@, dec_digits(bus as nat))],
        properties: seq![
            ("bus"@, ValueView::U64(bus as u64)),
            ("ports"@, ValueView::Text(spec_ports_joined(ports, '.'))),
            ("kernel_name"@, ValueView::Text(kernel_name)),
            ("sysfs_path"@, ValueView::Text(sysfs_path)),
        ] + usb_id_properties(vendor_id, product_id) + usb_text_properties(modalias, manufacturer, product)
            + usb_number_properties(paths, bus, device_number, devnode_exists),
        parents: seq![bus_id],
        capabilities: spec_usb_capabilities(),
    }
}

pub open spec fn opt_view(s: Option<String>) -> Option<Seq<char>> {
    opt_string_view(s)
}

/// The note of the first attribute of a USB device that could not be
/// read, in the order vendor ID, product ID, device number, modalias,
/// manufacturer, product, serial; none where all were read.
pub open spec fn spec_usb_device_read_failure(f: UsbDeviceFacts) -> Option<Seq<char>> {
    let name = f.kernel_name@;
    let path = f.sysfs_path@;
    if f.vendor_id is Err {
        Some(spec_read_failure_note("Linux USB vendor ID"@, name, path, f.vendor_id->Err_0@))
    } else if f.product_id is Err {
        Some(spec_read_failure_note("Linux USB product ID"@, name, path, f.product_id->Err_0@))
    } else if f.device_number is Err {
        Some(spec_read_failure_note("Linux USB device number"@, name, path, f.device_number->Err_0@))
    } else if f.modalias is Err {
        Some(spec_read_failure_note("Linux USB modalias"@, name, path, f.modalias->Err_0@))
    } else if f.manufacturer is Err {
        Some(spec_read_failure_note("Linux USB manufacturer"@, name, path, f.manufacturer->Err_0@))
    } else if f.product is Err {
        Some(spec_read_failure_note("Linux USB product"@, name, path, f.product->Err_0@))
    } else if f.serial_number is Err {
        Some(spec_read_failure_note("Linux USB serial"@, name, path, f.serial_number->Err_0@))
    } else {
        None
    }
}

/// What building the descriptor of a USB device gives: the note of the
/// first attribute that could not be read, else the descriptor.
pub open spec fn spec_build_usb_device(paths: LinuxPaths, bus_id: Seq<char>, bus: u16, ports: Seq<u8>, f: UsbDeviceFacts) -> Result<
    DescriptorView,
    Seq<char>,
> {
    match spec_usb_device_read_failure(f) {
        Some(note) => Err(note),
        None => Ok(
            spec_usb_device_descriptor(
                paths,
                bus_id,
                bus,
                ports,
                f.kernel_name@,
                f.sysfs_path@,
                f.vendor_id->Ok_0,
                f.product_id->Ok_0,
                f.device_number->Ok_0,
                opt_view(f.modalias->Ok_0),
                opt_view(f.manufacturer->Ok_0),
                opt_view(f.product->Ok_0),
                opt_view(f.serial_number->Ok_0),
                f.devnode_exists,
            ),
        ),
    }
}

/// The descriptor's id, display name and fixed fields.
fn start_usb_device(bus_id: &str, bus: u16, ports: &[u8], facts: &UsbDeviceFacts, vendor_id: Option<u16>, product_id: Option<u16>) -> (r:
    DeviceDescriptor)
    ensures
        r@ == (DescriptorView {
            display_name: Some(spec_usb_device_display_name(bus, ports@)),
            summary: Some("Linux USB device"@),
            address: Some(AddressView::UsbDevice { bus, ports: ports@, vendor_id, product_id }),
            driver_hint: Some("lemnos.usb.generic"@),
            labels: seq![("backend"@, "linux"@), ("bus"@, dec_digits(bus as nat))],
            properties: seq![
                ("bus"@, ValueView::U64(bus as u64)),
                ("ports"@, ValueView::Text(spec_ports_joined(ports@, '.'))),
                ("kernel_name"@, ValueView::Text(facts.kernel_name@)),
                ("sysfs_path"@, ValueView::Text(facts.sysfs_path@)),
            ],
            parents: seq![bus_id@],
            capabilities: spec_usb_capabilities(),
            ..spec_started(spec_usb_device_id(bus, ports@), DeviceKind::UsbDevice)
        }),
{
    let mut id: Vec<char> = Vec::new();
    push_str_chars(&mut id, "linux.usb.bus");
    push_dec(&mut id, bus as u64);
    push_str_chars(&mut id, ".ports");
    let label = ports_label(ports);
    push_str_chars(&mut id, label.as_str());
    assert(id@ =~= spec_usb_device_id(bus, ports@));
    let mut d = DeviceDescriptor::start(string_from_chars(id.as_slice()), DeviceKind::UsbDevice);
    add_usb_capabilities(&mut d);
    let mut name: Vec<char> = Vec::new();
    push_str_chars(&mut name, "usb-");
    push_dec(&mut name, bus as u64);
    push_str_chars(&mut name, "-");
    let shown = ports_display(ports);
    push_str_chars(&mut name, shown.as_str());
    assert(name@ =~= spec_usb_device_display_name(bus, ports@));
    d.display_name = Some(string_from_chars(name.as_slice()));
    d.summary = Some("Linux USB device".to_owned());
    d.address = Some(DeviceAddress::UsbDevice { bus, ports: copy_bytes(ports), vendor_id, product_id });
    d.driver_hint = Some("lemnos.usb.generic".to_owned());
    d.add_label("backend", "linux".to_owned());
    let mut bus_text: Vec<char> = Vec::new();
    push_dec(&mut bus_text, bus as u64);
    d.add_label("bus", string_from_chars(bus_text.as_slice()));
    d.add_property("bus", Value::U64(bus as u64));
    d.add_property("ports", text(shown));
    d.add_property("kernel_name", text(facts.kernel_name.clone()));
    d.add_property("sysfs_path", text(facts.sysfs_path.clone()));
    d.add_parent(bus_id.to_owned());
    assert(d@.labels =~= seq![("backend"@, "linux"@), ("bus"@, dec_digits(bus as nat))]);
    assert(d@.properties =~= seq![
                ("bus"@, ValueView::U64(bus as u64)),
                ("ports"@, ValueView::Text(spec_ports_joined(ports@, '.'))),
                ("kernel_name"@, ValueView::Text(facts.kernel_name@)),
                ("sysfs_path"@, ValueView::Text(facts.sysfs_path@)),
            ]);
    assert(d@.parents =~= seq![bus_id@]);
    assert(d@.capabilities =~= spec_usb_capabilities());
    assert(d@.id == spec_usb_device_id(bus, ports@));
    assert(d@.display_name == Some(spec_usb_device_display_name(bus, ports@)));
    assert(d@.summary == Some("Linux USB device"@));
    assert(d@.address == Some(AddressView::UsbDevice { bus, ports: ports@, vendor_id, product_id }));
    d
}

/// `{n:04x}`.
fn hex4(n: u16) -> (r: String)
    ensures
        r@ == zero_pad(hex_digits(n as nat), 4),
{
    let mut out: Vec<char> = Vec::new();
    push_hex_padded(&mut out, n as u64, 4);
    assert(out@ =~= zero_pad(hex_digits(n as nat), 4));
    string_from_chars(out.as_slice())
}

fn clone_opt(s: &Option<String>) -> (r: Option<String>)
    ensures
        opt_string_view(r) == opt_string_view(*s),
{
    match s {
        Some(s) => Some(s.clone()),
        None => None,
    }
}

/// The attributes of a USB device once all were read.
pub struct UsbDeviceAttributes {
    pub vendor_id: Option<u16>,
    pub product_id: Option<u16>,
    pub device_number: Option<u32>,
    pub modalias: Option<String>,
    pub manufacturer: Option<String>,
    pub product: Option<String>,
    pub serial_number: Option<String>,
}

fn usb_device_attributes(f: &UsbDeviceFacts) -> (r: Result<UsbDeviceAttributes, String>)
    ensures
        match (r, spec_usb_device_read_failure(*f)) {
            (Err(n), Some(m)) => n@ == m,
            (Ok(a), None) => {
                &&& f.vendor_id == Ok::<Option<u16>, String>(a.vendor_id)
                &&& f.product_id == Ok::<Option<u16>, String>(a.product_id)
                &&& f.device_number == Ok::<Option<u32>, String>(a.device_number)
                &&& f.modalias matches Ok(m) && opt_view(m) == opt_view(a.modalias)
                &&& f.manufacturer matches Ok(m) && opt_view(m) == opt_view(a.manufacturer)
                &&& f.product matches Ok(m) && opt_view(m) == opt_view(a.product)
                &&& f.serial_number matches Ok(m) && opt_view(m) == opt_view(a.serial_number)
            },
            _ => false,
        },
{
    let name = f.kernel_name.as_str();
    let path = f.sysfs_path.as_str();
    let vendor_id = match &f.vendor_id {
        Ok(v) => *v,
        Err(e) => { return Err(read_failure_note("Linux USB vendor ID", name, path, e.as_str())); },
    };
    let product_id = match &f.product_id {
        Ok(v) => *v,
        Err(e) => { return Err(read_failure_note("Linux USB product ID", name, path, e.as_str())); },
    };
    let device_number = match &f.device_number {
        Ok(v) => *v,
        Err(e) => { return Err(read_failure_note("Linux USB device number", name, path, e.as_str())); },
    };
    let modalias = match &f.modalias {
        Ok(v) => clone_opt(v),
        Err(e) => { return Err(read_failure_note("Linux USB modalias", name, path, e.as_str())); },
    };
    let manufacturer = match &f.manufacturer {
        Ok(v) => clone_opt(v),
        Err(e) => { return Err(read_failure_note("Linux USB manufacturer", name, path, e.as_str())); },
    };
    let product = match &f.product {
        Ok(v) => clone_opt(v),
        Err(e) => { return Err(read_failure_note("Linux USB product", name, path, e.as_str())); },
    };
    let serial_number = match &f.serial_number {
        Ok(v) => clone_opt(v),
        Err(e) => { return Err(read_failure_note("Linux USB serial", name, path, e.as_str())); },
    };
    Ok(UsbDeviceAttributes { vendor_id, product_id, device_number, modalias, manufacturer, product, serial_number })
}

fn add_usb_ids(d: &mut DeviceDescriptor, vendor_id: Option<u16>, product_id: Option<u16>)
    ensures
        final(d)@ == (DescriptorView {
            vendor: opt_u16_hex(vendor_id),
            model: opt_u16_hex(product_id),
            properties: old(d)@.properties + usb_id_properties(vendor_id, product_id),
            ..old(d)@
        }),
{
    let ghost before = d@;
    d.vendor = None;
    d.model = None;
    if let Some(v) = vendor_id {
        d.vendor = Some(hex4(v));
        d.add_property("vendor_id", Value::U64(v as u64));
    }
    if let Some(p) = product_id {
        d.model = Some(hex4(p));
        d.add_property("product_id", Value::U64(p as u64));
    }
    assert(d@.properties =~= before.properties + usb_id_properties(vendor_id, product_id));
}

fn add_usb_texts(d: &mut DeviceDescriptor, modalias: Option<String>, manufacturer: Option<String>, product: Option<String>, serial_number: Option<String>)
    ensures
        final(d)@ == (DescriptorView {
            modalias: opt_view(modalias),
            serial_number: opt_view(serial_number),
            properties: old(d)@.properties + usb_text_properties(
                opt_view(modalias),
                opt_view(manufacturer),
                opt_view(product),
            ),
            ..old(d)@
        }),
{
    let ghost before = d@;
    d.modalias = None;
    if let Some(m) = modalias {
        d.modalias = Some(m.clone());
        d.add_property("modalias", text(m));
    }
    if let Some(m) = manufacturer {
        d.add_property("manufacturer", text(m));
    }
    if let Some(p) = product {
        d.add_property("product", text(p));
    }
    d.serial_number = serial_number;
    assert(d@.properties =~= before.properties + usb_text_properties(
        opt_view(modalias),
        opt_view(manufacturer),
        opt_view(product),
    ));
}

fn add_usb_device_number(d: &mut DeviceDescriptor, paths: &LinuxPaths, bus: u16, device_number: Option<u32>, exists: bool)
    requires
        old(d)@.health == DeviceHealth::Healthy,
    ensures
        final(d)@ == (DescriptorView {
            health: spec_usb_device_health(device_number, exists),
            properties: old(d)@.properties + usb_number_properties(*paths, bus, device_number, exists),
            ..old(d)@
        }),
{
    let ghost before = d@;
    match device_number {
        Some(n) => {
            d.add_property("device_number", Value::U64(n as u64));
            if n <= 0xffff {
                if exists {
                    let node = paths.usb_bus_devnode(bus, n as u16);
                    d.add_property("devnode", text(node));
                } else {
                    d.health = DeviceHealth::Degraded;
                }
            }
        },
        None => {
            d.health = DeviceHealth::Degraded;
        },
    }
    assert(d@.properties =~= before.properties + usb_number_properties(*paths, bus, device_number, exists));
}

/// A USB device's descriptor names its vendor by the vendor ID and its
/// model by the product ID, each as four lower-case hex digits, and its
/// typed address carries the same two IDs: the model is never the vendor
/// repeated, and the texts always agree with the address.
pub proof fn law_usb_device_model_is_the_product_id(
    paths: LinuxPaths,
    bus_id: Seq<char>,
    bus: u16,
    ports: Seq<u8>,
    f: UsbDeviceFacts,
)
    ensures
        spec_build_usb_device(paths, bus_id, bus, ports, f) matches Ok(v) ==> {
            &&& v.address matches Some(AddressView::UsbDevice { vendor_id, product_id, .. })
            &&& v.address->Some_0->UsbDevice_vendor_id == f.vendor_id->Ok_0
            &&& v.address->Some_0->UsbDevice_product_id == f.product_id->Ok_0
            &&& v.model == match f.product_id->Ok_0 {
                Some(p) => Some(zero_pad(hex_digits(p as nat), 4)),
                None => None::<Seq<char>>,
            }
            &&& v.vendor == match f.vendor_id->Ok_0 {
                Some(x) => Some(zero_pad(hex_digits(x as nat), 4)),
                None => None::<Seq<char>>,
            }
        },
{
}

/// Builds the descriptor of the USB device `bus`-`ports` below the bus
/// descriptor `bus_id`.
pub fn build_usb_device_descriptor(paths: &LinuxPaths, bus_id: &str, bus: u16, ports: &[u8], facts: &UsbDeviceFacts) -> (r:
    Result<DeviceDescriptor, String>)
    ensures
        r matches Ok(d) ==> d@.model == (match facts.product_id {
            Ok(Some(p)) => Some(zero_pad(hex_digits(p as nat), 4)),
            _ => None,
        }),
        r matches Ok(d) ==> d@.vendor == (match facts.vendor_id {
            Ok(Some(v)) => Some(zero_pad(hex_digits(v as nat), 4)),
            _ => None,
        }),
        match (r, spec_build_usb_device(*paths, bus_id@, bus, ports@, *facts)) {
            (Ok(d), Ok(v)) => d@ == v,
            (Err(n), Err(m)) => n@ == m,
            _ => false,
        },
{
    let a = match usb_device_attributes(facts) {
        Ok(a) => a,
        Err(note) => { return Err(note); },
    };
    let mut d = start_usb_device(bus_id, bus, ports, facts, a.vendor_id, a.product_id);
    add_usb_ids(&mut d, a.vendor_id, a.product_id);
    add_usb_texts(&mut d, a.modalias, a.manufacturer, a.product, a.serial_number);
    add_usb_device_number(&mut d, paths, bus, a.device_number, facts.devnode_exists);
    Ok(d)
}

/// What was read from the sysfs directory of a USB interface.
pub struct UsbInterfaceFacts {
    /// The directory's name, such as `1-1.4:1.0`.
    pub kernel_name: String,
    pub sysfs_path: String,
    pub interface_number: Result<Option<u8>, String>,
    pub alternate_setting: Result<Option<u8>, String>,
    pub class_code: Result<Option<u8>, String>,
    pub subclass_code: Result<Option<u8>, String>,
    pub protocol_code: Result<Option<u8>, String>,
    /// The name the `driver` link points to.
    pub driver: Result<Option<String>, String>,
    pub modalias: Result<Option<String>, String>,
}

/// Where an interface sits, as its directory's name and its device give it.
pub struct UsbInterfacePlace {
    pub parent_device_id: String,
    pub bus: u16,
    pub ports: Vec<u8>,
    pub configuration_number: u8,
    /// The interface number in the directory's name.
    pub parsed_interface_number: u8,
    /// The vendor and product of the device.
    pub vendor_id: Option<u16>,
    pub product_id: Option<u16>,
}

pub struct UsbInterfacePlaceView {
    pub parent_device_id: Seq<char>,
    pub bus: u16,
    pub ports: Seq<u8>,
    pub configuration_number: u8,
    pub parsed_interface_number: u8,
    pub vendor_id: Option<u16>,
    pub product_id: Option<u16>,
}

impl View for UsbInterfacePlace {
    type V = UsbInterfacePlaceView;

    open spec fn view(&self) -> UsbInterfacePlaceView {
        UsbInterfacePlaceView {
            parent_device_id: self.parent_device_id@,
            bus: self.bus,
            ports: self.ports@,
            configuration_number: self.configuration_number,
            parsed_interface_number: self.parsed_interface_number,
            vendor_id: self.vendor_id,
            product_id: self.product_id,
        }
    }
}

/// The note of the first attribute of a USB interface that could not be
/// read, in the order interface number, alternate setting, class,
/// subclass, protocol, driver link, modalias.
pub open spec fn spec_usb_interface_read_failure(f: UsbInterfaceFacts) -> Option<Seq<char>> {
    let name = f.kernel_name@;
    let path = f.sysfs_path@;
    if f.interface_number is Err {
        Some(spec_read_failure_note("Linux USB interface number"@, name, path, f.interface_number->Err_0@))
    } else if f.alternate_setting is Err {
        Some(spec_read_failure_note("Linux USB alternate setting"@, name, path, f.alternate_setting->Err_0@))
    } else if f.class_code is Err {
        Some(spec_read_failure_note("Linux USB interface class"@, name, path, f.class_code->Err_0@))
    } else if f.subclass_code is Err {
        Some(spec_read_failure_note("Linux USB interface subclass"@, name, path, f.subclass_code->Err_0@))
    } else if f.protocol_code is Err {
        Some(spec_read_failure_note("Linux USB interface protocol"@, name, path, f.protocol_code->Err_0@))
    } else if f.driver is Err {
        Some(spec_read_failure_note("Linux USB interface driver link"@, name, path, f.driver->Err_0@))
    } else if f.modalias is Err {
        Some(spec_read_failure_note("Linux USB interface modalias"@, name, path, f.modalias->Err_0@))
    } else {
        None
    }
}

/// `linux.usb.bus{bus}.ports{ports joined by '_'}.if{n}`.
pub open spec fn spec_usb_interface_id(bus: u16, ports: Seq<u8>, n: u8) -> Seq<char> {
    spec_usb_device_id(bus, ports) + ".if"@ + dec_digits(n as nat)
}

/// `usb-{bus}-{ports joined by '.'}:if{n}`.
pub open spec fn spec_usb_interface_display_name(bus: u16, ports: Seq<u8>, n: u8) -> Seq<char> {
    spec_usb_device_display_name(bus, ports) + ":if"@ + dec_digits(n as nat)
}

pub open spec fn opt_u8_value(v: Option<u8>) -> Option<ValueView> {
    match v {
        Some(v) => Some(ValueView::U64(v as u64)),
        None => None,
    }
}

/// The interface number: the one the interface reports, else the one in
/// its directory's name.
pub open spec fn spec_interface_number(reported: Option<u8>, parsed: u8) -> u8 {
    match reported {
        Some(n) => n,
        None => parsed,
    }
}

pub open spec fn usb_code_properties(alternate_setting: Option<u8>, class_code: Option<u8>, subclass_code: Option<u8>, protocol_code: Option<u8>) -> Seq<
    (Seq<char>, ValueView),
> {
    optional_property("alternate_setting"@, opt_u8_value(alternate_setting)) + optional_property(
        "class_code"@,
        opt_u8_value(class_code),
    ) + optional_property("subclass_code"@, opt_u8_value(subclass_code)) + optional_property(
        "protocol_code"@,
        opt_u8_value(protocol_code),
    )
}

/// The descriptor of a USB interface whose attributes were all read.
pub open spec fn spec_usb_interface_descriptor(place: UsbInterfacePlaceView, f: UsbInterfaceFacts) -> DescriptorView {
    let bus = place.bus;
    let ports = place.ports;
    let n = spec_interface_number(f.interface_number->Ok_0, place.parsed_interface_number);
    let driver = opt_view(f.driver->Ok_0);
    let modalias = opt_view(f.modalias->Ok_0);
    DescriptorView {
        id: spec_usb_interface_id(bus, ports, n),
        kind: DeviceKind::UsbInterface,
        display_name: Some(spec_usb_interface_display_name(bus, ports, n)),
        summary: Some("Linux USB interface"@),
        address: Some(
            AddressView::UsbInterface {
                bus,
                ports,
                interface_number: n,
                vendor_id: place.vendor_id,
                product_id: place.product_id,
            },
        ),
        driver_hint: Some("lemnos.usb.generic"@),
        vendor: None,
        model: None,
        serial_number: None,
        modalias,
        health: DeviceHealth::Healthy,
        control_root: None,
        labels: seq![("backend"@, "linux"@), ("bus"@, dec_digits(bus as nat))] + match driver {
            Some(d) => seq![("driver"@, d)],
            None => Seq::empty(),
        },
        properties: seq![
            ("bus"@, ValueView::U64(bus as u64)),
            ("ports"@, ValueView::Text(spec_ports_joined(ports, '.'))),
            ("kernel_name"@, ValueView::Text(f.kernel_name@)),
            ("sysfs_path"@, ValueView::Text(f.sysfs_path@)),
            ("configuration_number"@, ValueView::U64(place.configuration_number as u64)),
            ("interface_number"@, ValueView::U64(n as u64)),
        ] + usb_code_properties(
            f.alternate_setting->Ok_0,
            f.class_code->Ok_0,
            f.subclass_code->Ok_0,
            f.protocol_code->Ok_0,
        ) + optional_property("driver"@, text_value(driver)) + optional_property(
            "modalias"@,
            text_value(modalias),
        ),
        parents: seq![place.parent_device_id],
        capabilities: spec_usb_capabilities(),
    }
}

/// What building the descriptor of a USB interface gives.
pub open spec fn spec_build_usb_interface(place: UsbInterfacePlaceView, f: UsbInterfaceFacts) -> Result<DescriptorView, Seq<char>> {
    match spec_usb_interface_read_failure(f) {
        Some(note) => Err(note),
        None => Ok(spec_usb_interface_descriptor(place, f)),
    }
}

fn check_usb_interface_reads(f: &UsbInterfaceFacts) -> (r: Result<(), String>)
    ensures
        match (r, spec_usb_interface_read_failure(*f)) {
            (Err(n), Some(m)) => n@ == m,
            (Ok(_), None) => true,
            _ => false,
        },
{
    let name = f.kernel_name.as_str();
    let path = f.sysfs_path.as_str();
    if let Err(e) = &f.interface_number {
        return Err(read_failure_note("Linux USB interface number", name, path, e.as_str()));
    }
    if let Err(e) = &f.alternate_setting {
        return Err(read_failure_note("Linux USB alternate setting", name, path, e.as_str()));
    }
    if let Err(e) = &f.class_code {
        return Err(read_failure_note("Linux USB interface class", name, path, e.as_str()));
    }
    if let Err(e) = &f.subclass_code {
        return Err(read_failure_note("Linux USB interface subclass", name, path, e.as_str()));
    }
    if let Err(e) = &f.protocol_code {
        return Err(read_failure_note("Linux USB interface protocol", name, path, e.as_str()));
    }
    if let Err(e) = &f.driver {
        return Err(read_failure_note("Linux USB interface driver link", name, path, e.as_str()));
    }
    if let Err(e) = &f.modalias {
        return Err(read_failure_note("Linux USB interface modalias", name, path, e.as_str()));
    }
    Ok(())
}

fn start_usb_interface(place: &UsbInterfacePlace, f: &UsbInterfaceFacts, n: u8) -> (r: DeviceDescriptor)
    ensures
        r@ == (DescriptorView {
            display_name: Some(spec_usb_interface_display_name(place.bus, place.ports@, n)),
            summary: Some("Linux USB interface"@),
            address: Some(
                AddressView::UsbInterface {
                    bus: place.bus,
                    ports: place.ports@,
                    interface_number: n,
                    vendor_id: place.vendor_id,
                    product_id: place.product_id,
                },
            ),
            driver_hint: Some("lemnos.usb.generic"@),
            labels: seq![("backend"@, "linux"@), ("bus"@, dec_digits(place.bus as nat))],
            properties: seq![
                ("bus"@, ValueView::U64(place.bus as u64)),
                ("ports"@, ValueView::Text(spec_ports_joined(place.ports@, '.'))),
                ("kernel_name"@, ValueView::Text(f.kernel_name@)),
                ("sysfs_path"@, ValueView::Text(f.sysfs_path@)),
                ("configuration_number"@, ValueView::U64(place.configuration_number as u64)),
                ("interface_number"@, ValueView::U64(n as u64)),
            ],
            parents: seq![place.parent_device_id@],
            capabilities: spec_usb_capabilities(),
            ..spec_started(spec_usb_interface_id(place.bus, place.ports@, n), DeviceKind::UsbInterface)
        }),
{
    let bus = place.bus;
    let ports = place.ports.as_slice();
    let mut id: Vec<char> = Vec::new();
    push_str_chars(&mut id, "linux.usb.bus");
    push_dec(&mut id, bus as u64);
    push_str_chars(&mut id, ".ports");
    let label = ports_label(ports);
    push_str_chars(&mut id, label.as_str());
    push_str_chars(&mut id, ".if");
    push_dec(&mut id, n as u64);
    assert(id@ =~= spec_usb_interface_id(bus, ports@, n));
    let mut d = DeviceDescriptor::start(string_from_chars(id.as_slice()), DeviceKind::UsbInterface);
    add_usb_capabilities(&mut d);
    let mut name: Vec<char> = Vec::new();
    push_str_chars(&mut name, "usb-");
    push_dec(&mut name, bus as u64);
    push_str_chars(&mut name, "-");
    let shown = ports_display(ports);
    push_str_chars(&mut name, shown.as_str());
    push_str_chars(&mut name, ":if");
    push_dec(&mut name, n as u64);
    assert(name@ =~= spec_usb_interface_display_name(bus, ports@, n));
    d.display_name = Some(string_from_chars(name.as_slice()));
    d.summary = Some("Linux USB interface".to_owned());
    d.address = Some(
        DeviceAddress::UsbInterface {
            bus,
            ports: copy_bytes(ports),
            interface_number: n,
            vendor_id: place.vendor_id,
            product_id: place.product_id,
        },
    );
    d.driver_hint = Some("lemnos.usb.generic".to_owned());
    d.add_label("backend", "linux".to_owned());
    let mut bus_text: Vec<char> = Vec::new();
    push_dec(&mut bus_text, bus as u64);
    d.add_label("bus", string_from_chars(bus_text.as_slice()));
    d.add_property("bus", Value::U64(bus as u64));
    d.add_property("ports", text(shown));
    d.add_property("kernel_name", text(f.kernel_name.clone()));
    d.add_property("sysfs_path", text(f.sysfs_path.clone()));
    d.add_property("configuration_number", Value::U64(place.configuration_number as u64));
    d.add_property("interface_number", Value::U64(n as u64));
    d.add_parent(place.parent_device_id.clone());
    assert(d@.labels =~= seq![("backend"@, "linux"@), ("bus"@, dec_digits(bus as nat))]);
    assert(d@.properties =~= seq![
        ("bus"@, ValueView::U64(bus as u64)),
        ("ports"@, ValueView::Text(spec_ports_joined(ports@, '.'))),
        ("kernel_name"@, ValueView::Text(f.kernel_name@)),
        ("sysfs_path"@, ValueView::Text(f.sysfs_path@)),
        ("configuration_number"@, ValueView::U64(place.configuration_number as u64)),
        ("interface_number"@, ValueView::U64(n as u64)),
    ]);
    assert(d@.parents =~= seq![place.parent_device_id@]);
    d
}

fn add_usb_codes(d: &mut DeviceDescriptor, alternate_setting: Option<u8>, class_code: Option<u8>, subclass_code: Option<u8>, protocol_code: Option<u8>)
    ensures
        final(d)@ == (DescriptorView {
            properties: old(d)@.properties + usb_code_properties(
                alternate_setting,
                class_code,
                subclass_code,
                protocol_code,
            ),
            ..old(d)@
        }),
{
    let ghost before = d@;
    if let Some(v) = alternate_setting {
        d.add_property("alternate_setting", Value::U64(v as u64));
    }
    if let Some(v) = class_code {
        d.add_property("class_code", Value::U64(v as u64));
    }
    if let Some(v) = subclass_code {
        d.add_property("subclass_code", Value::U64(v as u64));
    }
    if let Some(v) = protocol_code {
        d.add_property("protocol_code", Value::U64(v as u64));
    }
    assert(d@.properties =~= before.properties + usb_code_properties(
        alternate_setting,
        class_code,
        subclass_code,
        protocol_code,
    ));
}

fn add_interface_driver(d: &mut DeviceDescriptor, driver: &Option<String>, modalias: &Option<String>)
    ensures
        final(d)@ == (DescriptorView {
            labels: old(d)@.labels + match opt_view(*driver) {
                Some(v) => seq![("driver"@, v)],
                None => Seq::empty(),
            },
            properties: old(d)@.properties + optional_property("driver"@, text_value(opt_view(*driver)))
                + optional_property("modalias"@, text_value(opt_view(*modalias))),
            modalias: opt_view(*modalias),
            ..old(d)@
        }),
{
    let ghost before = d@;
    if let Some(v) = driver {
        d.add_label("driver", v.clone());
        d.add_property("driver", text(v.clone()));
    }
    d.modalias = None;
    if let Some(m) = modalias {
        d.modalias = Some(m.clone());
        d.add_property("modalias", text(m.clone()));
    }
    assert(d@.labels =~= before.labels + match opt_view(*driver) {
        Some(v) => seq![("driver"@, v)],
        None => Seq::empty(),
    });
    assert(d@.properties =~= before.properties + optional_property("driver"@, text_value(opt_view(*driver)))
        + optional_property("modalias"@, text_value(opt_view(*modalias))));
}

fn ok_or_none<T: Copy>(r: &Result<Option<T>, String>) -> (v: Option<T>)
    ensures
        r is Ok ==> v == r->Ok_0,
{
    match r {
        Ok(v) => *v,
        Err(_) => None,
    }
}

/// Builds the descriptor of a USB interface.
pub fn build_usb_interface_descriptor(place: &UsbInterfacePlace, facts: &UsbInterfaceFacts) -> (r: Result<DeviceDescriptor, String>)
    ensures
        match (r, spec_build_usb_interface(place@, *facts)) {
            (Ok(d), Ok(v)) => d@ == v,
            (Err(n), Err(m)) => n@ == m,
            _ => false,
        },
{
    check_usb_interface_reads(facts)?;
    let n = match ok_or_none(&facts.interface_number) {
        Some(n) => n,
        None => place.parsed_interface_number,
    };
    let mut d = start_usb_interface(place, facts, n);
    add_usb_codes(
        &mut d,
        ok_or_none(&facts.alternate_setting),
        ok_or_none(&facts.class_code),
        ok_or_none(&facts.subclass_code),
        ok_or_none(&facts.protocol_code),
    );
    let driver = match &facts.driver {
        Ok(v) => clone_opt(v),
        Err(_) => None,
    };
    let modalias = match &facts.modalias {
        Ok(v) => clone_opt(v),
        Err(_) => None,
    };
    add_interface_driver(&mut d, &driver, &modalias);
    Ok(d)
}

/// `linux.usb.bus.{bus}`.
pub open spec fn spec_usb_bus_id(bus: u16) -> Seq<char> {
    "linux.usb.bus."@ + dec_digits(bus as nat)
}

/// The descriptor of a USB bus; `sysfs` holds the bus's directory and its
/// product string where the bus was found as a directory of its own.
pub open spec fn spec_usb_bus_descriptor(bus: u16, sysfs: Option<(Seq<char>, Option<Seq<char>>)>) -> DescriptorView {
    DescriptorView {
        display_name: Some("usb"@ + dec_digits(bus as nat)),
        summary: Some("Linux USB bus"@),
        address: Some(AddressView::UsbBus { bus }),
        labels: seq![("backend"@, "linux"@), ("bus"@, dec_digits(bus as nat))],
        properties: seq![("bus"@, ValueView::U64(bus as u64))] + match sysfs {
            Some((path, product)) => seq![("sysfs_path"@, ValueView::Text(path))] + optional_property(
                "product"@,
                text_value(product),
            ),
            None => Seq::empty(),
        },
        ..spec_started(spec_usb_bus_id(bus), DeviceKind::UsbBus)
    }
}

/// The descriptor of a bus known only by its number (a device names it,
/// but no directory of its own was listed before the device).
pub fn build_usb_bus_descriptor_from_number(bus: u16) -> (r: DeviceDescriptor)
    ensures
        r@ == spec_usb_bus_descriptor(bus, None),
{
    let mut digits: Vec<char> = Vec::new();
    push_dec(&mut digits, bus as u64);
    let mut id: Vec<char> = Vec::new();
    push_str_chars(&mut id, "linux.usb.bus.");
    push_dec(&mut id, bus as u64);
    assert(id@ =~= spec_usb_bus_id(bus));
    let mut d = DeviceDescriptor::start(string_from_chars(id.as_slice()), DeviceKind::UsbBus);
    let mut name: Vec<char> = Vec::new();
    push_str_chars(&mut name, "usb");
    push_dec(&mut name, bus as u64);
    assert(name@ =~= "usb"@ + dec_digits(bus as nat));
    d.display_name = Some(string_from_chars(name.as_slice()));
    d.summary = Some("Linux USB bus".to_owned());
    d.address = Some(DeviceAddress::UsbBus { bus });
    d.add_label("backend", "linux".to_owned());
    d.add_label("bus", string_from_chars(digits.as_slice()));
    d.add_property("bus", Value::U64(bus as u64));
    assert(d@.labels =~= seq![("backend"@, "linux"@), ("bus"@, dec_digits(bus as nat))]);
    assert(d@.properties =~= seq![("bus"@, ValueView::U64(bus as u64))]);
    d
}

/// What building the descriptor of a listed bus directory gives.
pub open spec fn spec_build_usb_bus(bus: u16, path: Seq<char>, product: Result<Option<String>, String>) -> Result<
    DescriptorView,
    Seq<char>,
> {
    match product {
        Err(e) => Err(spec_read_failure_note("Linux USB bus product"@, dec_digits(bus as nat), path, e@)),
        Ok(p) => Ok(spec_usb_bus_descriptor(bus, Some((path, opt_view(p))))),
    }
}

/// The descriptor of a bus listed as a directory (`usb{bus}`) at `path`.
pub fn build_usb_bus_descriptor(bus: u16, path: &str, product: &Result<Option<String>, String>) -> (r: Result<
    DeviceDescriptor,
    String,
>)
    ensures
        match (r, spec_build_usb_bus(bus, path@, *product)) {
            (Ok(d), Ok(v)) => d@ == v,
            (Err(n), Err(m)) => n@ == m,
            _ => false,
        },
{
    let product = match product {
        Ok(p) => clone_opt(p),
        Err(e) => {
            let mut digits: Vec<char> = Vec::new();
            push_dec(&mut digits, bus as u64);
            let digits = string_from_chars(digits.as_slice());
            return Err(read_failure_note("Linux USB bus product", digits.as_str(), path, e.as_str()));
        },
    };
    let mut d = build_usb_bus_descriptor_from_number(bus);
    let ghost before = d@;
    d.add_property("sysfs_path", text_of(path));
    if let Some(p) = product {
        d.add_property("product", text(p));
    }
    assert(d@.properties =~= spec_usb_bus_descriptor(bus, Some((path@, opt_view(product)))).properties);
    Ok(d)
}

/// How a directory under `/sys/bus/usb/devices` is named: a bus (`usb1`),
/// a device (`1-2.3`), an interface (`1-2.3:1.0`) or something else.
#[derive(Debug, Clone, PartialEq, Eq)]
pub enum UsbEntryKind {
    Bus(u16),
    Device(u16, Vec<u8>),
    Interface(u16, Vec<u8>, u8, u8),
    Other,
}

/// The value of a [`UsbEntryKind`].
pub enum UsbEntryKindView {
    Bus(u16),
    Device(u16, Seq<u8>),
    Interface(u16, Seq<u8>, u8, u8),
    Other,
}

impl View for UsbEntryKind {
    type V = UsbEntryKindView;

    open spec fn view(&self) -> UsbEntryKindView {
        match self {
            UsbEntryKind::Bus(b) => UsbEntryKindView::Bus(*b),
            UsbEntryKind::Device(b, p) => UsbEntryKindView::Device(*b, p@),
            UsbEntryKind::Interface(b, p, c, i) => UsbEntryKindView::Interface(*b, p@, *c, *i),
            UsbEntryKind::Other => UsbEntryKindView::Other,
        }
    }
}

/// The kind of a directory name: bus names are tried first, then device
/// names, then interface names.
pub open spec fn spec_classify_usb_entry(name: Seq<char>) -> UsbEntryKindView {
    match spec_parse_usb_bus_name(name) {
        Some(b) => UsbEntryKindView::Bus(b as u16),
        None => match spec_parse_usb_device_name(name) {
            Some((b, p)) => UsbEntryKindView::Device(b as u16, p),
            None => match spec_parse_usb_interface_name(name) {
                Some((b, p, c, i)) => UsbEntryKindView::Interface(b as u16, p, c as u8, i as u8),
                None => UsbEntryKindView::Other,
            },
        },
    }
}

/// Classifies a directory name.
pub fn classify_usb_entry(name: &str) -> (r: UsbEntryKind)
    ensures
        r@ == spec_classify_usb_entry(name@),
{
    if let Some(b) = parse_usb_bus_name(name) {
        return UsbEntryKind::Bus(b);
    }
    if let Some((b, p)) = parse_usb_device_name(name) {
        return UsbEntryKind::Device(b, p);
    }
    if let Some((b, p, c, i)) = parse_usb_interface_name(name) {
        return UsbEntryKind::Interface(b, p, c, i);
    }
    UsbEntryKind::Other
}

/// What was read for one directory, by the kind its name gives it.
pub enum UsbEntryFacts {
    /// The `product` attribute of a bus.
    Bus(Result<Option<String>, String>),
    Device(UsbDeviceFacts),
    Interface(UsbInterfaceFacts),
    /// Nothing: the name is none of the three kinds.
    Other,
}

/// One directory under the USB devices root.
pub struct UsbEntry {
    pub name: String,
    pub path: String,
    pub facts: UsbEntryFacts,
}

/// A device already described, by which its interfaces find it.
pub struct KnownUsbDevice {
    pub bus: u16,
    pub ports: Vec<u8>,
    pub id: String,
    pub vendor_id: Option<u16>,
    pub product_id: Option<u16>,
}

pub struct KnownUsbDeviceView {
    pub bus: u16,
    pub ports: Seq<u8>,
    pub id: Seq<char>,
    pub vendor_id: Option<u16>,
    pub product_id: Option<u16>,
}

impl View for KnownUsbDevice {
    type V = KnownUsbDeviceView;

    open spec fn view(&self) -> KnownUsbDeviceView {
        KnownUsbDeviceView {
            bus: self.bus,
            ports: self.ports@,
            id: self.id@,
            vendor_id: self.vendor_id,
            product_id: self.product_id,
        }
    }
}

/// The most recently described device at `bus`-`ports`.
pub open spec fn find_known(known: Seq<KnownUsbDeviceView>, bus: u16, ports: Seq<u8>) -> Option<KnownUsbDeviceView>
    decreases known.len(),
{
    if known.len() == 0 {
        None
    } else if known.last().bus == bus && known.last().ports == ports {
        Some(known.last())
    } else {
        find_known(known.drop_last(), bus, ports)
    }
}

/// The id of the bus descriptor for `bus`, where one was made.
pub open spec fn find_bus(buses: Seq<(u16, Seq<char>)>, bus: u16) -> Option<Seq<char>>
    decreases buses.len(),
{
    if buses.len() == 0 {
        None
    } else if buses.last().0 == bus {
        Some(buses.last().1)
    } else {
        find_bus(buses.drop_last(), bus)
    }
}

/// Where the walk over the USB devices root stands.
pub struct UsbWalkView {
    pub buses: Seq<(u16, Seq<char>)>,
    pub known: Seq<KnownUsbDeviceView>,
    pub devices: Seq<DescriptorView>,
    pub notes: Seq<Seq<char>>,
}

pub open spec fn spec_usb_walk_start() -> UsbWalkView {
    UsbWalkView { buses: Seq::empty(), known: Seq::empty(), devices: Seq::empty(), notes: Seq::empty() }
}

/// `skipping Linux USB interface '{name}' because parent device '{key}'
/// was not discovered`.
pub open spec fn spec_orphan_interface_note(name: Seq<char>, bus: u16, ports: Seq<u8>) -> Seq<char> {
    "skipping Linux USB interface '"@ + name + "' because parent device '"@ + spec_usb_device_key(bus, ports)
        + "' was not discovered"@
}

/// The walk after a device directory, once the bus it names is described.
pub open spec fn spec_usb_device_step(paths: LinuxPaths, w: UsbWalkView, bus: u16, ports: Seq<u8>, f: UsbDeviceFacts) -> UsbWalkView {
    let (w1, bus_id) = match find_bus(w.buses, bus) {
        Some(id) => (w, id),
        None => {
            let d = spec_usb_bus_descriptor(bus, None);
            (UsbWalkView { buses: w.buses.push((bus, d.id)), devices: w.devices.push(d), ..w }, d.id)
        },
    };
    match spec_build_usb_device(paths, bus_id, bus, ports, f) {
        Ok(d) => UsbWalkView {
            known: w1.known.push(
                KnownUsbDeviceView {
                    bus,
                    ports,
                    id: d.id,
                    vendor_id: f.vendor_id->Ok_0,
                    product_id: f.product_id->Ok_0,
                },
            ),
            devices: w1.devices.push(d),
            ..w1
        },
        Err(n) => UsbWalkView { notes: w1.notes.push(n), ..w1 },
    }
}

/// One step of the walk: a bus is described once, however often it is
/// listed; a device is described below its bus (described first from its
/// number where it was not listed yet); an interface is described below
/// its device, or noted and passed over where its device was not
/// described. Where a description fails, its note is kept instead. An
/// entry whose facts do not fit its name is passed over.
pub open spec fn spec_usb_step(paths: LinuxPaths, w: UsbWalkView, e: UsbEntry) -> UsbWalkView {
    match (spec_classify_usb_entry(e.name@), e.facts) {
        (UsbEntryKindView::Bus(bus), UsbEntryFacts::Bus(product)) => if find_bus(w.buses, bus) is Some {
            w
        } else {
            match spec_build_usb_bus(bus, e.path@, product) {
                Ok(d) => UsbWalkView { buses: w.buses.push((bus, d.id)), devices: w.devices.push(d), ..w },
                Err(n) => UsbWalkView { notes: w.notes.push(n), ..w },
            }
        },
        (UsbEntryKindView::Device(bus, ports), UsbEntryFacts::Device(f)) => spec_usb_device_step(
            paths,
            w,
            bus,
            ports,
            f,
        ),
        (UsbEntryKindView::Interface(bus, ports, c, i), UsbEntryFacts::Interface(f)) => match find_known(
            w.known,
            bus,
            ports,
        ) {
            Some(k) => match spec_build_usb_interface(
                UsbInterfacePlaceView {
                    parent_device_id: k.id,
                    bus,
                    ports,
                    configuration_number: c,
                    parsed_interface_number: i,
                    vendor_id: k.vendor_id,
                    product_id: k.product_id,
                },
                f,
            ) {
                Ok(d) => UsbWalkView { devices: w.devices.push(d), ..w },
                Err(n) => UsbWalkView { notes: w.notes.push(n), ..w },
            },
            None => UsbWalkView { notes: w.notes.push(spec_orphan_interface_note(e.name@, bus, ports)), ..w },
        },
        _ => w,
    }
}

/// The walk over a whole listing, entry after entry.
pub open spec fn spec_usb_walk(paths: LinuxPaths, entries: Seq<UsbEntry>) -> UsbWalkView
    decreases entries.len(),
{
    if entries.len() == 0 {
        spec_usb_walk_start()
    } else {
        spec_usb_step(paths, spec_usb_walk(paths, entries.drop_last()), entries.last())
    }
}

/// The walk's state.
struct UsbWalk {
    buses: Vec<(u16, String)>,
    known: Vec<KnownUsbDevice>,
    devices: Vec<DeviceDescriptor>,
    notes: Vec<String>,
}

spec fn buses_view(v: Seq<(u16, String)>) -> Seq<(u16, Seq<char>)> {
    v.map_values(|p: (u16, String)| (p.0, p.1@))
}

spec fn known_view(v: Seq<KnownUsbDevice>) -> Seq<KnownUsbDeviceView> {
    v.map_values(|k: KnownUsbDevice| k@)
}

impl View for UsbWalk {
    type V = UsbWalkView;

    closed spec fn view(&self) -> UsbWalkView {
        UsbWalkView {
            buses: buses_view(self.buses@),
            known: known_view(self.known@),
            devices: descriptors_view(self.devices@),
            notes: strings_view(self.notes@),
        }
    }
}

proof fn lemma_find_bus_suffix(s: Seq<(u16, Seq<char>)>, k: int, bus: u16)
    requires
        0 <= k <= s.len(),
        forall|j: int| k <= j < s.len() ==> s[j].0 != bus,
    ensures
        find_bus(s, bus) == find_bus(s.take(k), bus),
    decreases s.len(),
{
    if s.len() > k {
        assert(s.drop_last().take(k) =~= s.take(k));
        lemma_find_bus_suffix(s.drop_last(), k, bus);
    } else {
        assert(s.take(k) =~= s);
    }
}

proof fn lemma_find_known_suffix(s: Seq<KnownUsbDeviceView>, k: int, bus: u16, ports: Seq<u8>)
    requires
        0 <= k <= s.len(),
        forall|j: int| k <= j < s.len() ==> !(s[j].bus == bus && s[j].ports == ports),
    ensures
        find_known(s, bus, ports) == find_known(s.take(k), bus, ports),
    decreases s.len(),
{
    if s.len() > k {
        assert(s.drop_last().take(k) =~= s.take(k));
        lemma_find_known_suffix(s.drop_last(), k, bus, ports);
    } else {
        assert(s.take(k) =~= s);
    }
}

/// Whether two byte strings are equal.
fn same_bytes(a: &[u8], b: &[u8]) -> (r: bool)
    ensures
        r == (a@ == b@),
{
    if a.len() != b.len() {
        return false;
    }
    let mut i: usize = 0;
    while i < a.len()
        invariant
            a@.len() == b@.len(),
            i <= a@.len(),
            forall|j: int| 0 <= j < i ==> a@[j] == b@[j],
        decreases a.len() - i,
    {
        if a[i] != b[i] {
            return false;
        }
        i = i + 1;
    }
    assert(a@ =~= b@);
    true
}

impl UsbWalk {
    fn new() -> (r: Self)
        ensures
            r@ == spec_usb_walk_start(),
    {
        let r = UsbWalk { buses: Vec::new(), known: Vec::new(), devices: Vec::new(), notes: Vec::new() };
        assert(r@.buses =~= Seq::<(u16, Seq<char>)>::empty());
        assert(r@.known =~= Seq::<KnownUsbDeviceView>::empty());
        assert(r@.devices =~= Seq::<DescriptorView>::empty());
        assert(r@.notes =~= Seq::<Seq<char>>::empty());
        r
    }

    fn bus_id(&self, bus: u16) -> (r: Option<String>)
        ensures
            opt_string_view(r) == find_bus(self@.buses, bus),
    {
        let ghost s = self@.buses;
        let mut i: usize = self.buses.len();
        while i > 0
            invariant
                i <= self.buses@.len(),
                s == buses_view(self.buses@),
                forall|j: int| i <= j < s.len() ==> s[j].0 != bus,
            decreases i,
        {
            i = i - 1;
            if self.buses[i].0 == bus {
                proof {
                    lemma_find_bus_suffix(s, i + 1, bus);
                    assert(s.take(i + 1).last() == s[i as int]);
                }
                return Some(self.buses[i].1.clone());
            }
        }
        proof {
            lemma_find_bus_suffix(s, 0, bus);
        }
        None
    }

    fn known_device(&self, bus: u16, ports: &[u8]) -> (r: Option<usize>)
        ensures
            match r {
                Some(i) => i < self.known@.len() && find_known(self@.known, bus, ports@) == Some(
                    self@.known[i as int],
                ),
                None => find_known(self@.known, bus, ports@) is None,
            },
    {
        let ghost s = self@.known;
        let mut i: usize = self.known.len();
        while i > 0
            invariant
                i <= self.known@.len(),
                s == known_view(self.known@),
                forall|j: int| i <= j < s.len() ==> !(s[j].bus == bus && s[j].ports == ports@),
            decreases i,
        {
            i = i - 1;
            if self.known[i].bus == bus && same_bytes(self.known[i].ports.as_slice(), ports) {
                proof {
                    lemma_find_known_suffix(s, i + 1, bus, ports@);
                    assert(s.take(i + 1).last() == s[i as int]);
                }
                return Some(i);
            }
        }
        proof {
            lemma_find_known_suffix(s, 0, bus, ports@);
        }
        None
    }

    fn add_bus(&mut self, bus: u16, d: DeviceDescriptor)
        ensures
            final(self)@ == (UsbWalkView {
                buses: old(self)@.buses.push((bus, d@.id)),
                devices: old(self)@.devices.push(d@),
                ..old(self)@
            }),
    {
        let ghost b = self.buses@;
        let ghost v = self.devices@;
        self.buses.push((bus, d.id.clone()));
        self.devices.push(d);
        assert(buses_view(self.buses@) =~= buses_view(b).push((bus, d@.id)));
        assert(descriptors_view(self.devices@) =~= descriptors_view(v).push(d@));
    }

    fn add_device(&mut self, d: DeviceDescriptor)
        ensures
            final(self)@ == (UsbWalkView { devices: old(self)@.devices.push(d@), ..old(self)@ }),
    {
        let ghost v = self.devices@;
        self.devices.push(d);
        assert(descriptors_view(self.devices@) =~= descriptors_view(v).push(d@));
    }

    fn add_known(&mut self, k: KnownUsbDevice, d: DeviceDescriptor)
        ensures
            final(self)@ == (UsbWalkView {
                known: old(self)@.known.push(k@),
                devices: old(self)@.devices.push(d@),
                ..old(self)@
            }),
    {
        let ghost kv = self.known@;
        let ghost v = self.devices@;
        self.known.push(k);
        self.devices.push(d);
        assert(known_view(self.known@) =~= known_view(kv).push(k@));
        assert(descriptors_view(self.devices@) =~= descriptors_view(v).push(d@));
    }

    fn add_note(&mut self, n: String)
        ensures
            final(self)@ == (UsbWalkView { notes: old(self)@.notes.push(n@), ..old(self)@ }),
    {
        let ghost v = self.notes@;
        self.notes.push(n);
        assert(strings_view(self.notes@) =~= strings_view(v).push(n@));
    }

    fn device_step(&mut self, paths: &LinuxPaths, bus: u16, ports: &[u8], f: &UsbDeviceFacts)
        ensures
            final(self)@ == spec_usb_device_step(*paths, old(self)@, bus, ports@, *f),
    {
        let bus_id = match self.bus_id(bus) {
            Some(id) => id,
            None => {
                let d = build_usb_bus_descriptor_from_number(bus);
                let id = d.id.clone();
                self.add_bus(bus, d);
                id
            },
        };
        match build_usb_device_descriptor(paths, bus_id.as_str(), bus, ports, f) {
            Ok(d) => {
                let k = KnownUsbDevice {
                    bus,
                    ports: copy_bytes(ports),
                    id: d.id.clone(),
                    vendor_id: ok_or_none(&f.vendor_id),
                    product_id: ok_or_none(&f.product_id),
                };
                self.add_known(k, d);
            },
            Err(n) => self.add_note(n),
        }
    }

    fn interface_step(&mut self, name: &str, bus: u16, ports: Vec<u8>, c: u8, i: u8, f: &UsbInterfaceFacts)
        ensures
            final(self)@ == (match find_known(old(self)@.known, bus, ports@) {
                Some(k) => match spec_build_usb_interface(
                    UsbInterfacePlaceView {
                        parent_device_id: k.id,
                        bus,
                        ports: ports@,
                        configuration_number: c,
                        parsed_interface_number: i,
                        vendor_id: k.vendor_id,
                        product_id: k.product_id,
                    },
                    *f,
                ) {
                    Ok(d) => UsbWalkView { devices: old(self)@.devices.push(d), ..old(self)@ },
                    Err(n) => UsbWalkView { notes: old(self)@.notes.push(n), ..old(self)@ },
                },
                None => UsbWalkView {
                    notes: old(self)@.notes.push(spec_orphan_interface_note(name@, bus, ports@)),
                    ..old(self)@
                },
            }),
    {
        match self.known_device(bus, ports.as_slice()) {
            Some(k) => {
                let place = UsbInterfacePlace {
                    parent_device_id: self.known[k].id.clone(),
                    bus,
                    ports,
                    configuration_number: c,
                    parsed_interface_number: i,
                    vendor_id: self.known[k].vendor_id,
                    product_id: self.known[k].product_id,
                };
                match build_usb_interface_descriptor(&place, f) {
                    Ok(d) => self.add_device(d),
                    Err(n) => self.add_note(n),
                }
            },
            None => {
                let key = usb_device_key(bus, ports.as_slice());
                let mut out: Vec<char> = Vec::new();
                push_str_chars(&mut out, "skipping Linux USB interface '");
                push_str_chars(&mut out, name);
                push_str_chars(&mut out, "' because parent device '");
                push_str_chars(&mut out, key.as_str());
                push_str_chars(&mut out, "' was not discovered");
                assert(out@ =~= spec_orphan_interface_note(name@, bus, ports@));
                self.add_note(string_from_chars(out.as_slice()));
            },
        }
    }

    fn step(&mut self, paths: &LinuxPaths, e: &UsbEntry)
        ensures
            final(self)@ == spec_usb_step(*paths, old(self)@, *e),
    {
        let kind = classify_usb_entry(e.name.as_str());
        match kind {
            UsbEntryKind::Bus(bus) => {
                if let UsbEntryFacts::Bus(product) = &e.facts {
                    if self.bus_id(bus).is_some() {
                        return;
                    }
                    match build_usb_bus_descriptor(bus, e.path.as_str(), product) {
                        Ok(d) => self.add_bus(bus, d),
                        Err(n) => self.add_note(n),
                    }
                }
            },
            UsbEntryKind::Device(bus, ports) => {
                if let UsbEntryFacts::Device(f) = &e.facts {
                    self.device_step(paths, bus, ports.as_slice(), f);
                }
            },
            UsbEntryKind::Interface(bus, ports, c, i) => {
                if let UsbEntryFacts::Interface(f) = &e.facts {
                    self.interface_step(e.name.as_str(), bus, ports, c, i, f);
                }
            },
            UsbEntryKind::Other => {},
        }
    }
}

/// Describes every bus, device and interface of a listing of the USB
/// devices root, given in name order with what was read for each entry.
pub fn discover_usb(paths: &LinuxPaths, root: &str, root_exists: bool, entries: &[UsbEntry]) -> (r: ProbeDiscovery)
    ensures
        !root_exists ==> descriptors_view(r.devices@) == Seq::<DescriptorView>::empty() && strings_view(r.notes@)
            == seq![spec_root_missing_note("USB sysfs root"@, root@)],
        root_exists ==> descriptors_view(r.devices@) == spec_usb_walk(*paths, entries@).devices && strings_view(
            r.notes@,
        ) == spec_usb_walk(*paths, entries@).notes,
{
    if !root_exists {
        return ProbeDiscovery::root_missing(root_missing_note("USB sysfs root", root));
    }
    let mut w = UsbWalk::new();
    let mut i: usize = 0;
    while i < entries.len()
        invariant
            i <= entries@.len(),
            w@ == spec_usb_walk(*paths, entries@.take(i as int)),
        decreases entries.len() - i,
    {
        w.step(paths, &entries[i]);
        proof {
            let t = entries@.take(i as int + 1);
            assert(t.drop_last() =~= entries@.take(i as int));
            assert(t.last() == entries@[i as int]);
        }
        i = i + 1;
    }
    assert(entries@.take(entries@.len() as int) =~= entries@);
    let UsbWalk { buses: _, known: _, devices, notes } = w;
    ProbeDiscovery { devices, notes }
}

/// The walk's bookkeeping agrees with what it reported: every remembered
/// bus and device id is the id of a reported descriptor, and every parent
/// link points at a descriptor reported earlier.
pub open spec fn usb_walk_consistent(w: UsbWalkView) -> bool {
    &&& parents_described(w.devices)
    &&& forall|k: int| 0 <= k < w.buses.len() ==> described_before(w.devices, #[trigger] w.buses[k].1, w.devices.len() as int)
    &&& forall|k: int| 0 <= k < w.known.len() ==> described_before(w.devices, #[trigger] w.known[k].id, w.devices.len() as int)
}

proof fn lemma_find_bus_found(buses: Seq<(u16, Seq<char>)>, bus: u16)
    requires
        find_bus(buses, bus) is Some,
    ensures
        exists|k: int| 0 <= k < buses.len() && (#[trigger] buses[k]).1 == find_bus(buses, bus)->0,
    decreases buses.len(),
{
    if buses.last().0 == bus {
        assert(buses[buses.len() - 1].1 == find_bus(buses, bus)->0);
    } else {
        lemma_find_bus_found(buses.drop_last(), bus);
        let k = choose|k: int| 0 <= k < buses.drop_last().len() && (#[trigger] buses.drop_last()[k]).1 == find_bus(
            buses.drop_last(),
            bus,
        )->0;
        assert(buses[k] == buses.drop_last()[k]);
    }
}

proof fn lemma_find_known_found(known: Seq<KnownUsbDeviceView>, bus: u16, ports: Seq<u8>)
    requires
        find_known(known, bus, ports) is Some,
    ensures
        exists|k: int| 0 <= k < known.len() && (#[trigger] known[k]) == find_known(known, bus, ports)->0,
    decreases known.len(),
{
    if known.last().bus == bus && known.last().ports == ports {
        assert(known[known.len() - 1] == find_known(known, bus, ports)->0);
    } else {
        lemma_find_known_found(known.drop_last(), bus, ports);
        let k = choose|k: int| 0 <= k < known.drop_last().len() && (#[trigger] known.drop_last()[k]) == find_known(
            known.drop_last(),
            bus,
            ports,
        )->0;
        assert(known[k] == known.drop_last()[k]);
    }
}

/// Reporting a descriptor without parents keeps the walk consistent.
proof fn lemma_consistent_push(w: UsbWalkView, d: DescriptorView)
    requires
        usb_walk_consistent(w),
        forall|p: int| 0 <= p < d.parents.len() ==> described_before(w.devices, #[trigger] d.parents[p], w.devices.len() as int),
    ensures
        usb_walk_consistent(UsbWalkView { devices: w.devices.push(d), ..w }),
{
    lemma_parents_described_push(w.devices, d);
    let n = w.devices.push(d);
    assert forall|k: int| 0 <= k < w.buses.len() implies described_before(n, #[trigger] w.buses[k].1, n.len() as int) by {
        lemma_described_push(w.devices, d, w.buses[k].1, w.devices.len() as int);
    }
    assert forall|k: int| 0 <= k < w.known.len() implies described_before(n, #[trigger] w.known[k].id, n.len() as int) by {
        lemma_described_push(w.devices, d, w.known[k].id, w.devices.len() as int);
    }
}

proof fn lemma_usb_step_consistent(paths: LinuxPaths, w: UsbWalkView, e: UsbEntry)
    requires
        usb_walk_consistent(w),
    ensures
        usb_walk_consistent(spec_usb_step(paths, w, e)),
{
    match (spec_classify_usb_entry(e.name@), e.facts) {
        (UsbEntryKindView::Bus(bus), UsbEntryFacts::Bus(product)) => {
            if find_bus(w.buses, bus) is None {
                match spec_build_usb_bus(bus, e.path@, product) {
                    Ok(d) => {
                        lemma_consistent_push(w, d);
                        let w1 = UsbWalkView { devices: w.devices.push(d), ..w };
                        let w2 = UsbWalkView { buses: w.buses.push((bus, d.id)), devices: w.devices.push(d), ..w };
                        assert(w1.devices[w.devices.len() as int] == d);
                        assert forall|k: int| 0 <= k < w2.buses.len() implies described_before(
                            w2.devices,
                            #[trigger] w2.buses[k].1,
                            w2.devices.len() as int,
                        ) by {
                            if k == w.buses.len() {
                                assert(w2.devices[w.devices.len() as int].id == d.id);
                            } else {
                                assert(w2.buses[k] == w1.buses[k]);
                            }
                        }
                        assert(usb_walk_consistent(w2));
                        assert(spec_usb_step(paths, w, e) == w2);
                    },
                    Err(n) => {},
                }
            }
        },
        (UsbEntryKindView::Device(bus, ports), UsbEntryFacts::Device(f)) => {
            let (w1, bus_id) = match find_bus(w.buses, bus) {
                Some(id) => (w, id),
                None => {
                    let d = spec_usb_bus_descriptor(bus, None);
                    (UsbWalkView { buses: w.buses.push((bus, d.id)), devices: w.devices.push(d), ..w }, d.id)
                },
            };
            match find_bus(w.buses, bus) {
                Some(id) => {
                    lemma_find_bus_found(w.buses, bus);
                    let k = choose|k: int| 0 <= k < w.buses.len() && (#[trigger] w.buses[k]).1 == id;
                    assert(described_before(w.devices, w.buses[k].1, w.devices.len() as int));
                },
                None => {
                    let d = spec_usb_bus_descriptor(bus, None);
                    lemma_consistent_push(w, d);
                    let wa = UsbWalkView { devices: w.devices.push(d), ..w };
                    assert(wa.devices[w.devices.len() as int] == d);
                    assert forall|k: int| 0 <= k < w1.buses.len() implies described_before(
                        w1.devices,
                        #[trigger] w1.buses[k].1,
                        w1.devices.len() as int,
                    ) by {
                        if k == w.buses.len() {
                            assert(w1.devices[w.devices.len() as int].id == d.id);
                        } else {
                            assert(w1.buses[k] == wa.buses[k]);
                        }
                    }
                    assert(described_before(w1.devices, bus_id, w1.devices.len() as int));
                },
            }
            assert(usb_walk_consistent(w1));
            assert(described_before(w1.devices, bus_id, w1.devices.len() as int));
            match spec_build_usb_device(paths, bus_id, bus, ports, f) {
                Ok(d) => {
                    assert(d.parents == seq![bus_id]);
                    lemma_consistent_push(w1, d);
                    let wb = UsbWalkView { devices: w1.devices.push(d), ..w1 };
                    let k_new = KnownUsbDeviceView {
                        bus,
                        ports,
                        id: d.id,
                        vendor_id: f.vendor_id->Ok_0,
                        product_id: f.product_id->Ok_0,
                    };
                    let w2 = UsbWalkView { known: w1.known.push(k_new), devices: w1.devices.push(d), ..w1 };
                    assert(wb.devices[w1.devices.len() as int] == d);
                    assert forall|k: int| 0 <= k < w2.known.len() implies described_before(
                        w2.devices,
                        #[trigger] w2.known[k].id,
                        w2.devices.len() as int,
                    ) by {
                        if k == w1.known.len() {
                            assert(w2.devices[w1.devices.len() as int].id == d.id);
                        } else {
                            assert(w2.known[k] == wb.known[k]);
                        }
                    }
                    assert(usb_walk_consistent(wb));
                    assert(parents_described(w2.devices));
                    assert forall|k: int| 0 <= k < w2.buses.len() implies described_before(
                        w2.devices,
                        #[trigger] w2.buses[k].1,
                        w2.devices.len() as int,
                    ) by {
                        assert(w2.buses[k] == wb.buses[k]);
                        assert(described_before(wb.devices, wb.buses[k].1, wb.devices.len() as int));
                    }
                    assert(usb_walk_consistent(w2));
                    assert(spec_usb_device_step(paths, w, bus, ports, f) == w2);
                },
                Err(n) => {},
            }
        },
        (UsbEntryKindView::Interface(bus, ports, c, i), UsbEntryFacts::Interface(f)) => {
            match find_known(w.known, bus, ports) {
                Some(k) => {
                    lemma_find_known_found(w.known, bus, ports);
                    let idx = choose|idx: int| 0 <= idx < w.known.len() && (#[trigger] w.known[idx]) == k;
                    assert(described_before(w.devices, w.known[idx].id, w.devices.len() as int));
                    let place = UsbInterfacePlaceView {
                        parent_device_id: k.id,
                        bus,
                        ports,
                        configuration_number: c,
                        parsed_interface_number: i,
                        vendor_id: k.vendor_id,
                        product_id: k.product_id,
                    };
                    match spec_build_usb_interface(place, f) {
                        Ok(d) => {
                            assert(d.parents == seq![k.id]);
                            lemma_consistent_push(w, d);
                        },
                        Err(n) => {},
                    }
                },
                None => {},
            }
        },
        _ => {},
    }
}

/// Every parent link among the descriptors of a USB listing points at a
/// descriptor reported before it: a device's at its bus, an interface's at
/// its device.
pub proof fn law_usb_parents_are_described_first(paths: LinuxPaths, entries: Seq<UsbEntry>)
    ensures
        parents_described(spec_usb_walk(paths, entries).devices),
        usb_walk_consistent(spec_usb_walk(paths, entries)),
    decreases entries.len(),
{
    if entries.len() == 0 {
        let w = spec_usb_walk_start();
        assert(w.devices =~= Seq::<DescriptorView>::empty());
    } else {
        law_usb_parents_are_described_first(paths, entries.drop_last());
        lemma_usb_step_consistent(paths, spec_usb_walk(paths, entries.drop_last()), entries.last());
    }
}

} // verus!
