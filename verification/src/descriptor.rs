//! The device descriptors that discovery reports: what a device is, where
//! it sits, and the labels, properties, links and capabilities it carries.
//! Labels and properties are kept in the order they were added; within one
//! descriptor every key is added once.
use crate::backend::InterfaceKind;
use crate::text::{push_str_chars, str_eq, string_from_chars};
use vstd::prelude::*;

verus! {

/// What kind of device a descriptor describes.
#[derive(Debug, Clone, Copy, PartialEq, Eq, Structural)]
pub enum DeviceKind {
    /// A device of a bus family that has no kind of its own for it.
    Unspecified(InterfaceKind),
    GpioChip,
    GpioLine,
    PwmChip,
    PwmChannel,
    I2cBus,
    I2cDevice,
    SpiBus,
    SpiDevice,
    UartPort,
    UsbBus,
    UsbDevice,
    UsbInterface,
}

/// The bus family a kind of device belongs to.
pub open spec fn spec_kind_interface(kind: DeviceKind) -> InterfaceKind {
    match kind {
        DeviceKind::Unspecified(interface) => interface,
        DeviceKind::GpioChip | DeviceKind::GpioLine => InterfaceKind::Gpio,
        DeviceKind::PwmChip | DeviceKind::PwmChannel => InterfaceKind::Pwm,
        DeviceKind::I2cBus | DeviceKind::I2cDevice => InterfaceKind::I2c,
        DeviceKind::SpiBus | DeviceKind::SpiDevice => InterfaceKind::Spi,
        DeviceKind::UartPort => InterfaceKind::Uart,
        DeviceKind::UsbBus | DeviceKind::UsbDevice | DeviceKind::UsbInterface => InterfaceKind::Usb,
    }
}

impl DeviceKind {
    /// The bus family of this kind.
    pub fn interface(&self) -> (r: InterfaceKind)
        ensures
            r == spec_kind_interface(*self),
    {
        match self {
            DeviceKind::Unspecified(interface) => *interface,
            DeviceKind::GpioChip | DeviceKind::GpioLine => InterfaceKind::Gpio,
            DeviceKind::PwmChip | DeviceKind::PwmChannel => InterfaceKind::Pwm,
            DeviceKind::I2cBus | DeviceKind::I2cDevice => InterfaceKind::I2c,
            DeviceKind::SpiBus | DeviceKind::SpiDevice => InterfaceKind::Spi,
            DeviceKind::UartPort => InterfaceKind::Uart,
            DeviceKind::UsbBus | DeviceKind::UsbDevice | DeviceKind::UsbInterface => InterfaceKind::Usb,
        }
    }
}

/// Where a device is found on its bus.
#[derive(Debug, Clone, PartialEq, Eq)]
pub enum DeviceAddress {
    GpioChip { chip_name: String, base_line: Option<u32> },
    GpioLine { chip_name: String, offset: u32 },
    PwmChip { chip_name: String },
    PwmChannel { chip_name: String, channel: u32 },
    I2cBus { bus: u32 },
    I2cDevice { bus: u32, address: u16 },
    SpiBus { bus: u32 },
    SpiDevice { bus: u32, chip_select: u16 },
    UartPort { port: String },
    UsbBus { bus: u16 },
    UsbDevice { bus: u16, ports: Vec<u8>, vendor_id: Option<u16>, product_id: Option<u16> },
    UsbInterface {
        bus: u16,
        ports: Vec<u8>,
        interface_number: u8,
        vendor_id: Option<u16>,
        product_id: Option<u16>,
    },
    /// An address in a naming scheme of the backend's own.
    Custom { interface: InterfaceKind, scheme: String, value: String },
}

/// The value of a [`DeviceAddress`].
pub enum AddressView {
    GpioChip { chip_name: Seq<char>, base_line: Option<u32> },
    GpioLine { chip_name: Seq<char>, offset: u32 },
    PwmChip { chip_name: Seq<char> },
    PwmChannel { chip_name: Seq<char>, channel: u32 },
    I2cBus { bus: u32 },
    I2cDevice { bus: u32, address: u16 },
    SpiBus { bus: u32 },
    SpiDevice { bus: u32, chip_select: u16 },
    UartPort { port: Seq<char> },
    UsbBus { bus: u16 },
    UsbDevice { bus: u16, ports: Seq<u8>, vendor_id: Option<u16>, product_id: Option<u16> },
    UsbInterface {
        bus: u16,
        ports: Seq<u8>,
        interface_number: u8,
        vendor_id: Option<u16>,
        product_id: Option<u16>,
    },
    Custom { interface: InterfaceKind, scheme: Seq<char>, value: Seq<char> },
}

impl View for DeviceAddress {
    type V = AddressView;

    open spec fn view(&self) -> AddressView {
        match self {
            DeviceAddress::GpioChip { chip_name, base_line } => AddressView::GpioChip {
                chip_name: chip_name@,
                base_line: *base_line,
            },
            DeviceAddress::GpioLine { chip_name, offset } => AddressView::GpioLine {
                chip_name: chip_name@,
                offset: *offset,
            },
            DeviceAddress::PwmChip { chip_name } => AddressView::PwmChip { chip_name: chip_name@ },
            DeviceAddress::PwmChannel { chip_name, channel } => AddressView::PwmChannel {
                chip_name: chip_name@,
                channel: *channel,
            },
            DeviceAddress::I2cBus { bus } => AddressView::I2cBus { bus: *bus },
            DeviceAddress::I2cDevice { bus, address } => AddressView::I2cDevice {
                bus: *bus,
                address: *address,
            },
            DeviceAddress::SpiBus { bus } => AddressView::SpiBus { bus: *bus },
            DeviceAddress::SpiDevice { bus, chip_select } => AddressView::SpiDevice {
                bus: *bus,
                chip_select: *chip_select,
            },
            DeviceAddress::UartPort { port } => AddressView::UartPort { port: port@ },
            DeviceAddress::UsbBus { bus } => AddressView::UsbBus { bus: *bus },
            DeviceAddress::UsbDevice { bus, ports, vendor_id, product_id } => AddressView::UsbDevice {
                bus: *bus,
                ports: ports@,
                vendor_id: *vendor_id,
                product_id: *product_id,
            },
            DeviceAddress::UsbInterface {
                bus,
                ports,
                interface_number,
                vendor_id,
                product_id,
            } => AddressView::UsbInterface {
                bus: *bus,
                ports: ports@,
                interface_number: *interface_number,
                vendor_id: *vendor_id,
                product_id: *product_id,
            },
            DeviceAddress::Custom { interface, scheme, value } => AddressView::Custom {
                interface: *interface,
                scheme: scheme@,
                value: value@,
            },
        }
    }
}

/// The value of a descriptor property.
#[derive(Debug, Clone, PartialEq, Eq)]
pub enum Value {
    U64(u64),
    Bool(bool),
    Text(String),
    List(Vec<String>),
}

/// The value of a [`Value`].
pub enum ValueView {
    U64(u64),
    Bool(bool),
    Text(Seq<char>),
    List(Seq<Seq<char>>),
}

pub open spec fn strings_view(v: Seq<String>) -> Seq<Seq<char>> {
    v.map_values(|s: String| s@)
}

impl View for Value {
    type V = ValueView;

    open spec fn view(&self) -> ValueView {
        match self {
            Value::U64(n) => ValueView::U64(*n),
            Value::Bool(b) => ValueView::Bool(*b),
            Value::Text(s) => ValueView::Text(s@),
            Value::List(v) => ValueView::List(strings_view(v@)),
        }
    }
}

/// Whether a device answers as it should.
#[derive(Debug, Clone, Copy, PartialEq, Eq, Structural)]
pub enum DeviceHealth {
    Healthy,
    /// Found, but some of what it should offer is missing.
    Degraded,
}

/// What a capability lets a session do.
#[derive(Debug, Clone, Copy, PartialEq, Eq, Structural)]
pub enum CapabilityAccess {
    Read,
    Write,
    ReadWrite,
    Configure,
    /// Read, write and configure.
    Full,
}

/// A discovered device.
#[derive(Debug, Clone, PartialEq, Eq)]
pub struct DeviceDescriptor {
    pub id: String,
    pub kind: DeviceKind,
    pub display_name: Option<String>,
    pub summary: Option<String>,
    pub address: Option<DeviceAddress>,
    pub driver_hint: Option<String>,
    pub vendor: Option<String>,
    pub model: Option<String>,
    pub serial_number: Option<String>,
    pub modalias: Option<String>,
    pub health: DeviceHealth,
    /// The sysfs class directory through which the device is driven, for
    /// devices driven that way.
    pub control_root: Option<String>,
    pub labels: Vec<(String, String)>,
    pub properties: Vec<(String, Value)>,
    /// The ids of the descriptors this one hangs below.
    pub parents: Vec<String>,
    pub capabilities: Vec<(String, CapabilityAccess)>,
}

/// The value of a [`DeviceDescriptor`].
pub struct DescriptorView {
    pub id: Seq<char>,
    pub kind: DeviceKind,
    pub display_name: Option<Seq<char>>,
    pub summary: Option<Seq<char>>,
    pub address: Option<AddressView>,
    pub driver_hint: Option<Seq<char>>,
    pub vendor: Option<Seq<char>>,
    pub model: Option<Seq<char>>,
    pub serial_number: Option<Seq<char>>,
    pub modalias: Option<Seq<char>>,
    pub health: DeviceHealth,
    pub control_root: Option<Seq<char>>,
    pub labels: Seq<(Seq<char>, Seq<char>)>,
    pub properties: Seq<(Seq<char>, ValueView)>,
    pub parents: Seq<Seq<char>>,
    pub capabilities: Seq<(Seq<char>, CapabilityAccess)>,
}

pub open spec fn opt_string_view(s: Option<String>) -> Option<Seq<char>> {
    match s {
        Some(s) => Some(s@),
        None => None,
    }
}

pub open spec fn labels_view(v: Seq<(String, String)>) -> Seq<(Seq<char>, Seq<char>)> {
    v.map_values(|p: (String, String)| (p.0@, p.1@))
}

pub open spec fn properties_view(v: Seq<(String, Value)>) -> Seq<(Seq<char>, ValueView)> {
    v.map_values(|p: (String, Value)| (p.0@, p.1@))
}

pub open spec fn capabilities_view(v: Seq<(String, CapabilityAccess)>) -> Seq<(Seq<char>, CapabilityAccess)> {
    v.map_values(|p: (String, CapabilityAccess)| (p.0@, p.1))
}

impl View for DeviceDescriptor {
    type V = DescriptorView;

    open spec fn view(&self) -> DescriptorView {
        DescriptorView {
            id: self.id@,
            kind: self.kind,
            display_name: opt_string_view(self.display_name),
            summary: opt_string_view(self.summary),
            address: match self.address {
                Some(a) => Some(a@),
                None => None,
            },
            driver_hint: opt_string_view(self.driver_hint),
            vendor: opt_string_view(self.vendor),
            model: opt_string_view(self.model),
            serial_number: opt_string_view(self.serial_number),
            modalias: opt_string_view(self.modalias),
            health: self.health,
            control_root: opt_string_view(self.control_root),
            labels: labels_view(self.labels@),
            properties: properties_view(self.properties@),
            parents: strings_view(self.parents@),
            capabilities: capabilities_view(self.capabilities@),
        }
    }
}

/// The fields that every descriptor's builder starts from: an id and a
/// kind, healthy, with nothing else set.
pub open spec fn spec_started(id: Seq<char>, kind: DeviceKind) -> DescriptorView {
    DescriptorView {
        id,
        kind,
        display_name: None,
        summary: None,
        address: None,
        driver_hint: None,
        vendor: None,
        model: None,
        serial_number: None,
        modalias: None,
        health: DeviceHealth::Healthy,
        control_root: None,
        labels: Seq::empty(),
        properties: Seq::empty(),
        parents: Seq::empty(),
        capabilities: Seq::empty(),
    }
}

/// A single property where `value` is present, none otherwise.
pub open spec fn optional_property(key: Seq<char>, value: Option<ValueView>) -> Seq<(Seq<char>, ValueView)> {
    match value {
        Some(v) => seq![(key, v)],
        None => Seq::empty(),
    }
}

/// A text value where `s` is present.
pub open spec fn text_value(s: Option<Seq<char>>) -> Option<ValueView> {
    match s {
        Some(s) => Some(ValueView::Text(s)),
        None => None,
    }
}

impl DeviceDescriptor {
    /// A descriptor with only its id and kind.
    pub fn start(id: String, kind: DeviceKind) -> (r: Self)
        ensures
            r@ == spec_started(id@, kind),
    {
        let r = DeviceDescriptor {
            id,
            kind,
            display_name: None,
            summary: None,
            address: None,
            driver_hint: None,
            vendor: None,
            model: None,
            serial_number: None,
            modalias: None,
            health: DeviceHealth::Healthy,
            control_root: None,
            labels: Vec::new(),
            properties: Vec::new(),
            parents: Vec::new(),
            capabilities: Vec::new(),
        };
        assert(r@.labels =~= Seq::<(Seq<char>, Seq<char>)>::empty());
        assert(r@.properties =~= Seq::<(Seq<char>, ValueView)>::empty());
        assert(r@.parents =~= Seq::<Seq<char>>::empty());
        assert(r@.capabilities =~= Seq::<(Seq<char>, CapabilityAccess)>::empty());
        r
    }

    /// The bus family of the descriptor, as its kind gives it.
    pub fn interface(&self) -> (r: InterfaceKind)
        ensures
            r == spec_kind_interface(self.kind),
    {
        self.kind.interface()
    }

    pub fn add_label(&mut self, key: &str, value: String)
        ensures
            final(self)@ == (DescriptorView {
                labels: old(self)@.labels.push((key@, value@)),
                ..old(self)@
            }),
    {
        let ghost before = self.labels@;
        self.labels.push((key.to_owned(), value));
        assert(labels_view(self.labels@) =~= labels_view(before).push((key@, value@)));
    }

    pub fn add_property(&mut self, key: &str, value: Value)
        ensures
            final(self)@ == (DescriptorView {
                properties: old(self)@.properties.push((key@, value@)),
                ..old(self)@
            }),
    {
        let ghost before = self.properties@;
        let ghost v = value@;
        self.properties.push((key.to_owned(), value));
        assert(properties_view(self.properties@) =~= properties_view(before).push((key@, v)));
    }

    pub fn add_parent(&mut self, parent_id: String)
        ensures
            final(self)@ == (DescriptorView { parents: old(self)@.parents.push(parent_id@), ..old(self)@ }),
    {
        let ghost before = self.parents@;
        self.parents.push(parent_id);
        assert(strings_view(self.parents@) =~= strings_view(before).push(parent_id@));
    }

    pub fn add_capability(&mut self, id: &str, access: CapabilityAccess)
        ensures
            final(self)@ == (DescriptorView {
                capabilities: old(self)@.capabilities.push((id@, access)),
                ..old(self)@
            }),
    {
        let ghost before = self.capabilities@;
        self.capabilities.push((id.to_owned(), access));
        assert(capabilities_view(self.capabilities@) =~= capabilities_view(before).push((id@, access)));
    }
}

/// The text value of a string.
pub fn text(s: String) -> (r: Value)
    ensures
        r@ == ValueView::Text(s@),
{
    Value::Text(s)
}

/// The text value of a string slice.
pub fn text_of(s: &str) -> (r: Value)
    ensures
        r@ == ValueView::Text(s@),
{
    Value::Text(s.to_owned())
}

/// The note a probe records when a sysfs attribute of a device could not
/// be read: `failed to read {what} for '{name}' at '{path}': {error}`.
pub open spec fn spec_read_failure_note(what: Seq<char>, name: Seq<char>, path: Seq<char>, error: Seq<char>) -> Seq<char> {
    "failed to read "@ + what + " for '"@ + name + "' at '"@ + path + "': "@ + error
}

/// Executable form of [`spec_read_failure_note`].
pub fn read_failure_note(what: &str, name: &str, path: &str, error: &str) -> (r: String)
    ensures
        r@ == spec_read_failure_note(what@, name@, path@, error@),
{
    let mut out: Vec<char> = Vec::new();
    push_str_chars(&mut out, "failed to read ");
    push_str_chars(&mut out, what);
    push_str_chars(&mut out, " for '");
    push_str_chars(&mut out, name);
    push_str_chars(&mut out, "' at '");
    push_str_chars(&mut out, path);
    push_str_chars(&mut out, "': ");
    push_str_chars(&mut out, error);
    string_from_chars(out.as_slice())
}

/// What one discovery probe reports: the devices it found and notes on
/// what it passed over.
#[derive(Debug, Clone, PartialEq, Eq)]
pub struct ProbeDiscovery {
    pub devices: Vec<DeviceDescriptor>,
    pub notes: Vec<String>,
}

pub open spec fn descriptors_view(v: Seq<DeviceDescriptor>) -> Seq<DescriptorView> {
    v.map_values(|d: DeviceDescriptor| d@)
}

/// `{what} '{path}' is not present`, the note of a probe whose sysfs root
/// is missing.
pub open spec fn spec_root_missing_note(what: Seq<char>, path: Seq<char>) -> Seq<char> {
    what + " '"@ + path + "' is not present"@
}

/// Executable form of [`spec_root_missing_note`].
pub fn root_missing_note(what: &str, path: &str) -> (r: String)
    ensures
        r@ == spec_root_missing_note(what@, path@),
{
    let mut out: Vec<char> = Vec::new();
    push_str_chars(&mut out, what);
    push_str_chars(&mut out, " '");
    push_str_chars(&mut out, path);
    push_str_chars(&mut out, "' is not present");
    string_from_chars(out.as_slice())
}

/// What one directory of a listing came to.
pub enum EntryOutcome {
    /// Not a device of this probe's.
    Skipped,
    Found(DescriptorView),
    Noted(Seq<char>),
}

/// The devices found among a listing's outcomes, in order.
pub open spec fn found_devices(outcomes: Seq<EntryOutcome>) -> Seq<DescriptorView>
    decreases outcomes.len(),
{
    if outcomes.len() == 0 {
        Seq::empty()
    } else {
        let rest = found_devices(outcomes.drop_last());
        match outcomes.last() {
            EntryOutcome::Found(d) => rest.push(d),
            _ => rest,
        }
    }
}

/// The notes among a listing's outcomes, in order.
pub open spec fn found_notes(outcomes: Seq<EntryOutcome>) -> Seq<Seq<char>>
    decreases outcomes.len(),
{
    if outcomes.len() == 0 {
        Seq::empty()
    } else {
        let rest = found_notes(outcomes.drop_last());
        match outcomes.last() {
            EntryOutcome::Noted(n) => rest.push(n),
            _ => rest,
        }
    }
}

impl ProbeDiscovery {
    /// Nothing found.
    pub fn empty() -> (r: Self)
        ensures
            descriptors_view(r.devices@) == Seq::<DescriptorView>::empty(),
            strings_view(r.notes@) == Seq::<Seq<char>>::empty(),
    {
        let r = ProbeDiscovery { devices: Vec::new(), notes: Vec::new() };
        assert(descriptors_view(r.devices@) =~= Seq::<DescriptorView>::empty());
        assert(strings_view(r.notes@) =~= Seq::<Seq<char>>::empty());
        r
    }

    /// Only the note that the probe's root is missing.
    pub fn root_missing(note: String) -> (r: Self)
        ensures
            descriptors_view(r.devices@) == Seq::<DescriptorView>::empty(),
            strings_view(r.notes@) == seq![note@],
    {
        let mut r = ProbeDiscovery::empty();
        r.add_note(note);
        r
    }

    pub fn add_device(&mut self, d: DeviceDescriptor)
        ensures
            descriptors_view(final(self).devices@) == descriptors_view(old(self).devices@).push(d@),
            final(self).notes == old(self).notes,
    {
        let ghost v = self.devices@;
        self.devices.push(d);
        assert(descriptors_view(self.devices@) =~= descriptors_view(v).push(d@));
    }

    pub fn add_note(&mut self, n: String)
        ensures
            strings_view(final(self).notes@) == strings_view(old(self).notes@).push(n@),
            final(self).devices == old(self).devices,
    {
        let ghost v = self.notes@;
        self.notes.push(n);
        assert(strings_view(self.notes@) =~= strings_view(v).push(n@));
    }

    /// Records one entry's outcome.
    pub fn record(&mut self, outcome: Result<Option<DeviceDescriptor>, String>)
        ensures
            descriptors_view(final(self).devices@) == match outcome {
                Ok(Some(d)) => descriptors_view(old(self).devices@).push(d@),
                _ => descriptors_view(old(self).devices@),
            },
            strings_view(final(self).notes@) == match outcome {
                Err(n) => strings_view(old(self).notes@).push(n@),
                _ => strings_view(old(self).notes@),
            },
    {
        match outcome {
            Ok(Some(d)) => self.add_device(d),
            Ok(None) => {},
            Err(n) => self.add_note(n),
        }
    }
}

/// The outcome of one entry, from what building its descriptor gave.
pub open spec fn outcome_of(r: Result<Option<DescriptorView>, Seq<char>>) -> EntryOutcome {
    match r {
        Ok(Some(d)) => EntryOutcome::Found(d),
        Ok(None) => EntryOutcome::Skipped,
        Err(n) => EntryOutcome::Noted(n),
    }
}

pub proof fn lemma_found_push(outcomes: Seq<EntryOutcome>, o: EntryOutcome)
    ensures
        found_devices(outcomes.push(o)) == match o {
            EntryOutcome::Found(d) => found_devices(outcomes).push(d),
            _ => found_devices(outcomes),
        },
        found_notes(outcomes.push(o)) == match o {
            EntryOutcome::Noted(n) => found_notes(outcomes).push(n),
            _ => found_notes(outcomes),
        },
{
    assert(outcomes.push(o).drop_last() =~= outcomes);
}

/// A probe that could not finish: which probe, and why.
#[derive(Debug, Clone, PartialEq, Eq)]
pub struct ProbeFailure {
    pub probe: String,
    pub message: String,
}

/// `{action} at '{path}': {error}`.
pub open spec fn spec_probe_failure_message(action: Seq<char>, path: Seq<char>, error: Seq<char>) -> Seq<char> {
    action + " at '"@ + path + "': "@ + error
}

/// The failure of probe `probe` doing `action` at `path`.
pub fn probe_failed(probe: &str, path: &str, action: &str, error: &str) -> (r: ProbeFailure)
    ensures
        r.probe@ == probe@,
        r.message@ == spec_probe_failure_message(action@, path@, error@),
{
    let mut out: Vec<char> = Vec::new();
    push_str_chars(&mut out, action);
    push_str_chars(&mut out, " at '");
    push_str_chars(&mut out, path);
    push_str_chars(&mut out, "': ");
    push_str_chars(&mut out, error);
    ProbeFailure { probe: probe.to_owned(), message: string_from_chars(out.as_slice()) }
}

/// A driver's label, where there is a driver.
pub open spec fn driver_label(driver: Option<Seq<char>>) -> Seq<(Seq<char>, Seq<char>)> {
    match driver {
        Some(d) => seq![("driver"@, d)],
        None => Seq::empty(),
    }
}

/// Healthy where the device node is there, degraded otherwise.
pub open spec fn devnode_health(devnode: Option<Seq<char>>) -> DeviceHealth {
    if devnode is Some {
        DeviceHealth::Healthy
    } else {
        DeviceHealth::Degraded
    }
}

impl DeviceDescriptor {
    /// Adds a text property where the value is present.
    pub fn add_optional_text(&mut self, key: &str, v: Option<String>)
        ensures
            final(self)@ == (DescriptorView {
                properties: old(self)@.properties + optional_property(key@, text_value(opt_string_view(v))),
                ..old(self)@
            }),
    {
        let ghost before = self@;
        if let Some(v) = v {
            self.add_property(key, text(v));
        }
        assert(self@.properties =~= before.properties + optional_property(key@, text_value(opt_string_view(v))));
    }

    /// Records the modalias, as a field and as a property, where there is
    /// one.
    pub fn add_modalias(&mut self, modalias: Option<String>)
        ensures
            final(self)@ == (DescriptorView {
                modalias: opt_string_view(modalias),
                properties: old(self)@.properties + optional_property(
                    "modalias"@,
                    text_value(opt_string_view(modalias)),
                ),
                ..old(self)@
            }),
    {
        let ghost before = self@;
        self.modalias = None;
        if let Some(m) = modalias {
            self.modalias = Some(m.clone());
            self.add_property("modalias", text(m));
        }
        assert(self@.properties =~= before.properties + optional_property(
            "modalias"@,
            text_value(opt_string_view(modalias)),
        ));
    }

    /// Records the bound driver, as a label and as a property, where there
    /// is one.
    pub fn add_driver(&mut self, driver: Option<String>)
        ensures
            final(self)@ == (DescriptorView {
                labels: old(self)@.labels + driver_label(opt_string_view(driver)),
                properties: old(self)@.properties + optional_property(
                    "driver"@,
                    text_value(opt_string_view(driver)),
                ),
                ..old(self)@
            }),
    {
        let ghost before = self@;
        if let Some(v) = driver {
            self.add_label("driver", v.clone());
            self.add_property("driver", text(v));
        }
        assert(self@.labels =~= before.labels + driver_label(opt_string_view(driver)));
        assert(self@.properties =~= before.properties + optional_property(
            "driver"@,
            text_value(opt_string_view(driver)),
        ));
    }

    /// Records the device node where it exists; a device without one is
    /// degraded, and one with a node keeps its health.
    pub fn add_devnode(&mut self, devnode: Option<String>)
        ensures
            final(self)@ == (DescriptorView {
                health: if devnode is Some {
                    old(self)@.health
                } else {
                    DeviceHealth::Degraded
                },
                properties: old(self)@.properties + optional_property(
                    "devnode"@,
                    text_value(opt_string_view(devnode)),
                ),
                ..old(self)@
            }),
    {
        let ghost before = self@;
        match devnode {
            Some(n) => self.add_property("devnode", text(n)),
            None => {
                self.health = DeviceHealth::Degraded;
            },
        }
        assert(self@.properties =~= before.properties + optional_property(
            "devnode"@,
            text_value(opt_string_view(devnode)),
        ));
    }
}

/// A copy of an optional string.
pub fn clone_opt(s: &Option<String>) -> (r: Option<String>)
    ensures
        opt_string_view(r) == opt_string_view(*s),
{
    match s {
        Some(s) => Some(s.clone()),
        None => None,
    }
}

/// The value read, where the read succeeded.
pub fn ok_string(r: &Result<Option<String>, String>) -> (v: Option<String>)
    ensures
        r is Ok ==> opt_string_view(v) == opt_string_view(r->Ok_0),
{
    match r {
        Ok(v) => clone_opt(v),
        Err(_) => None,
    }
}

/// The value of the latest property `key`.
pub open spec fn find_property(props: Seq<(Seq<char>, ValueView)>, key: Seq<char>) -> Option<ValueView>
    decreases props.len(),
{
    if props.len() == 0 {
        None
    } else if props.last().0 == key {
        Some(props.last().1)
    } else {
        find_property(props.drop_last(), key)
    }
}

impl DeviceDescriptor {
    /// The value of property `key`.
    pub fn property(&self, key: &str) -> (r: Option<&Value>)
        ensures
            match r {
                Some(v) => find_property(self@.properties, key@) == Some(v@),
                None => find_property(self@.properties, key@) is None,
            },
    {
        let ghost props = self@.properties;
        let mut i: usize = self.properties.len();
        assert(props.take(props.len() as int) =~= props);
        while i > 0
            invariant
                i <= self.properties@.len(),
                props == self@.properties,
                props.len() == self.properties@.len(),
                find_property(props, key@) == find_property(props.take(i as int), key@),
            decreases i,
        {
            i = i - 1;
            let ghost t = props.take(i as int + 1);
            assert(t.drop_last() =~= props.take(i as int));
            assert(t.last() == props[i as int]);
            assert(props[i as int] == (self.properties@[i as int].0@, self.properties@[i as int].1@));
            if str_eq(self.properties[i].0.as_str(), key) {
                return Some(&self.properties[i].1);
            }
        }
        assert(props.take(0) =~= Seq::<(Seq<char>, ValueView)>::empty());
        None
    }
}

/// A property reads back as the value last added under its key, and
/// adding it leaves every other key as it was.
pub proof fn law_property_reads_back(d: DescriptorView, key: Seq<char>, value: ValueView, other: Seq<char>)
    requires
        other != key,
    ensures
        find_property(d.properties.push((key, value)), key) == Some(value),
        find_property(d.properties.push((key, value)), other) == find_property(d.properties, other),
{
    assert(d.properties.push((key, value)).drop_last() =~= d.properties);
}

/// Some descriptor among the first `upto` carries `id`.
pub open spec fn described_before(devices: Seq<DescriptorView>, id: Seq<char>, upto: int) -> bool {
    exists|j: int| 0 <= j < upto && j < devices.len() && (#[trigger] devices[j]).id == id
}

/// Every parent link points at a descriptor reported earlier.
pub open spec fn parents_described(devices: Seq<DescriptorView>) -> bool {
    forall|i: int, p: int|
        0 <= i < devices.len() && 0 <= p < devices[i].parents.len() ==> described_before(
            devices,
            #[trigger] devices[i].parents[p],
            i,
        )
}

pub proof fn lemma_described_push(devices: Seq<DescriptorView>, x: DescriptorView, id: Seq<char>, upto: int)
    requires
        described_before(devices, id, upto),
        upto <= devices.len(),
    ensures
        described_before(devices.push(x), id, upto),
{
    let j = choose|j: int| 0 <= j < upto && j < devices.len() && (#[trigger] devices[j]).id == id;
    assert(devices.push(x)[j] == devices[j]);
}

/// Pushing a descriptor whose parents were all reported keeps every
/// parent link pointing backwards.
pub proof fn lemma_parents_described_push(devices: Seq<DescriptorView>, x: DescriptorView)
    requires
        parents_described(devices),
        forall|p: int| 0 <= p < x.parents.len() ==> described_before(devices, #[trigger] x.parents[p], devices.len() as int),
    ensures
        parents_described(devices.push(x)),
{
    let n = devices.push(x);
    assert forall|i: int, p: int| 0 <= i < n.len() && 0 <= p < n[i].parents.len() implies described_before(
        n,
        #[trigger] n[i].parents[p],
        i,
    ) by {
        if i < devices.len() {
            assert(n[i] == devices[i]);
            assert(described_before(devices, devices[i].parents[p], i));
            lemma_described_push(devices, x, devices[i].parents[p], i);
        } else {
            assert(n[i] == x);
            assert(described_before(devices, x.parents[p], devices.len() as int));
            lemma_described_push(devices, x, x.parents[p], devices.len() as int);
        }
    }
}

/// Appending a parent without parents of its own, then children that all
/// hang below it, keeps every parent link pointing backwards.
pub proof fn lemma_parents_described_family(ds: Seq<DescriptorView>, parent: DescriptorView, children: Seq<DescriptorView>)
    requires
        parents_described(ds),
        parent.parents.len() == 0,
        forall|i: int| 0 <= i < children.len() ==> (#[trigger] children[i]).parents == seq![parent.id],
    ensures
        parents_described(ds + seq![parent] + children),
    decreases children.len(),
{
    if children.len() == 0 {
        lemma_parents_described_push(ds, parent);
        assert(ds + seq![parent] + children =~= ds.push(parent));
    } else {
        let fewer = children.drop_last();
        lemma_parents_described_family(ds, parent, fewer);
        let base = ds + seq![parent] + fewer;
        let last = children.last();
        assert(last == children[children.len() - 1]);
        assert(base[ds.len() as int] == parent);
        assert forall|p: int| 0 <= p < last.parents.len() implies described_before(
            base,
            #[trigger] last.parents[p],
            base.len() as int,
        ) by {
            assert(last.parents[p] == parent.id);
            assert(base[ds.len() as int].id == parent.id);
        }
        lemma_parents_described_push(base, last);
        assert(ds + seq![parent] + children =~= base.push(last));
    }
}

} // verus!
