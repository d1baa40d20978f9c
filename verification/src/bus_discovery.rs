//! Discovery of SPI and I2C buses and the devices on them: each device is
//! described below its bus, and a bus that no directory of its own
//! described is described from its number when its first device is met.
use crate::descriptor::{
    clone_opt, described_before, descriptors_view, devnode_health, lemma_described_push, lemma_parents_described_push,
    parents_described, driver_label, ok_string, opt_string_view, optional_property, read_failure_note,
    root_missing_note, spec_read_failure_note, spec_root_missing_note, spec_started, strings_view, text, text_value,
    AddressView, CapabilityAccess, DescriptorView, DeviceAddress, DeviceDescriptor, DeviceHealth, DeviceKind,
    ProbeDiscovery, Value, ValueView,
};
use crate::paths::{join_chars, path_join, LinuxPaths};
use crate::text::{chars_of, dec_digits, hex_digits, push_dec, push_hex_padded, push_str_chars, string_from_chars, zero_pad};
use crate::util::{
    parse_i2c_device_name, parse_prefixed_u32, parse_spi_device_name, spec_parse_i2c_device_name,
    spec_parse_prefixed_u32, spec_parse_spi_device_name,
};
use vstd::prelude::*;

verus! {

fn dec_string(n: u64) -> (r: String)
    ensures
        r@ == dec_digits(n as nat),
{
    let mut out: Vec<char> = Vec::new();
    push_dec(&mut out, n);
    string_from_chars(out.as_slice())
}

/// The id of the bus descriptor for `bus`, the latest one made.
pub open spec fn find_bus_id(buses: Seq<(u32, Seq<char>)>, bus: u32) -> Option<Seq<char>>
    decreases buses.len(),
{
    if buses.len() == 0 {
        None
    } else if buses.last().0 == bus {
        Some(buses.last().1)
    } else {
        find_bus_id(buses.drop_last(), bus)
    }
}

proof fn lemma_find_bus_id_suffix(s: Seq<(u32, Seq<char>)>, k: int, bus: u32)
    requires
        0 <= k <= s.len(),
        forall|j: int| k <= j < s.len() ==> s[j].0 != bus,
    ensures
        find_bus_id(s, bus) == find_bus_id(s.take(k), bus),
    decreases s.len(),
{
    if s.len() > k {
        assert(s.drop_last().take(k) =~= s.take(k));
        lemma_find_bus_id_suffix(s.drop_last(), k, bus);
    } else {
        assert(s.take(k) =~= s);
    }
}

/// Where a walk over buses and their devices stands.
pub struct BusWalkView {
    pub buses: Seq<(u32, Seq<char>)>,
    pub devices: Seq<DescriptorView>,
    pub notes: Seq<Seq<char>>,
}

pub open spec fn bus_walk_start() -> BusWalkView {
    BusWalkView { buses: Seq::empty(), devices: Seq::empty(), notes: Seq::empty() }
}

struct BusWalk {
    buses: Vec<(u32, String)>,
    found: ProbeDiscovery,
}

spec fn bus_ids_view(v: Seq<(u32, String)>) -> Seq<(u32, Seq<char>)> {
    v.map_values(|p: (u32, String)| (p.0, p.1@))
}

impl View for BusWalk {
    type V = BusWalkView;

    closed spec fn view(&self) -> BusWalkView {
        BusWalkView {
            buses: bus_ids_view(self.buses@),
            devices: descriptors_view(self.found.devices@),
            notes: strings_view(self.found.notes@),
        }
    }
}

impl BusWalk {
    fn new() -> (r: Self)
        ensures
            r@ == bus_walk_start(),
    {
        let r = BusWalk { buses: Vec::new(), found: ProbeDiscovery::empty() };
        assert(r@.buses =~= Seq::<(u32, Seq<char>)>::empty());
        r
    }

    fn bus_id(&self, bus: u32) -> (r: Option<String>)
        ensures
            opt_string_view(r) == find_bus_id(self@.buses, bus),
    {
        let ghost s = self@.buses;
        let mut i: usize = self.buses.len();
        while i > 0
            invariant
                i <= self.buses@.len(),
                s == bus_ids_view(self.buses@),
                forall|j: int| i <= j < s.len() ==> s[j].0 != bus,
            decreases i,
        {
            i = i - 1;
            if self.buses[i].0 == bus {
                proof {
                    lemma_find_bus_id_suffix(s, i + 1, bus);
                    assert(s.take(i + 1).last() == s[i as int]);
                }
                return Some(self.buses[i].1.clone());
            }
        }
        proof {
            lemma_find_bus_id_suffix(s, 0, bus);
        }
        None
    }

    fn add_bus(&mut self, bus: u32, d: DeviceDescriptor)
        ensures
            final(self)@ == (BusWalkView {
                buses: old(self)@.buses.push((bus, d@.id)),
                devices: old(self)@.devices.push(d@),
                ..old(self)@
            }),
    {
        let ghost b = self.buses@;
        self.buses.push((bus, d.id.clone()));
        self.found.add_device(d);
        assert(bus_ids_view(self.buses@) =~= bus_ids_view(b).push((bus, d@.id)));
    }

    fn record(&mut self, r: Result<DeviceDescriptor, String>)
        ensures
            final(self)@ == match r {
                Ok(d) => BusWalkView { devices: old(self)@.devices.push(d@), ..old(self)@ },
                Err(n) => BusWalkView { notes: old(self)@.notes.push(n@), ..old(self)@ },
            },
    {
        match r {
            Ok(d) => self.found.add_device(d),
            Err(n) => self.found.add_note(n),
        }
    }
}

// ---------------------------------------------------------------- SPI

/// The descriptor of SPI bus `bus`.
pub open spec fn spec_spi_bus_descriptor(bus: u32) -> DescriptorView {
    DescriptorView {
        display_name: Some("spi-"@ + dec_digits(bus as nat)),
        summary: Some("Linux SPI bus"@),
        address: Some(AddressView::SpiBus { bus }),
        labels: seq![("backend"@, "linux"@), ("bus"@, dec_digits(bus as nat))],
        properties: seq![("bus"@, ValueView::U64(bus as u64))],
        ..spec_started("linux.spi.bus."@ + dec_digits(bus as nat), DeviceKind::SpiBus)
    }
}

/// Builds the descriptor of SPI bus `bus`.
pub fn build_spi_bus_descriptor(bus: u32) -> (r: DeviceDescriptor)
    ensures
        r@ == spec_spi_bus_descriptor(bus),
{
    let digits = dec_string(bus as u64);
    let mut id: Vec<char> = Vec::new();
    push_str_chars(&mut id, "linux.spi.bus.");
    push_str_chars(&mut id, digits.as_str());
    let mut d = DeviceDescriptor::start(string_from_chars(id.as_slice()), DeviceKind::SpiBus);
    let mut name: Vec<char> = Vec::new();
    push_str_chars(&mut name, "spi-");
    push_str_chars(&mut name, digits.as_str());
    d.display_name = Some(string_from_chars(name.as_slice()));
    d.summary = Some("Linux SPI bus".to_owned());
    d.address = Some(DeviceAddress::SpiBus { bus });
    d.add_label("backend", "linux".to_owned());
    d.add_label("bus", digits);
    d.add_property("bus", Value::U64(bus as u64));
    assert(d@.labels =~= spec_spi_bus_descriptor(bus).labels);
    assert(d@.properties =~= spec_spi_bus_descriptor(bus).properties);
    d
}

/// What was read of one entry of `/sys/bus/spi/devices`.
pub struct SpiDeviceFacts {
    /// The entry's name (`spi0.1`).
    pub name: String,
    pub path: String,
    pub modalias: Result<Option<String>, String>,
    pub driver: Result<Option<String>, String>,
    /// Whether the device's node (`spi_devnode`) exists.
    pub devnode_exists: bool,
}

pub open spec fn spec_spi_read_failure(f: SpiDeviceFacts) -> Option<Seq<char>> {
    if f.modalias is Err {
        Some(spec_read_failure_note("Linux SPI modalias"@, f.name@, f.path@, f.modalias->Err_0@))
    } else if f.driver is Err {
        Some(spec_read_failure_note("Linux SPI driver link"@, f.name@, f.path@, f.driver->Err_0@))
    } else {
        None
    }
}

pub open spec fn spec_spi_capabilities() -> Seq<(Seq<char>, CapabilityAccess)> {
    seq![
        ("spi.transfer"@, CapabilityAccess::ReadWrite),
        ("spi.write"@, CapabilityAccess::Write),
        ("spi.configure"@, CapabilityAccess::Configure),
        ("spi.get_configuration"@, CapabilityAccess::Read),
    ]
}

/// `<dev>/spidev{bus}.{chip_select}` where it exists.
pub open spec fn spec_spi_devnode(paths: LinuxPaths, bus: u32, chip_select: u16, exists: bool) -> Option<Seq<char>> {
    if exists {
        Some(
            path_join(
                paths.dev_root@,
                "spidev"@ + dec_digits(bus as nat) + seq!['.'] + dec_digits(chip_select as nat),
            ),
        )
    } else {
        None
    }
}

/// The descriptor of an SPI device whose attributes were all read.
pub open spec fn spec_spi_device_descriptor(paths: LinuxPaths, bus_id: Seq<char>, bus: u32, chip_select: u16, f: SpiDeviceFacts) -> DescriptorView {
    let driver = opt_string_view(f.driver->Ok_0);
    let modalias = opt_string_view(f.modalias->Ok_0);
    let devnode = spec_spi_devnode(paths, bus, chip_select, f.devnode_exists);
    DescriptorView {
        display_name: Some("spi-"@ + dec_digits(bus as nat) + "."@ + dec_digits(chip_select as nat)),
        summary: Some("Linux SPI device"@),
        address: Some(AddressView::SpiDevice { bus, chip_select }),
        driver_hint: Some("lemnos.spi.generic"@),
        modalias,
        health: devnode_health(devnode),
        labels: seq![("backend"@, "linux"@), ("bus"@, dec_digits(bus as nat))] + driver_label(driver),
        properties: seq![
            ("bus"@, ValueView::U64(bus as u64)),
            ("chip_select"@, ValueView::U64(chip_select as u64)),
            ("kernel_name"@, ValueView::Text(f.name@)),
            ("sysfs_path"@, ValueView::Text(f.path@)),
        ] + optional_property("modalias"@, text_value(modalias)) + optional_property("driver"@, text_value(driver))
            + optional_property("devnode"@, text_value(devnode)),
        parents: seq![bus_id],
        capabilities: spec_spi_capabilities(),
        ..spec_started(
            "linux.spi.bus"@ + dec_digits(bus as nat) + ".cs"@ + dec_digits(chip_select as nat),
            DeviceKind::SpiDevice,
        )
    }
}

pub open spec fn spec_build_spi_device(paths: LinuxPaths, bus_id: Seq<char>, bus: u32, chip_select: u16, f: SpiDeviceFacts) -> Result<
    DescriptorView,
    Seq<char>,
> {
    match spec_spi_read_failure(f) {
        Some(n) => Err(n),
        None => Ok(spec_spi_device_descriptor(paths, bus_id, bus, chip_select, f)),
    }
}

/// Builds the descriptor of the SPI device `chip_select` on `bus`.
pub fn build_spi_device_descriptor(paths: &LinuxPaths, bus_id: &String, bus: u32, chip_select: u16, f: &SpiDeviceFacts) -> (r:
    Result<DeviceDescriptor, String>)
    ensures
        match (r, spec_build_spi_device(*paths, bus_id@, bus, chip_select, *f)) {
            (Ok(d), Ok(v)) => d@ == v,
            (Err(n), Err(m)) => n@ == m,
            _ => false,
        },
{
    if let Err(e) = &f.modalias {
        return Err(read_failure_note("Linux SPI modalias", f.name.as_str(), f.path.as_str(), e.as_str()));
    }
    if let Err(e) = &f.driver {
        return Err(read_failure_note("Linux SPI driver link", f.name.as_str(), f.path.as_str(), e.as_str()));
    }
    let bus_text = dec_string(bus as u64);
    let cs_text = dec_string(chip_select as u64);
    let mut id: Vec<char> = Vec::new();
    push_str_chars(&mut id, "linux.spi.bus");
    push_str_chars(&mut id, bus_text.as_str());
    push_str_chars(&mut id, ".cs");
    push_str_chars(&mut id, cs_text.as_str());
    let mut d = DeviceDescriptor::start(string_from_chars(id.as_slice()), DeviceKind::SpiDevice);
    let mut name: Vec<char> = Vec::new();
    push_str_chars(&mut name, "spi-");
    push_str_chars(&mut name, bus_text.as_str());
    push_str_chars(&mut name, ".");
    push_str_chars(&mut name, cs_text.as_str());
    d.display_name = Some(string_from_chars(name.as_slice()));
    d.summary = Some("Linux SPI device".to_owned());
    d.address = Some(DeviceAddress::SpiDevice { bus, chip_select });
    d.driver_hint = Some("lemnos.spi.generic".to_owned());
    d.add_label("backend", "linux".to_owned());
    d.add_label("bus", bus_text);
    d.add_property("bus", Value::U64(bus as u64));
    d.add_property("chip_select", Value::U64(chip_select as u64));
    d.add_property("kernel_name", text(f.name.clone()));
    d.add_property("sysfs_path", text(f.path.clone()));
    d.add_parent(bus_id.clone());
    d.add_capability("spi.transfer", CapabilityAccess::ReadWrite);
    d.add_capability("spi.write", CapabilityAccess::Write);
    d.add_capability("spi.configure", CapabilityAccess::Configure);
    d.add_capability("spi.get_configuration", CapabilityAccess::Read);
    d.add_modalias(ok_string(&f.modalias));
    d.add_driver(ok_string(&f.driver));
    let devnode = if f.devnode_exists {
        Some(paths.spi_devnode(bus, chip_select))
    } else {
        None
    };
    d.add_devnode(devnode);
    let ghost v = spec_spi_device_descriptor(*paths, bus_id@, bus, chip_select, *f);
    assert(d@.labels =~= v.labels);
    assert(d@.properties =~= v.properties);
    assert(d@.parents =~= v.parents);
    assert(d@.capabilities =~= v.capabilities);
    Ok(d)
}

/// One entry of the SPI walk: entries whose names are not `spi{bus}.{cs}`
/// are passed over.
pub open spec fn spec_spi_step(paths: LinuxPaths, w: BusWalkView, f: SpiDeviceFacts) -> BusWalkView {
    match spec_parse_spi_device_name(f.name@) {
        None => w,
        Some((b, c)) => {
            let bus = b as u32;
            let cs = c as u16;
            let (w1, bus_id) = match find_bus_id(w.buses, bus) {
                Some(id) => (w, id),
                None => {
                    let d = spec_spi_bus_descriptor(bus);
                    (BusWalkView { buses: w.buses.push((bus, d.id)), devices: w.devices.push(d), ..w }, d.id)
                },
            };
            match spec_build_spi_device(paths, bus_id, bus, cs, f) {
                Ok(d) => BusWalkView { devices: w1.devices.push(d), ..w1 },
                Err(n) => BusWalkView { notes: w1.notes.push(n), ..w1 },
            }
        },
    }
}

pub open spec fn spec_spi_walk(paths: LinuxPaths, entries: Seq<SpiDeviceFacts>) -> BusWalkView
    decreases entries.len(),
{
    if entries.len() == 0 {
        bus_walk_start()
    } else {
        spec_spi_step(paths, spec_spi_walk(paths, entries.drop_last()), entries.last())
    }
}

/// The SPI probe over the entries of `root`, in name order.
pub fn discover_spi(paths: &LinuxPaths, root: &str, root_exists: bool, entries: &[SpiDeviceFacts]) -> (r: ProbeDiscovery)
    ensures
        !root_exists ==> descriptors_view(r.devices@) == Seq::<DescriptorView>::empty() && strings_view(r.notes@)
            == seq![spec_root_missing_note("SPI sysfs root"@, root@)],
        root_exists ==> descriptors_view(r.devices@) == spec_spi_walk(*paths, entries@).devices && strings_view(
            r.notes@,
        ) == spec_spi_walk(*paths, entries@).notes,
{
    if !root_exists {
        return ProbeDiscovery::root_missing(root_missing_note("SPI sysfs root", root));
    }
    let mut w = BusWalk::new();
    let mut i: usize = 0;
    while i < entries.len()
        invariant
            i <= entries@.len(),
            w@ == spec_spi_walk(*paths, entries@.take(i as int)),
        decreases entries.len() - i,
    {
        proof {
            let t = entries@.take(i as int + 1);
            assert(t.drop_last() =~= entries@.take(i as int));
            assert(t.last() == entries@[i as int]);
        }
        let f = &entries[i];
        if let Some((bus, cs)) = parse_spi_device_name(f.name.as_str()) {
            let bus_id = match w.bus_id(bus) {
                Some(id) => id,
                None => {
                    let d = build_spi_bus_descriptor(bus);
                    let id = d.id.clone();
                    w.add_bus(bus, d);
                    id
                },
            };
            let built = build_spi_device_descriptor(paths, &bus_id, bus, cs, f);
            w.record(built);
        }
        i = i + 1;
    }
    assert(entries@.take(entries@.len() as int) =~= entries@);
    w.found
}

// ---------------------------------------------------------------- I2C

/// `<dev>/i2c-{bus}` where it exists.
pub open spec fn spec_i2c_devnode(paths: LinuxPaths, bus: u32, exists: bool) -> Option<Seq<char>> {
    if exists {
        Some(path_join(paths.dev_root@, "i2c-"@ + dec_digits(bus as nat)))
    } else {
        None
    }
}

/// The descriptor of I2C bus `bus`; `class_path` is the bus's class
/// directory where it was found there, `adapter_name` the adapter's name
/// read from it.
pub open spec fn spec_i2c_bus_descriptor(paths: LinuxPaths, bus: u32, class_path: Option<Seq<char>>, adapter_name: Option<Seq<char>>, devnode_exists: bool) -> DescriptorView {
    let devnode = spec_i2c_devnode(paths, bus, devnode_exists);
    DescriptorView {
        display_name: Some("i2c-"@ + dec_digits(bus as nat)),
        summary: Some("Linux I2C bus"@),
        address: Some(AddressView::I2cBus { bus }),
        health: devnode_health(devnode),
        labels: seq![("backend"@, "linux"@), ("bus"@, dec_digits(bus as nat))] + match adapter_name {
            Some(a) => seq![("adapter_name"@, a)],
            None => Seq::empty(),
        },
        properties: seq![("bus"@, ValueView::U64(bus as u64))] + optional_property(
            "adapter_name"@,
            text_value(adapter_name),
        ) + optional_property("sysfs_path"@, text_value(class_path)) + optional_property("devnode"@, text_value(devnode)),
        ..spec_started("linux.i2c.bus."@ + dec_digits(bus as nat), DeviceKind::I2cBus)
    }
}

fn build_i2c_bus(paths: &LinuxPaths, bus: u32, class_path: Option<String>, adapter_name: Option<String>, devnode_exists: bool) -> (r:
    DeviceDescriptor)
    ensures
        r@ == spec_i2c_bus_descriptor(
            *paths,
            bus,
            opt_string_view(class_path),
            opt_string_view(adapter_name),
            devnode_exists,
        ),
{
    let digits = dec_string(bus as u64);
    let mut id: Vec<char> = Vec::new();
    push_str_chars(&mut id, "linux.i2c.bus.");
    push_str_chars(&mut id, digits.as_str());
    let mut d = DeviceDescriptor::start(string_from_chars(id.as_slice()), DeviceKind::I2cBus);
    let mut name: Vec<char> = Vec::new();
    push_str_chars(&mut name, "i2c-");
    push_str_chars(&mut name, digits.as_str());
    d.display_name = Some(string_from_chars(name.as_slice()));
    d.summary = Some("Linux I2C bus".to_owned());
    d.address = Some(DeviceAddress::I2cBus { bus });
    d.add_label("backend", "linux".to_owned());
    d.add_label("bus", digits);
    d.add_property("bus", Value::U64(bus as u64));
    let ghost mid = d@;
    if let Some(a) = &adapter_name {
        d.add_label("adapter_name", a.clone());
        d.add_property("adapter_name", text(a.clone()));
    }
    assert(d@.properties =~= mid.properties + optional_property(
        "adapter_name"@,
        text_value(opt_string_view(adapter_name)),
    ));
    d.add_optional_text("sysfs_path", class_path);
    let devnode = if devnode_exists {
        Some(paths.i2c_devnode(bus))
    } else {
        None
    };
    d.add_devnode(devnode);
    let ghost v = spec_i2c_bus_descriptor(
        *paths,
        bus,
        opt_string_view(class_path),
        opt_string_view(adapter_name),
        devnode_exists,
    );
    assert(d@.labels =~= v.labels);
    assert(d@.properties =~= v.properties);
    d
}

/// What was read of one entry of the I2C adapter class directory.
pub struct I2cBusFacts {
    /// The entry's name (`i2c-1`).
    pub name: String,
    pub path: String,
    /// The adapter's `name` attribute.
    pub adapter_name: Result<Option<String>, String>,
    /// Whether the bus's node (`i2c_devnode`) exists.
    pub devnode_exists: bool,
}

/// What a bus found in the class directory comes to.
pub open spec fn spec_build_i2c_class_bus(paths: LinuxPaths, bus: u32, f: I2cBusFacts) -> Result<DescriptorView, Seq<char>> {
    match f.adapter_name {
        Err(e) => Err(
            "failed to read Linux I2C bus name for bus "@ + dec_digits(bus as nat) + " at '"@ + path_join(f.path@, "name"@)
                + "': "@ + e@,
        ),
        Ok(a) => Ok(spec_i2c_bus_descriptor(paths, bus, Some(f.path@), opt_string_view(a), f.devnode_exists)),
    }
}

/// Builds the descriptor of a bus found in the class directory.
pub fn build_i2c_class_bus_descriptor(paths: &LinuxPaths, bus: u32, f: &I2cBusFacts) -> (r: Result<DeviceDescriptor, String>)
    ensures
        match (r, spec_build_i2c_class_bus(*paths, bus, *f)) {
            (Ok(d), Ok(v)) => d@ == v,
            (Err(n), Err(m)) => n@ == m,
            _ => false,
        },
{
    match &f.adapter_name {
        Err(e) => {
            let digits = dec_string(bus as u64);
            let path = chars_of(f.path.as_str());
            let name_path = join_chars(path.as_slice(), chars_of("name").as_slice());
            let mut out: Vec<char> = Vec::new();
            push_str_chars(&mut out, "failed to read Linux I2C bus name for bus ");
            push_str_chars(&mut out, digits.as_str());
            push_str_chars(&mut out, " at '");
            let ghost before = out@;
            let mut j: usize = 0;
            while j < name_path.len()
                invariant
                    j <= name_path@.len(),
                    out@ == before + name_path@.take(j as int),
                decreases name_path.len() - j,
            {
                out.push(name_path[j]);
                j = j + 1;
                assert(out@ =~= before + name_path@.take(j as int));
            }
            assert(name_path@.take(name_path@.len() as int) =~= name_path@);
            push_str_chars(&mut out, "': ");
            push_str_chars(&mut out, e.as_str());
            Err(string_from_chars(out.as_slice()))
        },
        Ok(a) => Ok(build_i2c_bus(paths, bus, Some(f.path.clone()), clone_opt(a), f.devnode_exists)),
    }
}

/// What was read of one entry of `/sys/bus/i2c/devices`.
pub struct I2cDeviceFacts {
    /// The entry's name (`1-0050`).
    pub name: String,
    pub path: String,
    /// The device's `name` attribute.
    pub device_name: Result<Option<String>, String>,
    pub modalias: Result<Option<String>, String>,
    pub driver: Result<Option<String>, String>,
    /// Whether the node of the device's bus (`i2c_devnode`) exists.
    pub devnode_exists: bool,
}

pub open spec fn spec_i2c_read_failure(f: I2cDeviceFacts) -> Option<Seq<char>> {
    if f.device_name is Err {
        Some(spec_read_failure_note("Linux I2C device name"@, f.name@, f.path@, f.device_name->Err_0@))
    } else if f.modalias is Err {
        Some(spec_read_failure_note("Linux I2C modalias"@, f.name@, f.path@, f.modalias->Err_0@))
    } else if f.driver is Err {
        Some(spec_read_failure_note("Linux I2C driver link"@, f.name@, f.path@, f.driver->Err_0@))
    } else {
        None
    }
}

pub open spec fn spec_i2c_capabilities() -> Seq<(Seq<char>, CapabilityAccess)> {
    seq![
        ("i2c.read"@, CapabilityAccess::Read),
        ("i2c.write"@, CapabilityAccess::Write),
        ("i2c.write_read"@, CapabilityAccess::ReadWrite),
        ("i2c.transaction"@, CapabilityAccess::Full),
    ]
}

/// `0x{address:04x}`.
pub open spec fn hex_address(address: u16) -> Seq<char> {
    "0x"@ + zero_pad(hex_digits(address as nat), 4)
}

/// The descriptor of an I2C device whose attributes were all read.
pub open spec fn spec_i2c_device_descriptor(paths: LinuxPaths, bus_id: Seq<char>, bus: u32, address: u16, f: I2cDeviceFacts) -> DescriptorView {
    let device_name = opt_string_view(f.device_name->Ok_0);
    let driver = opt_string_view(f.driver->Ok_0);
    let modalias = opt_string_view(f.modalias->Ok_0);
    let devnode = spec_i2c_devnode(paths, bus, f.devnode_exists);
    DescriptorView {
        display_name: Some("i2c-"@ + dec_digits(bus as nat) + "-"@ + hex_address(address)),
        summary: Some("Linux I2C device"@),
        address: Some(AddressView::I2cDevice { bus, address }),
        driver_hint: Some("lemnos.i2c.generic"@),
        modalias,
        health: devnode_health(devnode),
        labels: seq![("backend"@, "linux"@), ("bus"@, dec_digits(bus as nat))] + match device_name {
            Some(n) => seq![("device_name"@, n)],
            None => Seq::empty(),
        } + driver_label(driver),
        properties: seq![
            ("bus"@, ValueView::U64(bus as u64)),
            ("address"@, ValueView::U64(address as u64)),
            ("kernel_name"@, ValueView::Text(f.name@)),
            ("sysfs_path"@, ValueView::Text(f.path@)),
        ] + optional_property("device_name"@, text_value(device_name)) + optional_property(
            "modalias"@,
            text_value(modalias),
        ) + optional_property("driver"@, text_value(driver)) + optional_property("devnode"@, text_value(devnode)),
        parents: seq![bus_id],
        capabilities: spec_i2c_capabilities(),
        ..spec_started("linux.i2c.bus"@ + dec_digits(bus as nat) + "."@ + hex_address(address), DeviceKind::I2cDevice)
    }
}

pub open spec fn spec_build_i2c_device(paths: LinuxPaths, bus_id: Seq<char>, bus: u32, address: u16, f: I2cDeviceFacts) -> Result<
    DescriptorView,
    Seq<char>,
> {
    match spec_i2c_read_failure(f) {
        Some(n) => Err(n),
        None => Ok(spec_i2c_device_descriptor(paths, bus_id, bus, address, f)),
    }
}

fn hex_address_string(address: u16) -> (r: String)
    ensures
        r@ == hex_address(address),
{
    let mut out: Vec<char> = Vec::new();
    push_str_chars(&mut out, "0x");
    push_hex_padded(&mut out, address as u64, 4);
    string_from_chars(out.as_slice())
}

/// Builds the descriptor of the I2C device at `address` on `bus`.
pub fn build_i2c_device_descriptor(paths: &LinuxPaths, bus_id: &String, bus: u32, address: u16, f: &I2cDeviceFacts) -> (r:
    Result<DeviceDescriptor, String>)
    ensures
        match (r, spec_build_i2c_device(*paths, bus_id@, bus, address, *f)) {
            (Ok(d), Ok(v)) => d@ == v,
            (Err(n), Err(m)) => n@ == m,
            _ => false,
        },
{
    if let Err(e) = &f.device_name {
        return Err(read_failure_note("Linux I2C device name", f.name.as_str(), f.path.as_str(), e.as_str()));
    }
    if let Err(e) = &f.modalias {
        return Err(read_failure_note("Linux I2C modalias", f.name.as_str(), f.path.as_str(), e.as_str()));
    }
    if let Err(e) = &f.driver {
        return Err(read_failure_note("Linux I2C driver link", f.name.as_str(), f.path.as_str(), e.as_str()));
    }
    let bus_text = dec_string(bus as u64);
    let hex = hex_address_string(address);
    let mut id: Vec<char> = Vec::new();
    push_str_chars(&mut id, "linux.i2c.bus");
    push_str_chars(&mut id, bus_text.as_str());
    push_str_chars(&mut id, ".");
    push_str_chars(&mut id, hex.as_str());
    let mut d = DeviceDescriptor::start(string_from_chars(id.as_slice()), DeviceKind::I2cDevice);
    let mut name: Vec<char> = Vec::new();
    push_str_chars(&mut name, "i2c-");
    push_str_chars(&mut name, bus_text.as_str());
    push_str_chars(&mut name, "-");
    push_str_chars(&mut name, hex.as_str());
    d.display_name = Some(string_from_chars(name.as_slice()));
    d.summary = Some("Linux I2C device".to_owned());
    d.address = Some(DeviceAddress::I2cDevice { bus, address });
    d.driver_hint = Some("lemnos.i2c.generic".to_owned());
    d.add_label("backend", "linux".to_owned());
    d.add_label("bus", bus_text);
    d.add_property("bus", Value::U64(bus as u64));
    d.add_property("address", Value::U64(address as u64));
    d.add_property("kernel_name", text(f.name.clone()));
    d.add_property("sysfs_path", text(f.path.clone()));
    d.add_parent(bus_id.clone());
    d.add_capability("i2c.read", CapabilityAccess::Read);
    d.add_capability("i2c.write", CapabilityAccess::Write);
    d.add_capability("i2c.write_read", CapabilityAccess::ReadWrite);
    d.add_capability("i2c.transaction", CapabilityAccess::Full);
    let device_name = ok_string(&f.device_name);
    let ghost mid = d@;
    if let Some(n) = &device_name {
        d.add_label("device_name", n.clone());
        d.add_property("device_name", text(n.clone()));
    }
    assert(d@.properties =~= mid.properties + optional_property(
        "device_name"@,
        text_value(opt_string_view(device_name)),
    ));
    d.add_modalias(ok_string(&f.modalias));
    d.add_driver(ok_string(&f.driver));
    let devnode = if f.devnode_exists {
        Some(paths.i2c_devnode(bus))
    } else {
        None
    };
    d.add_devnode(devnode);
    let ghost v = spec_i2c_device_descriptor(*paths, bus_id@, bus, address, *f);
    assert(d@.labels =~= v.labels);
    assert(d@.properties =~= v.properties);
    assert(d@.parents =~= v.parents);
    assert(d@.capabilities =~= v.capabilities);
    Ok(d)
}

/// One entry of the adapter class directory: names other than `i2c-{bus}`
/// are passed over; every bus found is remembered by its number.
pub open spec fn spec_i2c_class_step(paths: LinuxPaths, w: BusWalkView, f: I2cBusFacts) -> BusWalkView {
    match spec_parse_prefixed_u32(f.name@, "i2c-"@) {
        None => w,
        Some(b) => match spec_build_i2c_class_bus(paths, b as u32, f) {
            Ok(d) => BusWalkView { buses: w.buses.push((b as u32, d.id)), devices: w.devices.push(d), ..w },
            Err(n) => BusWalkView { notes: w.notes.push(n), ..w },
        },
    }
}

/// One entry of the devices directory: names other than `{bus}-{address}`
/// are passed over; a device's bus is described from its number where the
/// class directory did not describe it.
pub open spec fn spec_i2c_device_step(paths: LinuxPaths, w: BusWalkView, f: I2cDeviceFacts) -> BusWalkView {
    match spec_parse_i2c_device_name(f.name@) {
        None => w,
        Some((b, a)) => {
            let bus = b as u32;
            let (w1, bus_id) = match find_bus_id(w.buses, bus) {
                Some(id) => (w, id),
                None => {
                    let d = spec_i2c_bus_descriptor(paths, bus, None, None, f.devnode_exists);
                    (BusWalkView { buses: w.buses.push((bus, d.id)), devices: w.devices.push(d), ..w }, d.id)
                },
            };
            match spec_build_i2c_device(paths, bus_id, bus, a as u16, f) {
                Ok(d) => BusWalkView { devices: w1.devices.push(d), ..w1 },
                Err(n) => BusWalkView { notes: w1.notes.push(n), ..w1 },
            }
        },
    }
}

pub open spec fn spec_i2c_class_walk(paths: LinuxPaths, entries: Seq<I2cBusFacts>) -> BusWalkView
    decreases entries.len(),
{
    if entries.len() == 0 {
        bus_walk_start()
    } else {
        spec_i2c_class_step(paths, spec_i2c_class_walk(paths, entries.drop_last()), entries.last())
    }
}

pub open spec fn spec_i2c_device_walk(paths: LinuxPaths, start: BusWalkView, entries: Seq<I2cDeviceFacts>) -> BusWalkView
    decreases entries.len(),
{
    if entries.len() == 0 {
        start
    } else {
        spec_i2c_device_step(paths, spec_i2c_device_walk(paths, start, entries.drop_last()), entries.last())
    }
}

/// The whole I2C walk: the class directory first, then the devices.
pub open spec fn spec_i2c_walk(paths: LinuxPaths, buses: Seq<I2cBusFacts>, devices: Seq<I2cDeviceFacts>) -> BusWalkView {
    spec_i2c_device_walk(paths, spec_i2c_class_walk(paths, buses), devices)
}

/// `I2C sysfs roots '{class}' and '{devices}' are not present`.
pub open spec fn spec_i2c_roots_missing_note(class_root: Seq<char>, devices_root: Seq<char>) -> Seq<char> {
    "I2C sysfs roots '"@ + class_root + "' and '"@ + devices_root + "' are not present"@
}

/// The I2C probe: nothing but a note where neither root exists, else the
/// walk over the entries of the class directory and then those of the
/// devices directory, each in name order.
pub fn discover_i2c(
    paths: &LinuxPaths,
    class_root: &str,
    devices_root: &str,
    roots_exist: bool,
    buses: &[I2cBusFacts],
    devices: &[I2cDeviceFacts],
) -> (r: ProbeDiscovery)
    ensures
        !roots_exist ==> descriptors_view(r.devices@) == Seq::<DescriptorView>::empty() && strings_view(r.notes@)
            == seq![spec_i2c_roots_missing_note(class_root@, devices_root@)],
        roots_exist ==> descriptors_view(r.devices@) == spec_i2c_walk(*paths, buses@, devices@).devices
            && strings_view(r.notes@) == spec_i2c_walk(*paths, buses@, devices@).notes,
{
    if !roots_exist {
        let mut out: Vec<char> = Vec::new();
        push_str_chars(&mut out, "I2C sysfs roots '");
        push_str_chars(&mut out, class_root);
        push_str_chars(&mut out, "' and '");
        push_str_chars(&mut out, devices_root);
        push_str_chars(&mut out, "' are not present");
        return ProbeDiscovery::root_missing(string_from_chars(out.as_slice()));
    }
    let mut w = BusWalk::new();
    let mut i: usize = 0;
    while i < buses.len()
        invariant
            i <= buses@.len(),
            w@ == spec_i2c_class_walk(*paths, buses@.take(i as int)),
        decreases buses.len() - i,
    {
        proof {
            let t = buses@.take(i as int + 1);
            assert(t.drop_last() =~= buses@.take(i as int));
            assert(t.last() == buses@[i as int]);
        }
        let f = &buses[i];
        if let Some(bus) = parse_prefixed_u32(f.name.as_str(), "i2c-") {
            match build_i2c_class_bus_descriptor(paths, bus, f) {
                Ok(d) => w.add_bus(bus, d),
                Err(n) => w.record(Err(n)),
            }
        }
        i = i + 1;
    }
    assert(buses@.take(buses@.len() as int) =~= buses@);
    let ghost start = w@;
    let mut k: usize = 0;
    while k < devices.len()
        invariant
            k <= devices@.len(),
            start == spec_i2c_class_walk(*paths, buses@),
            w@ == spec_i2c_device_walk(*paths, start, devices@.take(k as int)),
        decreases devices.len() - k,
    {
        proof {
            let t = devices@.take(k as int + 1);
            assert(t.drop_last() =~= devices@.take(k as int));
            assert(t.last() == devices@[k as int]);
        }
        let f = &devices[k];
        if let Some((bus, address)) = parse_i2c_device_name(f.name.as_str()) {
            let bus_id = match w.bus_id(bus) {
                Some(id) => id,
                None => {
                    let d = build_i2c_bus(paths, bus, None, None, f.devnode_exists);
                    let id = d.id.clone();
                    w.add_bus(bus, d);
                    id
                },
            };
            let built = build_i2c_device_descriptor(paths, &bus_id, bus, address, f);
            w.record(built);
        }
        k = k + 1;
    }
    assert(devices@.take(devices@.len() as int) =~= devices@);
    w.found
}

/// The walk's remembered bus ids are ids of reported descriptors, and
/// every parent link points at a descriptor reported earlier.
pub open spec fn bus_walk_consistent(w: BusWalkView) -> bool {
    &&& parents_described(w.devices)
    &&& forall|k: int| 0 <= k < w.buses.len() ==> described_before(w.devices, #[trigger] w.buses[k].1, w.devices.len() as int)
}

proof fn lemma_find_bus_id_found(buses: Seq<(u32, Seq<char>)>, bus: u32)
    requires
        find_bus_id(buses, bus) is Some,
    ensures
        exists|k: int| 0 <= k < buses.len() && (#[trigger] buses[k]).1 == find_bus_id(buses, bus)->0,
    decreases buses.len(),
{
    if buses.last().0 == bus {
        assert(buses[buses.len() - 1].1 == find_bus_id(buses, bus)->0);
    } else {
        lemma_find_bus_id_found(buses.drop_last(), bus);
        let k = choose|k: int| 0 <= k < buses.drop_last().len() && (#[trigger] buses.drop_last()[k]).1 == find_bus_id(
            buses.drop_last(),
            bus,
        )->0;
        assert(buses[k] == buses.drop_last()[k]);
    }
}

/// Reporting a descriptor whose parents were reported keeps the walk
/// consistent.
proof fn lemma_bus_walk_push(w: BusWalkView, d: DescriptorView)
    requires
        bus_walk_consistent(w),
        forall|p: int| 0 <= p < d.parents.len() ==> described_before(w.devices, #[trigger] d.parents[p], w.devices.len() as int),
    ensures
        bus_walk_consistent(BusWalkView { devices: w.devices.push(d), ..w }),
{
    lemma_parents_described_push(w.devices, d);
    let n = w.devices.push(d);
    assert forall|k: int| 0 <= k < w.buses.len() implies described_before(n, #[trigger] w.buses[k].1, n.len() as int) by {
        lemma_described_push(w.devices, d, w.buses[k].1, w.devices.len() as int);
    }
}

/// Reporting a bus without parents and remembering it keeps the walk
/// consistent.
proof fn lemma_bus_walk_add_bus(w: BusWalkView, bus: u32, d: DescriptorView)
    requires
        bus_walk_consistent(w),
        d.parents.len() == 0,
    ensures
        bus_walk_consistent(BusWalkView { buses: w.buses.push((bus, d.id)), devices: w.devices.push(d), ..w }),
        described_before(w.devices.push(d), d.id, w.devices.len() as int + 1),
{
    lemma_bus_walk_push(w, d);
    let w1 = BusWalkView { devices: w.devices.push(d), ..w };
    let w2 = BusWalkView { buses: w.buses.push((bus, d.id)), devices: w.devices.push(d), ..w };
    assert(w2.devices[w.devices.len() as int] == d);
    assert forall|k: int| 0 <= k < w2.buses.len() implies described_before(
        w2.devices,
        #[trigger] w2.buses[k].1,
        w2.devices.len() as int,
    ) by {
        if k == w.buses.len() {
            assert(w2.devices[w.devices.len() as int].id == d.id);
        } else {
            assert(w2.buses[k] == w1.buses[k]);
            assert(described_before(w1.devices, w1.buses[k].1, w1.devices.len() as int));
        }
    }
}

/// After making sure a bus is described, its id is that of a reported
/// descriptor.
proof fn lemma_bus_walk_ensure_bus(w: BusWalkView, bus: u32, fresh: DescriptorView)
    requires
        bus_walk_consistent(w),
        fresh.parents.len() == 0,
    ensures
        ({
            let (w1, id) = match find_bus_id(w.buses, bus) {
                Some(id) => (w, id),
                None => (
                    BusWalkView { buses: w.buses.push((bus, fresh.id)), devices: w.devices.push(fresh), ..w },
                    fresh.id,
                ),
            };
            bus_walk_consistent(w1) && described_before(w1.devices, id, w1.devices.len() as int)
        }),
{
    match find_bus_id(w.buses, bus) {
        Some(id) => {
            lemma_find_bus_id_found(w.buses, bus);
            let k = choose|k: int| 0 <= k < w.buses.len() && (#[trigger] w.buses[k]).1 == id;
            assert(described_before(w.devices, w.buses[k].1, w.devices.len() as int));
        },
        None => {
            lemma_bus_walk_add_bus(w, bus, fresh);
        },
    }
}

/// Every SPI device the probe reports hangs below a bus it reported first.
pub proof fn law_spi_devices_follow_their_bus(paths: LinuxPaths, entries: Seq<SpiDeviceFacts>)
    ensures
        bus_walk_consistent(spec_spi_walk(paths, entries)),
        parents_described(spec_spi_walk(paths, entries).devices),
    decreases entries.len(),
{
    if entries.len() > 0 {
        law_spi_devices_follow_their_bus(paths, entries.drop_last());
        let w = spec_spi_walk(paths, entries.drop_last());
        let f = entries.last();
        if let Some((b, c)) = spec_parse_spi_device_name(f.name@) {
            let bus = b as u32;
            lemma_bus_walk_ensure_bus(w, bus, spec_spi_bus_descriptor(bus));
            let (w1, bus_id) = match find_bus_id(w.buses, bus) {
                Some(id) => (w, id),
                None => {
                    let d = spec_spi_bus_descriptor(bus);
                    (BusWalkView { buses: w.buses.push((bus, d.id)), devices: w.devices.push(d), ..w }, d.id)
                },
            };
            if let Ok(d) = spec_build_spi_device(paths, bus_id, bus, c as u16, f) {
                assert(d.parents == seq![bus_id]);
                lemma_bus_walk_push(w1, d);
            }
        }
    } else {
        assert(bus_walk_start().devices =~= Seq::<DescriptorView>::empty());
    }
}

proof fn lemma_i2c_class_walk_consistent(paths: LinuxPaths, entries: Seq<I2cBusFacts>)
    ensures
        bus_walk_consistent(spec_i2c_class_walk(paths, entries)),
    decreases entries.len(),
{
    if entries.len() > 0 {
        lemma_i2c_class_walk_consistent(paths, entries.drop_last());
        let w = spec_i2c_class_walk(paths, entries.drop_last());
        let f = entries.last();
        if let Some(b) = spec_parse_prefixed_u32(f.name@, "i2c-"@) {
            if let Ok(d) = spec_build_i2c_class_bus(paths, b as u32, f) {
                lemma_bus_walk_add_bus(w, b as u32, d);
            }
        }
    } else {
        assert(bus_walk_start().devices =~= Seq::<DescriptorView>::empty());
    }
}

proof fn lemma_i2c_device_walk_consistent(paths: LinuxPaths, start: BusWalkView, entries: Seq<I2cDeviceFacts>)
    requires
        bus_walk_consistent(start),
    ensures
        bus_walk_consistent(spec_i2c_device_walk(paths, start, entries)),
    decreases entries.len(),
{
    if entries.len() > 0 {
        lemma_i2c_device_walk_consistent(paths, start, entries.drop_last());
        let w = spec_i2c_device_walk(paths, start, entries.drop_last());
        let f = entries.last();
        if let Some((b, a)) = spec_parse_i2c_device_name(f.name@) {
            let bus = b as u32;
            let fresh = spec_i2c_bus_descriptor(paths, bus, None, None, f.devnode_exists);
            lemma_bus_walk_ensure_bus(w, bus, fresh);
            let (w1, bus_id) = match find_bus_id(w.buses, bus) {
                Some(id) => (w, id),
                None => (BusWalkView { buses: w.buses.push((bus, fresh.id)), devices: w.devices.push(fresh), ..w }, fresh.id),
            };
            if let Ok(d) = spec_build_i2c_device(paths, bus_id, bus, a as u16, f) {
                assert(d.parents == seq![bus_id]);
                lemma_bus_walk_push(w1, d);
            }
        }
    }
}

/// Every I2C device the probe reports hangs below a bus it reported
/// first.
pub proof fn law_i2c_devices_follow_their_bus(paths: LinuxPaths, buses: Seq<I2cBusFacts>, devices: Seq<I2cDeviceFacts>)
    ensures
        parents_described(spec_i2c_walk(paths, buses, devices).devices),
{
    lemma_i2c_class_walk_consistent(paths, buses);
    lemma_i2c_device_walk_consistent(paths, spec_i2c_class_walk(paths, buses), devices);
}

} // verus!
