//! Discovery of serial ports under `/sys/class/tty`.
use crate::class_discovery::spec_class_discovery;
use crate::descriptor::{
    descriptors_view, devnode_health, driver_label, found_devices, found_notes, lemma_found_push, ok_string,
    opt_string_view, optional_property, outcome_of, read_failure_note, root_missing_note, spec_read_failure_note,
    spec_started, strings_view, text, text_value, AddressView, CapabilityAccess, DescriptorView, DeviceAddress,
    DeviceDescriptor, DeviceHealth, DeviceKind, EntryOutcome, ProbeDiscovery, ValueView,
};
use crate::paths::{path_join, LinuxPaths};
use crate::text::{push_str_chars, string_from_chars};
use vstd::prelude::*;

verus! {

/// What was read of one entry of the tty class directory.
pub struct UartPortFacts {
    /// The entry's name, the port's name (`ttyUSB0`).
    pub name: String,
    pub path: String,
    /// Whether the port's character device (`tty_devnode`) exists.
    pub devnode_exists: bool,
    /// Whether the entry has a `device` link (a port with hardware behind it).
    pub has_device: bool,
    /// The `dev` attribute (`major:minor`).
    pub dev: Result<Option<String>, String>,
    pub modalias: Result<Option<String>, String>,
    pub driver: Result<Option<String>, String>,
}

pub open spec fn spec_uart_read_failure(f: UartPortFacts) -> Option<Seq<char>> {
    let name = f.name@;
    let path = f.path@;
    if f.dev is Err {
        Some(spec_read_failure_note("Linux UART dev tuple"@, name, path, f.dev->Err_0@))
    } else if f.modalias is Err {
        Some(spec_read_failure_note("Linux UART modalias"@, name, path, f.modalias->Err_0@))
    } else if f.driver is Err {
        Some(spec_read_failure_note("Linux UART driver link"@, name, path, f.driver->Err_0@))
    } else {
        None
    }
}

pub open spec fn spec_uart_capabilities() -> Seq<(Seq<char>, CapabilityAccess)> {
    seq![
        ("uart.read"@, CapabilityAccess::Read),
        ("uart.write"@, CapabilityAccess::Write),
        ("uart.configure"@, CapabilityAccess::Configure),
        ("uart.flush"@, CapabilityAccess::Write),
        ("uart.get_configuration"@, CapabilityAccess::Read),
    ]
}

pub open spec fn spec_uart_devnode(paths: LinuxPaths, f: UartPortFacts) -> Option<Seq<char>> {
    if f.devnode_exists {
        Some(path_join(paths.dev_root@, f.name@))
    } else {
        None
    }
}

/// The descriptor of a serial port whose attributes were all read.
pub open spec fn spec_uart_descriptor(paths: LinuxPaths, f: UartPortFacts) -> DescriptorView {
    let name = f.name@;
    let driver = opt_string_view(f.driver->Ok_0);
    let modalias = opt_string_view(f.modalias->Ok_0);
    let devnode = spec_uart_devnode(paths, f);
    DescriptorView {
        display_name: Some(name),
        summary: Some("Linux UART port"@),
        address: Some(AddressView::UartPort { port: name }),
        driver_hint: Some("lemnos.uart.generic"@),
        modalias,
        health: devnode_health(devnode),
        labels: seq![("backend"@, "linux"@), ("port"@, name)] + driver_label(driver),
        properties: seq![("port"@, ValueView::Text(name)), ("sysfs_path"@, ValueView::Text(f.path@))]
            + optional_property("dev"@, text_value(opt_string_view(f.dev->Ok_0))) + optional_property(
            "modalias"@,
            text_value(modalias),
        ) + optional_property("driver"@, text_value(driver)) + optional_property("devnode"@, text_value(devnode)),
        capabilities: spec_uart_capabilities(),
        ..spec_started("linux.uart.port."@ + name, DeviceKind::UartPort)
    }
}

/// What one entry comes to: nothing for an entry with neither a device
/// node nor a `device` link (a virtual terminal).
pub open spec fn spec_build_uart(paths: LinuxPaths, f: UartPortFacts) -> Result<Option<DescriptorView>, Seq<char>> {
    if !f.devnode_exists && !f.has_device {
        Ok(None)
    } else {
        match spec_uart_read_failure(f) {
            Some(n) => Err(n),
            None => Ok(Some(spec_uart_descriptor(paths, f))),
        }
    }
}

fn check_uart_reads(f: &UartPortFacts) -> (r: Result<(), String>)
    ensures
        match (r, spec_uart_read_failure(*f)) {
            (Err(n), Some(m)) => n@ == m,
            (Ok(_), None) => true,
            _ => false,
        },
{
    let name = f.name.as_str();
    let path = f.path.as_str();
    if let Err(e) = &f.dev {
        return Err(read_failure_note("Linux UART dev tuple", name, path, e.as_str()));
    }
    if let Err(e) = &f.modalias {
        return Err(read_failure_note("Linux UART modalias", name, path, e.as_str()));
    }
    if let Err(e) = &f.driver {
        return Err(read_failure_note("Linux UART driver link", name, path, e.as_str()));
    }
    Ok(())
}

/// Builds the descriptor of one entry of the tty class directory.
pub fn build_port_descriptor(paths: &LinuxPaths, f: &UartPortFacts) -> (r: Result<Option<DeviceDescriptor>, String>)
    ensures
        match (r, spec_build_uart(*paths, *f)) {
            (Ok(Some(d)), Ok(Some(v))) => d@ == v,
            (Ok(None), Ok(None)) => true,
            (Err(n), Err(m)) => n@ == m,
            _ => false,
        },
{
    if !f.devnode_exists && !f.has_device {
        return Ok(None);
    }
    check_uart_reads(f)?;
    let mut id: Vec<char> = Vec::new();
    push_str_chars(&mut id, "linux.uart.port.");
    push_str_chars(&mut id, f.name.as_str());
    let mut d = DeviceDescriptor::start(string_from_chars(id.as_slice()), DeviceKind::UartPort);
    d.display_name = Some(f.name.clone());
    d.summary = Some("Linux UART port".to_owned());
    d.address = Some(DeviceAddress::UartPort { port: f.name.clone() });
    d.driver_hint = Some("lemnos.uart.generic".to_owned());
    d.add_label("backend", "linux".to_owned());
    d.add_label("port", f.name.clone());
    d.add_property("port", text(f.name.clone()));
    d.add_property("sysfs_path", text(f.path.clone()));
    d.add_capability("uart.read", CapabilityAccess::Read);
    d.add_capability("uart.write", CapabilityAccess::Write);
    d.add_capability("uart.configure", CapabilityAccess::Configure);
    d.add_capability("uart.flush", CapabilityAccess::Write);
    d.add_capability("uart.get_configuration", CapabilityAccess::Read);
    d.add_optional_text("dev", ok_string(&f.dev));
    d.add_modalias(ok_string(&f.modalias));
    d.add_driver(ok_string(&f.driver));
    let devnode = if f.devnode_exists {
        Some(paths.tty_devnode(f.name.as_str()))
    } else {
        None
    };
    d.add_devnode(devnode);
    let ghost v = spec_uart_descriptor(*paths, *f);
    assert(d@.labels =~= v.labels);
    assert(d@.properties =~= v.properties);
    assert(d@.capabilities =~= v.capabilities);
    Ok(Some(d))
}

/// The UART probe over the entries of `root`, in name order.
pub fn discover_uart(paths: &LinuxPaths, root: &str, root_exists: bool, entries: &[UartPortFacts]) -> (r: ProbeDiscovery)
    ensures
        (descriptors_view(r.devices@), strings_view(r.notes@)) == spec_class_discovery(
            root@,
            "TTY sysfs root"@,
            root_exists,
            entries@.map_values(|f: UartPortFacts| outcome_of(spec_build_uart(*paths, f))),
        ),
{
    if !root_exists {
        return ProbeDiscovery::root_missing(root_missing_note("TTY sysfs root", root));
    }
    let ghost outcomes = entries@.map_values(|f: UartPortFacts| outcome_of(spec_build_uart(*paths, f)));
    let mut r = ProbeDiscovery::empty();
    let mut i: usize = 0;
    assert(outcomes.take(0) =~= Seq::<EntryOutcome>::empty());
    while i < entries.len()
        invariant
            i <= entries@.len(),
            outcomes == entries@.map_values(|f: UartPortFacts| outcome_of(spec_build_uart(*paths, f))),
            descriptors_view(r.devices@) == found_devices(outcomes.take(i as int)),
            strings_view(r.notes@) == found_notes(outcomes.take(i as int)),
        decreases entries.len() - i,
    {
        let built = build_port_descriptor(paths, &entries[i]);
        proof {
            assert(outcomes.take(i as int + 1) =~= outcomes.take(i as int).push(outcomes[i as int]));
            lemma_found_push(outcomes.take(i as int), outcomes[i as int]);
        }
        r.record(built);
        i = i + 1;
    }
    assert(outcomes.take(entries@.len() as int) =~= outcomes);
    r
}

} // verus!
