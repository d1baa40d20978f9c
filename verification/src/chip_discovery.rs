//! Discovery of GPIO and PWM controllers and their lines and channels:
//! one descriptor per chip, then one per line (or channel) below it.
use crate::descriptor::{
    descriptors_view, lemma_parents_described_family, opt_string_view, parents_described, optional_property, probe_failed, root_missing_note, spec_probe_failure_message,
    spec_root_missing_note, spec_started, strings_view, text, text_value, AddressView, CapabilityAccess,
    DescriptorView, DeviceAddress, DeviceDescriptor, DeviceHealth, DeviceKind, ProbeDiscovery, ProbeFailure, Value,
    ValueView,
};
use crate::paths::{path_join, LinuxPaths};
use crate::text::{dec_digits, push_dec, push_str_chars, starts_with, string_from_chars, strip_prefix};
use crate::util::{parse_prefixed_u32, spec_parse_prefixed_u32};
use vstd::prelude::*;

verus! {

pub open spec fn opt_view(s: Option<String>) -> Option<Seq<char>> {
    opt_string_view(s)
}

pub open spec fn opt_u32_value(v: Option<u32>) -> Option<ValueView> {
    match v {
        Some(v) => Some(ValueView::U64(v as u64)),
        None => None,
    }
}

fn clone_opt(s: &Option<String>) -> (r: Option<String>)
    ensures
        opt_string_view(r) == opt_string_view(*s),
{
    match s {
        Some(s) => Some(s.clone()),
        None => None,
    }
}

fn dec_string(n: u32) -> (r: String)
    ensures
        r@ == dec_digits(n as nat),
{
    let mut out: Vec<char> = Vec::new();
    push_dec(&mut out, n as u64);
    string_from_chars(out.as_slice())
}

/// A failure of the probe, as its facts carry it.
pub struct ProbeFailureView {
    pub probe: Seq<char>,
    pub message: Seq<char>,
}

pub open spec fn failure_view(f: ProbeFailure) -> ProbeFailureView {
    ProbeFailureView { probe: f.probe@, message: f.message@ }
}

/// What the GPIO probe read of one `gpiochip*` directory. A failed read
/// fails the whole probe.
pub struct GpioChipFacts {
    pub name: String,
    pub path: String,
    pub label: Result<Option<String>, String>,
    pub base: Result<Option<u32>, String>,
    /// The `ngpio` attribute.
    pub line_count: Result<Option<u32>, String>,
    /// Whether the chip's character device (`gpio_devnode`) exists.
    pub devnode_exists: bool,
}

/// The chip's data once read: label, base, number of lines and device node.
pub struct GpioChipDataView {
    pub name: Seq<char>,
    pub path: Seq<char>,
    pub label: Option<Seq<char>>,
    pub base: Option<u32>,
    pub line_count: u32,
    pub devnode: Option<Seq<char>>,
}

/// The failure of the first read that failed: label, base, line count.
pub open spec fn spec_gpio_chip_failure(f: GpioChipFacts) -> Option<ProbeFailureView> {
    if f.label is Err {
        Some(ProbeFailureView { probe: "linux-gpio"@, message: spec_probe_failure_message("read GPIO label"@, f.path@, f.label->Err_0@) })
    } else if f.base is Err {
        Some(ProbeFailureView { probe: "linux-gpio"@, message: spec_probe_failure_message("read GPIO base"@, f.path@, f.base->Err_0@) })
    } else if f.line_count is Err {
        Some(
            ProbeFailureView {
                probe: "linux-gpio"@,
                message: spec_probe_failure_message("read GPIO line count"@, f.path@, f.line_count->Err_0@),
            },
        )
    } else {
        None
    }
}

/// The chip's data, where every read succeeded; a missing `ngpio` counts
/// as no lines.
pub open spec fn spec_gpio_chip_data(paths: LinuxPaths, f: GpioChipFacts) -> GpioChipDataView {
    GpioChipDataView {
        name: f.name@,
        path: f.path@,
        label: opt_view(f.label->Ok_0),
        base: f.base->Ok_0,
        line_count: match f.line_count->Ok_0 {
            Some(n) => n,
            None => 0,
        },
        devnode: if f.devnode_exists {
            Some(path_join(paths.dev_root@, f.name@))
        } else {
            None
        },
    }
}

pub open spec fn devnode_health(devnode: Option<Seq<char>>) -> DeviceHealth {
    if devnode is Some {
        DeviceHealth::Healthy
    } else {
        DeviceHealth::Degraded
    }
}

/// The descriptor of a GPIO chip.
pub open spec fn spec_gpio_chip_descriptor(c: GpioChipDataView) -> DescriptorView {
    DescriptorView {
        display_name: Some(
            match c.label {
                Some(l) => l,
                None => c.name,
            },
        ),
        summary: Some("Linux GPIO controller"@),
        address: Some(AddressView::GpioChip { chip_name: c.name, base_line: c.base }),
        health: devnode_health(c.devnode),
        labels: seq![("backend"@, "linux"@), ("chip_name"@, c.name)] + match c.label {
            Some(l) => seq![("label"@, l)],
            None => Seq::empty(),
        },
        properties: seq![("sysfs_path"@, ValueView::Text(c.path)), ("line_count"@, ValueView::U64(c.line_count as u64))]
            + optional_property("label"@, text_value(c.label)) + optional_property(
            "base"@,
            opt_u32_value(c.base),
        ) + optional_property("devnode"@, text_value(c.devnode)),
        ..spec_started("linux.gpio.chip."@ + c.name, DeviceKind::GpioChip)
    }
}

/// The global number of line `offset`: the chip's base plus the offset,
/// where the base is known and the sum fits a `u32`.
pub open spec fn spec_global_line(base: Option<u32>, offset: u32) -> Option<u32> {
    match base {
        Some(b) => if b + offset <= u32::MAX {
            Some((b + offset) as u32)
        } else {
            None
        },
        None => None,
    }
}

/// What a GPIO line offers.
pub open spec fn spec_gpio_capabilities() -> Seq<(Seq<char>, CapabilityAccess)> {
    seq![
        ("gpio.read"@, CapabilityAccess::Read),
        ("gpio.write"@, CapabilityAccess::Write),
        ("gpio.configure"@, CapabilityAccess::Configure),
        ("gpio.get_configuration"@, CapabilityAccess::Read),
    ]
}

/// The descriptor of line `offset` of a GPIO chip.
pub open spec fn spec_gpio_line_descriptor(c: GpioChipDataView, offset: u32) -> DescriptorView {
    DescriptorView {
        display_name: Some(c.name + ":"@ + dec_digits(offset as nat)),
        summary: Some("Linux GPIO line"@),
        address: Some(AddressView::GpioLine { chip_name: c.name, offset }),
        driver_hint: Some("lemnos.gpio.generic"@),
        health: devnode_health(c.devnode),
        labels: seq![("backend"@, "linux"@), ("chip_name"@, c.name)],
        properties: seq![
            ("chip_name"@, ValueView::Text(c.name)),
            ("offset"@, ValueView::U64(offset as u64)),
            ("sysfs_path"@, ValueView::Text(c.path)),
        ] + optional_property("global_line"@, opt_u32_value(spec_global_line(c.base, offset)))
            + optional_property("devnode"@, text_value(c.devnode)),
        parents: seq!["linux.gpio.chip."@ + c.name],
        capabilities: spec_gpio_capabilities(),
        ..spec_started("linux.gpio.line."@ + c.name + "."@ + dec_digits(offset as nat), DeviceKind::GpioLine)
    }
}

/// The descriptors of a chip: the chip, then each of its lines in order.
pub open spec fn spec_gpio_chip_devices(c: GpioChipDataView) -> Seq<DescriptorView> {
    seq![spec_gpio_chip_descriptor(c)] + Seq::new(
        c.line_count as nat,
        |o: int| spec_gpio_line_descriptor(c, o as u32),
    )
}

/// Whether a directory name is a GPIO chip's.
pub open spec fn is_gpio_chip_name(name: Seq<char>) -> bool {
    strip_prefix(name, "gpiochip"@) is Some
}

/// Whether an entry of the GPIO class directory is a chip the probe reads:
/// its name starts with `gpiochip`.
pub fn is_gpio_chip_entry(name: &str) -> (r: bool)
    ensures
        r == is_gpio_chip_name(name@),
{
    starts_with(name, "gpiochip")
}

/// The walk over the GPIO class directory: the descriptors of every chip
/// in order, or the failure of the first chip whose data could not be read.
pub open spec fn spec_gpio_walk(paths: LinuxPaths, entries: Seq<GpioChipFacts>) -> Result<Seq<DescriptorView>, ProbeFailureView>
    decreases entries.len(),
{
    if entries.len() == 0 {
        Ok(Seq::empty())
    } else {
        match spec_gpio_walk(paths, entries.drop_last()) {
            Err(e) => Err(e),
            Ok(ds) => {
                let f = entries.last();
                if !is_gpio_chip_name(f.name@) {
                    Ok(ds)
                } else {
                    match spec_gpio_chip_failure(f) {
                        Some(e) => Err(e),
                        None => Ok(ds + spec_gpio_chip_devices(spec_gpio_chip_data(paths, f))),
                    }
                }
            },
        }
    }
}

proof fn lemma_gpio_walk_failure_stays(paths: LinuxPaths, entries: Seq<GpioChipFacts>, k: int)
    requires
        0 <= k <= entries.len(),
        spec_gpio_walk(paths, entries.take(k)) is Err,
    ensures
        spec_gpio_walk(paths, entries) == spec_gpio_walk(paths, entries.take(k)),
    decreases entries.len() - k,
{
    if k < entries.len() {
        let t = entries.take(k + 1);
        assert(t.drop_last() =~= entries.take(k));
        lemma_gpio_walk_failure_stays(paths, entries, k + 1);
    } else {
        assert(entries.take(k) =~= entries);
    }
}

/// Executable chip data.
struct GpioChipData {
    name: String,
    path: String,
    label: Option<String>,
    base: Option<u32>,
    line_count: u32,
    devnode: Option<String>,
}

impl View for GpioChipData {
    type V = GpioChipDataView;

    closed spec fn view(&self) -> GpioChipDataView {
        GpioChipDataView {
            name: self.name@,
            path: self.path@,
            label: opt_view(self.label),
            base: self.base,
            line_count: self.line_count,
            devnode: opt_view(self.devnode),
        }
    }
}

fn load_gpio_chip_data(paths: &LinuxPaths, f: &GpioChipFacts) -> (r: Result<GpioChipData, ProbeFailure>)
    ensures
        match (r, spec_gpio_chip_failure(*f)) {
            (Err(e), Some(m)) => failure_view(e) == m,
            (Ok(c), None) => c@ == spec_gpio_chip_data(*paths, *f),
            _ => false,
        },
{
    let label = match &f.label {
        Ok(v) => clone_opt(v),
        Err(e) => { return Err(probe_failed("linux-gpio", f.path.as_str(), "read GPIO label", e.as_str())); },
    };
    let base = match &f.base {
        Ok(v) => *v,
        Err(e) => { return Err(probe_failed("linux-gpio", f.path.as_str(), "read GPIO base", e.as_str())); },
    };
    let line_count = match &f.line_count {
        Ok(Some(n)) => *n,
        Ok(None) => 0,
        Err(e) => { return Err(probe_failed("linux-gpio", f.path.as_str(), "read GPIO line count", e.as_str())); },
    };
    let devnode = if f.devnode_exists {
        Some(paths.gpio_devnode(f.name.as_str()))
    } else {
        None
    };
    Ok(GpioChipData { name: f.name.clone(), path: f.path.clone(), label, base, line_count, devnode })
}

fn add_devnode(d: &mut DeviceDescriptor, devnode: &Option<String>)
    requires
        old(d)@.health == DeviceHealth::Healthy,
    ensures
        final(d)@ == (DescriptorView {
            health: devnode_health(opt_view(*devnode)),
            properties: old(d)@.properties + optional_property("devnode"@, text_value(opt_view(*devnode))),
            ..old(d)@
        }),
{
    let ghost before = d@;
    match devnode {
        Some(n) => d.add_property("devnode", text(n.clone())),
        None => {
            d.health = DeviceHealth::Degraded;
        },
    }
    assert(d@.properties =~= before.properties + optional_property("devnode"@, text_value(opt_view(*devnode))));
}

fn build_gpio_chip_descriptor(c: &GpioChipData) -> (r: DeviceDescriptor)
    ensures
        r@ == spec_gpio_chip_descriptor(c@),
{
    let mut id: Vec<char> = Vec::new();
    push_str_chars(&mut id, "linux.gpio.chip.");
    push_str_chars(&mut id, c.name.as_str());
    let mut d = DeviceDescriptor::start(string_from_chars(id.as_slice()), DeviceKind::GpioChip);
    d.display_name = Some(
        match &c.label {
            Some(l) => l.clone(),
            None => c.name.clone(),
        },
    );
    d.summary = Some("Linux GPIO controller".to_owned());
    d.address = Some(DeviceAddress::GpioChip { chip_name: c.name.clone(), base_line: c.base });
    d.add_label("backend", "linux".to_owned());
    d.add_label("chip_name", c.name.clone());
    d.add_property("sysfs_path", text(c.path.clone()));
    d.add_property("line_count", Value::U64(c.line_count as u64));
    let ghost mid = d@;
    if let Some(l) = &c.label {
        d.add_label("label", l.clone());
        d.add_property("label", text(l.clone()));
    }
    let ghost mid2 = d@;
    if let Some(b) = c.base {
        d.add_property("base", Value::U64(b as u64));
    }
    assert(d@.properties =~= mid.properties + optional_property("label"@, text_value(c@.label)) + optional_property(
        "base"@,
        opt_u32_value(c@.base),
    ));
    add_devnode(&mut d, &c.devnode);
    assert(d@.labels =~= spec_gpio_chip_descriptor(c@).labels);
    assert(d@.properties =~= spec_gpio_chip_descriptor(c@).properties);
    d
}

fn build_gpio_line_descriptor(c: &GpioChipData, chip_id: &String, offset: u32) -> (r: DeviceDescriptor)
    requires
        chip_id@ == "linux.gpio.chip."@ + c@.name,
    ensures
        r@ == spec_gpio_line_descriptor(c@, offset),
{
    let offset_text = dec_string(offset);
    let mut id: Vec<char> = Vec::new();
    push_str_chars(&mut id, "linux.gpio.line.");
    push_str_chars(&mut id, c.name.as_str());
    push_str_chars(&mut id, ".");
    push_str_chars(&mut id, offset_text.as_str());
    let mut d = DeviceDescriptor::start(string_from_chars(id.as_slice()), DeviceKind::GpioLine);
    let mut name: Vec<char> = Vec::new();
    push_str_chars(&mut name, c.name.as_str());
    push_str_chars(&mut name, ":");
    push_str_chars(&mut name, offset_text.as_str());
    d.display_name = Some(string_from_chars(name.as_slice()));
    d.summary = Some("Linux GPIO line".to_owned());
    d.address = Some(DeviceAddress::GpioLine { chip_name: c.name.clone(), offset });
    d.driver_hint = Some("lemnos.gpio.generic".to_owned());
    d.add_label("backend", "linux".to_owned());
    d.add_label("chip_name", c.name.clone());
    d.add_property("chip_name", text(c.name.clone()));
    d.add_property("offset", Value::U64(offset as u64));
    d.add_property("sysfs_path", text(c.path.clone()));
    d.add_parent(chip_id.clone());
    d.add_capability("gpio.read", CapabilityAccess::Read);
    d.add_capability("gpio.write", CapabilityAccess::Write);
    d.add_capability("gpio.configure", CapabilityAccess::Configure);
    d.add_capability("gpio.get_configuration", CapabilityAccess::Read);
    let ghost mid = d@;
    if let Some(b) = c.base {
        if let Some(g) = b.checked_add(offset) {
            d.add_property("global_line", Value::U64(g as u64));
        }
    }
    assert(d@.properties =~= mid.properties + optional_property(
        "global_line"@,
        opt_u32_value(spec_global_line(c@.base, offset)),
    ));
    add_devnode(&mut d, &c.devnode);
    assert(d@.labels =~= spec_gpio_line_descriptor(c@, offset).labels);
    assert(d@.properties =~= spec_gpio_line_descriptor(c@, offset).properties);
    assert(d@.parents =~= spec_gpio_line_descriptor(c@, offset).parents);
    assert(d@.capabilities =~= spec_gpio_capabilities());
    d
}

/// The GPIO probe over the entries of `root`, in name order: the note that
/// the root is missing, or the descriptors of every chip and its lines, or
/// the failure of the first chip whose data could not be read.
pub fn discover_gpio(paths: &LinuxPaths, root: &str, root_exists: bool, entries: &[GpioChipFacts]) -> (r: Result<
    ProbeDiscovery,
    ProbeFailure,
>)
    ensures
        !root_exists ==> (r matches Ok(d) && descriptors_view(d.devices@) == Seq::<DescriptorView>::empty()
            && strings_view(d.notes@) == seq![spec_root_missing_note("GPIO sysfs root"@, root@)]),
        root_exists ==> match (r, spec_gpio_walk(*paths, entries@)) {
            (Ok(d), Ok(ds)) => descriptors_view(d.devices@) == ds && strings_view(d.notes@) == Seq::<
                Seq<char>,
            >::empty(),
            (Err(e), Err(m)) => failure_view(e) == m,
            _ => false,
        },
{
    if !root_exists {
        return Ok(ProbeDiscovery::root_missing(root_missing_note("GPIO sysfs root", root)));
    }
    let mut r = ProbeDiscovery::empty();
    let mut i: usize = 0;
    while i < entries.len()
        invariant
            i <= entries@.len(),
            root_exists,
            spec_gpio_walk(*paths, entries@.take(i as int)) == Ok::<Seq<DescriptorView>, ProbeFailureView>(
                descriptors_view(r.devices@),
            ),
            strings_view(r.notes@) == Seq::<Seq<char>>::empty(),
        decreases entries.len() - i,
    {
        proof {
            let t = entries@.take(i as int + 1);
            assert(t.drop_last() =~= entries@.take(i as int));
            assert(t.last() == entries@[i as int]);
        }
        let f = &entries[i];
        if is_gpio_chip_entry(f.name.as_str()) {
            let c = match load_gpio_chip_data(paths, f) {
                Ok(c) => c,
                Err(e) => {
                    proof {
                        lemma_gpio_walk_failure_stays(*paths, entries@, i as int + 1);
                    }
                    return Err(e);
                },
            };
            let chip = build_gpio_chip_descriptor(&c);
            let chip_id = chip.id.clone();
            let ghost base = descriptors_view(r.devices@);
            r.add_device(chip);
            let mut offset: u32 = 0;
            while offset < c.line_count
                invariant
                    offset <= c@.line_count,
                    chip_id@ == "linux.gpio.chip."@ + c@.name,
                    descriptors_view(r.devices@) == base + seq![spec_gpio_chip_descriptor(c@)] + Seq::new(
                        offset as nat,
                        |o: int| spec_gpio_line_descriptor(c@, o as u32),
                    ),
                    strings_view(r.notes@) == Seq::<Seq<char>>::empty(),
                decreases c@.line_count - offset,
            {
                let line = build_gpio_line_descriptor(&c, &chip_id, offset);
                r.add_device(line);
                offset = offset + 1;
                assert(descriptors_view(r.devices@) =~= base + seq![spec_gpio_chip_descriptor(c@)] + Seq::new(
                    offset as nat,
                    |o: int| spec_gpio_line_descriptor(c@, o as u32),
                ));
            }
            assert(descriptors_view(r.devices@) =~= base + spec_gpio_chip_devices(c@));
        }
        i = i + 1;
    }
    assert(entries@.take(entries@.len() as int) =~= entries@);
    Ok(r)
}

/// What the PWM probe read of one `pwmchip*` directory.
pub struct PwmChipFacts {
    pub name: String,
    pub path: String,
    /// The `npwm` attribute.
    pub channel_count: Result<Option<u32>, String>,
    /// For each channel, whether its `pwm{n}` directory exists (it is
    /// exported); channels past the end count as not exported.
    pub exported: Vec<bool>,
}

pub struct PwmChipDataView {
    pub name: Seq<char>,
    pub path: Seq<char>,
    pub chip_index: Option<u32>,
    pub channel_count: u32,
    pub exported: Seq<bool>,
}

pub open spec fn spec_pwm_chip_failure(f: PwmChipFacts) -> Option<ProbeFailureView> {
    match f.channel_count {
        Err(e) => Some(
            ProbeFailureView {
                probe: "linux-pwm"@,
                message: spec_probe_failure_message("read PWM channel count"@, f.path@, e@),
            },
        ),
        Ok(_) => None,
    }
}

/// The chip's data: its index is the number after `pwmchip` in its name.
pub open spec fn spec_pwm_chip_data(f: PwmChipFacts) -> PwmChipDataView {
    PwmChipDataView {
        name: f.name@,
        path: f.path@,
        chip_index: match spec_parse_prefixed_u32(f.name@, "pwmchip"@) {
            Some(n) => Some(n as u32),
            None => None,
        },
        channel_count: match f.channel_count->Ok_0 {
            Some(n) => n,
            None => 0,
        },
        exported: f.exported@,
    }
}

pub open spec fn is_exported(c: PwmChipDataView, channel: u32) -> bool {
    channel < c.exported.len() && c.exported[channel as int]
}

pub open spec fn spec_pwm_chip_descriptor(c: PwmChipDataView) -> DescriptorView {
    DescriptorView {
        display_name: Some(c.name),
        summary: Some("Linux PWM controller"@),
        address: Some(AddressView::PwmChip { chip_name: c.name }),
        labels: seq![("backend"@, "linux"@), ("chip_name"@, c.name)],
        properties: seq![
            ("chip_name"@, ValueView::Text(c.name)),
            ("sysfs_path"@, ValueView::Text(c.path)),
            ("channel_count"@, ValueView::U64(c.channel_count as u64)),
        ] + optional_property("chip_index"@, opt_u32_value(c.chip_index)),
        ..spec_started("linux.pwm.chip."@ + c.name, DeviceKind::PwmChip)
    }
}

pub open spec fn spec_pwm_capabilities() -> Seq<(Seq<char>, CapabilityAccess)> {
    seq![
        ("pwm.enable"@, CapabilityAccess::Write),
        ("pwm.configure"@, CapabilityAccess::Configure),
        ("pwm.set_period"@, CapabilityAccess::Configure),
        ("pwm.set_duty_cycle"@, CapabilityAccess::Configure),
        ("pwm.get_configuration"@, CapabilityAccess::Read),
    ]
}

pub open spec fn spec_pwm_channel_descriptor(c: PwmChipDataView, channel: u32) -> DescriptorView {
    DescriptorView {
        display_name: Some(c.name + ":"@ + dec_digits(channel as nat)),
        summary: Some("Linux PWM channel"@),
        address: Some(AddressView::PwmChannel { chip_name: c.name, channel }),
        driver_hint: Some("lemnos.pwm.generic"@),
        labels: seq![("backend"@, "linux"@), ("chip_name"@, c.name)],
        properties: seq![
            ("chip_name"@, ValueView::Text(c.name)),
            ("channel"@, ValueView::U64(channel as u64)),
            ("sysfs_path"@, ValueView::Text(c.path)),
            ("exported"@, ValueView::Bool(is_exported(c, channel))),
        ] + optional_property("chip_index"@, opt_u32_value(c.chip_index)),
        parents: seq!["linux.pwm.chip."@ + c.name],
        capabilities: spec_pwm_capabilities(),
        ..spec_started("linux.pwm.channel."@ + c.name + "."@ + dec_digits(channel as nat), DeviceKind::PwmChannel)
    }
}

pub open spec fn spec_pwm_chip_devices(c: PwmChipDataView) -> Seq<DescriptorView> {
    seq![spec_pwm_chip_descriptor(c)] + Seq::new(
        c.channel_count as nat,
        |o: int| spec_pwm_channel_descriptor(c, o as u32),
    )
}

/// Whether a directory name is a PWM chip's.
pub open spec fn is_pwm_chip_name(name: Seq<char>) -> bool {
    strip_prefix(name, "pwmchip"@) is Some
}

/// Whether an entry of the PWM class directory is a chip the probe reads:
/// its name starts with `pwmchip`.
pub fn is_pwm_chip_entry(name: &str) -> (r: bool)
    ensures
        r == is_pwm_chip_name(name@),
{
    starts_with(name, "pwmchip")
}

/// The walk over the PWM class directory.
pub open spec fn spec_pwm_walk(entries: Seq<PwmChipFacts>) -> Result<Seq<DescriptorView>, ProbeFailureView>
    decreases entries.len(),
{
    if entries.len() == 0 {
        Ok(Seq::empty())
    } else {
        match spec_pwm_walk(entries.drop_last()) {
            Err(e) => Err(e),
            Ok(ds) => {
                let f = entries.last();
                if !is_pwm_chip_name(f.name@) {
                    Ok(ds)
                } else {
                    match spec_pwm_chip_failure(f) {
                        Some(e) => Err(e),
                        None => Ok(ds + spec_pwm_chip_devices(spec_pwm_chip_data(f))),
                    }
                }
            },
        }
    }
}

proof fn lemma_pwm_walk_failure_stays(entries: Seq<PwmChipFacts>, k: int)
    requires
        0 <= k <= entries.len(),
        spec_pwm_walk(entries.take(k)) is Err,
    ensures
        spec_pwm_walk(entries) == spec_pwm_walk(entries.take(k)),
    decreases entries.len() - k,
{
    if k < entries.len() {
        let t = entries.take(k + 1);
        assert(t.drop_last() =~= entries.take(k));
        lemma_pwm_walk_failure_stays(entries, k + 1);
    } else {
        assert(entries.take(k) =~= entries);
    }
}

struct PwmChipData {
    name: String,
    path: String,
    chip_index: Option<u32>,
    channel_count: u32,
    exported: Vec<bool>,
}

impl View for PwmChipData {
    type V = PwmChipDataView;

    closed spec fn view(&self) -> PwmChipDataView {
        PwmChipDataView {
            name: self.name@,
            path: self.path@,
            chip_index: self.chip_index,
            channel_count: self.channel_count,
            exported: self.exported@,
        }
    }
}

fn load_pwm_chip_data(f: &PwmChipFacts) -> (r: Result<PwmChipData, ProbeFailure>)
    ensures
        match (r, spec_pwm_chip_failure(*f)) {
            (Err(e), Some(m)) => failure_view(e) == m,
            (Ok(c), None) => c@ == spec_pwm_chip_data(*f),
            _ => false,
        },
{
    let channel_count = match &f.channel_count {
        Ok(Some(n)) => *n,
        Ok(None) => 0,
        Err(e) => {
            return Err(probe_failed("linux-pwm", f.path.as_str(), "read PWM channel count", e.as_str()));
        },
    };
    let chip_index = parse_prefixed_u32(f.name.as_str(), "pwmchip");
    let mut exported: Vec<bool> = Vec::new();
    let mut i: usize = 0;
    while i < f.exported.len()
        invariant
            i <= f.exported@.len(),
            exported@ == f.exported@.take(i as int),
        decreases f.exported.len() - i,
    {
        exported.push(f.exported[i]);
        i = i + 1;
        assert(exported@ =~= f.exported@.take(i as int));
    }
    assert(f.exported@.take(f.exported@.len() as int) =~= f.exported@);
    Ok(PwmChipData { name: f.name.clone(), path: f.path.clone(), chip_index, channel_count, exported })
}

fn add_chip_index(d: &mut DeviceDescriptor, chip_index: Option<u32>)
    ensures
        final(d)@ == (DescriptorView {
            properties: old(d)@.properties + optional_property("chip_index"@, opt_u32_value(chip_index)),
            ..old(d)@
        }),
{
    let ghost before = d@;
    if let Some(n) = chip_index {
        d.add_property("chip_index", Value::U64(n as u64));
    }
    assert(d@.properties =~= before.properties + optional_property("chip_index"@, opt_u32_value(chip_index)));
}

fn build_pwm_chip_descriptor(c: &PwmChipData) -> (r: DeviceDescriptor)
    ensures
        r@ == spec_pwm_chip_descriptor(c@),
{
    let mut id: Vec<char> = Vec::new();
    push_str_chars(&mut id, "linux.pwm.chip.");
    push_str_chars(&mut id, c.name.as_str());
    let mut d = DeviceDescriptor::start(string_from_chars(id.as_slice()), DeviceKind::PwmChip);
    d.display_name = Some(c.name.clone());
    d.summary = Some("Linux PWM controller".to_owned());
    d.address = Some(DeviceAddress::PwmChip { chip_name: c.name.clone() });
    d.add_label("backend", "linux".to_owned());
    d.add_label("chip_name", c.name.clone());
    d.add_property("chip_name", text(c.name.clone()));
    d.add_property("sysfs_path", text(c.path.clone()));
    d.add_property("channel_count", Value::U64(c.channel_count as u64));
    add_chip_index(&mut d, c.chip_index);
    assert(d@.labels =~= spec_pwm_chip_descriptor(c@).labels);
    assert(d@.properties =~= spec_pwm_chip_descriptor(c@).properties);
    d
}

fn build_pwm_channel_descriptor(c: &PwmChipData, chip_id: &String, channel: u32) -> (r: DeviceDescriptor)
    requires
        chip_id@ == "linux.pwm.chip."@ + c@.name,
    ensures
        r@ == spec_pwm_channel_descriptor(c@, channel),
{
    let channel_text = dec_string(channel);
    let mut id: Vec<char> = Vec::new();
    push_str_chars(&mut id, "linux.pwm.channel.");
    push_str_chars(&mut id, c.name.as_str());
    push_str_chars(&mut id, ".");
    push_str_chars(&mut id, channel_text.as_str());
    let mut d = DeviceDescriptor::start(string_from_chars(id.as_slice()), DeviceKind::PwmChannel);
    let mut name: Vec<char> = Vec::new();
    push_str_chars(&mut name, c.name.as_str());
    push_str_chars(&mut name, ":");
    push_str_chars(&mut name, channel_text.as_str());
    d.display_name = Some(string_from_chars(name.as_slice()));
    d.summary = Some("Linux PWM channel".to_owned());
    d.address = Some(DeviceAddress::PwmChannel { chip_name: c.name.clone(), channel });
    d.driver_hint = Some("lemnos.pwm.generic".to_owned());
    d.add_label("backend", "linux".to_owned());
    d.add_label("chip_name", c.name.clone());
    d.add_property("chip_name", text(c.name.clone()));
    d.add_property("channel", Value::U64(channel as u64));
    d.add_property("sysfs_path", text(c.path.clone()));
    let exported = (channel as usize) < c.exported.len() && c.exported[channel as usize];
    d.add_property("exported", Value::Bool(exported));
    d.add_parent(chip_id.clone());
    d.add_capability("pwm.enable", CapabilityAccess::Write);
    d.add_capability("pwm.configure", CapabilityAccess::Configure);
    d.add_capability("pwm.set_period", CapabilityAccess::Configure);
    d.add_capability("pwm.set_duty_cycle", CapabilityAccess::Configure);
    d.add_capability("pwm.get_configuration", CapabilityAccess::Read);
    add_chip_index(&mut d, c.chip_index);
    assert(d@.labels =~= spec_pwm_channel_descriptor(c@, channel).labels);
    assert(d@.properties =~= spec_pwm_channel_descriptor(c@, channel).properties);
    assert(d@.parents =~= spec_pwm_channel_descriptor(c@, channel).parents);
    assert(d@.capabilities =~= spec_pwm_capabilities());
    d
}

/// The PWM probe over the entries of `root`, in name order.
pub fn discover_pwm(root: &str, root_exists: bool, entries: &[PwmChipFacts]) -> (r: Result<ProbeDiscovery, ProbeFailure>)
    ensures
        !root_exists ==> (r matches Ok(d) && descriptors_view(d.devices@) == Seq::<DescriptorView>::empty()
            && strings_view(d.notes@) == seq![spec_root_missing_note("PWM sysfs root"@, root@)]),
        root_exists ==> match (r, spec_pwm_walk(entries@)) {
            (Ok(d), Ok(ds)) => descriptors_view(d.devices@) == ds && strings_view(d.notes@) == Seq::<
                Seq<char>,
            >::empty(),
            (Err(e), Err(m)) => failure_view(e) == m,
            _ => false,
        },
{
    if !root_exists {
        return Ok(ProbeDiscovery::root_missing(root_missing_note("PWM sysfs root", root)));
    }
    let mut r = ProbeDiscovery::empty();
    let mut i: usize = 0;
    while i < entries.len()
        invariant
            i <= entries@.len(),
            root_exists,
            spec_pwm_walk(entries@.take(i as int)) == Ok::<Seq<DescriptorView>, ProbeFailureView>(
                descriptors_view(r.devices@),
            ),
            strings_view(r.notes@) == Seq::<Seq<char>>::empty(),
        decreases entries.len() - i,
    {
        proof {
            let t = entries@.take(i as int + 1);
            assert(t.drop_last() =~= entries@.take(i as int));
            assert(t.last() == entries@[i as int]);
        }
        let f = &entries[i];
        if is_pwm_chip_entry(f.name.as_str()) {
            let c = match load_pwm_chip_data(f) {
                Ok(c) => c,
                Err(e) => {
                    proof {
                        lemma_pwm_walk_failure_stays(entries@, i as int + 1);
                    }
                    return Err(e);
                },
            };
            let chip = build_pwm_chip_descriptor(&c);
            let chip_id = chip.id.clone();
            let ghost base = descriptors_view(r.devices@);
            r.add_device(chip);
            let mut channel: u32 = 0;
            while channel < c.channel_count
                invariant
                    channel <= c@.channel_count,
                    chip_id@ == "linux.pwm.chip."@ + c@.name,
                    descriptors_view(r.devices@) == base + seq![spec_pwm_chip_descriptor(c@)] + Seq::new(
                        channel as nat,
                        |o: int| spec_pwm_channel_descriptor(c@, o as u32),
                    ),
                    strings_view(r.notes@) == Seq::<Seq<char>>::empty(),
                decreases c@.channel_count - channel,
            {
                let d = build_pwm_channel_descriptor(&c, &chip_id, channel);
                r.add_device(d);
                channel = channel + 1;
                assert(descriptors_view(r.devices@) =~= base + seq![spec_pwm_chip_descriptor(c@)] + Seq::new(
                    channel as nat,
                    |o: int| spec_pwm_channel_descriptor(c@, o as u32),
                ));
            }
            assert(descriptors_view(r.devices@) =~= base + spec_pwm_chip_devices(c@));
        }
        i = i + 1;
    }
    assert(entries@.take(entries@.len() as int) =~= entries@);
    Ok(r)
}

/// Every line the GPIO probe reports hangs below its chip, which it
/// reported first: each parent link points at an earlier descriptor.
pub proof fn law_gpio_lines_follow_their_chip(paths: LinuxPaths, entries: Seq<GpioChipFacts>)
    ensures
        spec_gpio_walk(paths, entries) matches Ok(ds) ==> parents_described(ds),
    decreases entries.len(),
{
    if entries.len() > 0 {
        law_gpio_lines_follow_their_chip(paths, entries.drop_last());
        if let Ok(ds) = spec_gpio_walk(paths, entries.drop_last()) {
            let f = entries.last();
            if is_gpio_chip_name(f.name@) && spec_gpio_chip_failure(f) is None {
                let c = spec_gpio_chip_data(paths, f);
                let lines = Seq::new(c.line_count as nat, |o: int| spec_gpio_line_descriptor(c, o as u32));
                lemma_parents_described_family(ds, spec_gpio_chip_descriptor(c), lines);
                assert(ds + spec_gpio_chip_devices(c) =~= ds + seq![spec_gpio_chip_descriptor(c)] + lines);
            }
        }
    } else {
        assert(Seq::<DescriptorView>::empty() =~= Seq::<DescriptorView>::empty());
    }
}

/// Every channel the PWM probe reports hangs below its chip, which it
/// reported first.
pub proof fn law_pwm_channels_follow_their_chip(entries: Seq<PwmChipFacts>)
    ensures
        spec_pwm_walk(entries) matches Ok(ds) ==> parents_described(ds),
    decreases entries.len(),
{
    if entries.len() > 0 {
        law_pwm_channels_follow_their_chip(entries.drop_last());
        if let Ok(ds) = spec_pwm_walk(entries.drop_last()) {
            let f = entries.last();
            if is_pwm_chip_name(f.name@) && spec_pwm_chip_failure(f) is None {
                let c = spec_pwm_chip_data(f);
                let channels = Seq::new(c.channel_count as nat, |o: int| spec_pwm_channel_descriptor(c, o as u32));
                lemma_parents_described_family(ds, spec_pwm_chip_descriptor(c), channels);
                assert(ds + spec_pwm_chip_devices(c) =~= ds + seq![spec_pwm_chip_descriptor(c)] + channels);
            }
        }
    }
}

} // verus!
