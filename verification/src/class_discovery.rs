//! Discovery of the devices that Linux drives through class directories:
//! LEDs under `/sys/class/leds` and fan controllers under
//! `/sys/class/hwmon`.
use crate::backend::InterfaceKind;
use crate::descriptor::{
    descriptors_view, found_devices, found_notes, lemma_found_push, opt_string_view, optional_property, outcome_of,
    read_failure_note, root_missing_note, spec_read_failure_note, spec_root_missing_note, spec_started, strings_view,
    text, text_of, text_value, AddressView, CapabilityAccess, DescriptorView, DeviceAddress, DeviceDescriptor,
    DeviceHealth, DeviceKind, EntryOutcome, ProbeDiscovery, Value, ValueView,
};
use crate::text::{chars_of, is_space, push_str_chars, ranges_view, string_from_chars, string_of_range, ws_token_ranges, ws_tokens};
use vstd::prelude::*;

verus! {

/// The name inside a bracketed token such as `[heartbeat]`, which marks
/// the active trigger.
pub open spec fn bracketed_name(t: Seq<char>) -> Option<Seq<char>> {
    if t.len() >= 2 && t[0] == '[' && t.last() == ']' {
        Some(t.subrange(1, t.len() - 1))
    } else {
        None
    }
}

/// A trigger's name, without the brackets of the active one.
pub open spec fn trigger_name(t: Seq<char>) -> Seq<char> {
    match bracketed_name(t) {
        Some(n) => n,
        None => t,
    }
}

/// The last bracketed token's name.
pub open spec fn last_active(tokens: Seq<Seq<char>>) -> Option<Seq<char>>
    decreases tokens.len(),
{
    if tokens.len() == 0 {
        None
    } else {
        match bracketed_name(tokens.last()) {
            Some(n) => Some(n),
            None => last_active(tokens.drop_last()),
        }
    }
}

/// The active trigger and the available ones, read from the text of an
/// LED's `trigger` attribute (`none [heartbeat] timer`).
pub open spec fn spec_trigger_state(value: Option<Seq<char>>) -> (Option<Seq<char>>, Seq<Seq<char>>) {
    match value {
        None => (None, Seq::empty()),
        Some(v) => (last_active(ws_tokens(v)), ws_tokens(v).map_values(|t: Seq<char>| trigger_name(t))),
    }
}

pub open spec fn opt_str_view(s: Option<&str>) -> Option<Seq<char>> {
    match s {
        Some(s) => Some(s@),
        None => None,
    }
}

/// Splits the text of an LED's `trigger` attribute into the active trigger
/// and the available ones, in order.
pub fn parse_trigger_state(value: Option<&str>) -> (r: (Option<String>, Vec<String>))
    ensures
        (opt_string_view(r.0), strings_view(r.1@)) == spec_trigger_state(opt_str_view(value)),
{
    let value = match value {
        None => {
            let v: Vec<String> = Vec::new();
            assert(strings_view(v@) =~= Seq::<Seq<char>>::empty());
            return (None, v);
        },
        Some(v) => v,
    };
    let cs = chars_of(value);
    let ranges = ws_token_ranges(cs.as_slice());
    let ghost tokens = ws_tokens(value@);
    let mut active: Option<String> = None;
    let mut available: Vec<String> = Vec::new();
    let mut k: usize = 0;
    assert(tokens.take(0) =~= Seq::<Seq<char>>::empty());
    while k < ranges.len()
        invariant
            cs@ == value@,
            tokens == ws_tokens(value@),
            tokens == ranges_view(cs@, ranges@),
            forall|j: int| 0 <= j < ranges@.len() ==> (#[trigger] ranges@[j]).0 <= ranges@[j].1 <= cs@.len(),
            k <= ranges@.len(),
            opt_string_view(active) == last_active(tokens.take(k as int)),
            strings_view(available@) == tokens.take(k as int).map_values(|t: Seq<char>| trigger_name(t)),
        decreases ranges.len() - k,
    {
        let (a, b) = ranges[k];
        let ghost t = tokens[k as int];
        assert(t == cs@.subrange(a as int, b as int));
        let ghost before = available@;
        let name = if b - a >= 2 && cs[a] == '[' && cs[b - 1] == ']' {
            assert(bracketed_name(t) == Some(cs@.subrange(a as int + 1, b as int - 1)));
            let n = string_of_range(cs.as_slice(), a + 1, b - 1);
            active = Some(n.clone());
            n
        } else {
            assert(bracketed_name(t) is None);
            string_of_range(cs.as_slice(), a, b)
        };
        available.push(name);
        proof {
            let tk = tokens.take(k as int + 1);
            assert(tk.drop_last() =~= tokens.take(k as int));
            assert(tk.last() == t);
            assert(strings_view(available@) =~= strings_view(before).push(trigger_name(t)));
            assert(tk.map_values(|t: Seq<char>| trigger_name(t)) =~= tokens.take(k as int).map_values(
                |t: Seq<char>| trigger_name(t),
            ).push(trigger_name(t)));
        }
        k = k + 1;
    }
    assert(tokens.take(ranges@.len() as int) =~= tokens);
    (active, available)
}

pub open spec fn opt_view(s: Option<String>) -> Option<Seq<char>> {
    opt_string_view(s)
}

pub open spec fn opt_u32_value(v: Option<u32>) -> Option<ValueView> {
    match v {
        Some(v) => Some(ValueView::U64(v as u64)),
        None => None,
    }
}

fn clone_opt(s: &Option<String>) -> (r: Option<String>)
    ensures
        opt_string_view(r) == opt_string_view(*s),
{
    match s {
        Some(s) => Some(s.clone()),
        None => None,
    }
}

fn ok_u32(r: &Result<Option<u32>, String>) -> (v: Option<u32>)
    ensures
        r is Ok ==> v == r->Ok_0,
{
    match r {
        Ok(v) => *v,
        Err(_) => None,
    }
}

fn ok_string(r: &Result<Option<String>, String>) -> (v: Option<String>)
    ensures
        r is Ok ==> opt_string_view(v) == opt_string_view(r->Ok_0),
{
    match r {
        Ok(v) => clone_opt(v),
        Err(_) => None,
    }
}

fn add_optional_u32(d: &mut DeviceDescriptor, key: &str, v: Option<u32>)
    ensures
        final(d)@ == (DescriptorView {
            properties: old(d)@.properties + optional_property(key@, opt_u32_value(v)),
            ..old(d)@
        }),
{
    let ghost before = d@;
    if let Some(v) = v {
        d.add_property(key, Value::U64(v as u64));
    }
    assert(d@.properties =~= before.properties + optional_property(key@, opt_u32_value(v)));
}

fn add_optional_text(d: &mut DeviceDescriptor, key: &str, v: Option<String>)
    ensures
        final(d)@ == (DescriptorView {
            properties: old(d)@.properties + optional_property(key@, text_value(opt_view(v))),
            ..old(d)@
        }),
{
    let ghost before = d@;
    if let Some(v) = v {
        d.add_property(key, text(v));
    }
    assert(d@.properties =~= before.properties + optional_property(key@, text_value(opt_view(v))));
}

/// What was read from the class directory of an LED.
pub struct LedFacts {
    /// The directory's name, the LED's name.
    pub name: String,
    pub path: String,
    /// Whether the entry is a directory; other entries are passed over.
    pub is_dir: bool,
    pub brightness: Result<Option<u32>, String>,
    pub max_brightness: Result<Option<u32>, String>,
    /// The trimmed text of the `trigger` attribute.
    pub trigger: Result<Option<String>, String>,
    /// The name the `device/driver` link points to.
    pub driver: Result<Option<String>, String>,
    /// The name the `device` link points to.
    pub device_name: Result<Option<String>, String>,
}

/// The note of the first attribute of an LED that could not be read.
pub open spec fn spec_led_read_failure(f: LedFacts) -> Option<Seq<char>> {
    let name = f.name@;
    let path = f.path@;
    if f.brightness is Err {
        Some(spec_read_failure_note("Linux LED brightness"@, name, path, f.brightness->Err_0@))
    } else if f.max_brightness is Err {
        Some(spec_read_failure_note("Linux LED max brightness"@, name, path, f.max_brightness->Err_0@))
    } else if f.trigger is Err {
        Some(spec_read_failure_note("Linux LED triggers"@, name, path, f.trigger->Err_0@))
    } else if f.driver is Err {
        Some(spec_read_failure_note("Linux LED driver"@, name, path, f.driver->Err_0@))
    } else if f.device_name is Err {
        Some(spec_read_failure_note("Linux LED device link"@, name, path, f.device_name->Err_0@))
    } else {
        None
    }
}

/// What an LED offers.
pub open spec fn spec_led_capabilities() -> Seq<(Seq<char>, CapabilityAccess)> {
    seq![
        ("led.get_brightness"@, CapabilityAccess::Read),
        ("led.set_brightness"@, CapabilityAccess::Write),
        ("led.get_trigger"@, CapabilityAccess::Read),
        ("led.set_trigger"@, CapabilityAccess::Configure),
    ]
}

/// The trigger properties: the active trigger where one is marked, and
/// the list of available triggers where there is any.
pub open spec fn led_trigger_properties(trigger: Option<Seq<char>>) -> Seq<(Seq<char>, ValueView)> {
    let (active, available) = spec_trigger_state(trigger);
    optional_property("led.active_trigger"@, text_value(active)) + if available.len() > 0 {
        seq![("led.available_triggers"@, ValueView::List(available))]
    } else {
        Seq::empty()
    }
}

/// The descriptor of an LED whose attributes were all read.
pub open spec fn spec_led_descriptor(f: LedFacts) -> DescriptorView {
    let name = f.name@;
    let brightness = f.brightness->Ok_0;
    let max_brightness = f.max_brightness->Ok_0;
    DescriptorView {
        display_name: Some(name),
        summary: Some("Linux LED class device"@),
        address: Some(
            AddressView::Custom { interface: InterfaceKind::Gpio, scheme: "linux-led-class"@, value: name },
        ),
        health: if brightness is None || max_brightness is None {
            DeviceHealth::Degraded
        } else {
            DeviceHealth::Healthy
        },
        control_root: Some(f.path@),
        labels: seq![("backend"@, "linux"@), ("subsystem"@, "leds"@), ("led_name"@, name)],
        properties: seq![
            ("linux.subsystem"@, ValueView::Text("leds"@)),
            ("linux.class_path"@, ValueView::Text(f.path@)),
            ("led.name"@, ValueView::Text(name)),
        ] + optional_property("led.brightness"@, opt_u32_value(brightness)) + optional_property(
            "led.max_brightness"@,
            opt_u32_value(max_brightness),
        ) + led_trigger_properties(opt_view(f.trigger->Ok_0)) + optional_property(
            "linux.device"@,
            text_value(opt_view(f.device_name->Ok_0)),
        ) + optional_property("linux.driver"@, text_value(opt_view(f.driver->Ok_0))),
        capabilities: spec_led_capabilities(),
        ..spec_started("linux.gpio.led."@ + name, DeviceKind::Unspecified(InterfaceKind::Gpio))
    }
}

/// What one entry of the LED class directory comes to.
pub open spec fn spec_build_led(f: LedFacts) -> Result<Option<DescriptorView>, Seq<char>> {
    if !f.is_dir {
        Ok(None)
    } else {
        match spec_led_read_failure(f) {
            Some(n) => Err(n),
            None => Ok(Some(spec_led_descriptor(f))),
        }
    }
}

fn check_led_reads(f: &LedFacts) -> (r: Result<(), String>)
    ensures
        match (r, spec_led_read_failure(*f)) {
            (Err(n), Some(m)) => n@ == m,
            (Ok(_), None) => true,
            _ => false,
        },
{
    let name = f.name.as_str();
    let path = f.path.as_str();
    if let Err(e) = &f.brightness {
        return Err(read_failure_note("Linux LED brightness", name, path, e.as_str()));
    }
    if let Err(e) = &f.max_brightness {
        return Err(read_failure_note("Linux LED max brightness", name, path, e.as_str()));
    }
    if let Err(e) = &f.trigger {
        return Err(read_failure_note("Linux LED triggers", name, path, e.as_str()));
    }
    if let Err(e) = &f.driver {
        return Err(read_failure_note("Linux LED driver", name, path, e.as_str()));
    }
    if let Err(e) = &f.device_name {
        return Err(read_failure_note("Linux LED device link", name, path, e.as_str()));
    }
    Ok(())
}

fn start_led(f: &LedFacts) -> (r: DeviceDescriptor)
    ensures
        r@ == (DescriptorView {
            display_name: Some(f.name@),
            summary: Some("Linux LED class device"@),
            address: Some(
                AddressView::Custom { interface: InterfaceKind::Gpio, scheme: "linux-led-class"@, value: f.name@ },
            ),
            control_root: Some(f.path@),
            labels: seq![("backend"@, "linux"@), ("subsystem"@, "leds"@), ("led_name"@, f.name@)],
            properties: seq![
                ("linux.subsystem"@, ValueView::Text("leds"@)),
                ("linux.class_path"@, ValueView::Text(f.path@)),
                ("led.name"@, ValueView::Text(f.name@)),
            ],
            capabilities: spec_led_capabilities(),
            ..spec_started("linux.gpio.led."@ + f.name@, DeviceKind::Unspecified(InterfaceKind::Gpio))
        }),
{
    let mut id: Vec<char> = Vec::new();
    push_str_chars(&mut id, "linux.gpio.led.");
    push_str_chars(&mut id, f.name.as_str());
    let mut d = DeviceDescriptor::start(string_from_chars(id.as_slice()), DeviceKind::Unspecified(InterfaceKind::Gpio));
    d.display_name = Some(f.name.clone());
    d.summary = Some("Linux LED class device".to_owned());
    d.address = Some(
        DeviceAddress::Custom {
            interface: InterfaceKind::Gpio,
            scheme: "linux-led-class".to_owned(),
            value: f.name.clone(),
        },
    );
    d.add_label("backend", "linux".to_owned());
    d.add_label("subsystem", "leds".to_owned());
    d.add_label("led_name", f.name.clone());
    d.control_root = Some(f.path.clone());
    d.add_property("linux.subsystem", text_of("leds"));
    d.add_property("linux.class_path", text(f.path.clone()));
    d.add_property("led.name", text(f.name.clone()));
    d.add_capability("led.get_brightness", CapabilityAccess::Read);
    d.add_capability("led.set_brightness", CapabilityAccess::Write);
    d.add_capability("led.get_trigger", CapabilityAccess::Read);
    d.add_capability("led.set_trigger", CapabilityAccess::Configure);
    assert(d@.labels =~= seq![("backend"@, "linux"@), ("subsystem"@, "leds"@), ("led_name"@, f.name@)]);
    assert(d@.properties =~= seq![
        ("linux.subsystem"@, ValueView::Text("leds"@)),
        ("linux.class_path"@, ValueView::Text(f.path@)),
        ("led.name"@, ValueView::Text(f.name@)),
    ]);
    assert(d@.capabilities =~= spec_led_capabilities());
    d
}

fn add_led_triggers(d: &mut DeviceDescriptor, trigger: Option<String>)
    ensures
        final(d)@ == (DescriptorView {
            properties: old(d)@.properties + led_trigger_properties(opt_view(trigger)),
            ..old(d)@
        }),
{
    let ghost before = d@;
    let (active, available) = match &trigger {
        Some(t) => parse_trigger_state(Some(t.as_str())),
        None => parse_trigger_state(None),
    };
    add_optional_text(d, "led.active_trigger", active);
    let ghost mid = d@;
    if available.len() > 0 {
        let ghost av = available@;
        d.add_property("led.available_triggers", Value::List(available));
        assert(d@.properties =~= mid.properties.push(("led.available_triggers"@, ValueView::List(strings_view(av)))));
    }
    assert(d@.properties =~= before.properties + led_trigger_properties(opt_view(trigger)));
}

/// Builds the descriptor of one entry of the LED class directory; `None`
/// for an entry that is not a directory.
pub fn build_led_descriptor(f: &LedFacts) -> (r: Result<Option<DeviceDescriptor>, String>)
    ensures
        match (r, spec_build_led(*f)) {
            (Ok(Some(d)), Ok(Some(v))) => d@ == v,
            (Ok(None), Ok(None)) => true,
            (Err(n), Err(m)) => n@ == m,
            _ => false,
        },
{
    if !f.is_dir {
        return Ok(None);
    }
    check_led_reads(f)?;
    let brightness = ok_u32(&f.brightness);
    let max_brightness = ok_u32(&f.max_brightness);
    let mut d = start_led(f);
    add_optional_u32(&mut d, "led.brightness", brightness);
    add_optional_u32(&mut d, "led.max_brightness", max_brightness);
    if brightness.is_none() || max_brightness.is_none() {
        d.health = DeviceHealth::Degraded;
    }
    add_led_triggers(&mut d, ok_string(&f.trigger));
    add_optional_text(&mut d, "linux.device", ok_string(&f.device_name));
    add_optional_text(&mut d, "linux.driver", ok_string(&f.driver));
    Ok(Some(d))
}

/// What a probe over a class directory reports: the note that the root is
/// missing, or what each entry, in order, came to.
pub open spec fn spec_class_discovery(root: Seq<char>, what: Seq<char>, root_exists: bool, outcomes: Seq<EntryOutcome>) -> (
    Seq<DescriptorView>,
    Seq<Seq<char>>,
) {
    if !root_exists {
        (Seq::empty(), seq![spec_root_missing_note(what, root)])
    } else {
        (found_devices(outcomes), found_notes(outcomes))
    }
}

/// The LED probe over the entries of `root`, in name order.
pub fn discover_leds(root: &str, root_exists: bool, entries: &[LedFacts]) -> (r: ProbeDiscovery)
    ensures
        (descriptors_view(r.devices@), strings_view(r.notes@)) == spec_class_discovery(
            root@,
            "Linux LED sysfs root"@,
            root_exists,
            entries@.map_values(|f: LedFacts| outcome_of(spec_build_led(f))),
        ),
{
    if !root_exists {
        return ProbeDiscovery::root_missing(root_missing_note("Linux LED sysfs root", root));
    }
    let ghost outcomes = entries@.map_values(|f: LedFacts| outcome_of(spec_build_led(f)));
    let mut r = ProbeDiscovery::empty();
    let mut i: usize = 0;
    assert(outcomes.take(0) =~= Seq::<EntryOutcome>::empty());
    while i < entries.len()
        invariant
            i <= entries@.len(),
            outcomes == entries@.map_values(|f: LedFacts| outcome_of(spec_build_led(f))),
            descriptors_view(r.devices@) == found_devices(outcomes.take(i as int)),
            strings_view(r.notes@) == found_notes(outcomes.take(i as int)),
        decreases entries.len() - i,
    {
        let built = build_led_descriptor(&entries[i]);
        proof {
            assert(outcomes.take(i as int + 1) =~= outcomes.take(i as int).push(outcomes[i as int]));
            lemma_found_push(outcomes.take(i as int), outcomes[i as int]);
        }
        r.record(built);
        i = i + 1;
    }
    assert(outcomes.take(entries@.len() as int) =~= outcomes);
    r
}

/// What was read from the class directory of a hardware monitor.
pub struct HwmonFacts {
    /// The directory's name, such as `hwmon3`.
    pub name: String,
    pub path: String,
    pub is_dir: bool,
    /// Whether the monitor has a `pwm1` attribute: only fan controllers do.
    pub has_pwm1: bool,
    /// The monitor's own `name` attribute.
    pub label: Result<Option<String>, String>,
    pub pwm: Result<Option<u32>, String>,
    pub pwm_mode: Result<Option<u32>, String>,
    pub rpm: Result<Option<u32>, String>,
    pub driver: Result<Option<String>, String>,
    pub device_name: Result<Option<String>, String>,
}

pub open spec fn spec_hwmon_read_failure(f: HwmonFacts) -> Option<Seq<char>> {
    let name = f.name@;
    let path = f.path@;
    if f.label is Err {
        Some(spec_read_failure_note("Linux hwmon name"@, name, path, f.label->Err_0@))
    } else if f.pwm is Err {
        Some(spec_read_failure_note("Linux hwmon pwm1"@, name, path, f.pwm->Err_0@))
    } else if f.pwm_mode is Err {
        Some(spec_read_failure_note("Linux hwmon pwm1_enable"@, name, path, f.pwm_mode->Err_0@))
    } else if f.rpm is Err {
        Some(spec_read_failure_note("Linux hwmon fan1_input"@, name, path, f.rpm->Err_0@))
    } else if f.driver is Err {
        Some(spec_read_failure_note("Linux hwmon driver"@, name, path, f.driver->Err_0@))
    } else if f.device_name is Err {
        Some(spec_read_failure_note("Linux hwmon device link"@, name, path, f.device_name->Err_0@))
    } else {
        None
    }
}

/// What a fan controller offers.
pub open spec fn spec_fan_capabilities() -> Seq<(Seq<char>, CapabilityAccess)> {
    seq![
        ("fan.get_state"@, CapabilityAccess::Read),
        ("fan.set_pwm"@, CapabilityAccess::Configure),
        ("fan.get_pwm_mode"@, CapabilityAccess::Read),
        ("fan.set_pwm_mode"@, CapabilityAccess::Configure),
    ]
}

/// The descriptor of a fan controller whose attributes were all read.
pub open spec fn spec_hwmon_descriptor(f: HwmonFacts) -> DescriptorView {
    let name = f.name@;
    let label = opt_view(f.label->Ok_0);
    let pwm = f.pwm->Ok_0;
    let pwm_mode = f.pwm_mode->Ok_0;
    DescriptorView {
        display_name: Some(
            match label {
                Some(l) => l,
                None => name,
            },
        ),
        summary: Some("Linux hwmon fan control device"@),
        address: Some(
            AddressView::Custom { interface: InterfaceKind::Pwm, scheme: "linux-hwmon-fan"@, value: name },
        ),
        health: if pwm is None || pwm_mode is None {
            DeviceHealth::Degraded
        } else {
            DeviceHealth::Healthy
        },
        control_root: Some(f.path@),
        labels: seq![("backend"@, "linux"@), ("subsystem"@, "hwmon"@), ("hwmon_name"@, name)],
        properties: seq![
            ("linux.subsystem"@, ValueView::Text("hwmon"@)),
            ("linux.class_path"@, ValueView::Text(f.path@)),
            ("fan.hwmon_name"@, ValueView::Text(name)),
        ] + optional_property("hwmon.name"@, text_value(label)) + optional_property(
            "fan.pwm"@,
            opt_u32_value(pwm),
        ) + optional_property("fan.pwm_mode"@, opt_u32_value(pwm_mode)) + optional_property(
            "fan.rpm"@,
            opt_u32_value(f.rpm->Ok_0),
        ) + optional_property("linux.device"@, text_value(opt_view(f.device_name->Ok_0)))
            + optional_property("linux.driver"@, text_value(opt_view(f.driver->Ok_0))),
        capabilities: spec_fan_capabilities(),
        ..spec_started("linux.pwm.hwmon-fan."@ + name, DeviceKind::Unspecified(InterfaceKind::Pwm))
    }
}

/// What one entry of the hwmon class directory comes to: nothing for an
/// entry that is not a directory or has no `pwm1`.
pub open spec fn spec_build_hwmon(f: HwmonFacts) -> Result<Option<DescriptorView>, Seq<char>> {
    if !f.is_dir || !f.has_pwm1 {
        Ok(None)
    } else {
        match spec_hwmon_read_failure(f) {
            Some(n) => Err(n),
            None => Ok(Some(spec_hwmon_descriptor(f))),
        }
    }
}

fn check_hwmon_reads(f: &HwmonFacts) -> (r: Result<(), String>)
    ensures
        match (r, spec_hwmon_read_failure(*f)) {
            (Err(n), Some(m)) => n@ == m,
            (Ok(_), None) => true,
            _ => false,
        },
{
    let name = f.name.as_str();
    let path = f.path.as_str();
    if let Err(e) = &f.label {
        return Err(read_failure_note("Linux hwmon name", name, path, e.as_str()));
    }
    if let Err(e) = &f.pwm {
        return Err(read_failure_note("Linux hwmon pwm1", name, path, e.as_str()));
    }
    if let Err(e) = &f.pwm_mode {
        return Err(read_failure_note("Linux hwmon pwm1_enable", name, path, e.as_str()));
    }
    if let Err(e) = &f.rpm {
        return Err(read_failure_note("Linux hwmon fan1_input", name, path, e.as_str()));
    }
    if let Err(e) = &f.driver {
        return Err(read_failure_note("Linux hwmon driver", name, path, e.as_str()));
    }
    if let Err(e) = &f.device_name {
        return Err(read_failure_note("Linux hwmon device link", name, path, e.as_str()));
    }
    Ok(())
}

fn start_hwmon(f: &HwmonFacts, label: &Option<String>) -> (r: DeviceDescriptor)
    ensures
        r@ == (DescriptorView {
            display_name: Some(
                match opt_view(*label) {
                    Some(l) => l,
                    None => f.name@,
                },
            ),
            summary: Some("Linux hwmon fan control device"@),
            address: Some(
                AddressView::Custom { interface: InterfaceKind::Pwm, scheme: "linux-hwmon-fan"@, value: f.name@ },
            ),
            control_root: Some(f.path@),
            labels: seq![("backend"@, "linux"@), ("subsystem"@, "hwmon"@), ("hwmon_name"@, f.name@)],
            properties: seq![
                ("linux.subsystem"@, ValueView::Text("hwmon"@)),
                ("linux.class_path"@, ValueView::Text(f.path@)),
                ("fan.hwmon_name"@, ValueView::Text(f.name@)),
            ],
            capabilities: spec_fan_capabilities(),
            ..spec_started("linux.pwm.hwmon-fan."@ + f.name@, DeviceKind::Unspecified(InterfaceKind::Pwm))
        }),
{
    let mut id: Vec<char> = Vec::new();
    push_str_chars(&mut id, "linux.pwm.hwmon-fan.");
    push_str_chars(&mut id, f.name.as_str());
    let mut d = DeviceDescriptor::start(string_from_chars(id.as_slice()), DeviceKind::Unspecified(InterfaceKind::Pwm));
    d.display_name = Some(
        match label {
            Some(l) => l.clone(),
            None => f.name.clone(),
        },
    );
    d.summary = Some("Linux hwmon fan control device".to_owned());
    d.address = Some(
        DeviceAddress::Custom {
            interface: InterfaceKind::Pwm,
            scheme: "linux-hwmon-fan".to_owned(),
            value: f.name.clone(),
        },
    );
    d.add_label("backend", "linux".to_owned());
    d.add_label("subsystem", "hwmon".to_owned());
    d.add_label("hwmon_name", f.name.clone());
    d.control_root = Some(f.path.clone());
    d.add_property("linux.subsystem", text_of("hwmon"));
    d.add_property("linux.class_path", text(f.path.clone()));
    d.add_property("fan.hwmon_name", text(f.name.clone()));
    d.add_capability("fan.get_state", CapabilityAccess::Read);
    d.add_capability("fan.set_pwm", CapabilityAccess::Configure);
    d.add_capability("fan.get_pwm_mode", CapabilityAccess::Read);
    d.add_capability("fan.set_pwm_mode", CapabilityAccess::Configure);
    assert(d@.labels =~= seq![("backend"@, "linux"@), ("subsystem"@, "hwmon"@), ("hwmon_name"@, f.name@)]);
    assert(d@.properties =~= seq![
        ("linux.subsystem"@, ValueView::Text("hwmon"@)),
        ("linux.class_path"@, ValueView::Text(f.path@)),
        ("fan.hwmon_name"@, ValueView::Text(f.name@)),
    ]);
    assert(d@.capabilities =~= spec_fan_capabilities());
    d
}

/// Builds the descriptor of one entry of the hwmon class directory.
pub fn build_hwmon_descriptor(f: &HwmonFacts) -> (r: Result<Option<DeviceDescriptor>, String>)
    ensures
        match (r, spec_build_hwmon(*f)) {
            (Ok(Some(d)), Ok(Some(v))) => d@ == v,
            (Ok(None), Ok(None)) => true,
            (Err(n), Err(m)) => n@ == m,
            _ => false,
        },
{
    if !f.is_dir || !f.has_pwm1 {
        return Ok(None);
    }
    check_hwmon_reads(f)?;
    let label = ok_string(&f.label);
    let pwm = ok_u32(&f.pwm);
    let pwm_mode = ok_u32(&f.pwm_mode);
    let mut d = start_hwmon(f, &label);
    add_optional_text(&mut d, "hwmon.name", label);
    add_optional_u32(&mut d, "fan.pwm", pwm);
    add_optional_u32(&mut d, "fan.pwm_mode", pwm_mode);
    if pwm.is_none() || pwm_mode.is_none() {
        d.health = DeviceHealth::Degraded;
    }
    add_optional_u32(&mut d, "fan.rpm", ok_u32(&f.rpm));
    add_optional_text(&mut d, "linux.device", ok_string(&f.device_name));
    add_optional_text(&mut d, "linux.driver", ok_string(&f.driver));
    Ok(Some(d))
}

/// The hwmon probe over the entries of `root`, in name order.
pub fn discover_hwmon(root: &str, root_exists: bool, entries: &[HwmonFacts]) -> (r: ProbeDiscovery)
    ensures
        (descriptors_view(r.devices@), strings_view(r.notes@)) == spec_class_discovery(
            root@,
            "Linux hwmon sysfs root"@,
            root_exists,
            entries@.map_values(|f: HwmonFacts| outcome_of(spec_build_hwmon(f))),
        ),
{
    if !root_exists {
        return ProbeDiscovery::root_missing(root_missing_note("Linux hwmon sysfs root", root));
    }
    let ghost outcomes = entries@.map_values(|f: HwmonFacts| outcome_of(spec_build_hwmon(f)));
    let mut r = ProbeDiscovery::empty();
    let mut i: usize = 0;
    assert(outcomes.take(0) =~= Seq::<EntryOutcome>::empty());
    while i < entries.len()
        invariant
            i <= entries@.len(),
            outcomes == entries@.map_values(|f: HwmonFacts| outcome_of(spec_build_hwmon(f))),
            descriptors_view(r.devices@) == found_devices(outcomes.take(i as int)),
            strings_view(r.notes@) == found_notes(outcomes.take(i as int)),
        decreases entries.len() - i,
    {
        let built = build_hwmon_descriptor(&entries[i]);
        proof {
            assert(outcomes.take(i as int + 1) =~= outcomes.take(i as int).push(outcomes[i as int]));
            lemma_found_push(outcomes.take(i as int), outcomes[i as int]);
        }
        r.record(built);
        i = i + 1;
    }
    assert(outcomes.take(entries@.len() as int) =~= outcomes);
    r
}

proof fn lemma_last_active_listed(tokens: Seq<Seq<char>>)
    ensures
        last_active(tokens) matches Some(a) ==> tokens.map_values(|t: Seq<char>| trigger_name(t)).contains(a),
    decreases tokens.len(),
{
    if tokens.len() > 0 {
        let names = tokens.map_values(|t: Seq<char>| trigger_name(t));
        match bracketed_name(tokens.last()) {
            Some(n) => {
                assert(names[tokens.len() - 1] == n);
            },
            None => {
                lemma_last_active_listed(tokens.drop_last());
                let prev = tokens.drop_last().map_values(|t: Seq<char>| trigger_name(t));
                if let Some(a) = last_active(tokens.drop_last()) {
                    let j = choose|j: int| 0 <= j < prev.len() && prev[j] == a;
                    assert(names[j] == prev[j]);
                }
            },
        }
    }
}

/// The active trigger of an LED is always one of its available triggers,
/// and there is one available trigger per token of the attribute.
pub proof fn law_active_trigger_is_available(value: Seq<char>)
    ensures
        spec_trigger_state(Some(value)).1.len() == ws_tokens(value).len(),
        spec_trigger_state(Some(value)).0 matches Some(a) ==> spec_trigger_state(Some(value)).1.contains(a),
{
    lemma_last_active_listed(ws_tokens(value));
}

} // verus!
