//! The checks the `ConfiguredDevice` derive makes of a struct before it
//! generates anything: the field annotations of each field, one field at a
//! time, and then the device as a whole, in the order the derive reports
//! them.
use crate::annotations::{
    spec_driver_kind_named, spec_interface_named, validate_interface, validate_kind,
    validate_unique_names, BusInterface, EndpointInterface, SupportedInterface,
};
use crate::descriptor::strings_view;
use crate::text::{str_eq, string_from_chars, chars_of};
use vstd::prelude::*;

verus! {

// ---------------------------------------------------------------------------
// Unique names.

/// Whether the `i`-th name repeats an earlier one.
pub open spec fn repeats_earlier(names: Seq<Seq<char>>, i: int) -> bool {
    exists|j: int| 0 <= j < i && #[trigger] names[j] == names[i]
}

/// The index of the first name that repeats an earlier one.
pub open spec fn first_repeat(names: Seq<Seq<char>>) -> Option<int>
    decreases names.len(),
{
    if names.len() == 0 {
        None
    } else {
        match first_repeat(names.drop_last()) {
            Some(i) => Some(i),
            None => if repeats_earlier(names, names.len() - 1) {
                Some(names.len() - 1)
            } else {
                None
            },
        }
    }
}

/// Names must be unique; the first repeat is reported as
/// `{message} `{name}``.
pub open spec fn spec_unique(names: Seq<Seq<char>>, message: Seq<char>) -> Result<(), Seq<char>> {
    match first_repeat(names) {
        None => Ok(()),
        Some(i) => Err(message + " `"@ + names[i] + "`"@),
    }
}

proof fn lemma_first_repeat_none(names: Seq<Seq<char>>)
    requires
        forall|i: int, j: int| 0 <= j < i < names.len() ==> names[j] != names[i],
    ensures
        first_repeat(names) is None,
    decreases names.len(),
{
    if names.len() > 0 {
        let d = names.drop_last();
        assert forall|i: int, j: int| 0 <= j < i < d.len() implies d[j] != d[i] by {
            assert(d[j] == names[j] && d[i] == names[i]);
        }
        lemma_first_repeat_none(d);
        if repeats_earlier(names, names.len() - 1) {
            let j = choose|j: int| 0 <= j < names.len() - 1 && #[trigger] names[j] == names[names.len() - 1];
            assert(names[j] != names[names.len() - 1]);
        }
    }
}

proof fn lemma_first_repeat_some(names: Seq<Seq<char>>, i: int)
    requires
        0 <= i < names.len(),
        repeats_earlier(names, i),
        forall|i2: int, j2: int| 0 <= j2 < i2 < i ==> names[j2] != names[i2],
    ensures
        first_repeat(names) == Some(i),
    decreases names.len(),
{
    let d = names.drop_last();
    if i == names.len() - 1 {
        assert forall|a: int, b: int| 0 <= b < a < d.len() implies d[b] != d[a] by {
            assert(d[b] == names[b] && d[a] == names[a]);
        }
        lemma_first_repeat_none(d);
    } else {
        let j = choose|j: int| 0 <= j < i && #[trigger] names[j] == names[i];
        assert(d[j] == d[i]);
        assert(repeats_earlier(d, i));
        assert forall|i2: int, j2: int| 0 <= j2 < i2 < i implies d[j2] != d[i2] by {
            assert(d[j2] == names[j2] && d[i2] == names[i2]);
        }
        lemma_first_repeat_some(d, i);
    }
}

/// The uniqueness check of one kind of declared name.
pub fn check_unique(names: &[String], message: &str) -> (r: Result<(), String>)
    ensures
        match (r, spec_unique(strings_view(names@), message@)) {
            (Ok(()), Ok(())) => true,
            (Err(m), Err(e)) => m@ == e,
            _ => false,
        },
{
    let ghost v = strings_view(names@);
    match validate_unique_names(names, message) {
        Ok(()) => {
            proof {
                assert forall|i: int, j: int| 0 <= j < i < v.len() implies v[j] != v[i] by {
                    assert(v[j] == names@[j]@ && v[i] == names@[i]@);
                }
                lemma_first_repeat_none(v);
            }
            Ok(())
        },
        Err((i, m)) => {
            proof {
                let j = choose|j: int| 0 <= j < i && #[trigger] names@[j]@ == names@[i as int]@;
                assert(v[j] == v[i as int]);
                assert(repeats_earlier(v, i as int));
                assert forall|i2: int, j2: int| 0 <= j2 < i2 < i implies v[j2] != v[i2] by {
                    assert(v[j2] == names@[j2]@ && v[i2] == names@[i2]@);
                }
                lemma_first_repeat_some(v, i as int);
            }
            Err(m)
        },
    }
}

// ---------------------------------------------------------------------------
// The annotations of one field.

/// A nested argument of a field annotation: a bare name such as `i2c`, or
/// `name = "..."` with its string.
#[derive(Debug, Clone, PartialEq, Eq)]
pub enum NestedArg {
    Flag(String),
    Name(String),
}

/// One argument of a field's `#[lemnos(..)]` attribute, as written.
#[derive(Debug, Clone, PartialEq, Eq)]
pub enum FieldAnnotation {
    /// `display_name`.
    DisplayName,
    /// `label`, or `label = "key"`.
    Label(Option<String>),
    /// `property`, or `property = "key"`.
    Property(Option<String>),
    /// `bus(..)` with its nested arguments.
    Bus(Vec<NestedArg>),
    /// `endpoint(..)` with its nested arguments.
    Endpoint(Vec<NestedArg>),
    /// `signal(..)` with its nested arguments.
    Signal(Vec<NestedArg>),
    /// Any other argument.
    Unsupported(String),
}

/// What one field's annotations make of it.
#[derive(Debug, Clone, PartialEq, Eq)]
pub struct FieldRole {
    pub bus: Option<BusInterface>,
    pub endpoint: Option<(EndpointInterface, String)>,
    pub signal: Option<String>,
    pub display_name: bool,
    /// Label keys, in order (the field's name where no key is given).
    pub labels: Vec<String>,
    /// Property keys, likewise.
    pub properties: Vec<String>,
}

pub struct FieldRoleView {
    pub bus: Option<BusInterface>,
    pub endpoint: Option<(EndpointInterface, Seq<char>)>,
    pub signal: Option<Seq<char>>,
    pub display_name: bool,
    pub labels: Seq<Seq<char>>,
    pub properties: Seq<Seq<char>>,
}

impl View for FieldRole {
    type V = FieldRoleView;

    open spec fn view(&self) -> FieldRoleView {
        FieldRoleView {
            bus: self.bus,
            endpoint: match self.endpoint {
                Some((i, n)) => Some((i, n@)),
                None => None,
            },
            signal: match self.signal {
                Some(n) => Some(n@),
                None => None,
            },
            display_name: self.display_name,
            labels: strings_view(self.labels@),
            properties: strings_view(self.properties@),
        }
    }
}

pub open spec fn no_role() -> FieldRoleView {
    FieldRoleView {
        bus: None,
        endpoint: None,
        signal: None,
        display_name: false,
        labels: Seq::empty(),
        properties: Seq::empty(),
    }
}

pub open spec fn is_flag(a: NestedArg, name: Seq<char>) -> bool {
    a matches NestedArg::Flag(p) && p@ == name
}

/// The interface a `bus(..)` annotation names (the last one given), or
/// `None` where an argument is neither `i2c` nor `spi`.
pub open spec fn spec_bus_args(args: Seq<NestedArg>) -> Option<Option<BusInterface>>
    decreases args.len(),
{
    if args.len() == 0 {
        Some(None)
    } else {
        match spec_bus_args(args.drop_last()) {
            None => None,
            Some(_) => if is_flag(args.last(), "i2c"@) {
                Some(Some(BusInterface::I2c))
            } else if is_flag(args.last(), "spi"@) {
                Some(Some(BusInterface::Spi))
            } else {
                None
            },
        }
    }
}

/// The interface and name an `endpoint(..)` annotation gives (the last of
/// each), or `None` where an argument is not `i2c`, `spi` or `name = ..`.
pub open spec fn spec_endpoint_args(args: Seq<NestedArg>) -> Option<(Option<EndpointInterface>, Option<Seq<char>>)>
    decreases args.len(),
{
    if args.len() == 0 {
        Some((None, None))
    } else {
        match spec_endpoint_args(args.drop_last()) {
            None => None,
            Some((i, n)) => match args.last() {
                NestedArg::Name(v) => Some((i, Some(v@))),
                NestedArg::Flag(p) => if p@ == "i2c"@ {
                    Some((Some(EndpointInterface::I2c), n))
                } else if p@ == "spi"@ {
                    Some((Some(EndpointInterface::Spi), n))
                } else {
                    None
                },
            },
        }
    }
}

/// Whether a `signal(..)` annotation names `gpio`, and its name (the last
/// given), or `None` where an argument is not `gpio` or `name = ..`.
pub open spec fn spec_signal_args(args: Seq<NestedArg>) -> Option<(bool, Option<Seq<char>>)>
    decreases args.len(),
{
    if args.len() == 0 {
        Some((false, None))
    } else {
        match spec_signal_args(args.drop_last()) {
            None => None,
            Some((g, n)) => match args.last() {
                NestedArg::Name(v) => Some((g, Some(v@))),
                NestedArg::Flag(p) => if p@ == "gpio"@ {
                    Some((true, n))
                } else {
                    None
                },
            },
        }
    }
}

pub open spec fn key_or(key: Option<String>, field: Seq<char>) -> Seq<char> {
    match key {
        Some(k) => k@,
        None => field,
    }
}

/// One annotation applied to what the field's earlier annotations made of
/// it; `bus_taken` says whether an earlier field is already the bus field.
pub open spec fn spec_annotation(
    role: FieldRoleView,
    a: FieldAnnotation,
    field: Seq<char>,
    bus_taken: bool,
) -> Result<FieldRoleView, Seq<char>> {
    match a {
        FieldAnnotation::DisplayName => Ok(FieldRoleView { display_name: true, ..role }),
        FieldAnnotation::Label(k) => Ok(FieldRoleView { labels: role.labels.push(key_or(k, field)), ..role }),
        FieldAnnotation::Property(k) => Ok(
            FieldRoleView { properties: role.properties.push(key_or(k, field)), ..role },
        ),
        FieldAnnotation::Bus(args) => match spec_bus_args(args@) {
            None => Err("unsupported bus annotation; expected `bus(i2c)` or `bus(spi)`"@),
            Some(None) => Err("missing bus interface; expected `bus(i2c)` or `bus(spi)`"@),
            Some(Some(b)) => if bus_taken {
                Err("only one configured bus field is allowed"@)
            } else {
                Ok(FieldRoleView { bus: Some(b), ..role })
            },
        },
        FieldAnnotation::Endpoint(args) => match spec_endpoint_args(args@) {
            None => Err(
                "unsupported endpoint annotation; expected `endpoint(i2c, name = \"...\")` or `endpoint(spi, name = \"...\")`"@,
            ),
            Some((None, _)) => Err(
                "missing endpoint interface; expected `endpoint(i2c, name = \"...\")` or `endpoint(spi, name = \"...\")`"@,
            ),
            Some((Some(_), None)) => Err("missing required endpoint name; expected `name = \"...\"`"@),
            Some((Some(i), Some(n))) => Ok(FieldRoleView { endpoint: Some((i, n)), ..role }),
        },
        FieldAnnotation::Signal(args) => match spec_signal_args(args@) {
            None => Err("unsupported signal annotation; expected `signal(gpio, name = \"...\")`"@),
            Some((false, _)) => Err("missing signal interface; expected `signal(gpio, name = \"...\")`"@),
            Some((true, None)) => Err("missing required signal name; expected `name = \"...\"`"@),
            Some((true, Some(n))) => Ok(FieldRoleView { signal: Some(n), ..role }),
        },
        FieldAnnotation::Unsupported(_) => Err(
            "unsupported configured-device field annotation; supported forms are `bus(i2c)`, `bus(spi)`, `endpoint(i2c, name = \"...\")`, `endpoint(spi, name = \"...\")`, `signal(gpio, name = \"...\")`, `display_name`, `label`, and `property`"@,
        ),
    }
}

/// A field's annotations applied in order; the first refusal ends it.
pub open spec fn spec_annotations(items: Seq<FieldAnnotation>, field: Seq<char>, bus_taken: bool) -> Result<
    FieldRoleView,
    Seq<char>,
>
    decreases items.len(),
{
    if items.len() == 0 {
        Ok(no_role())
    } else {
        match spec_annotations(items.drop_last(), field, bus_taken) {
            Err(e) => Err(e),
            Ok(role) => spec_annotation(role, items.last(), field, bus_taken),
        }
    }
}

/// What a field's annotations make of it, given whether an earlier field
/// already is the bus field or the display-name field: a second display-name
/// field is refused once its annotations are read.
pub open spec fn spec_field_annotations(
    items: Seq<FieldAnnotation>,
    field: Seq<char>,
    bus_taken: bool,
    display_name_taken: bool,
) -> Result<FieldRoleView, Seq<char>> {
    match spec_annotations(items, field, bus_taken) {
        Err(e) => Err(e),
        Ok(role) => if role.display_name && display_name_taken {
            Err("only one `display_name` field is allowed"@)
        } else {
            Ok(role)
        },
    }
}

proof fn lemma_bus_args_none(args: Seq<NestedArg>, n: int)
    requires
        0 <= n <= args.len(),
        spec_bus_args(args.take(n)) is None,
    ensures
        spec_bus_args(args) is None,
    decreases args.len() - n,
{
    if n < args.len() {
        assert(args.take(n + 1).drop_last() =~= args.take(n));
        lemma_bus_args_none(args, n + 1);
    } else {
        assert(args.take(n) =~= args);
    }
}

proof fn lemma_endpoint_args_none(args: Seq<NestedArg>, n: int)
    requires
        0 <= n <= args.len(),
        spec_endpoint_args(args.take(n)) is None,
    ensures
        spec_endpoint_args(args) is None,
    decreases args.len() - n,
{
    if n < args.len() {
        assert(args.take(n + 1).drop_last() =~= args.take(n));
        lemma_endpoint_args_none(args, n + 1);
    } else {
        assert(args.take(n) =~= args);
    }
}

proof fn lemma_signal_args_none(args: Seq<NestedArg>, n: int)
    requires
        0 <= n <= args.len(),
        spec_signal_args(args.take(n)) is None,
    ensures
        spec_signal_args(args) is None,
    decreases args.len() - n,
{
    if n < args.len() {
        assert(args.take(n + 1).drop_last() =~= args.take(n));
        lemma_signal_args_none(args, n + 1);
    } else {
        assert(args.take(n) =~= args);
    }
}

proof fn lemma_annotations_err(items: Seq<FieldAnnotation>, field: Seq<char>, bus_taken: bool, n: int)
    requires
        0 <= n <= items.len(),
        spec_annotations(items.take(n), field, bus_taken) is Err,
    ensures
        spec_annotations(items, field, bus_taken) == spec_annotations(items.take(n), field, bus_taken),
    decreases items.len() - n,
{
    if n < items.len() {
        assert(items.take(n + 1).drop_last() =~= items.take(n));
        lemma_annotations_err(items, field, bus_taken, n + 1);
    } else {
        assert(items.take(n) =~= items);
    }
}

fn bus_args(args: &[NestedArg]) -> (r: Option<Option<BusInterface>>)
    ensures
        r == spec_bus_args(args@),
{
    let mut cur: Option<BusInterface> = None;
    let mut k: usize = 0;
    while k < args.len()
        invariant
            k <= args@.len(),
            spec_bus_args(args@.take(k as int)) == Some(cur),
        decreases args.len() - k,
    {
        proof {
            assert(args@.take(k as int + 1).drop_last() =~= args@.take(k as int));
        }
        match &args[k] {
            NestedArg::Flag(p) => {
                if str_eq(p.as_str(), "i2c") {
                    cur = Some(BusInterface::I2c);
                } else if str_eq(p.as_str(), "spi") {
                    cur = Some(BusInterface::Spi);
                } else {
                    proof {
                        lemma_bus_args_none(args@, k as int + 1);
                    }
                    return None;
                }
            },
            NestedArg::Name(_) => {
                proof {
                    lemma_bus_args_none(args@, k as int + 1);
                }
                return None;
            },
        }
        k = k + 1;
    }
    assert(args@.take(k as int) =~= args@);
    Some(cur)
}

fn endpoint_args(args: &[NestedArg]) -> (r: Option<(Option<EndpointInterface>, Option<String>)>)
    ensures
        match (r, spec_endpoint_args(args@)) {
            (None, None) => true,
            (Some((i, n)), Some((si, sn))) => i == si && match (n, sn) {
                (None, None) => true,
                (Some(a), Some(b)) => a@ == b,
                _ => false,
            },
            _ => false,
        },
{
    let mut iface: Option<EndpointInterface> = None;
    let mut name: Option<String> = None;
    let mut k: usize = 0;
    while k < args.len()
        invariant
            k <= args@.len(),
            spec_endpoint_args(args@.take(k as int)) == Some(
                (
                    iface,
                    match name {
                        Some(n) => Some(n@),
                        None => None,
                    },
                ),
            ),
        decreases args.len() - k,
    {
        proof {
            assert(args@.take(k as int + 1).drop_last() =~= args@.take(k as int));
        }
        match &args[k] {
            NestedArg::Name(v) => {
                name = Some(v.clone());
            },
            NestedArg::Flag(p) => {
                if str_eq(p.as_str(), "i2c") {
                    iface = Some(EndpointInterface::I2c);
                } else if str_eq(p.as_str(), "spi") {
                    iface = Some(EndpointInterface::Spi);
                } else {
                    proof {
                        lemma_endpoint_args_none(args@, k as int + 1);
                    }
                    return None;
                }
            },
        }
        k = k + 1;
    }
    assert(args@.take(k as int) =~= args@);
    Some((iface, name))
}

fn signal_args(args: &[NestedArg]) -> (r: Option<(bool, Option<String>)>)
    ensures
        match (r, spec_signal_args(args@)) {
            (None, None) => true,
            (Some((g, n)), Some((sg, sn))) => g == sg && match (n, sn) {
                (None, None) => true,
                (Some(a), Some(b)) => a@ == b,
                _ => false,
            },
            _ => false,
        },
{
    let mut gpio = false;
    let mut name: Option<String> = None;
    let mut k: usize = 0;
    while k < args.len()
        invariant
            k <= args@.len(),
            spec_signal_args(args@.take(k as int)) == Some(
                (
                    gpio,
                    match name {
                        Some(n) => Some(n@),
                        None => None,
                    },
                ),
            ),
        decreases args.len() - k,
    {
        proof {
            assert(args@.take(k as int + 1).drop_last() =~= args@.take(k as int));
        }
        match &args[k] {
            NestedArg::Name(v) => {
                name = Some(v.clone());
            },
            NestedArg::Flag(p) => {
                if str_eq(p.as_str(), "gpio") {
                    gpio = true;
                } else {
                    proof {
                        lemma_signal_args_none(args@, k as int + 1);
                    }
                    return None;
                }
            },
        }
        k = k + 1;
    }
    assert(args@.take(k as int) =~= args@);
    Some((gpio, name))
}

fn apply_annotation(role: FieldRole, a: &FieldAnnotation, field: &str, bus_taken: bool) -> (r: Result<
    FieldRole,
    String,
>)
    ensures
        match (r, spec_annotation(role@, *a, field@, bus_taken)) {
            (Ok(x), Ok(v)) => x@ == v,
            (Err(m), Err(e)) => m@ == e,
            _ => false,
        },
{
    let mut role = role;
    match a {
        FieldAnnotation::DisplayName => {
            role.display_name = true;
            Ok(role)
        },
        FieldAnnotation::Label(k) => {
            let key = match k {
                Some(k) => k.clone(),
                None => owned(field),
            };
            let ghost before = role.labels@;
            let ghost k_view = key@;
            role.labels.push(key);
            proof {
                assert(strings_view(role.labels@) =~= strings_view(before).push(k_view));
            }
            Ok(role)
        },
        FieldAnnotation::Property(k) => {
            let key = match k {
                Some(k) => k.clone(),
                None => owned(field),
            };
            let ghost before = role.properties@;
            let ghost k_view = key@;
            role.properties.push(key);
            proof {
                assert(strings_view(role.properties@) =~= strings_view(before).push(k_view));
            }
            Ok(role)
        },
        FieldAnnotation::Bus(args) => match bus_args(args.as_slice()) {
            None => Err(owned("unsupported bus annotation; expected `bus(i2c)` or `bus(spi)`")),
            Some(None) => Err(owned("missing bus interface; expected `bus(i2c)` or `bus(spi)`")),
            Some(Some(b)) => {
                if bus_taken {
                    Err(owned("only one configured bus field is allowed"))
                } else {
                    role.bus = Some(b);
                    Ok(role)
                }
            },
        },
        FieldAnnotation::Endpoint(args) => match endpoint_args(args.as_slice()) {
            None => Err(
                owned(
                    "unsupported endpoint annotation; expected `endpoint(i2c, name = \"...\")` or `endpoint(spi, name = \"...\")`",
                ),
            ),
            Some((None, _)) => Err(
                owned(
                    "missing endpoint interface; expected `endpoint(i2c, name = \"...\")` or `endpoint(spi, name = \"...\")`",
                ),
            ),
            Some((Some(_), None)) => Err(owned("missing required endpoint name; expected `name = \"...\"`")),
            Some((Some(i), Some(n))) => {
                role.endpoint = Some((i, n));
                Ok(role)
            },
        },
        FieldAnnotation::Signal(args) => match signal_args(args.as_slice()) {
            None => Err(owned("unsupported signal annotation; expected `signal(gpio, name = \"...\")`")),
            Some((false, _)) => Err(owned("missing signal interface; expected `signal(gpio, name = \"...\")`")),
            Some((true, None)) => Err(owned("missing required signal name; expected `name = \"...\"`")),
            Some((true, Some(n))) => {
                role.signal = Some(n);
                Ok(role)
            },
        },
        FieldAnnotation::Unsupported(_) => Err(
            owned(
                "unsupported configured-device field annotation; supported forms are `bus(i2c)`, `bus(spi)`, `endpoint(i2c, name = \"...\")`, `endpoint(spi, name = \"...\")`, `signal(gpio, name = \"...\")`, `display_name`, `label`, and `property`",
            ),
        ),
    }
}

/// Reads one field's annotations as the derive does: each in order, the
/// first refusal reported; then a second display-name field is refused.
/// `bus_taken` and `display_name_taken` say whether an earlier field is the
/// bus field or the display-name field.
pub fn check_field_annotations(
    items: &[FieldAnnotation],
    field: &str,
    bus_taken: bool,
    display_name_taken: bool,
) -> (r: Result<FieldRole, String>)
    ensures
        match (r, spec_field_annotations(items@, field@, bus_taken, display_name_taken)) {
            (Ok(x), Ok(v)) => x@ == v,
            (Err(m), Err(e)) => m@ == e,
            _ => false,
        },
{
    let mut role = FieldRole {
        bus: None,
        endpoint: None,
        signal: None,
        display_name: false,
        labels: Vec::new(),
        properties: Vec::new(),
    };
    proof {
        assert(role@.labels =~= Seq::<Seq<char>>::empty());
        assert(role@.properties =~= Seq::<Seq<char>>::empty());
        assert(items@.take(0) =~= Seq::<FieldAnnotation>::empty());
    }
    let mut k: usize = 0;
    while k < items.len()
        invariant
            k <= items@.len(),
            spec_annotations(items@.take(k as int), field@, bus_taken) == Ok::<FieldRoleView, Seq<char>>(role@),
        decreases items.len() - k,
    {
        proof {
            assert(items@.take(k as int + 1).drop_last() =~= items@.take(k as int));
        }
        match apply_annotation(role, &items[k], field, bus_taken) {
            Ok(next) => {
                role = next;
            },
            Err(m) => {
                proof {
                    lemma_annotations_err(items@, field@, bus_taken, k as int + 1);
                }
                return Err(m);
            },
        }
        k = k + 1;
    }
    assert(items@.take(k as int) =~= items@);
    if role.display_name && display_name_taken {
        return Err(owned("only one `display_name` field is allowed"));
    }
    Ok(role)
}

// ---------------------------------------------------------------------------
// The device as a whole.

/// The `bus(..)` field of a configured device: its annotation and the last
/// path segment of its type.
#[derive(Debug, Clone, PartialEq, Eq)]
pub struct BusFieldFacts {
    pub interface: BusInterface,
    pub type_ident: Option<String>,
}

/// An `endpoint(..)` field: its annotation, its endpoint name, and the last
/// path segment of its type.
#[derive(Debug, Clone, PartialEq, Eq)]
pub struct EndpointFieldFacts {
    pub interface: EndpointInterface,
    pub name: String,
    pub type_ident: Option<String>,
}

/// A `signal(gpio, ..)` field: its signal name, and the last path segment
/// of its type, or of the type inside `Option<..>` where it is an option.
#[derive(Debug, Clone, PartialEq, Eq)]
pub struct SignalFieldFacts {
    pub name: String,
    pub type_ident: Option<String>,
}

/// What the derive gathered of a struct: whether any `lemnos` attribute was
/// seen, the `interface` and `kind` named on the struct, and the annotated
/// fields in declaration order.
#[derive(Debug, Clone, PartialEq, Eq)]
pub struct ConfiguredDeviceFacts {
    pub saw_descriptor_metadata: bool,
    pub interface: Option<String>,
    pub kind: Option<String>,
    pub bus_field: Option<BusFieldFacts>,
    pub endpoint_fields: Vec<EndpointFieldFacts>,
    pub signal_fields: Vec<SignalFieldFacts>,
    pub label_keys: Vec<String>,
    pub property_keys: Vec<String>,
}

/// Whether an optional type name is present and equal to `name`.
pub open spec fn names_type(ident: Option<String>, name: Seq<char>) -> bool {
    ident matches Some(t) && t@ == name
}

pub open spec fn spec_bus_type_error(i: BusInterface) -> Seq<char> {
    match i {
        BusInterface::I2c => "`bus(i2c)` fields must have type `u32`"@,
        BusInterface::Spi => "`bus(spi)` fields must have type `u32`"@,
    }
}

pub open spec fn spec_endpoint_type_error(i: EndpointInterface) -> Seq<char> {
    match i {
        EndpointInterface::I2c => "`endpoint(i2c, ..)` fields must have type `u16`"@,
        EndpointInterface::Spi => "`endpoint(spi, ..)` fields must have type `u16`"@,
    }
}

pub open spec fn bus_fits(b: BusInterface, i: SupportedInterface) -> bool {
    (b == BusInterface::I2c && i == SupportedInterface::I2c) || (b == BusInterface::Spi && i
        == SupportedInterface::Spi)
}

pub open spec fn endpoint_fits(e: EndpointInterface, i: SupportedInterface) -> bool {
    (e == EndpointInterface::I2c && i == SupportedInterface::I2c) || (e == EndpointInterface::Spi && i
        == SupportedInterface::Spi)
}

/// What is wrong with one endpoint field, if anything: its type first, then
/// its interface.
pub open spec fn spec_endpoint_error(e: EndpointFieldFacts, i: SupportedInterface) -> Option<Seq<char>> {
    if !names_type(e.type_ident, "u16"@) {
        Some(spec_endpoint_type_error(e.interface))
    } else if !endpoint_fits(e.interface, i) {
        Some("configured endpoint annotation must match the configured device interface"@)
    } else {
        None
    }
}

/// The error of the first endpoint field that has one.
pub open spec fn spec_endpoints_error(es: Seq<EndpointFieldFacts>, i: SupportedInterface) -> Option<Seq<char>>
    decreases es.len(),
{
    if es.len() == 0 {
        None
    } else {
        match spec_endpoints_error(es.drop_last(), i) {
            Some(m) => Some(m),
            None => spec_endpoint_error(es.last(), i),
        }
    }
}

pub open spec fn signal_type_message() -> Seq<char> {
    "`signal(gpio, ..)` fields must have type `ConfiguredGpioSignal` or `Option<ConfiguredGpioSignal>`"@
}

/// The error of the first signal field whose type is not a GPIO signal.
pub open spec fn spec_signals_error(ss: Seq<SignalFieldFacts>) -> Option<Seq<char>>
    decreases ss.len(),
{
    if ss.len() == 0 {
        None
    } else {
        match spec_signals_error(ss.drop_last()) {
            Some(m) => Some(m),
            None => if names_type(ss.last().type_ident, "ConfiguredGpioSignal"@) {
                None
            } else {
                Some(signal_type_message())
            },
        }
    }
}

pub open spec fn endpoint_names(es: Seq<EndpointFieldFacts>) -> Seq<Seq<char>> {
    es.map_values(|e: EndpointFieldFacts| e.name@)
}

pub open spec fn signal_names(ss: Seq<SignalFieldFacts>) -> Seq<Seq<char>> {
    ss.map_values(|s: SignalFieldFacts| s.name@)
}

/// The checks that follow the interface, in order: the kind, the presence
/// and interface of bus and endpoint fields, the types of the bus,
/// endpoint and signal fields, and the uniqueness of endpoint names, signal
/// names, label keys and property keys.
pub open spec fn spec_validate_with(f: ConfiguredDeviceFacts, i: SupportedInterface) -> Result<(), Seq<char>> {
    if f.kind matches Some(k) && !(spec_driver_kind_named(k@) is Some || k@ == "Unspecified"@) {
        Err("unsupported device kind for current Lemnos core model"@)
    } else if f.kind matches Some(k) && k@ == "Unspecified"@ {
        Err("omit `kind` to use `DeviceKind::Unspecified(interface)`"@)
    } else if (f.endpoint_fields@.len() > 0 || f.bus_field is Some) && !(i == SupportedInterface::I2c || i
        == SupportedInterface::Spi) {
        Err("configured bus endpoints currently require `interface = I2c` or `interface = Spi`"@)
    } else if f.endpoint_fields@.len() > 0 && f.bus_field is None {
        Err("configured bus endpoints require a matching `#[lemnos(bus(...))]` field"@)
    } else if f.bus_field matches Some(b) && !names_type(b.type_ident, "u32"@) {
        Err(spec_bus_type_error(f.bus_field->Some_0.interface))
    } else if f.bus_field matches Some(b) && !bus_fits(b.interface, i) {
        Err("configured bus annotation must match the configured device interface"@)
    } else if spec_endpoints_error(f.endpoint_fields@, i) is Some {
        Err(spec_endpoints_error(f.endpoint_fields@, i)->Some_0)
    } else if spec_signals_error(f.signal_fields@) is Some {
        Err(spec_signals_error(f.signal_fields@)->Some_0)
    } else if spec_unique(endpoint_names(f.endpoint_fields@), "duplicate configured endpoint name"@) is Err {
        spec_unique(endpoint_names(f.endpoint_fields@), "duplicate configured endpoint name"@)
    } else if spec_unique(signal_names(f.signal_fields@), "duplicate configured signal name"@) is Err {
        spec_unique(signal_names(f.signal_fields@), "duplicate configured signal name"@)
    } else if spec_unique(strings_view(f.label_keys@), "duplicate configured label key"@) is Err {
        spec_unique(strings_view(f.label_keys@), "duplicate configured label key"@)
    } else {
        spec_unique(strings_view(f.property_keys@), "duplicate configured property key"@)
    }
}

/// The whole validation of a configured device: nothing to check where no
/// `lemnos` attribute was seen and no interface named; otherwise the
/// interface must be named and supported, and the remaining checks follow.
pub open spec fn spec_validate_configured(f: ConfiguredDeviceFacts) -> Result<(), Seq<char>> {
    if !(f.saw_descriptor_metadata || f.interface is Some) {
        Ok(())
    } else {
        match f.interface {
            None => Err("configured descriptor generation requires `#[lemnos(interface = ...)]`"@),
            Some(name) => match spec_interface_named(name@) {
                None => Err("unsupported interface; expected one of Gpio, Pwm, I2c, Spi, Uart, Usb"@),
                Some(i) => spec_validate_with(f, i),
            },
        }
    }
}

fn owned(s: &str) -> (r: String)
    ensures
        r@ == s@,
{
    string_from_chars(&chars_of(s))
}

fn has_type(ident: &Option<String>, name: &str) -> (r: bool)
    ensures
        r == names_type(*ident, name@),
{
    match ident {
        Some(t) => str_eq(t.as_str(), name),
        None => false,
    }
}

fn check_endpoints(es: &[EndpointFieldFacts], i: SupportedInterface) -> (r: Option<String>)
    ensures
        match (r, spec_endpoints_error(es@, i)) {
            (None, None) => true,
            (Some(m), Some(e)) => m@ == e,
            _ => false,
        },
{
    let mut k: usize = 0;
    while k < es.len()
        invariant
            k <= es@.len(),
            spec_endpoints_error(es@.take(k as int), i) is None,
        decreases es.len() - k,
    {
        proof {
            assert(es@.take(k as int + 1).drop_last() =~= es@.take(k as int));
        }
        let e = &es[k];
        if !has_type(&e.type_ident, "u16") {
            proof {
                lemma_endpoints_error_prefix(es@, i, k as int + 1);
            }
            return Some(owned(e.interface.type_error()));
        }
        if !e.interface.matches_configured_interface(i) {
            proof {
                lemma_endpoints_error_prefix(es@, i, k as int + 1);
            }
            return Some(owned("configured endpoint annotation must match the configured device interface"));
        }
        k = k + 1;
    }
    assert(es@.take(k as int) =~= es@);
    None
}

proof fn lemma_endpoints_error_prefix(es: Seq<EndpointFieldFacts>, i: SupportedInterface, n: int)
    requires
        0 <= n <= es.len(),
        spec_endpoints_error(es.take(n), i) is Some,
    ensures
        spec_endpoints_error(es, i) == spec_endpoints_error(es.take(n), i),
    decreases es.len() - n,
{
    if n < es.len() {
        assert(es.take(n + 1).drop_last() =~= es.take(n));
        lemma_endpoints_error_prefix(es, i, n + 1);
    } else {
        assert(es.take(n) =~= es);
    }
}

proof fn lemma_signals_error_prefix(ss: Seq<SignalFieldFacts>, n: int)
    requires
        0 <= n <= ss.len(),
        spec_signals_error(ss.take(n)) is Some,
    ensures
        spec_signals_error(ss) == spec_signals_error(ss.take(n)),
    decreases ss.len() - n,
{
    if n < ss.len() {
        assert(ss.take(n + 1).drop_last() =~= ss.take(n));
        lemma_signals_error_prefix(ss, n + 1);
    } else {
        assert(ss.take(n) =~= ss);
    }
}

fn check_signals(ss: &[SignalFieldFacts]) -> (r: Option<String>)
    ensures
        match (r, spec_signals_error(ss@)) {
            (None, None) => true,
            (Some(m), Some(e)) => m@ == e,
            _ => false,
        },
{
    let mut k: usize = 0;
    while k < ss.len()
        invariant
            k <= ss@.len(),
            spec_signals_error(ss@.take(k as int)) is None,
        decreases ss.len() - k,
    {
        proof {
            assert(ss@.take(k as int + 1).drop_last() =~= ss@.take(k as int));
        }
        if !has_type(&ss[k].type_ident, "ConfiguredGpioSignal") {
            proof {
                lemma_signals_error_prefix(ss@, k as int + 1);
            }
            return Some(owned(
                "`signal(gpio, ..)` fields must have type `ConfiguredGpioSignal` or `Option<ConfiguredGpioSignal>`",
            ));
        }
        k = k + 1;
    }
    assert(ss@.take(k as int) =~= ss@);
    None
}

fn collect_endpoint_names(es: &[EndpointFieldFacts]) -> (r: Vec<String>)
    ensures
        strings_view(r@) == endpoint_names(es@),
{
    let mut out: Vec<String> = Vec::new();
    let mut k: usize = 0;
    while k < es.len()
        invariant
            k <= es@.len(),
            out@.len() == k,
            forall|j: int| 0 <= j < k ==> #[trigger] out@[j]@ == es@[j].name@,
        decreases es.len() - k,
    {
        out.push(es[k].name.clone());
        k = k + 1;
    }
    assert(strings_view(out@) =~= endpoint_names(es@));
    out
}

fn collect_signal_names(ss: &[SignalFieldFacts]) -> (r: Vec<String>)
    ensures
        strings_view(r@) == signal_names(ss@),
{
    let mut out: Vec<String> = Vec::new();
    let mut k: usize = 0;
    while k < ss.len()
        invariant
            k <= ss@.len(),
            out@.len() == k,
            forall|j: int| 0 <= j < k ==> #[trigger] out@[j]@ == ss@[j].name@,
        decreases ss.len() - k,
    {
        out.push(ss[k].name.clone());
        k = k + 1;
    }
    assert(strings_view(out@) =~= signal_names(ss@));
    out
}

/// Validates a configured device as the derive does, and gives the message
/// of the first check that fails.
pub fn validate_configured_device(f: &ConfiguredDeviceFacts) -> (r: Result<(), String>)
    ensures
        match (r, spec_validate_configured(*f)) {
            (Ok(()), Ok(())) => true,
            (Err(m), Err(e)) => m@ == e,
            _ => false,
        },
{
    if !(f.saw_descriptor_metadata || f.interface.is_some()) {
        return Ok(());
    }
    let name = match &f.interface {
        None => {
            return Err(owned("configured descriptor generation requires `#[lemnos(interface = ...)]`"));
        },
        Some(name) => name,
    };
    let i = match validate_interface(name.as_str()) {
        Ok(i) => i,
        Err(m) => {
            return Err(owned(m));
        },
    };
    if let Some(k) = &f.kind {
        if let Err(m) = validate_kind(k.as_str()) {
            return Err(owned(m));
        }
        if str_eq(k.as_str(), "Unspecified") {
            return Err(owned("omit `kind` to use `DeviceKind::Unspecified(interface)`"));
        }
    }
    let has_endpoints = f.endpoint_fields.len() > 0;
    if (has_endpoints || f.bus_field.is_some()) && !(i == SupportedInterface::I2c || i == SupportedInterface::Spi) {
        return Err(owned("configured bus endpoints currently require `interface = I2c` or `interface = Spi`"));
    }
    if has_endpoints && f.bus_field.is_none() {
        return Err(owned("configured bus endpoints require a matching `#[lemnos(bus(...))]` field"));
    }
    if let Some(b) = &f.bus_field {
        if !has_type(&b.type_ident, "u32") {
            return Err(owned(b.interface.type_error()));
        }
        if !b.interface.matches_configured_interface(i) {
            return Err(owned("configured bus annotation must match the configured device interface"));
        }
    }
    if let Some(m) = check_endpoints(f.endpoint_fields.as_slice(), i) {
        return Err(m);
    }
    if let Some(m) = check_signals(f.signal_fields.as_slice()) {
        return Err(m);
    }
    let endpoints = collect_endpoint_names(f.endpoint_fields.as_slice());
    check_unique(endpoints.as_slice(), "duplicate configured endpoint name")?;
    let signals = collect_signal_names(f.signal_fields.as_slice());
    check_unique(signals.as_slice(), "duplicate configured signal name")?;
    check_unique(f.label_keys.as_slice(), "duplicate configured label key")?;
    check_unique(f.property_keys.as_slice(), "duplicate configured property key")
}

} // verus!
