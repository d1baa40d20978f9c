//! The rules behind the `ConfiguredDevice` and `LemnosDriver` derive
//! attributes: which interface and kind names are accepted, which field
//! annotations fit which interface, the default id prefix of a configured
//! device, and the uniqueness of the names its fields declare.
use crate::text::{chars_of, push_str_chars, str_eq, string_from_chars};
use vstd::prelude::*;

verus! {

/// The interfaces a configured device or a driver may name.
#[derive(Debug, Clone, Copy, PartialEq, Eq, Structural)]
pub enum SupportedInterface {
    Gpio,
    Pwm,
    I2c,
    Spi,
    Uart,
    Usb,
}

/// Only I2C and SPI devices declare a bus and endpoints of their own.
pub fn supports_configured_bus_endpoints(interface: SupportedInterface) -> (r: bool)
    ensures
        r == (interface == SupportedInterface::I2c || interface == SupportedInterface::Spi),
{
    match interface {
        SupportedInterface::I2c | SupportedInterface::Spi => true,
        _ => false,
    }
}

/// The interface of a `bus(..)` field annotation.
#[derive(Debug, Clone, Copy, PartialEq, Eq, Structural)]
pub enum BusInterface {
    I2c,
    Spi,
}

impl BusInterface {
    /// The error for a `bus(..)` field of the wrong type.
    pub fn type_error(self) -> (r: &'static str)
        ensures
            r@ == match self {
                BusInterface::I2c => "`bus(i2c)` fields must have type `u32`"@,
                BusInterface::Spi => "`bus(spi)` fields must have type `u32`"@,
            },
    {
        match self {
            BusInterface::I2c => "`bus(i2c)` fields must have type `u32`",
            BusInterface::Spi => "`bus(spi)` fields must have type `u32`",
        }
    }

    /// Whether the annotation fits the device's configured interface.
    pub fn matches_configured_interface(self, configured_interface: SupportedInterface) -> (r: bool)
        ensures
            r == ((self == BusInterface::I2c && configured_interface == SupportedInterface::I2c) || (self
                == BusInterface::Spi && configured_interface == SupportedInterface::Spi)),
    {
        match (self, configured_interface) {
            (BusInterface::I2c, SupportedInterface::I2c) => true,
            (BusInterface::Spi, SupportedInterface::Spi) => true,
            _ => false,
        }
    }
}

/// The interface of an `endpoint(..)` field annotation.
#[derive(Debug, Clone, Copy, PartialEq, Eq, Structural)]
pub enum EndpointInterface {
    I2c,
    Spi,
}

impl EndpointInterface {
    /// The error for an `endpoint(..)` field of the wrong type.
    pub fn type_error(self) -> (r: &'static str)
        ensures
            r@ == match self {
                EndpointInterface::I2c => "`endpoint(i2c, ..)` fields must have type `u16`"@,
                EndpointInterface::Spi => "`endpoint(spi, ..)` fields must have type `u16`"@,
            },
    {
        match self {
            EndpointInterface::I2c => "`endpoint(i2c, ..)` fields must have type `u16`",
            EndpointInterface::Spi => "`endpoint(spi, ..)` fields must have type `u16`",
        }
    }

    /// Whether the annotation fits the device's configured interface.
    pub fn matches_configured_interface(self, configured_interface: SupportedInterface) -> (r: bool)
        ensures
            r == ((self == EndpointInterface::I2c && configured_interface == SupportedInterface::I2c) || (self
                == EndpointInterface::Spi && configured_interface == SupportedInterface::Spi)),
    {
        match (self, configured_interface) {
            (EndpointInterface::I2c, SupportedInterface::I2c) => true,
            (EndpointInterface::Spi, SupportedInterface::Spi) => true,
            _ => false,
        }
    }
}

/// The device kinds a driver may declare.
#[derive(Debug, Clone, Copy, PartialEq, Eq, Structural)]
pub enum DriverKind {
    GpioChip,
    GpioLine,
    PwmChip,
    PwmChannel,
    I2cBus,
    I2cDevice,
    SpiBus,
    SpiDevice,
    UartPort,
    UartDevice,
    UsbBus,
    UsbDevice,
    UsbInterface,
}

pub open spec fn spec_driver_kind_interface(kind: DriverKind) -> SupportedInterface {
    match kind {
        DriverKind::GpioChip | DriverKind::GpioLine => SupportedInterface::Gpio,
        DriverKind::PwmChip | DriverKind::PwmChannel => SupportedInterface::Pwm,
        DriverKind::I2cBus | DriverKind::I2cDevice => SupportedInterface::I2c,
        DriverKind::SpiBus | DriverKind::SpiDevice => SupportedInterface::Spi,
        DriverKind::UartPort | DriverKind::UartDevice => SupportedInterface::Uart,
        DriverKind::UsbBus | DriverKind::UsbDevice | DriverKind::UsbInterface => SupportedInterface::Usb,
    }
}

impl DriverKind {
    /// The interface a kind of device belongs to.
    pub fn interface(self) -> (r: SupportedInterface)
        ensures
            r == spec_driver_kind_interface(self),
    {
        match self {
            DriverKind::GpioChip | DriverKind::GpioLine => SupportedInterface::Gpio,
            DriverKind::PwmChip | DriverKind::PwmChannel => SupportedInterface::Pwm,
            DriverKind::I2cBus | DriverKind::I2cDevice => SupportedInterface::I2c,
            DriverKind::SpiBus | DriverKind::SpiDevice => SupportedInterface::Spi,
            DriverKind::UartPort | DriverKind::UartDevice => SupportedInterface::Uart,
            DriverKind::UsbBus | DriverKind::UsbDevice | DriverKind::UsbInterface => SupportedInterface::Usb,
        }
    }
}

/// How strongly a driver claims the devices it matches.
#[derive(Debug, Clone, Copy, PartialEq, Eq, Structural)]
pub enum DriverPriority {
    Fallback,
    Generic,
    Preferred,
    Exact,
}

/// The interface named `name`, if it is one.
pub open spec fn spec_interface_named(name: Seq<char>) -> Option<SupportedInterface> {
    if name == "Gpio"@ {
        Some(SupportedInterface::Gpio)
    } else if name == "Pwm"@ {
        Some(SupportedInterface::Pwm)
    } else if name == "I2c"@ {
        Some(SupportedInterface::I2c)
    } else if name == "Spi"@ {
        Some(SupportedInterface::Spi)
    } else if name == "Uart"@ {
        Some(SupportedInterface::Uart)
    } else if name == "Usb"@ {
        Some(SupportedInterface::Usb)
    } else {
        None
    }
}

/// Accepts an interface name, or says which names are accepted.
pub fn validate_interface(name: &str) -> (r: Result<SupportedInterface, &'static str>)
    ensures
        match spec_interface_named(name@) {
            Some(i) => r == Ok::<SupportedInterface, &'static str>(i),
            None => r matches Err(m) && m@ == "unsupported interface; expected one of Gpio, Pwm, I2c, Spi, Uart, Usb"@,
        },
{
    if str_eq(name, "Gpio") {
        Ok(SupportedInterface::Gpio)
    } else if str_eq(name, "Pwm") {
        Ok(SupportedInterface::Pwm)
    } else if str_eq(name, "I2c") {
        Ok(SupportedInterface::I2c)
    } else if str_eq(name, "Spi") {
        Ok(SupportedInterface::Spi)
    } else if str_eq(name, "Uart") {
        Ok(SupportedInterface::Uart)
    } else if str_eq(name, "Usb") {
        Ok(SupportedInterface::Usb)
    } else {
        Err("unsupported interface; expected one of Gpio, Pwm, I2c, Spi, Uart, Usb")
    }
}

/// The driver kind named `name`, if it is one.
pub open spec fn spec_driver_kind_named(name: Seq<char>) -> Option<DriverKind> {
    if name == "GpioChip"@ {
        Some(DriverKind::GpioChip)
    } else if name == "GpioLine"@ {
        Some(DriverKind::GpioLine)
    } else if name == "PwmChip"@ {
        Some(DriverKind::PwmChip)
    } else if name == "PwmChannel"@ {
        Some(DriverKind::PwmChannel)
    } else if name == "I2cBus"@ {
        Some(DriverKind::I2cBus)
    } else if name == "I2cDevice"@ {
        Some(DriverKind::I2cDevice)
    } else if name == "SpiBus"@ {
        Some(DriverKind::SpiBus)
    } else if name == "SpiDevice"@ {
        Some(DriverKind::SpiDevice)
    } else if name == "UartPort"@ {
        Some(DriverKind::UartPort)
    } else if name == "UartDevice"@ {
        Some(DriverKind::UartDevice)
    } else if name == "UsbBus"@ {
        Some(DriverKind::UsbBus)
    } else if name == "UsbDevice"@ {
        Some(DriverKind::UsbDevice)
    } else if name == "UsbInterface"@ {
        Some(DriverKind::UsbInterface)
    } else {
        None
    }
}

/// A configured device accepts every driver kind name and `Unspecified`.
pub fn validate_kind(name: &str) -> (r: Result<(), &'static str>)
    ensures
        (spec_driver_kind_named(name@) is Some || name@ == "Unspecified"@) ==> r is Ok,
        !(spec_driver_kind_named(name@) is Some || name@ == "Unspecified"@) ==> (r matches Err(m) && m@
            == "unsupported device kind for current Lemnos core model"@),
{
    if str_eq(name, "Unspecified") {
        return Ok(());
    }
    match validate_driver_kind(name) {
        Ok(_) => Ok(()),
        Err(_) => Err("unsupported device kind for current Lemnos core model"),
    }
}

/// A driver accepts every kind name but `Unspecified`, for which it says to
/// leave the kind out.
pub fn validate_driver_kind(name: &str) -> (r: Result<DriverKind, &'static str>)
    ensures
        match spec_driver_kind_named(name@) {
            Some(k) => r == Ok::<DriverKind, &'static str>(k),
            None => r matches Err(m) && m@ == (if name@ == "Unspecified"@ {
                "`#[driver(kind = Unspecified)]` is not supported; omit `kind` instead"@
            } else {
                "unsupported device kind for current Lemnos core model"@
            }),
        },
{
    if str_eq(name, "GpioChip") {
        Ok(DriverKind::GpioChip)
    } else if str_eq(name, "GpioLine") {
        Ok(DriverKind::GpioLine)
    } else if str_eq(name, "PwmChip") {
        Ok(DriverKind::PwmChip)
    } else if str_eq(name, "PwmChannel") {
        Ok(DriverKind::PwmChannel)
    } else if str_eq(name, "I2cBus") {
        Ok(DriverKind::I2cBus)
    } else if str_eq(name, "I2cDevice") {
        Ok(DriverKind::I2cDevice)
    } else if str_eq(name, "SpiBus") {
        Ok(DriverKind::SpiBus)
    } else if str_eq(name, "SpiDevice") {
        Ok(DriverKind::SpiDevice)
    } else if str_eq(name, "UartPort") {
        Ok(DriverKind::UartPort)
    } else if str_eq(name, "UartDevice") {
        Ok(DriverKind::UartDevice)
    } else if str_eq(name, "UsbBus") {
        Ok(DriverKind::UsbBus)
    } else if str_eq(name, "UsbDevice") {
        Ok(DriverKind::UsbDevice)
    } else if str_eq(name, "UsbInterface") {
        Ok(DriverKind::UsbInterface)
    } else if str_eq(name, "Unspecified") {
        Err("`#[driver(kind = Unspecified)]` is not supported; omit `kind` instead")
    } else {
        Err("unsupported device kind for current Lemnos core model")
    }
}

/// The priority named `name`, if it is one.
pub open spec fn spec_priority_named(name: Seq<char>) -> Option<DriverPriority> {
    if name == "Fallback"@ {
        Some(DriverPriority::Fallback)
    } else if name == "Generic"@ {
        Some(DriverPriority::Generic)
    } else if name == "Preferred"@ {
        Some(DriverPriority::Preferred)
    } else if name == "Exact"@ {
        Some(DriverPriority::Exact)
    } else {
        None
    }
}

/// Accepts a driver priority name.
pub fn validate_priority(name: &str) -> (r: Result<DriverPriority, &'static str>)
    ensures
        match spec_priority_named(name@) {
            Some(p) => r == Ok::<DriverPriority, &'static str>(p),
            None => r matches Err(m) && m@ == "unsupported driver priority; expected one of Fallback, Generic, Preferred, Exact"@,
        },
{
    if str_eq(name, "Fallback") {
        Ok(DriverPriority::Fallback)
    } else if str_eq(name, "Generic") {
        Ok(DriverPriority::Generic)
    } else if str_eq(name, "Preferred") {
        Ok(DriverPriority::Preferred)
    } else if str_eq(name, "Exact") {
        Ok(DriverPriority::Exact)
    } else {
        Err("unsupported driver priority; expected one of Fallback, Generic, Preferred, Exact")
    }
}

/// `driver kind `{kind}` does not match interface `{interface}``.
pub open spec fn spec_kind_mismatch_message(kind_name: Seq<char>, interface_name: Seq<char>) -> Seq<char> {
    "driver kind `"@ + kind_name + "` does not match interface `"@ + interface_name + "`"@
}

/// A driver's kind must belong to its interface.
pub fn validate_kind_matches_interface(kind: DriverKind, kind_name: &str, interface: SupportedInterface, interface_name: &str) -> (r:
    Result<(), String>)
    ensures
        spec_driver_kind_interface(kind) == interface ==> r is Ok,
        spec_driver_kind_interface(kind) != interface ==> (r matches Err(m) && m@ == spec_kind_mismatch_message(
            kind_name@,
            interface_name@,
        )),
{
    if kind.interface() != interface {
        let mut out: Vec<char> = Vec::new();
        push_str_chars(&mut out, "driver kind `");
        push_str_chars(&mut out, kind_name);
        push_str_chars(&mut out, "` does not match interface `");
        push_str_chars(&mut out, interface_name);
        push_str_chars(&mut out, "`");
        return Err(string_from_chars(out.as_slice()));
    }
    Ok(())
}

pub open spec fn is_ascii_upper(c: char) -> bool {
    'A' <= c && c <= 'Z'
}

pub open spec fn ascii_lower(c: char) -> char {
    if is_ascii_upper(c) {
        ((c as u32) + 32) as char
    } else {
        c
    }
}

/// A type name in kebab case: a hyphen before every upper-case letter but
/// the first character, and upper-case letters lowered.
pub open spec fn kebab(s: Seq<char>) -> Seq<char>
    decreases s.len(),
{
    if s.len() == 0 {
        Seq::empty()
    } else {
        let rest = kebab(s.drop_last());
        let c = s.last();
        if is_ascii_upper(c) {
            if s.len() > 1 {
                rest.push('-').push(ascii_lower(c))
            } else {
                rest.push(ascii_lower(c))
            }
        } else {
            rest.push(c)
        }
    }
}

/// `str::strip_suffix`.
pub open spec fn strip_suffix(s: Seq<char>, suffix: Seq<char>) -> Option<Seq<char>> {
    if suffix.len() <= s.len() && s.skip(s.len() - suffix.len()) == suffix {
        Some(s.take(s.len() - suffix.len()))
    } else {
        None
    }
}

/// The id prefix of a configured device that names none:
/// `configured.{type name in kebab case, without a trailing -config}`.
pub open spec fn spec_default_id_prefix(ident: Seq<char>) -> Seq<char> {
    let k = kebab(ident);
    "configured."@ + match strip_suffix(k, "-config"@) {
        Some(t) => t,
        None => k,
    }
}

fn lower_ascii(c: char) -> (r: char)
    requires
        is_ascii_upper(c),
    ensures
        r == ascii_lower(c),
{
    match c {
        'A' => 'a',
        'B' => 'b',
        'C' => 'c',
        'D' => 'd',
        'E' => 'e',
        'F' => 'f',
        'G' => 'g',
        'H' => 'h',
        'I' => 'i',
        'J' => 'j',
        'K' => 'k',
        'L' => 'l',
        'M' => 'm',
        'N' => 'n',
        'O' => 'o',
        'P' => 'p',
        'Q' => 'q',
        'R' => 'r',
        'S' => 's',
        'T' => 't',
        'U' => 'u',
        'V' => 'v',
        'W' => 'w',
        'X' => 'x',
        'Y' => 'y',
        _ => 'z',
    }
}

/// The default id prefix of a configured device type.
pub fn default_id_prefix(ident: &str) -> (r: String)
    ensures
        r@ == spec_default_id_prefix(ident@),
{
    let cs = chars_of(ident);
    let mut k: Vec<char> = Vec::new();
    let mut i: usize = 0;
    assert(cs@.take(0) =~= Seq::<char>::empty());
    while i < cs.len()
        invariant
            cs@ == ident@,
            i <= cs@.len(),
            k@ == kebab(cs@.take(i as int)),
        decreases cs.len() - i,
    {
        let c = cs[i];
        proof {
            let t = cs@.take(i as int + 1);
            assert(t.drop_last() =~= cs@.take(i as int));
            assert(t.last() == c);
        }
        if 'A' <= c && c <= 'Z' {
            if i != 0 {
                k.push('-');
            }
            k.push(lower_ascii(c));
        } else {
            k.push(c);
        }
        i = i + 1;
    }
    assert(cs@.take(cs@.len() as int) =~= cs@);
    let suffix = chars_of("-config");
    let n = k.len();
    let m = suffix.len();
    let mut keep = n;
    if m <= n {
        let mut j: usize = 0;
        let mut same = true;
        while j < m
            invariant
                m == suffix@.len(),
                m <= n,
                n == k@.len(),
                j <= m,
                same == (forall|x: int| 0 <= x < j ==> k@[n - m + x] == suffix@[x]),
            decreases m - j,
        {
            if k[n - m + j] != suffix[j] {
                same = false;
            }
            j = j + 1;
        }
        if same {
            assert(k@.skip(n - m) =~= suffix@);
            keep = n - m;
        } else {
            assert(!(k@.skip(n - m) =~= suffix@)) by {
                let x = choose|x: int| 0 <= x < m && k@[n - m + x] != suffix@[x];
                assert(k@.skip(n - m)[x] != suffix@[x]);
            }
        }
    }
    let mut out: Vec<char> = Vec::new();
    push_str_chars(&mut out, "configured.");
    let ghost base = out@;
    let mut j: usize = 0;
    while j < keep
        invariant
            keep <= k@.len(),
            j <= keep,
            out@ == base + k@.take(j as int),
        decreases keep - j,
    {
        out.push(k[j]);
        j = j + 1;
        assert(out@ =~= base + k@.take(j as int));
    }
    assert(k@.take(k@.len() as int) =~= k@);
    string_from_chars(out.as_slice())
}

/// Names declared by the fields of a configured device must be unique:
/// the first name that repeats an earlier one is reported, by its index
/// and as `{message} `{name}``.
pub fn validate_unique_names(names: &[String], message: &str) -> (r: Result<(), (usize, String)>)
    ensures
        r is Ok ==> forall|i: int, j: int| 0 <= j < i < names@.len() ==> names@[j]@ != names@[i]@,
        r is Err ==> {
            let (i, m) = r->Err_0;
            &&& i < names@.len()
            &&& exists|j: int| 0 <= j < i && names@[j]@ == names@[i as int]@
            &&& forall|i2: int, j2: int| 0 <= j2 < i2 < i ==> names@[j2]@ != names@[i2]@
            &&& m@ == message@ + " `"@ + names@[i as int]@ + "`"@
        },
{
    let mut i: usize = 0;
    while i < names.len()
        invariant
            i <= names@.len(),
            forall|i2: int, j2: int| 0 <= j2 < i2 < i ==> names@[j2]@ != names@[i2]@,
        decreases names.len() - i,
    {
        let mut j: usize = 0;
        while j < i
            invariant
                j <= i < names@.len(),
                forall|j2: int| 0 <= j2 < j ==> names@[j2]@ != names@[i as int]@,
                forall|i2: int, j2: int| 0 <= j2 < i2 < i ==> names@[j2]@ != names@[i2]@,
            decreases i - j,
        {
            if str_eq(names[j].as_str(), names[i].as_str()) {
                let mut out: Vec<char> = Vec::new();
                push_str_chars(&mut out, message);
                push_str_chars(&mut out, " `");
                push_str_chars(&mut out, names[i].as_str());
                push_str_chars(&mut out, "`");
                assert(names@[j as int]@ == names@[i as int]@);
                return Err((i, string_from_chars(out.as_slice())));
            }
            j = j + 1;
        }
        i = i + 1;
    }
    Ok(())
}

/// A default id prefix holds no upper-case ASCII letter after
/// `configured.`: the kebab-case form of the type name lowers them all.
pub proof fn law_kebab_case_has_no_upper_case(ident: Seq<char>)
    ensures
        forall|i: int| 0 <= i < kebab(ident).len() ==> !is_ascii_upper(#[trigger] kebab(ident)[i]),
    decreases ident.len(),
{
    if ident.len() > 0 {
        law_kebab_case_has_no_upper_case(ident.drop_last());
        let rest = kebab(ident.drop_last());
        let c = ident.last();
        let k = kebab(ident);
        if is_ascii_upper(c) {
            assert(!is_ascii_upper(ascii_lower(c))) by {
                assert('A' as u32 == 65 && 'Z' as u32 == 90);
            }
            assert forall|i: int| 0 <= i < k.len() implies !is_ascii_upper(#[trigger] k[i]) by {
                if i < rest.len() {
                    assert(k[i] == rest[i]);
                }
            }
        } else {
            assert forall|i: int| 0 <= i < k.len() implies !is_ascii_upper(#[trigger] k[i]) by {
                if i < rest.len() {
                    assert(k[i] == rest[i]);
                }
            }
        }
    }
}

} // verus!
