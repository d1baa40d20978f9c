//! Parsing of sysfs attribute values and kernel device names, and the text
//! forms of USB topology that discovery and the transports print.
use crate::text::{
    dec_digits, join_with, lemma_dec_digits_value, lemma_first_index_found, lemma_parse_dec_digits,
    push_dec, chars_of, find_char, lemma_first_index_none, lemma_first_index_some, parse_unsigned,
    parse_unsigned_range, ranges_view, split_by, split_once, split_ranges, string_from_chars,
    strip_prefix, trim, trim_range,
};
use vstd::prelude::*;

verus! {

/// What `read_trimmed` keeps of a file's contents: the trimmed text, or
/// nothing when the file is missing or holds only whitespace.
pub open spec fn spec_trimmed(contents: Option<Seq<char>>) -> Option<Seq<char>> {
    match contents {
        Some(c) => if trim(c).len() == 0 {
            None
        } else {
            Some(trim(c))
        },
        None => None,
    }
}

/// Decimal attribute value of a file with the given contents.
pub open spec fn spec_read_dec(contents: Option<Seq<char>>, max: nat) -> Option<nat> {
    match spec_trimmed(contents) {
        Some(t) => parse_unsigned(t, 10, max),
        None => None,
    }
}

/// Hexadecimal attribute value of a file with the given contents.
pub open spec fn spec_read_hex(contents: Option<Seq<char>>, max: nat) -> Option<nat> {
    match spec_trimmed(contents) {
        Some(t) => parse_unsigned(t, 16, max),
        None => None,
    }
}

pub open spec fn opt_view(s: Option<&str>) -> Option<Seq<char>> {
    match s {
        Some(s) => Some(s@),
        None => None,
    }
}

/// The trimmed contents of a sysfs attribute file, given the text read from
/// it (`None` when the file does not exist).
pub fn read_trimmed(contents: Option<&str>) -> (r: Option<String>)
    ensures
        match r {
            Some(s) => spec_trimmed(opt_view(contents)) == Some(s@),
            None => spec_trimmed(opt_view(contents)) is None,
        },
{
    match contents {
        None => None,
        Some(text) => {
            let v = chars_of(text);
            let (a, b) = trim_range(&v);
            if a == b {
                None
            } else {
                Some(string_from_chars(&v.as_slice()[a..b]))
            }
        },
    }
}

/// The chars of the trimmed contents, and their range.
fn trimmed_chars(contents: Option<&str>) -> (r: Option<(Vec<char>, usize, usize)>)
    ensures
        match r {
            Some((v, a, b)) => a <= b <= v@.len() && spec_trimmed(opt_view(contents)) == Some(
                v@.subrange(a as int, b as int),
            ),
            None => spec_trimmed(opt_view(contents)) is None,
        },
{
    match contents {
        None => None,
        Some(text) => {
            let v = chars_of(text);
            let (a, b) = trim_range(&v);
            if a == b {
                None
            } else {
                Some((v, a, b))
            }
        },
    }
}

/// A decimal `u32` attribute (such as a GPIO `base` or `ngpio`), given the
/// text read from its file.
pub fn read_u32(contents: Option<&str>) -> (r: Option<u32>)
    ensures
        match r {
            Some(x) => spec_read_dec(opt_view(contents), u32::MAX as nat) == Some(x as nat),
            None => spec_read_dec(opt_view(contents), u32::MAX as nat) is None,
        },
{
    match trimmed_chars(contents) {
        None => None,
        Some((v, a, b)) => match parse_unsigned_range(&v, a, b, 10, u32::MAX as u64) {
            Some(x) => Some(x as u32),
            None => None,
        },
    }
}

/// A hexadecimal `u16` attribute (such as a USB `idVendor`), given the text
/// read from its file.
pub fn read_hex_u16(contents: Option<&str>) -> (r: Option<u16>)
    ensures
        match r {
            Some(x) => spec_read_hex(opt_view(contents), u16::MAX as nat) == Some(x as nat),
            None => spec_read_hex(opt_view(contents), u16::MAX as nat) is None,
        },
{
    match trimmed_chars(contents) {
        None => None,
        Some((v, a, b)) => match parse_unsigned_range(&v, a, b, 16, u16::MAX as u64) {
            Some(x) => Some(x as u16),
            None => None,
        },
    }
}

/// A hexadecimal `u8` attribute (such as `bInterfaceClass`), given the text
/// read from its file.
pub fn read_hex_u8(contents: Option<&str>) -> (r: Option<u8>)
    ensures
        match r {
            Some(x) => spec_read_hex(opt_view(contents), u8::MAX as nat) == Some(x as nat),
            None => spec_read_hex(opt_view(contents), u8::MAX as nat) is None,
        },
{
    match trimmed_chars(contents) {
        None => None,
        Some((v, a, b)) => match parse_unsigned_range(&v, a, b, 16, u8::MAX as u64) {
            Some(x) => Some(x as u8),
            None => None,
        },
    }
}

/// The path as a string when it exists (`exists` is the file system's answer).
pub fn existing_path_string(path: &str, exists: bool) -> (r: Option<String>)
    ensures
        exists ==> (r matches Some(s) && s@ == path@),
        !exists ==> r is None,
{
    if exists {
        Some(string_from_chars(chars_of(path).as_slice()))
    } else {
        None
    }
}

pub open spec fn spec_parse_prefixed_u32(value: Seq<char>, prefix: Seq<char>) -> Option<nat> {
    match strip_prefix(value, prefix) {
        Some(rest) => parse_unsigned(rest, 10, u32::MAX as nat),
        None => None,
    }
}

/// `true` when `p` is a prefix of `v`, computed.
fn has_prefix(v: &[char], p: &[char]) -> (b: bool)
    ensures
        b == (p@.len() <= v@.len() && v@.take(p@.len() as int) == p@),
{
    if p.len() > v.len() {
        return false;
    }
    let mut i: usize = 0;
    while i < p.len()
        invariant
            p@.len() <= v@.len(),
            i <= p@.len(),
            forall|j: int| 0 <= j < i ==> v@[j] == p@[j],
        decreases p.len() - i,
    {
        if v[i] != p[i] {
            assert(v@.take(p@.len() as int)[i as int] != p@[i as int]);
            return false;
        }
        i = i + 1;
    }
    assert(v@.take(p@.len() as int) =~= p@);
    true
}

/// The number after `prefix` in a kernel name such as `pwmchip3` or `i2c-1`.
pub fn parse_prefixed_u32(value: &str, prefix: &str) -> (r: Option<u32>)
    ensures
        match r {
            Some(x) => spec_parse_prefixed_u32(value@, prefix@) == Some(x as nat),
            None => spec_parse_prefixed_u32(value@, prefix@) is None,
        },
{
    let v = chars_of(value);
    let p = chars_of(prefix);
    if !has_prefix(&v, &p) {
        return None;
    }
    assert(v@.subrange(p@.len() as int, v@.len() as int) =~= v@.skip(p@.len() as int));
    match parse_unsigned_range(&v, p.len(), v.len(), 10, u32::MAX as u64) {
        Some(x) => Some(x as u32),
        None => None,
    }
}

pub open spec fn spec_parse_i2c_device_name(value: Seq<char>) -> Option<(nat, nat)> {
    match split_once(value, '-') {
        Some((bus, address)) => match (
            parse_unsigned(bus, 10, u32::MAX as nat),
            parse_unsigned(address, 16, u16::MAX as nat),
        ) {
            (Some(b), Some(a)) => Some((b, a)),
            _ => None,
        },
        None => None,
    }
}

/// Bus number and hexadecimal address of an I2C client name such as `1-0050`.
pub fn parse_i2c_device_name(value: &str) -> (r: Option<(u32, u16)>)
    ensures
        match r {
            Some((b, a)) => spec_parse_i2c_device_name(value@) == Some((b as nat, a as nat)),
            None => spec_parse_i2c_device_name(value@) is None,
        },
{
    let v = chars_of(value);
    let n = v.len();
    let dash = find_char(&v, 0, n, '-');
    assert(v@.subrange(0, n as int) =~= v@);
    if dash == n {
        return None;
    }
    assert(v@.subrange(0, dash as int) =~= v@.take(dash as int));
    assert(v@.subrange(dash + 1, n as int) =~= v@.skip(dash + 1));
    let bus = parse_unsigned_range(&v, 0, dash, 10, u32::MAX as u64);
    let address = parse_unsigned_range(&v, dash + 1, n, 16, u16::MAX as u64);
    match (bus, address) {
        (Some(b), Some(a)) => Some((b as u32, a as u16)),
        _ => None,
    }
}

pub open spec fn spec_parse_spi_device_name(value: Seq<char>) -> Option<(nat, nat)> {
    match strip_prefix(value, seq!['s', 'p', 'i']) {
        Some(suffix) => match split_once(suffix, '.') {
            Some((bus, cs)) => match (
                parse_unsigned(bus, 10, u32::MAX as nat),
                parse_unsigned(cs, 10, u16::MAX as nat),
            ) {
                (Some(b), Some(c)) => Some((b, c)),
                _ => None,
            },
            None => None,
        },
        None => None,
    }
}

/// Bus number and chip select of an SPI device name such as `spi0.1`.
pub fn parse_spi_device_name(value: &str) -> (r: Option<(u32, u16)>)
    ensures
        match r {
            Some((b, c)) => spec_parse_spi_device_name(value@) == Some((b as nat, c as nat)),
            None => spec_parse_spi_device_name(value@) is None,
        },
{
    let v = chars_of(value);
    let n = v.len();
    if n < 3 || v[0] != 's' || v[1] != 'p' || v[2] != 'i' {
        proof {
            if n >= 3 {
                assert(v@.take(3)[0] == v@[0]);
                assert(v@.take(3)[1] == v@[1]);
                assert(v@.take(3)[2] == v@[2]);
            }
        }
        return None;
    }
    assert(v@.take(3) =~= seq!['s', 'p', 'i']);
    let ghost suffix = v@.skip(3);
    assert(v@.subrange(3, n as int) =~= suffix);
    let dot = find_char(&v, 3, n, '.');
    if dot == n {
        return None;
    }
    assert(v@.subrange(3, dot as int) =~= suffix.take(dot - 3));
    assert(v@.subrange(dot + 1, n as int) =~= suffix.skip(dot - 3 + 1));
    let bus = parse_unsigned_range(&v, 3, dot, 10, u32::MAX as u64);
    let cs = parse_unsigned_range(&v, dot + 1, n, 10, u16::MAX as u64);
    match (bus, cs) {
        (Some(b), Some(c)) => Some((b as u32, c as u16)),
        _ => None,
    }
}

pub open spec fn spec_parse_usb_bus_name(value: Seq<char>) -> Option<nat> {
    match strip_prefix(value, seq!['u', 's', 'b']) {
        Some(rest) => parse_unsigned(rest, 10, u16::MAX as nat),
        None => None,
    }
}

/// Bus number of a USB root hub name such as `usb1`.
pub fn parse_usb_bus_name(value: &str) -> (r: Option<u16>)
    ensures
        match r {
            Some(b) => spec_parse_usb_bus_name(value@) == Some(b as nat),
            None => spec_parse_usb_bus_name(value@) is None,
        },
{
    let v = chars_of(value);
    let n = v.len();
    if n < 3 || v[0] != 'u' || v[1] != 's' || v[2] != 'b' {
        proof {
            if n >= 3 {
                assert(v@.take(3)[0] == v@[0]);
                assert(v@.take(3)[1] == v@[1]);
                assert(v@.take(3)[2] == v@[2]);
            }
        }
        return None;
    }
    assert(v@.take(3) =~= seq!['u', 's', 'b']);
    assert(v@.subrange(3, n as int) =~= v@.skip(3));
    match parse_unsigned_range(&v, 3, n, 10, u16::MAX as u64) {
        Some(b) => Some(b as u16),
        None => None,
    }
}

/// Every piece parses as a decimal `u8`; the values in order.
pub open spec fn parse_all_u8(parts: Seq<Seq<char>>) -> Option<Seq<u8>> {
    if forall|i: int| 0 <= i < parts.len() ==> (#[trigger] parse_unsigned(parts[i], 10, 255)) is Some {
        Some(Seq::new(parts.len(), |i: int| parse_unsigned(parts[i], 10, 255)->0 as u8))
    } else {
        None
    }
}

pub open spec fn spec_parse_usb_device_name(value: Seq<char>) -> Option<(nat, Seq<u8>)> {
    if value.contains(':') {
        None
    } else {
        match split_once(value, '-') {
            Some((bus, ports)) => match (
                parse_unsigned(bus, 10, u16::MAX as nat),
                parse_all_u8(split_by(ports, '.')),
            ) {
                (Some(b), Some(p)) => Some((b, p)),
                _ => None,
            },
            None => None,
        }
    }
}

/// Parses every piece of `v` named by `ranges` as a decimal `u8`.
fn parse_u8_ranges(v: &[char], ranges: &Vec<(usize, usize)>) -> (r: Option<Vec<u8>>)
    requires
        forall|i: int| 0 <= i < ranges@.len() ==> (#[trigger] ranges@[i]).0 <= ranges@[i].1 <= v@.len(),
    ensures
        match r {
            Some(p) => parse_all_u8(ranges_view(v@, ranges@)) == Some(p@),
            None => parse_all_u8(ranges_view(v@, ranges@)) is None,
        },
{
    let ghost parts = ranges_view(v@, ranges@);
    let mut out: Vec<u8> = Vec::new();
    let mut i: usize = 0;
    while i < ranges.len()
        invariant
            i <= ranges@.len(),
            parts == ranges_view(v@, ranges@),
            forall|k: int| 0 <= k < ranges@.len() ==> (#[trigger] ranges@[k]).0 <= ranges@[k].1 <= v@.len(),
            out@.len() == i,
            forall|k: int| 0 <= k < i ==> (#[trigger] parse_unsigned(parts[k], 10, 255)) is Some,
            forall|k: int| 0 <= k < i ==> out@[k] == parse_unsigned(parts[k], 10, 255)->0 as u8,
        decreases ranges.len() - i,
    {
        let (a, b) = ranges[i];
        match parse_unsigned_range(v, a, b, 10, 255) {
            None => {
                assert(parts[i as int] == v@.subrange(a as int, b as int));
                return None;
            },
            Some(x) => {
                assert(parts[i as int] == v@.subrange(a as int, b as int));
                out.push(x as u8);
            },
        }
        i = i + 1;
    }
    assert(out@ =~= Seq::new(parts.len(), |k: int| parse_unsigned(parts[k], 10, 255)->0 as u8));
    Some(out)
}

/// Bus number and port path of a USB device name such as `1-2.3`.
pub fn parse_usb_device_name(value: &str) -> (r: Option<(u16, Vec<u8>)>)
    ensures
        match r {
            Some((b, p)) => spec_parse_usb_device_name(value@) == Some((b as nat, p@)),
            None => spec_parse_usb_device_name(value@) is None,
        },
{
    let v = chars_of(value);
    assert(v@.take(v@.len() as int) =~= value@);
    parse_usb_device_chars(&v, v.len())
}

/// `parse_usb_device_name` on the first `n` characters of `v`.
fn parse_usb_device_chars(v: &[char], n: usize) -> (r: Option<(u16, Vec<u8>)>)
    requires
        n <= v@.len(),
    ensures
        match r {
            Some((b, p)) => spec_parse_usb_device_name(v@.take(n as int)) == Some((b as nat, p@)),
            None => spec_parse_usb_device_name(v@.take(n as int)) is None,
        },
{
    let ghost s = v@.take(n as int);
    let colon = find_char(v, 0, n, ':');
    assert(v@.subrange(0, n as int) =~= s);
    if colon < n {
        proof {
            lemma_first_index_some(s, ':');
        }
        return None;
    }
    proof {
        if s.contains(':') {
            let k = choose|k: int| 0 <= k < s.len() && s[k] == ':';
            lemma_first_index_none(s, ':', k);
        }
    }
    let dash = find_char(v, 0, n, '-');
    if dash == n {
        return None;
    }
    assert(v@.subrange(0, dash as int) =~= s.take(dash as int));
    assert(v@.subrange(dash + 1, n as int) =~= s.skip(dash + 1));
    let bus = parse_unsigned_range(v, 0, dash, 10, u16::MAX as u64);
    let ranges = split_ranges(v, dash + 1, n, '.');
    let ports = parse_u8_ranges(v, &ranges);
    match (bus, ports) {
        (Some(b), Some(p)) => Some((b as u16, p)),
        _ => None,
    }
}

pub open spec fn spec_parse_usb_interface_name(value: Seq<char>) -> Option<(nat, Seq<u8>, nat, nat)> {
    match split_once(value, ':') {
        Some((device, suffix)) => match spec_parse_usb_device_name(device) {
            Some((bus, ports)) => match split_once(suffix, '.') {
                Some((configuration, interface)) => match (
                    parse_unsigned(configuration, 10, 255),
                    parse_unsigned(interface, 10, 255),
                ) {
                    (Some(c), Some(i)) => Some((bus, ports, c, i)),
                    _ => None,
                },
                None => None,
            },
            None => None,
        },
        None => None,
    }
}

/// Bus, port path, configuration and interface number of a USB interface
/// name such as `1-2:1.0`.
pub fn parse_usb_interface_name(value: &str) -> (r: Option<(u16, Vec<u8>, u8, u8)>)
    ensures
        match r {
            Some((b, p, c, i)) => spec_parse_usb_interface_name(value@) == Some(
                (b as nat, p@, c as nat, i as nat),
            ),
            None => spec_parse_usb_interface_name(value@) is None,
        },
{
    let v = chars_of(value);
    let n = v.len();
    let colon = find_char(&v, 0, n, ':');
    assert(v@.subrange(0, n as int) =~= v@);
    if colon == n {
        return None;
    }
    let ghost suffix = v@.skip(colon + 1);
    assert(v@.subrange(colon + 1, n as int) =~= suffix);
    let device = parse_usb_device_chars(&v, colon);
    let (bus, ports) = match device {
        None => return None,
        Some(d) => d,
    };
    let dot = find_char(&v, colon + 1, n, '.');
    if dot == n {
        return None;
    }
    assert(v@.subrange(colon + 1, dot as int) =~= suffix.take(dot - colon - 1));
    assert(v@.subrange(dot + 1, n as int) =~= suffix.skip(dot - colon - 1 + 1));
    let configuration = parse_unsigned_range(&v, colon + 1, dot, 10, 255);
    let interface = parse_unsigned_range(&v, dot + 1, n, 10, 255);
    match (configuration, interface) {
        (Some(c), Some(i)) => Some((bus, ports, c as u8, i as u8)),
        _ => None,
    }
}


/// Decimal renderings of the port numbers.
pub open spec fn port_strings(ports: Seq<u8>) -> Seq<Seq<char>> {
    Seq::new(ports.len(), |i: int| dec_digits(ports[i] as nat))
}

/// Port numbers joined by `sep`.
pub open spec fn spec_ports_joined(ports: Seq<u8>, sep: char) -> Seq<char> {
    join_with(port_strings(ports), sep)
}

/// `{bus}-{ports joined by '.'}`, the kernel name of a USB device.
pub open spec fn spec_usb_device_key(bus: u16, ports: Seq<u8>) -> Seq<char> {
    dec_digits(bus as nat).push('-') + spec_ports_joined(ports, '.')
}

/// `bus {bus} ports {ports joined by '.'}`.
pub open spec fn spec_format_usb_target(bus: u16, ports: Seq<u8>) -> Seq<char> {
    seq!['b', 'u', 's', ' '] + dec_digits(bus as nat) + seq![' ', 'p', 'o', 'r', 't', 's', ' ']
        + spec_ports_joined(ports, '.')
}

/// Appends the port numbers joined by `sep`.
fn push_ports(out: &mut Vec<char>, ports: &[u8], sep: char)
    ensures
        final(out)@ == old(out)@ + spec_ports_joined(ports@, sep),
{
    let ghost base = out@;
    let ghost parts = port_strings(ports@);
    let mut i: usize = 0;
    while i < ports.len()
        invariant
            i <= ports@.len(),
            parts == port_strings(ports@),
            out@ == base + join_with(parts.take(i as int), sep),
        decreases ports.len() - i,
    {
        let ghost before = out@;
        if i > 0 {
            out.push(sep);
        }
        push_dec(out, ports[i] as u64);
        proof {
            let t = parts.take(i as int + 1);
            assert(t.drop_last() =~= parts.take(i as int));
            assert(t.last() == dec_digits(ports@[i as int] as nat));
            if i == 0 {
                assert(join_with(t, sep) == t[0]);
                assert(join_with(parts.take(0), sep) =~= Seq::<char>::empty());
            }
        }
        i = i + 1;
        assert(out@ =~= base + join_with(parts.take(i as int), sep));
    }
    assert(parts.take(ports@.len() as int) =~= parts);
}

/// Port numbers joined by `_`, as used inside descriptor identifiers.
pub fn ports_label(ports: &[u8]) -> (r: String)
    ensures
        r@ == spec_ports_joined(ports@, '_'),
{
    let mut out: Vec<char> = Vec::new();
    push_ports(&mut out, ports, '_');
    assert(out@ =~= spec_ports_joined(ports@, '_'));
    string_from_chars(out.as_slice())
}

/// Port numbers joined by `.`, as the kernel prints a port path.
pub fn ports_display(ports: &[u8]) -> (r: String)
    ensures
        r@ == spec_ports_joined(ports@, '.'),
{
    let mut out: Vec<char> = Vec::new();
    push_ports(&mut out, ports, '.');
    assert(out@ =~= spec_ports_joined(ports@, '.'));
    string_from_chars(out.as_slice())
}

/// The key under which discovery remembers a USB device: its kernel name.
pub fn usb_device_key(bus: u16, ports: &[u8]) -> (r: String)
    ensures
        r@ == spec_usb_device_key(bus, ports@),
{
    let mut out: Vec<char> = Vec::new();
    push_dec(&mut out, bus as u64);
    out.push('-');
    push_ports(&mut out, ports, '.');
    assert(out@ =~= spec_usb_device_key(bus, ports@));
    string_from_chars(out.as_slice())
}

/// The text that names a USB target in error messages.
pub fn format_usb_target(bus: u16, ports: &[u8]) -> (r: String)
    ensures
        r@ == spec_format_usb_target(bus, ports@),
{
    let mut out: Vec<char> = Vec::new();
    out.push('b');
    out.push('u');
    out.push('s');
    out.push(' ');
    push_dec(&mut out, bus as u64);
    out.push(' ');
    out.push('p');
    out.push('o');
    out.push('r');
    out.push('t');
    out.push('s');
    out.push(' ');
    push_ports(&mut out, ports, '.');
    assert(out@ =~= spec_format_usb_target(bus, ports@));
    string_from_chars(out.as_slice())
}

proof fn lemma_split_by_single(x: Seq<char>, c: char)
    requires
        !x.contains(c),
    ensures
        split_by(x, c) == seq![x],
    decreases x.len(),
{
    if x.len() == 0 {
        assert(x =~= Seq::<char>::empty());
        assert(split_by(x, c) =~= seq![x]);
    } else {
        let y = x.drop_last();
        assert(!y.contains(c)) by {
            if y.contains(c) {
                let k = choose|k: int| 0 <= k < y.len() && y[k] == c;
                assert(x[k] == c);
            }
        }
        lemma_split_by_single(y, c);
        assert(x.last() != c) by {
            assert(x[x.len() - 1] == x.last());
        }
        assert(y.push(x.last()) =~= x);
        assert(split_by(x, c) =~= seq![x]);
    }
}

proof fn lemma_split_by_append(y: Seq<char>, x: Seq<char>, c: char)
    requires
        !x.contains(c),
    ensures
        split_by(y.push(c) + x, c) == split_by(y, c).push(x),
    decreases x.len(),
{
    let z = y.push(c);
    if x.len() == 0 {
        assert(z + x =~= z);
        assert(z.drop_last() =~= y);
        assert(z.last() == c);
        assert(x =~= Seq::<char>::empty());
        assert(split_by(z, c) == split_by(y, c).push(Seq::<char>::empty()));
        assert(split_by(z, c) =~= split_by(y, c).push(x));
    } else {
        let w = x.drop_last();
        assert(!w.contains(c)) by {
            if w.contains(c) {
                let k = choose|k: int| 0 <= k < w.len() && w[k] == c;
                assert(x[k] == c);
            }
        }
        lemma_split_by_append(y, w, c);
        assert(x.last() != c) by {
            assert(x[x.len() - 1] == x.last());
        }
        assert((z + x).drop_last() =~= z + w);
        assert((z + x).last() == x.last());
        assert(w.push(x.last()) =~= x);
        let rest = split_by(z + w, c);
        assert(rest =~= split_by(y, c).push(w));
        assert(split_by(z + x, c) =~= rest.update(rest.len() - 1, rest.last().push(x.last())));
        assert(split_by(z + x, c) =~= split_by(y, c).push(x));
    }
}

proof fn lemma_split_join(parts: Seq<Seq<char>>, c: char)
    requires
        parts.len() > 0,
        forall|i: int| 0 <= i < parts.len() ==> !(#[trigger] parts[i]).contains(c),
    ensures
        split_by(join_with(parts, c), c) == parts,
    decreases parts.len(),
{
    if parts.len() == 1 {
        lemma_split_by_single(parts[0], c);
        assert(seq![parts[0]] =~= parts);
    } else {
        let init = parts.drop_last();
        assert forall|i: int| 0 <= i < init.len() implies !(#[trigger] init[i]).contains(c) by {
            assert(init[i] == parts[i]);
        }
        lemma_split_join(init, c);
        assert(!parts.last().contains(c)) by {
            assert(parts[parts.len() - 1] == parts.last());
        }
        lemma_split_by_append(join_with(init, c), parts.last(), c);
        assert(init.push(parts.last()) =~= parts);
    }
}

proof fn lemma_dec_digits_avoid(n: nat, c: char)
    requires
        !(48 <= c as u32 <= 57),
    ensures
        !dec_digits(n).contains(c),
{
    if dec_digits(n).contains(c) {
        let k = choose|k: int| 0 <= k < dec_digits(n).len() && dec_digits(n)[k] == c;
        crate::text::lemma_dec_digits_are_digits(n, k);
    }
}

proof fn lemma_join_avoids(parts: Seq<Seq<char>>, sep: char, c: char)
    requires
        sep != c,
        forall|i: int| 0 <= i < parts.len() ==> !(#[trigger] parts[i]).contains(c),
    ensures
        !join_with(parts, sep).contains(c),
    decreases parts.len(),
{
    if parts.len() > 1 {
        let init = parts.drop_last();
        assert forall|i: int| 0 <= i < init.len() implies !(#[trigger] init[i]).contains(c) by {
            assert(init[i] == parts[i]);
        }
        lemma_join_avoids(init, sep, c);
        let j = join_with(init, sep).push(sep);
        let l = parts.last();
        assert(!l.contains(c)) by {
            assert(parts[parts.len() - 1] == l);
        }
        if (j + l).contains(c) {
            let k = choose|k: int| 0 <= k < (j + l).len() && (j + l)[k] == c;
            if k < j.len() - 1 {
                assert(join_with(init, sep)[k] == c);
            } else if k >= j.len() {
                assert(l[k - j.len()] == c);
            }
        }
    } else if parts.len() == 1 {
        assert(!parts[0].contains(c));
    }
}

/// A USB device's kernel name, as `usb_device_key` renders it, parses back
/// to its bus and port path: discovery's device keys and the names it reads
/// from sysfs agree.
pub proof fn law_usb_device_key_roundtrip(bus: u16, ports: Seq<u8>)
    requires
        ports.len() > 0,
    ensures
        spec_parse_usb_device_name(spec_usb_device_key(bus, ports)) == Some((bus as nat, ports)),
{
    let key = spec_usb_device_key(bus, ports);
    let head = dec_digits(bus as nat);
    let parts = port_strings(ports);
    let tail = spec_ports_joined(ports, '.');
    assert forall|i: int| 0 <= i < parts.len() implies !(#[trigger] parts[i]).contains('.')
        && !parts[i].contains(':') && !parts[i].contains('-') by {
        lemma_dec_digits_avoid(ports[i] as nat, '.');
        lemma_dec_digits_avoid(ports[i] as nat, ':');
        lemma_dec_digits_avoid(ports[i] as nat, '-');
    }
    lemma_dec_digits_avoid(bus as nat, ':');
    lemma_dec_digits_avoid(bus as nat, '-');
    lemma_join_avoids(parts, '.', ':');
    assert(!key.contains(':')) by {
        if key.contains(':') {
            let k = choose|k: int| 0 <= k < key.len() && key[k] == ':';
            if k < head.len() {
                assert(head[k] == ':');
            } else if k > head.len() {
                assert(tail[k - head.len() - 1] == ':');
            }
        }
    }
    assert forall|j: int| 0 <= j < head.len() implies key[j] != '-' by {
        assert(key[j] == head[j]);
    }
    assert(key[head.len() as int] == '-');
    lemma_first_index_found(key, '-', head.len() as int);
    assert(key.take(head.len() as int) =~= head);
    assert(key.skip(head.len() as int + 1) =~= tail);
    lemma_parse_dec_digits(bus as nat, u16::MAX as nat);
    lemma_split_join(parts, '.');
    assert forall|i: int| 0 <= i < parts.len() implies (#[trigger] parse_unsigned(parts[i], 10, 255))
        == Some(ports[i] as nat) by {
        lemma_parse_dec_digits(ports[i] as nat, 255);
    }
    assert(Seq::new(parts.len(), |i: int| parse_unsigned(parts[i], 10, 255)->0 as u8) =~= ports);
}

} // verus!
