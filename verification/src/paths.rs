//! The sysfs and device-node layout that discovery and the transports read,
//! rooted at three configurable directories.
use crate::text::{chars_of, dec_digits, push_dec, push_dec_padded, push_str_chars, string_from_chars, zero_pad};
use vstd::prelude::*;

verus! {

/// `Path::join` for a single component on Unix: an absolute component
/// replaces the base; otherwise a separator is inserted unless the base is
/// empty or already ends with one.
pub open spec fn path_join(base: Seq<char>, comp: Seq<char>) -> Seq<char> {
    if comp.len() > 0 && comp[0] == '/' {
        comp
    } else if base.len() == 0 || base.last() == '/' {
        base + comp
    } else {
        base.push('/') + comp
    }
}

/// Joins `comp` onto `base`.
pub fn join_chars(base: &[char], comp: &[char]) -> (r: Vec<char>)
    ensures
        r@ == path_join(base@, comp@),
{
    let mut out: Vec<char> = Vec::new();
    if comp.len() > 0 && comp[0] == '/' {
        extend(&mut out, comp);
        assert(out@ =~= path_join(base@, comp@));
        return out;
    }
    extend(&mut out, base);
    if base.len() > 0 && base[base.len() - 1] != '/' {
        out.push('/');
    }
    extend(&mut out, comp);
    assert(out@ =~= path_join(base@, comp@));
    out
}

fn extend(out: &mut Vec<char>, s: &[char])
    ensures
        final(out)@ == old(out)@ + s@,
{
    let ghost base = out@;
    let mut i: usize = 0;
    while i < s.len()
        invariant
            i <= s@.len(),
            out@ == base + s@.take(i as int),
        decreases s.len() - i,
    {
        out.push(s[i]);
        i = i + 1;
        assert(out@ =~= base + s@.take(i as int));
    }
    assert(s@.take(s@.len() as int) =~= s@);
}

fn join_str(base: &str, comp: &[char]) -> (r: Vec<char>)
    ensures
        r@ == path_join(base@, comp@),
{
    let b = chars_of(base);
    join_chars(&b, comp)
}

fn lit(s: &str) -> (r: Vec<char>)
    ensures
        r@ == s@,
{
    chars_of(s)
}

fn named_number(prefix: &str, n: u64) -> (r: Vec<char>)
    ensures
        r@ == prefix@ + dec_digits(n as nat),
{
    let mut v: Vec<char> = Vec::new();
    push_str_chars(&mut v, prefix);
    push_dec(&mut v, n);
    assert(v@ =~= prefix@ + dec_digits(n as nat));
    v
}

/// The three roots under which the Linux backend looks for devices.
#[derive(Debug, PartialEq, Eq)]
pub struct LinuxPaths {
    pub sys_class_root: String,
    pub sys_bus_root: String,
    pub dev_root: String,
}

impl Clone for LinuxPaths {
    fn clone(&self) -> (r: Self)
        ensures
            r == *self,
    {
        LinuxPaths {
            sys_class_root: self.sys_class_root.clone(),
            sys_bus_root: self.sys_bus_root.clone(),
            dev_root: self.dev_root.clone(),
        }
    }
}

pub open spec fn spec_gpio_class_root(p: LinuxPaths) -> Seq<char> {
    path_join(p.sys_class_root@, "gpio"@)
}

pub open spec fn spec_pwm_class_root(p: LinuxPaths) -> Seq<char> {
    path_join(p.sys_class_root@, "pwm"@)
}

pub open spec fn spec_pwm_chip_root(p: LinuxPaths, chip_name: Seq<char>) -> Seq<char> {
    path_join(spec_pwm_class_root(p), chip_name)
}

impl Default for LinuxPaths {
    /// The standard roots, as `new` gives them.
    fn default() -> (r: Self)
        ensures
            r.sys_class_root@ == "/sys/class"@,
            r.sys_bus_root@ == "/sys/bus"@,
            r.dev_root@ == "/dev"@,
    {
        Self::new()
    }
}

impl LinuxPaths {
    /// The standard roots: `/sys/class`, `/sys/bus` and `/dev`.
    pub fn new() -> (r: Self)
        ensures
            r.sys_class_root@ == "/sys/class"@,
            r.sys_bus_root@ == "/sys/bus"@,
            r.dev_root@ == "/dev"@,
    {
        LinuxPaths {
            sys_class_root: String::from_str("/sys/class"),
            sys_bus_root: String::from_str("/sys/bus"),
            dev_root: String::from_str("/dev"),
        }
    }

    /// The same layout with another `/sys/class` root.
    pub fn with_sys_class_root(self, root: &str) -> (r: Self)
        ensures
            r.sys_class_root@ == root@,
            r.sys_bus_root == self.sys_bus_root,
            r.dev_root == self.dev_root,
    {
        LinuxPaths { sys_class_root: String::from_str(root), ..self }
    }

    /// The same layout with another `/sys/bus` root.
    pub fn with_sys_bus_root(self, root: &str) -> (r: Self)
        ensures
            r.sys_bus_root@ == root@,
            r.sys_class_root == self.sys_class_root,
            r.dev_root == self.dev_root,
    {
        LinuxPaths { sys_bus_root: String::from_str(root), ..self }
    }

    /// The same layout with another `/dev` root.
    pub fn with_dev_root(self, root: &str) -> (r: Self)
        ensures
            r.dev_root@ == root@,
            r.sys_class_root == self.sys_class_root,
            r.sys_bus_root == self.sys_bus_root,
    {
        LinuxPaths { dev_root: String::from_str(root), ..self }
    }

    fn class_dir(&self, name: &str) -> (r: String)
        ensures
            r@ == path_join(self.sys_class_root@, name@),
    {
        let c = lit(name);
        let v = join_str(self.sys_class_root.as_str(), &c);
        string_from_chars(&v)
    }

    fn bus_devices_dir(&self, bus_name: &str) -> (r: String)
        ensures
            r@ == path_join(path_join(self.sys_bus_root@, bus_name@), "devices"@),
    {
        let b = lit(bus_name);
        let first = join_str(self.sys_bus_root.as_str(), &b);
        let d = lit("devices");
        let v = join_chars(&first, &d);
        string_from_chars(&v)
    }

    /// `<class>/gpio`.
    pub fn gpio_class_root(&self) -> (r: String)
        ensures
            r@ == spec_gpio_class_root(*self),
    {
        self.class_dir("gpio")
    }

    /// `<class>/leds`.
    pub fn led_class_root(&self) -> (r: String)
        ensures
            r@ == path_join(self.sys_class_root@, "leds"@),
    {
        self.class_dir("leds")
    }

    /// `<class>/hwmon`.
    pub fn hwmon_class_root(&self) -> (r: String)
        ensures
            r@ == path_join(self.sys_class_root@, "hwmon"@),
    {
        self.class_dir("hwmon")
    }

    /// `<class>/gpio/gpio<global_line>`, the sysfs directory of an exported line.
    pub fn gpio_line_root(&self, global_line: u32) -> (r: String)
        ensures
            r@ == path_join(spec_gpio_class_root(*self), "gpio"@ + dec_digits(global_line as nat)),
    {
        let root = self.gpio_class_root();
        let name = named_number("gpio", global_line as u64);
        let v = join_str(root.as_str(), &name);
        string_from_chars(&v)
    }

    /// `<class>/gpio/export`.
    pub fn gpio_export_path(&self) -> (r: String)
        ensures
            r@ == path_join(spec_gpio_class_root(*self), "export"@),
    {
        let root = self.gpio_class_root();
        let v = join_str(root.as_str(), &lit("export"));
        string_from_chars(&v)
    }

    /// `<class>/gpio/unexport`.
    pub fn gpio_unexport_path(&self) -> (r: String)
        ensures
            r@ == path_join(spec_gpio_class_root(*self), "unexport"@),
    {
        let root = self.gpio_class_root();
        let v = join_str(root.as_str(), &lit("unexport"));
        string_from_chars(&v)
    }

    /// `<class>/i2c-dev`.
    pub fn i2c_class_root(&self) -> (r: String)
        ensures
            r@ == path_join(self.sys_class_root@, "i2c-dev"@),
    {
        self.class_dir("i2c-dev")
    }

    /// `<class>/tty`.
    pub fn tty_class_root(&self) -> (r: String)
        ensures
            r@ == path_join(self.sys_class_root@, "tty"@),
    {
        self.class_dir("tty")
    }

    /// `<class>/pwm`.
    pub fn pwm_class_root(&self) -> (r: String)
        ensures
            r@ == spec_pwm_class_root(*self),
    {
        self.class_dir("pwm")
    }

    /// `<class>/pwm/<chip_name>`.
    pub fn pwm_chip_root(&self, chip_name: &str) -> (r: String)
        ensures
            r@ == spec_pwm_chip_root(*self, chip_name@),
    {
        let root = self.pwm_class_root();
        let v = join_str(root.as_str(), &lit(chip_name));
        string_from_chars(&v)
    }

    /// `<class>/pwm/<chip_name>/pwm<channel>`, the directory of an exported channel.
    pub fn pwm_channel_root(&self, chip_name: &str, channel: u32) -> (r: String)
        ensures
            r@ == path_join(spec_pwm_chip_root(*self, chip_name@), "pwm"@ + dec_digits(channel as nat)),
    {
        let root = self.pwm_chip_root(chip_name);
        let name = named_number("pwm", channel as u64);
        let v = join_str(root.as_str(), &name);
        string_from_chars(&v)
    }

    /// `<class>/pwm/<chip_name>/export`.
    pub fn pwm_export_path(&self, chip_name: &str) -> (r: String)
        ensures
            r@ == path_join(spec_pwm_chip_root(*self, chip_name@), "export"@),
    {
        let root = self.pwm_chip_root(chip_name);
        let v = join_str(root.as_str(), &lit("export"));
        string_from_chars(&v)
    }

    /// `<class>/pwm/<chip_name>/unexport`.
    pub fn pwm_unexport_path(&self, chip_name: &str) -> (r: String)
        ensures
            r@ == path_join(spec_pwm_chip_root(*self, chip_name@), "unexport"@),
    {
        let root = self.pwm_chip_root(chip_name);
        let v = join_str(root.as_str(), &lit("unexport"));
        string_from_chars(&v)
    }

    /// `<bus>/i2c/devices`.
    pub fn i2c_devices_root(&self) -> (r: String)
        ensures
            r@ == path_join(path_join(self.sys_bus_root@, "i2c"@), "devices"@),
    {
        self.bus_devices_dir("i2c")
    }

    /// `<bus>/spi/devices`.
    pub fn spi_devices_root(&self) -> (r: String)
        ensures
            r@ == path_join(path_join(self.sys_bus_root@, "spi"@), "devices"@),
    {
        self.bus_devices_dir("spi")
    }

    /// `<bus>/usb/devices`.
    pub fn usb_devices_root(&self) -> (r: String)
        ensures
            r@ == path_join(path_join(self.sys_bus_root@, "usb"@), "devices"@),
    {
        self.bus_devices_dir("usb")
    }

    /// `<dev>/<chip_name>`, the character device of a GPIO chip.
    pub fn gpio_devnode(&self, chip_name: &str) -> (r: String)
        ensures
            r@ == path_join(self.dev_root@, chip_name@),
    {
        let v = join_str(self.dev_root.as_str(), &lit(chip_name));
        string_from_chars(&v)
    }

    /// `<dev>/i2c-<bus>`.
    pub fn i2c_devnode(&self, bus: u32) -> (r: String)
        ensures
            r@ == path_join(self.dev_root@, "i2c-"@ + dec_digits(bus as nat)),
    {
        let name = named_number("i2c-", bus as u64);
        let v = join_str(self.dev_root.as_str(), &name);
        string_from_chars(&v)
    }

    /// `<dev>/spidev<bus>.<chip_select>`.
    pub fn spi_devnode(&self, bus: u32, chip_select: u16) -> (r: String)
        ensures
            r@ == path_join(
                self.dev_root@,
                "spidev"@ + dec_digits(bus as nat) + seq!['.'] + dec_digits(chip_select as nat),
            ),
    {
        let mut name = named_number("spidev", bus as u64);
        name.push('.');
        push_dec(&mut name, chip_select as u64);
        assert(name@ =~= "spidev"@ + dec_digits(bus as nat) + seq!['.'] + dec_digits(
            chip_select as nat,
        ));
        let v = join_str(self.dev_root.as_str(), &name);
        string_from_chars(&v)
    }

    /// `<dev>/<port>`, the character device of a serial port.
    pub fn tty_devnode(&self, port: &str) -> (r: String)
        ensures
            r@ == path_join(self.dev_root@, port@),
    {
        let v = join_str(self.dev_root.as_str(), &lit(port));
        string_from_chars(&v)
    }

    /// `<dev>/bus/usb/<bus:03>/<device_number:03>`, the usbfs node of a device.
    pub fn usb_bus_devnode(&self, bus: u16, device_number: u16) -> (r: String)
        ensures
            r@ == path_join(
                path_join(
                    path_join(path_join(self.dev_root@, "bus"@), "usb"@),
                    zero_pad(dec_digits(bus as nat), 3),
                ),
                zero_pad(dec_digits(device_number as nat), 3),
            ),
    {
        let a = join_str(self.dev_root.as_str(), &lit("bus"));
        let b = join_chars(&a, &lit("usb"));
        let mut bus_name: Vec<char> = Vec::new();
        push_dec_padded(&mut bus_name, bus as u64, 3);
        assert(bus_name@ =~= zero_pad(dec_digits(bus as nat), 3));
        let c = join_chars(&b, &bus_name);
        let mut dev_name: Vec<char> = Vec::new();
        push_dec_padded(&mut dev_name, device_number as u64, 3);
        assert(dev_name@ =~= zero_pad(dec_digits(device_number as nat), 3));
        let d = join_chars(&c, &dev_name);
        string_from_chars(&d)
    }
}

} // verus!
