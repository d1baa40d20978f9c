//! Runtime tuning of the Linux transports: UART defaults, USB timeouts and
//! the sysfs export retry budget.
use std::time::Duration;
use vstd::prelude::*;

verus! {

/// Whole milliseconds of a duration, as `Duration::as_millis` reports them.
pub uninterp spec fn duration_millis(d: Duration) -> nat;

/// `Duration::as_millis`: the whole milliseconds of the duration.
pub assume_specification[ Duration::as_millis ](d: &Duration) -> (r: u128)
    ensures
        r as nat == duration_millis(*d),
;

/// The duration `Duration::from_millis` makes of `millis` milliseconds.
pub uninterp spec fn duration_of_millis(millis: u64) -> Duration;

/// `Duration::from_millis`: the duration of exactly `millis` milliseconds
/// (one value for each count), so `as_millis` gives `millis` back.
pub assume_specification[ Duration::from_millis ](millis: u64) -> (d: Duration)
    ensures
        d == duration_of_millis(millis),
        duration_millis(d) == millis as nat,
;

/// Milliseconds saturated to the `u64` range.
pub open spec fn clamp_millis(ms: nat) -> u64 {
    if ms <= u64::MAX as nat {
        ms as u64
    } else {
        u64::MAX
    }
}

/// Milliseconds of `duration`, saturated to `u64::MAX`.
pub fn duration_to_millis_u64(duration: Duration) -> (r: u64)
    ensures
        r == clamp_millis(duration_millis(duration)),
{
    let ms = duration.as_millis();
    if ms > u64::MAX as u128 {
        u64::MAX
    } else {
        ms as u64
    }
}

/// The retry budget in milliseconds: `retries * delay_ms`, or `u64::MAX`
/// when the product does not fit in a `usize`.
pub open spec fn spec_wait_budget(retries: usize, delay_ms: u64) -> u64 {
    let d = delay_ms as usize;
    if retries * d <= usize::MAX as int {
        (retries * d) as u64
    } else {
        u64::MAX
    }
}

/// Runtime configuration of the Linux transports.
#[derive(Debug, Clone, Copy, PartialEq, Eq)]
pub struct LinuxTransportConfig {
    pub uart_default_baud_rate: u32,
    pub uart_timeout_ms: u64,
    pub usb_timeout_ms: u64,
    pub sysfs_export_retries: usize,
    pub sysfs_export_delay_ms: u64,
}

impl LinuxTransportConfig {
    pub const DEFAULT_UART_BAUD_RATE: u32 = 115_200;

    pub const DEFAULT_UART_TIMEOUT_MS: u64 = 50;

    pub const DEFAULT_USB_TIMEOUT_MS: u64 = 100;

    pub const DEFAULT_SYSFS_EXPORT_RETRIES: usize = 10;

    pub const DEFAULT_SYSFS_EXPORT_DELAY_MS: u64 = 10;

    /// The defaults: 115200 baud, 50 ms UART and 100 ms USB timeouts, and
    /// ten sysfs export polls 10 ms apart.
    pub fn new() -> (r: Self)
        ensures
            r.uart_default_baud_rate == 115_200,
            r.uart_timeout_ms == 50,
            r.usb_timeout_ms == 100,
            r.sysfs_export_retries == 10,
            r.sysfs_export_delay_ms == 10,
    {
        LinuxTransportConfig {
            uart_default_baud_rate: Self::DEFAULT_UART_BAUD_RATE,
            uart_timeout_ms: Self::DEFAULT_UART_TIMEOUT_MS,
            usb_timeout_ms: Self::DEFAULT_USB_TIMEOUT_MS,
            sysfs_export_retries: Self::DEFAULT_SYSFS_EXPORT_RETRIES,
            sysfs_export_delay_ms: Self::DEFAULT_SYSFS_EXPORT_DELAY_MS,
        }
    }

    pub fn with_uart_default_baud_rate(self, uart_default_baud_rate: u32) -> (r: Self)
        ensures
            r == (Self { uart_default_baud_rate, ..self }),
    {
        Self { uart_default_baud_rate, ..self }
    }

    pub fn with_uart_timeout_ms(self, uart_timeout_ms: u64) -> (r: Self)
        ensures
            r == (Self { uart_timeout_ms, ..self }),
    {
        Self { uart_timeout_ms, ..self }
    }

    /// The UART timeout set from a duration, in whole milliseconds.
    pub fn with_uart_timeout(self, uart_timeout: Duration) -> (r: Self)
        ensures
            r == (Self { uart_timeout_ms: clamp_millis(duration_millis(uart_timeout)), ..self }),
    {
        Self { uart_timeout_ms: duration_to_millis_u64(uart_timeout), ..self }
    }

    pub fn with_usb_timeout_ms(self, usb_timeout_ms: u64) -> (r: Self)
        ensures
            r == (Self { usb_timeout_ms, ..self }),
    {
        Self { usb_timeout_ms, ..self }
    }

    /// The USB timeout set from a duration, in whole milliseconds.
    pub fn with_usb_timeout(self, usb_timeout: Duration) -> (r: Self)
        ensures
            r == (Self { usb_timeout_ms: clamp_millis(duration_millis(usb_timeout)), ..self }),
    {
        Self { usb_timeout_ms: duration_to_millis_u64(usb_timeout), ..self }
    }

    pub fn with_sysfs_export_retries(self, sysfs_export_retries: usize) -> (r: Self)
        ensures
            r == (Self { sysfs_export_retries, ..self }),
    {
        Self { sysfs_export_retries, ..self }
    }

    pub fn with_sysfs_export_delay_ms(self, sysfs_export_delay_ms: u64) -> (r: Self)
        ensures
            r == (Self { sysfs_export_delay_ms, ..self }),
    {
        Self { sysfs_export_delay_ms, ..self }
    }

    /// The export poll delay set from a duration, in whole milliseconds.
    pub fn with_sysfs_export_delay(self, sysfs_export_delay: Duration) -> (r: Self)
        ensures
            r == (Self {
                sysfs_export_delay_ms: clamp_millis(duration_millis(sysfs_export_delay)),
                ..self
            }),
    {
        Self { sysfs_export_delay_ms: duration_to_millis_u64(sysfs_export_delay), ..self }
    }

    pub fn uart_timeout(&self) -> (r: Duration)
        ensures
            r == duration_of_millis(self.uart_timeout_ms),
            duration_millis(r) == self.uart_timeout_ms as nat,
    {
        Duration::from_millis(self.uart_timeout_ms)
    }

    pub fn usb_timeout(&self) -> (r: Duration)
        ensures
            r == duration_of_millis(self.usb_timeout_ms),
            duration_millis(r) == self.usb_timeout_ms as nat,
    {
        Duration::from_millis(self.usb_timeout_ms)
    }

    pub fn sysfs_export_delay(&self) -> (r: Duration)
        ensures
            r == duration_of_millis(self.sysfs_export_delay_ms),
            duration_millis(r) == self.sysfs_export_delay_ms as nat,
    {
        Duration::from_millis(self.sysfs_export_delay_ms)
    }

    /// How long opening a line or channel may wait for sysfs to export it.
    pub fn sysfs_export_wait_budget_ms(&self) -> (r: u64)
        ensures
            r == spec_wait_budget(self.sysfs_export_retries, self.sysfs_export_delay_ms),
    {
        match self.sysfs_export_retries.checked_mul(self.sysfs_export_delay_ms as usize) {
            Some(total) => total as u64,
            None => u64::MAX,
        }
    }
}

impl Default for LinuxTransportConfig {
    fn default() -> (r: Self)
        ensures
            r.uart_default_baud_rate == 115_200,
            r.uart_timeout_ms == 50,
            r.usb_timeout_ms == 100,
            r.sysfs_export_retries == 10,
            r.sysfs_export_delay_ms == 10,
    {
        Self::new()
    }
}

/// A timeout set from a duration of `ms` whole milliseconds reads back as
/// the duration `Duration::from_millis(ms)` makes, whenever `ms` fits in a
/// `u64`: for the UART and USB timeouts and for the export delay alike. A
/// duration made by `from_millis` therefore reads back as itself, as the
/// last clause states for the USB timeout.
pub proof fn law_timeout_round_trip(config: LinuxTransportConfig, d: Duration, ms: nat)
    requires
        duration_millis(d) == ms,
        ms <= u64::MAX as nat,
    ensures
        clamp_millis(ms) as nat == ms,
        duration_of_millis(
            (LinuxTransportConfig { uart_timeout_ms: clamp_millis(duration_millis(d)), ..config }).uart_timeout_ms,
        ) == duration_of_millis(ms as u64),
        duration_of_millis(
            (LinuxTransportConfig { usb_timeout_ms: clamp_millis(duration_millis(d)), ..config }).usb_timeout_ms,
        ) == duration_of_millis(ms as u64),
        duration_of_millis(
            (LinuxTransportConfig {
                sysfs_export_delay_ms: clamp_millis(duration_millis(d)),
                ..config
            }).sysfs_export_delay_ms,
        ) == duration_of_millis(ms as u64),
        d == duration_of_millis(ms as u64) ==> duration_of_millis(
            (LinuxTransportConfig { usb_timeout_ms: clamp_millis(duration_millis(d)), ..config }).usb_timeout_ms,
        ) == d,
{
}

/// The export wait budget never understates the product of retries and
/// delay: it is the product when that fits, and saturates otherwise.
pub proof fn law_wait_budget_saturates(retries: usize, delay_ms: u64)
    ensures
        spec_wait_budget(retries, delay_ms) as int == retries * (delay_ms as usize) || spec_wait_budget(
            retries,
            delay_ms,
        ) == u64::MAX,
        retries * (delay_ms as usize) <= usize::MAX as int ==> spec_wait_budget(retries, delay_ms)
            as int == retries * (delay_ms as usize),
{
}

} // verus!
