use lemnos_linux::LinuxTransportConfig;
use std::time::Duration;

#[test]
fn default_sysfs_export_wait_budget_is_short_and_explicit() {
    let config = LinuxTransportConfig::new();
    assert_eq!(
        config.sysfs_export_wait_budget_ms(),
        LinuxTransportConfig::DEFAULT_SYSFS_EXPORT_RETRIES as u64
            * LinuxTransportConfig::DEFAULT_SYSFS_EXPORT_DELAY_MS
    );
    assert_eq!(config.sysfs_export_wait_budget_ms(), 100);
}

#[test]
fn sysfs_export_wait_budget_tracks_runtime_overrides() {
    let config = LinuxTransportConfig::new()
        .with_sysfs_export_retries(40)
        .with_sysfs_export_delay_ms(5);
    assert_eq!(config.sysfs_export_wait_budget_ms(), 200);
}

#[test]
fn duration_helpers_round_trip_runtime_timeouts() {
    let config = LinuxTransportConfig::new()
        .with_uart_timeout(Duration::from_millis(125))
        .with_usb_timeout(Duration::from_millis(250))
        .with_sysfs_export_delay(Duration::from_millis(15));

    assert_eq!(config.uart_timeout(), Duration::from_millis(125));
    assert_eq!(config.usb_timeout(), Duration::from_millis(250));
    assert_eq!(config.sysfs_export_delay(), Duration::from_millis(15));
}

#[test]
fn wait_budget_saturates_when_the_product_overflows() {
    let config = LinuxTransportConfig::new()
        .with_sysfs_export_retries(usize::MAX)
        .with_sysfs_export_delay_ms(2);
    assert_eq!(config.sysfs_export_wait_budget_ms(), u64::MAX);
}

#[test]
fn sub_millisecond_durations_truncate_to_whole_milliseconds() {
    let config = LinuxTransportConfig::new().with_uart_timeout(Duration::from_micros(1_999));
    assert_eq!(config.uart_timeout_ms, 1);
    let huge = LinuxTransportConfig::new().with_usb_timeout(Duration::MAX);
    assert_eq!(huge.usb_timeout_ms, u64::MAX);
}

#[test]
fn default_matches_new() {
    let config = LinuxTransportConfig::default();
    assert_eq!(config, LinuxTransportConfig::new());
    assert_eq!(config.uart_default_baud_rate, 115_200);
    assert_eq!(config.uart_timeout_ms, 50);
    assert_eq!(config.usb_timeout_ms, 100);
}
