use lemnos_linux::annotations::{
    default_id_prefix, supports_configured_bus_endpoints, validate_driver_kind, validate_interface,
    validate_kind, validate_kind_matches_interface, validate_priority, validate_unique_names,
    BusInterface, DriverKind, DriverPriority, EndpointInterface, SupportedInterface,
};

#[test]
fn default_id_prefix_is_kebab_case_without_config_suffix() {
    assert_eq!(default_id_prefix("SensorConfig"), "configured.sensor");
    assert_eq!(default_id_prefix("Bme280Sensor"), "configured.bme280-sensor");
    assert_eq!(default_id_prefix("ImuBoardConfig"), "configured.imu-board");
    assert_eq!(default_id_prefix("fan"), "configured.fan");
    assert_eq!(default_id_prefix("Config"), "configured.config");
}

#[test]
fn interface_and_kind_names_are_checked() {
    assert_eq!(validate_interface("I2c"), Ok(SupportedInterface::I2c));
    assert_eq!(
        validate_interface("Can"),
        Err("unsupported interface; expected one of Gpio, Pwm, I2c, Spi, Uart, Usb")
    );
    assert_eq!(validate_kind("Unspecified"), Ok(()));
    assert_eq!(validate_kind("UartDevice"), Ok(()));
    assert_eq!(validate_kind("Motor"), Err("unsupported device kind for current Lemnos core model"));
    assert_eq!(validate_driver_kind("SpiDevice"), Ok(DriverKind::SpiDevice));
    assert_eq!(
        validate_driver_kind("Unspecified"),
        Err("`#[driver(kind = Unspecified)]` is not supported; omit `kind` instead")
    );
    assert_eq!(validate_priority("Exact"), Ok(DriverPriority::Exact));
    assert!(validate_priority("Best").is_err());
}

#[test]
fn driver_kinds_must_match_their_interface() {
    assert_eq!(DriverKind::UartDevice.interface(), SupportedInterface::Uart);
    assert_eq!(
        validate_kind_matches_interface(DriverKind::I2cDevice, "I2cDevice", SupportedInterface::I2c, "I2c"),
        Ok(())
    );
    assert_eq!(
        validate_kind_matches_interface(DriverKind::GpioLine, "GpioLine", SupportedInterface::Spi, "Spi"),
        Err("driver kind `GpioLine` does not match interface `Spi`".to_string())
    );
}

#[test]
fn bus_and_endpoint_annotations_fit_only_their_interface() {
    assert!(supports_configured_bus_endpoints(SupportedInterface::Spi));
    assert!(!supports_configured_bus_endpoints(SupportedInterface::Uart));
    assert!(BusInterface::I2c.matches_configured_interface(SupportedInterface::I2c));
    assert!(!BusInterface::I2c.matches_configured_interface(SupportedInterface::Spi));
    assert!(EndpointInterface::Spi.matches_configured_interface(SupportedInterface::Spi));
    assert_eq!(BusInterface::Spi.type_error(), "`bus(spi)` fields must have type `u32`");
    assert_eq!(EndpointInterface::I2c.type_error(), "`endpoint(i2c, ..)` fields must have type `u16`");
}

#[test]
fn repeated_names_are_reported_at_their_second_use() {
    let names = vec!["reset".to_string(), "irq".to_string(), "reset".to_string()];
    assert_eq!(
        validate_unique_names(&names, "duplicate signal name"),
        Err((2, "duplicate signal name `reset`".to_string()))
    );
    let distinct = vec!["a".to_string(), "b".to_string()];
    assert_eq!(validate_unique_names(&distinct, "duplicate"), Ok(()));
}
