use lemnos_linux::annotations::{
    validate_driver_kind, validate_interface, validate_kind_matches_interface, BusInterface,
    EndpointInterface,
};
use lemnos_linux::configured::{
    check_field_annotations, validate_configured_device, BusFieldFacts, ConfiguredDeviceFacts,
    EndpointFieldFacts, FieldAnnotation, NestedArg, SignalFieldFacts,
};

fn flag(name: &str) -> NestedArg {
    NestedArg::Flag(name.to_string())
}

fn named(value: &str) -> NestedArg {
    NestedArg::Name(value.to_string())
}

fn i2c_device() -> ConfiguredDeviceFacts {
    ConfiguredDeviceFacts {
        saw_descriptor_metadata: true,
        interface: Some("I2c".to_string()),
        kind: None,
        bus_field: Some(BusFieldFacts { interface: BusInterface::I2c, type_ident: Some("u32".to_string()) }),
        endpoint_fields: vec![EndpointFieldFacts {
            interface: EndpointInterface::I2c,
            name: "sensor".to_string(),
            type_ident: Some("u16".to_string()),
        }],
        signal_fields: vec![],
        label_keys: vec![],
        property_keys: vec![],
    }
}

#[test]
fn compile_fail_diagnostics_cover_invalid_driver_and_configured_device_shapes() {
    // A second endpoint under the same name.
    let mut duplicate = i2c_device();
    duplicate.endpoint_fields.push(EndpointFieldFacts {
        interface: EndpointInterface::I2c,
        name: "sensor".to_string(),
        type_ident: Some("u16".to_string()),
    });
    assert_eq!(
        validate_configured_device(&duplicate),
        Err("duplicate configured endpoint name `sensor`".to_string())
    );

    // SPI bus and endpoint on an I2C device.
    let mismatch = ConfiguredDeviceFacts {
        bus_field: Some(BusFieldFacts { interface: BusInterface::Spi, type_ident: Some("u32".to_string()) }),
        endpoint_fields: vec![EndpointFieldFacts {
            interface: EndpointInterface::Spi,
            name: "flash".to_string(),
            type_ident: Some("u16".to_string()),
        }],
        ..i2c_device()
    };
    assert_eq!(
        validate_configured_device(&mismatch),
        Err("configured bus annotation must match the configured device interface".to_string())
    );

    // A driver whose kind belongs to another interface.
    let interface = validate_interface("I2c").unwrap();
    let kind = validate_driver_kind("GpioLine").unwrap();
    assert_eq!(
        validate_kind_matches_interface(kind, "GpioLine", interface, "I2c"),
        Err("driver kind `GpioLine` does not match interface `I2c`".to_string())
    );
}

#[test]
fn configured_device_checks_come_in_order() {
    assert_eq!(validate_configured_device(&i2c_device()), Ok(()));

    let quiet = ConfiguredDeviceFacts { saw_descriptor_metadata: false, interface: None, ..i2c_device() };
    assert_eq!(validate_configured_device(&quiet), Ok(()));

    let unnamed = ConfiguredDeviceFacts { interface: None, ..i2c_device() };
    assert_eq!(
        validate_configured_device(&unnamed),
        Err("configured descriptor generation requires `#[lemnos(interface = ...)]`".to_string())
    );

    let unknown = ConfiguredDeviceFacts { interface: Some("Can".to_string()), ..i2c_device() };
    assert_eq!(
        validate_configured_device(&unknown),
        Err("unsupported interface; expected one of Gpio, Pwm, I2c, Spi, Uart, Usb".to_string())
    );

    let bad_kind = ConfiguredDeviceFacts { kind: Some("Toaster".to_string()), ..i2c_device() };
    assert_eq!(
        validate_configured_device(&bad_kind),
        Err("unsupported device kind for current Lemnos core model".to_string())
    );

    let unspecified = ConfiguredDeviceFacts { kind: Some("Unspecified".to_string()), ..i2c_device() };
    assert_eq!(
        validate_configured_device(&unspecified),
        Err("omit `kind` to use `DeviceKind::Unspecified(interface)`".to_string())
    );

    let gpio = ConfiguredDeviceFacts { interface: Some("Gpio".to_string()), ..i2c_device() };
    assert_eq!(
        validate_configured_device(&gpio),
        Err("configured bus endpoints currently require `interface = I2c` or `interface = Spi`".to_string())
    );

    let busless = ConfiguredDeviceFacts { bus_field: None, ..i2c_device() };
    assert_eq!(
        validate_configured_device(&busless),
        Err("configured bus endpoints require a matching `#[lemnos(bus(...))]` field".to_string())
    );

    let wide_bus = ConfiguredDeviceFacts {
        bus_field: Some(BusFieldFacts { interface: BusInterface::I2c, type_ident: Some("u64".to_string()) }),
        ..i2c_device()
    };
    assert_eq!(
        validate_configured_device(&wide_bus),
        Err("`bus(i2c)` fields must have type `u32`".to_string())
    );

    let mut wide_endpoint = i2c_device();
    wide_endpoint.endpoint_fields[0].type_ident = Some("u32".to_string());
    assert_eq!(
        validate_configured_device(&wide_endpoint),
        Err("`endpoint(i2c, ..)` fields must have type `u16`".to_string())
    );

    let mut spi_endpoint = i2c_device();
    spi_endpoint.endpoint_fields[0].interface = EndpointInterface::Spi;
    assert_eq!(
        validate_configured_device(&spi_endpoint),
        Err("configured endpoint annotation must match the configured device interface".to_string())
    );

    let mut bad_signal = i2c_device();
    bad_signal.signal_fields.push(SignalFieldFacts { name: "irq".to_string(), type_ident: Some("u8".to_string()) });
    assert_eq!(
        validate_configured_device(&bad_signal),
        Err("`signal(gpio, ..)` fields must have type `ConfiguredGpioSignal` or `Option<ConfiguredGpioSignal>`"
            .to_string())
    );

    let mut signals = i2c_device();
    for _ in 0..2 {
        signals
            .signal_fields
            .push(SignalFieldFacts { name: "irq".to_string(), type_ident: Some("ConfiguredGpioSignal".to_string()) });
    }
    assert_eq!(validate_configured_device(&signals), Err("duplicate configured signal name `irq`".to_string()));

    let labels = ConfiguredDeviceFacts { label_keys: vec!["role".into(), "role".into()], ..i2c_device() };
    assert_eq!(validate_configured_device(&labels), Err("duplicate configured label key `role`".to_string()));

    let properties = ConfiguredDeviceFacts {
        property_keys: vec!["rate".into(), "mode".into(), "rate".into()],
        ..i2c_device()
    };
    assert_eq!(
        validate_configured_device(&properties),
        Err("duplicate configured property key `rate`".to_string())
    );
}

#[test]
fn field_annotations_make_a_role() {
    let role = check_field_annotations(
        &[
            FieldAnnotation::Endpoint(vec![flag("i2c"), named("sensor")]),
            FieldAnnotation::Label(None),
            FieldAnnotation::Property(Some("addr".to_string())),
            FieldAnnotation::DisplayName,
        ],
        "accel_address",
        true,
        false,
    )
    .unwrap();
    assert_eq!(role.endpoint, Some((EndpointInterface::I2c, "sensor".to_string())));
    assert_eq!(role.labels, vec!["accel_address".to_string()]);
    assert_eq!(role.properties, vec!["addr".to_string()]);
    assert!(role.display_name);
    assert_eq!(role.bus, None);

    let bus = check_field_annotations(&[FieldAnnotation::Bus(vec![flag("spi")])], "bus", false, false).unwrap();
    assert_eq!(bus.bus, Some(BusInterface::Spi));

    let signal = check_field_annotations(
        &[FieldAnnotation::Signal(vec![flag("gpio"), named("reset")])],
        "reset",
        false,
        false,
    )
    .unwrap();
    assert_eq!(signal.signal, Some("reset".to_string()));
}

#[test]
fn field_annotations_refuse_bad_forms() {
    let err = |items: &[FieldAnnotation], bus_taken: bool, display_taken: bool| {
        check_field_annotations(items, "field", bus_taken, display_taken).unwrap_err()
    };
    assert_eq!(
        err(&[FieldAnnotation::Bus(vec![flag("uart")])], false, false),
        "unsupported bus annotation; expected `bus(i2c)` or `bus(spi)`"
    );
    assert_eq!(
        err(&[FieldAnnotation::Bus(vec![])], false, false),
        "missing bus interface; expected `bus(i2c)` or `bus(spi)`"
    );
    assert_eq!(
        err(&[FieldAnnotation::Bus(vec![flag("i2c")])], true, false),
        "only one configured bus field is allowed"
    );
    assert_eq!(
        err(&[FieldAnnotation::Endpoint(vec![flag("gpio")])], false, false),
        "unsupported endpoint annotation; expected `endpoint(i2c, name = \"...\")` or `endpoint(spi, name = \"...\")`"
    );
    assert_eq!(
        err(&[FieldAnnotation::Endpoint(vec![named("x")])], false, false),
        "missing endpoint interface; expected `endpoint(i2c, name = \"...\")` or `endpoint(spi, name = \"...\")`"
    );
    assert_eq!(
        err(&[FieldAnnotation::Endpoint(vec![flag("spi")])], false, false),
        "missing required endpoint name; expected `name = \"...\"`"
    );
    assert_eq!(
        err(&[FieldAnnotation::Signal(vec![flag("pwm")])], false, false),
        "unsupported signal annotation; expected `signal(gpio, name = \"...\")`"
    );
    assert_eq!(
        err(&[FieldAnnotation::Signal(vec![named("x")])], false, false),
        "missing signal interface; expected `signal(gpio, name = \"...\")`"
    );
    assert_eq!(
        err(&[FieldAnnotation::Signal(vec![flag("gpio")])], false, false),
        "missing required signal name; expected `name = \"...\"`"
    );
    assert!(err(&[FieldAnnotation::DisplayName, FieldAnnotation::Unsupported("color".into())], false, false)
        .starts_with("unsupported configured-device field annotation; supported forms are"));
    assert_eq!(
        err(&[FieldAnnotation::DisplayName], false, true),
        "only one `display_name` field is allowed"
    );
}
