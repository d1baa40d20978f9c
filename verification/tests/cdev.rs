use lemnos_linux::cdev::{
    check_configuration, configuration_from_info, level_from_value, line_request, value_of_level,
    CdevConfigError, ConflictingDrive, LineInfoFacts, LineRequest,
};
use lemnos_linux::gpio::{GpioBias, GpioDirection, GpioDrive, GpioEdge, GpioLevel, GpioLineConfiguration};

fn output_line() -> GpioLineConfiguration {
    GpioLineConfiguration {
        direction: GpioDirection::Output,
        active_low: false,
        bias: None,
        drive: None,
        edge: None,
        debounce_us: None,
        initial_level: None,
    }
}

#[test]
fn cdev_refuses_each_unsupported_setting_in_order() {
    let mut input = output_line();
    input.direction = GpioDirection::Input;
    input.initial_level = Some(GpioLevel::High);
    input.bias = Some(GpioBias::PullUp);
    assert_eq!(check_configuration(&input), Err(CdevConfigError::InputWithInitialLevel));

    let mut biased = output_line();
    biased.bias = Some(GpioBias::PullDown);
    biased.edge = Some(GpioEdge::Both);
    assert_eq!(check_configuration(&biased), Err(CdevConfigError::BiasUnsupported));

    let mut debounced = output_line();
    debounced.debounce_us = Some(100);
    assert_eq!(check_configuration(&debounced), Err(CdevConfigError::DebounceUnsupported));

    let mut edged = output_line();
    edged.edge = Some(GpioEdge::Rising);
    assert_eq!(check_configuration(&edged), Err(CdevConfigError::EdgeUnsupported));

    let mut drained = output_line();
    drained.drive = Some(GpioDrive::OpenDrain);
    drained.initial_level = Some(GpioLevel::Low);
    assert_eq!(check_configuration(&drained), Ok(()));
}

#[test]
fn cdev_request_carries_flags_and_initial_value() {
    let mut c = output_line();
    c.active_low = true;
    c.drive = Some(GpioDrive::OpenSource);
    c.initial_level = Some(GpioLevel::High);
    assert_eq!(
        line_request(&c),
        LineRequest { output: true, active_low: true, open_drain: false, open_source: true, initial_value: 1 }
    );

    let mut input = output_line();
    input.direction = GpioDirection::Input;
    input.drive = Some(GpioDrive::PushPull);
    assert_eq!(
        line_request(&input),
        LineRequest { output: false, active_low: false, open_drain: false, open_source: false, initial_value: 0 }
    );
}

#[test]
fn cdev_info_reads_back_as_configuration() {
    let info = LineInfoFacts { output: true, active_low: true, open_drain: false, open_source: false };
    let mut expected = output_line();
    expected.active_low = true;
    expected.drive = Some(GpioDrive::PushPull);
    assert_eq!(configuration_from_info(info), Ok(expected));

    let input = LineInfoFacts { output: false, active_low: false, open_drain: true, open_source: false };
    let read = configuration_from_info(input).unwrap();
    assert_eq!(read.direction, GpioDirection::Input);
    assert_eq!(read.drive, None);

    let both = LineInfoFacts { output: true, active_low: false, open_drain: true, open_source: true };
    assert_eq!(configuration_from_info(both), Err(ConflictingDrive));
}

#[test]
fn cdev_requested_output_reads_back() {
    let mut c = output_line();
    c.drive = Some(GpioDrive::OpenDrain);
    c.initial_level = Some(GpioLevel::High);
    let request = line_request(&c);
    let info = LineInfoFacts {
        output: request.output,
        active_low: request.active_low,
        open_drain: request.open_drain,
        open_source: request.open_source,
    };
    let mut expected = c;
    expected.initial_level = None;
    assert_eq!(configuration_from_info(info), Ok(expected));
}

#[test]
fn cdev_values_map_to_levels() {
    assert_eq!(level_from_value(0), Some(GpioLevel::Low));
    assert_eq!(level_from_value(1), Some(GpioLevel::High));
    assert_eq!(level_from_value(2), None);
    assert_eq!(value_of_level(GpioLevel::High), 1);
    assert_eq!(value_of_level(GpioLevel::Low), 0);
    assert_eq!(level_from_value(value_of_level(GpioLevel::High)), Some(GpioLevel::High));
}
