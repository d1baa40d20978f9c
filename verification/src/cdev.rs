//! The GPIO character-device line: which configurations it accepts, the
//! line request a configuration turns into, and how the kernel's line
//! information and values read back as a configuration and a level.
use crate::gpio::{GpioDirection, GpioDrive, GpioLevel, GpioLineConfiguration};
use vstd::prelude::*;

verus! {

/// Why the character-device transport refuses a line configuration.
#[derive(Debug, Clone, Copy, PartialEq, Eq, Structural)]
pub enum CdevConfigError {
    InputWithInitialLevel,
    BiasUnsupported,
    DebounceUnsupported,
    EdgeUnsupported,
}

pub open spec fn spec_check_configuration(c: GpioLineConfiguration) -> Result<(), CdevConfigError> {
    if c.direction == GpioDirection::Input && c.initial_level is Some {
        Err(CdevConfigError::InputWithInitialLevel)
    } else if c.bias is Some {
        Err(CdevConfigError::BiasUnsupported)
    } else if c.debounce_us is Some {
        Err(CdevConfigError::DebounceUnsupported)
    } else if c.edge is Some {
        Err(CdevConfigError::EdgeUnsupported)
    } else {
        Ok(())
    }
}

/// The checks made before a line is requested again: no initial level on
/// an input, and no bias, debounce or edge detection, in that order.
pub fn check_configuration(c: &GpioLineConfiguration) -> (r: Result<(), CdevConfigError>)
    ensures
        r == spec_check_configuration(*c),
{
    if c.direction == GpioDirection::Input && c.initial_level.is_some() {
        Err(CdevConfigError::InputWithInitialLevel)
    } else if c.bias.is_some() {
        Err(CdevConfigError::BiasUnsupported)
    } else if c.debounce_us.is_some() {
        Err(CdevConfigError::DebounceUnsupported)
    } else if c.edge.is_some() {
        Err(CdevConfigError::EdgeUnsupported)
    } else {
        Ok(())
    }
}

/// A line handle request: its flags, one by one, and the initial value.
#[derive(Debug, Clone, Copy, PartialEq, Eq, Structural)]
pub struct LineRequest {
    pub output: bool,
    pub active_low: bool,
    pub open_drain: bool,
    pub open_source: bool,
    pub initial_value: u8,
}

pub open spec fn spec_line_request(c: GpioLineConfiguration) -> LineRequest {
    LineRequest {
        output: c.direction == GpioDirection::Output,
        active_low: c.active_low,
        open_drain: c.drive == Some(GpioDrive::OpenDrain),
        open_source: c.drive == Some(GpioDrive::OpenSource),
        initial_value: if c.initial_level == Some(GpioLevel::High) {
            1
        } else {
            0
        },
    }
}

/// The request a configuration turns into: input or output, active-low when
/// asked, open-drain or open-source from the drive (push-pull adds no flag),
/// and an initial value of 1 only for a high initial level.
pub fn line_request(c: &GpioLineConfiguration) -> (r: LineRequest)
    ensures
        r == spec_line_request(*c),
{
    let initial_value: u8 = match c.initial_level {
        Some(GpioLevel::High) => 1,
        _ => 0,
    };
    let (open_drain, open_source) = match c.drive {
        Some(GpioDrive::OpenDrain) => (true, false),
        Some(GpioDrive::OpenSource) => (false, true),
        _ => (false, false),
    };
    LineRequest {
        output: c.direction == GpioDirection::Output,
        active_low: c.active_low,
        open_drain,
        open_source,
        initial_value,
    }
}

/// What the kernel reports of a line.
#[derive(Debug, Clone, Copy, PartialEq, Eq, Structural)]
pub struct LineInfoFacts {
    pub output: bool,
    pub active_low: bool,
    pub open_drain: bool,
    pub open_source: bool,
}

/// The kernel reported a line as both open-drain and open-source.
#[derive(Debug, Clone, Copy, PartialEq, Eq, Structural)]
pub struct ConflictingDrive;

pub open spec fn spec_configuration_from_info(info: LineInfoFacts) -> Result<
    GpioLineConfiguration,
    ConflictingDrive,
> {
    if info.open_drain && info.open_source {
        Err(ConflictingDrive)
    } else {
        Ok(
            GpioLineConfiguration {
                direction: if info.output {
                    GpioDirection::Output
                } else {
                    GpioDirection::Input
                },
                active_low: info.active_low,
                bias: None,
                drive: if !info.output {
                    None
                } else if info.open_drain {
                    Some(GpioDrive::OpenDrain)
                } else if info.open_source {
                    Some(GpioDrive::OpenSource)
                } else {
                    Some(GpioDrive::PushPull)
                },
                edge: None,
                debounce_us: None,
                initial_level: None,
            },
        )
    }
}

/// The configuration a session starts with, read from the line's
/// information: an output line has a drive (push-pull unless the kernel says
/// otherwise), an input line has none, and a line that claims both
/// open-drain and open-source is refused.
pub fn configuration_from_info(info: LineInfoFacts) -> (r: Result<
    GpioLineConfiguration,
    ConflictingDrive,
>)
    ensures
        r == spec_configuration_from_info(info),
{
    if info.open_drain && info.open_source {
        return Err(ConflictingDrive);
    }
    let direction = if info.output {
        GpioDirection::Output
    } else {
        GpioDirection::Input
    };
    let drive = if !info.output {
        None
    } else if info.open_drain {
        Some(GpioDrive::OpenDrain)
    } else if info.open_source {
        Some(GpioDrive::OpenSource)
    } else {
        Some(GpioDrive::PushPull)
    };
    Ok(
        GpioLineConfiguration {
            direction,
            active_low: info.active_low,
            bias: None,
            drive,
            edge: None,
            debounce_us: None,
            initial_level: None,
        },
    )
}

pub open spec fn spec_level_from_value(value: u8) -> Option<GpioLevel> {
    if value == 0 {
        Some(GpioLevel::Low)
    } else if value == 1 {
        Some(GpioLevel::High)
    } else {
        None
    }
}

/// The level a line value stands for: 0 is low, 1 is high, anything else is
/// unexpected.
pub fn level_from_value(value: u8) -> (r: Option<GpioLevel>)
    ensures
        r == spec_level_from_value(value),
{
    if value == 0 {
        Some(GpioLevel::Low)
    } else if value == 1 {
        Some(GpioLevel::High)
    } else {
        None
    }
}

pub open spec fn spec_level_value(level: GpioLevel) -> u8 {
    match level {
        GpioLevel::Low => 0,
        GpioLevel::High => 1,
    }
}

/// The value written for a level.
pub fn value_of_level(level: GpioLevel) -> (r: u8)
    ensures
        r == spec_level_value(level),
{
    match level {
        GpioLevel::Low => 0,
        GpioLevel::High => 1,
    }
}

/// The information the kernel reports of a line requested with `request`.
pub open spec fn info_of_request(request: LineRequest) -> LineInfoFacts {
    LineInfoFacts {
        output: request.output,
        active_low: request.active_low,
        open_drain: request.open_drain,
        open_source: request.open_source,
    }
}

/// A configuration the transport accepts, requested and then read back from
/// the line's information, gives the same configuration but for the initial
/// level, which the kernel does not report, and for an output's drive, which
/// reads back as push-pull where none was asked.
pub proof fn law_requested_configuration_reads_back(c: GpioLineConfiguration)
    requires
        spec_check_configuration(c) is Ok,
        c.direction == GpioDirection::Output || c.drive is None,
    ensures
        spec_configuration_from_info(info_of_request(spec_line_request(c))) == Ok::<
            GpioLineConfiguration,
            ConflictingDrive,
        >(
            GpioLineConfiguration {
                initial_level: None,
                drive: if c.direction == GpioDirection::Output && c.drive is None {
                    Some(GpioDrive::PushPull)
                } else {
                    c.drive
                },
                ..c
            },
        ),
{
    match c.drive {
        Some(GpioDrive::OpenDrain) => {},
        Some(GpioDrive::OpenSource) => {},
        Some(GpioDrive::PushPull) => {},
        None => {},
    }
}

/// A level written as a value reads back as the same level.
pub proof fn law_level_value_round_trip(level: GpioLevel)
    ensures
        spec_level_from_value(spec_level_value(level)) == Some(level),
{
}

/// The line values are the kernel's: 1 is high and 0 is low, both ways; a
/// line is requested as an output exactly when it is configured as one, and
/// its initial value is 1 exactly when it is asked to start high.
pub proof fn law_line_values_are_the_kernels(c: GpioLineConfiguration)
    ensures
        spec_level_value(GpioLevel::High) == 1,
        spec_level_value(GpioLevel::Low) == 0,
        spec_level_from_value(1) == Some(GpioLevel::High),
        spec_level_from_value(0) == Some(GpioLevel::Low),
        spec_line_request(c).output == (c.direction == GpioDirection::Output),
        (spec_line_request(c).initial_value == 1) == (c.initial_level == Some(GpioLevel::High)),
        spec_line_request(c).initial_value <= 1,
        spec_line_request(c).active_low == c.active_low,
{
}

} // verus!
