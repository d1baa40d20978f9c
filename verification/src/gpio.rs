//! The sysfs GPIO line: its attribute encodings, the checks a requested line
//! configuration must pass, the attribute writes that apply it, and the
//! export handshake that makes a line appear under `/sys/class/gpio`.
use crate::text::chars_of;
use vstd::prelude::*;

verus! {

#[derive(Debug, Clone, Copy, PartialEq, Eq, Structural)]
pub enum GpioDirection {
    Input,
    Output,
}

#[derive(Debug, Clone, Copy, PartialEq, Eq, Structural)]
pub enum GpioLevel {
    Low,
    High,
}

#[derive(Debug, Clone, Copy, PartialEq, Eq, Structural)]
pub enum GpioEdge {
    Rising,
    Falling,
    Both,
}

#[derive(Debug, Clone, Copy, PartialEq, Eq, Structural)]
pub enum GpioDrive {
    PushPull,
    OpenDrain,
    OpenSource,
}

#[derive(Debug, Clone, Copy, PartialEq, Eq, Structural)]
pub enum GpioBias {
    Disabled,
    PullUp,
    PullDown,
}

/// A requested or observed GPIO line configuration.
#[derive(Debug, Clone, Copy, PartialEq, Eq, Structural)]
pub struct GpioLineConfiguration {
    pub direction: GpioDirection,
    pub active_low: bool,
    pub bias: Option<GpioBias>,
    pub drive: Option<GpioDrive>,
    pub edge: Option<GpioEdge>,
    pub debounce_us: Option<u32>,
    pub initial_level: Option<GpioLevel>,
}

/// Why the sysfs transport refuses a line configuration.
#[derive(Debug, Clone, Copy, PartialEq, Eq, Structural)]
pub enum GpioConfigError {
    InputWithInitialLevel,
    BiasUnsupported,
    DebounceUnsupported,
    DriveUnsupported,
    EdgeOnOutput,
    ActiveLowUnavailable,
    EdgeUnavailable,
}

/// A line attribute whose contents could not be read.
#[derive(Debug, Clone, Copy, PartialEq, Eq, Structural)]
pub enum GpioAttribute {
    Direction,
    ActiveLow,
    Edge,
    Value,
}

/// One write to a line attribute file.
#[derive(Debug, Clone, Copy, PartialEq, Eq, Structural)]
pub enum GpioSysfsWrite {
    ActiveLow(bool),
    Direction(GpioDirection, Option<GpioLevel>),
    Edge(Option<GpioEdge>),
    Value(GpioLevel),
}

pub open spec fn spec_validate(c: GpioLineConfiguration) -> Result<(), GpioConfigError> {
    if c.direction == GpioDirection::Input && c.initial_level is Some {
        Err(GpioConfigError::InputWithInitialLevel)
    } else if c.bias is Some {
        Err(GpioConfigError::BiasUnsupported)
    } else if c.debounce_us is Some {
        Err(GpioConfigError::DebounceUnsupported)
    } else if c.drive == Some(GpioDrive::OpenDrain) || c.drive == Some(GpioDrive::OpenSource) {
        Err(GpioConfigError::DriveUnsupported)
    } else if c.direction == GpioDirection::Output && c.edge is Some {
        Err(GpioConfigError::EdgeOnOutput)
    } else {
        Ok(())
    }
}

/// The checks the sysfs transport makes before touching a line: no initial
/// level on an input, no bias, debounce, open-drain or open-source drive,
/// and no edge detection on an output.
pub fn validate_configuration(c: &GpioLineConfiguration) -> (r: Result<(), GpioConfigError>)
    ensures
        r == spec_validate(*c),
{
    if c.direction == GpioDirection::Input && c.initial_level.is_some() {
        Err(GpioConfigError::InputWithInitialLevel)
    } else if c.bias.is_some() {
        Err(GpioConfigError::BiasUnsupported)
    } else if c.debounce_us.is_some() {
        Err(GpioConfigError::DebounceUnsupported)
    } else if match c.drive {
        Some(GpioDrive::OpenDrain) => true,
        Some(GpioDrive::OpenSource) => true,
        _ => false,
    } {
        Err(GpioConfigError::DriveUnsupported)
    } else if c.direction == GpioDirection::Output && c.edge.is_some() {
        Err(GpioConfigError::EdgeOnOutput)
    } else {
        Ok(())
    }
}

/// The writes of a configure request, in order, and how it ends: the writes
/// are made even when the request then fails on a missing attribute.
#[derive(Debug, PartialEq, Eq)]
pub struct GpioConfigurePlan {
    pub writes: Vec<GpioSysfsWrite>,
    pub outcome: Result<(), GpioConfigError>,
}

pub open spec fn spec_configure_plan(
    c: GpioLineConfiguration,
    active_low_exists: bool,
    edge_exists: bool,
) -> (Seq<GpioSysfsWrite>, Result<(), GpioConfigError>) {
    if spec_validate(c) is Err {
        (Seq::empty(), spec_validate(c))
    } else if !active_low_exists && c.active_low {
        (Seq::empty(), Err(GpioConfigError::ActiveLowUnavailable))
    } else {
        let first = if active_low_exists {
            seq![GpioSysfsWrite::ActiveLow(c.active_low)]
        } else {
            Seq::empty()
        };
        let with_direction = first.push(GpioSysfsWrite::Direction(c.direction, c.initial_level));
        if edge_exists {
            (with_direction.push(GpioSysfsWrite::Edge(c.edge)), Ok(()))
        } else if c.edge is Some {
            (with_direction, Err(GpioConfigError::EdgeUnavailable))
        } else {
            (with_direction, Ok(()))
        }
    }
}

/// What configuring a line does, given which optional attribute files the
/// line exposes.
pub fn plan_configuration(c: &GpioLineConfiguration, active_low_exists: bool, edge_exists: bool) -> (r:
    GpioConfigurePlan)
    ensures
        (r.writes@, r.outcome) == spec_configure_plan(*c, active_low_exists, edge_exists),
{
    let mut writes: Vec<GpioSysfsWrite> = Vec::new();
    match validate_configuration(c) {
        Err(e) => return GpioConfigurePlan { writes, outcome: Err(e) },
        Ok(()) => {},
    }
    if active_low_exists {
        writes.push(GpioSysfsWrite::ActiveLow(c.active_low));
    } else if c.active_low {
        return GpioConfigurePlan { writes, outcome: Err(GpioConfigError::ActiveLowUnavailable) };
    }
    writes.push(GpioSysfsWrite::Direction(c.direction, c.initial_level));
    if edge_exists {
        writes.push(GpioSysfsWrite::Edge(c.edge));
        assert(writes@ =~= spec_configure_plan(*c, active_low_exists, edge_exists).0);
        GpioConfigurePlan { writes, outcome: Ok(()) }
    } else if c.edge.is_some() {
        assert(writes@ =~= spec_configure_plan(*c, active_low_exists, edge_exists).0);
        GpioConfigurePlan { writes, outcome: Err(GpioConfigError::EdgeUnavailable) }
    } else {
        assert(writes@ =~= spec_configure_plan(*c, active_low_exists, edge_exists).0);
        GpioConfigurePlan { writes, outcome: Ok(()) }
    }
}

/// The text written to the `direction` attribute: `in`, or `out`, `low` or
/// `high` for an output with no, a low or a high initial level.
pub open spec fn spec_direction_value(direction: GpioDirection, initial: Option<GpioLevel>) -> Seq<
    char,
> {
    match direction {
        GpioDirection::Input => "in"@,
        GpioDirection::Output => match initial {
            Some(GpioLevel::Low) => "low"@,
            Some(GpioLevel::High) => "high"@,
            None => "out"@,
        },
    }
}

pub open spec fn spec_edge_value(edge: Option<GpioEdge>) -> Seq<char> {
    match edge {
        None => "none"@,
        Some(GpioEdge::Rising) => "rising"@,
        Some(GpioEdge::Falling) => "falling"@,
        Some(GpioEdge::Both) => "both"@,
    }
}

pub open spec fn spec_bit_value(b: bool) -> Seq<char> {
    if b {
        "1"@
    } else {
        "0"@
    }
}

pub open spec fn spec_level_value(level: GpioLevel) -> Seq<char> {
    match level {
        GpioLevel::Low => "0"@,
        GpioLevel::High => "1"@,
    }
}

/// The attribute text of a write.
pub open spec fn spec_write_value(w: GpioSysfsWrite) -> Seq<char> {
    match w {
        GpioSysfsWrite::ActiveLow(b) => spec_bit_value(b),
        GpioSysfsWrite::Direction(d, l) => spec_direction_value(d, l),
        GpioSysfsWrite::Edge(e) => spec_edge_value(e),
        GpioSysfsWrite::Value(l) => spec_level_value(l),
    }
}

/// The attribute text of a write, computed.
pub fn write_value(w: GpioSysfsWrite) -> (r: &'static str)
    ensures
        r@ == spec_write_value(w),
{
    match w {
        GpioSysfsWrite::ActiveLow(b) => if b {
            "1"
        } else {
            "0"
        },
        GpioSysfsWrite::Direction(d, l) => match d {
            GpioDirection::Input => "in",
            GpioDirection::Output => match l {
                Some(GpioLevel::Low) => "low",
                Some(GpioLevel::High) => "high",
                None => "out",
            },
        },
        GpioSysfsWrite::Edge(e) => match e {
            None => "none",
            Some(GpioEdge::Rising) => "rising",
            Some(GpioEdge::Falling) => "falling",
            Some(GpioEdge::Both) => "both",
        },
        GpioSysfsWrite::Value(l) => match l {
            GpioLevel::Low => "0",
            GpioLevel::High => "1",
        },
    }
}

pub open spec fn spec_parse_direction(raw: Seq<char>) -> Option<GpioDirection> {
    if raw == "in"@ {
        Some(GpioDirection::Input)
    } else if raw == "out"@ || raw == "low"@ || raw == "high"@ {
        Some(GpioDirection::Output)
    } else {
        None
    }
}

pub open spec fn spec_parse_bit(raw: Seq<char>) -> Option<bool> {
    if raw == "0"@ {
        Some(false)
    } else if raw == "1"@ {
        Some(true)
    } else {
        None
    }
}

pub open spec fn spec_parse_edge(raw: Seq<char>) -> Option<Option<GpioEdge>> {
    if raw == "none"@ {
        Some(None)
    } else if raw == "rising"@ {
        Some(Some(GpioEdge::Rising))
    } else if raw == "falling"@ {
        Some(Some(GpioEdge::Falling))
    } else if raw == "both"@ {
        Some(Some(GpioEdge::Both))
    } else {
        None
    }
}

pub open spec fn spec_parse_level(raw: Seq<char>) -> Option<GpioLevel> {
    if raw == "0"@ {
        Some(GpioLevel::Low)
    } else if raw == "1"@ {
        Some(GpioLevel::High)
    } else {
        None
    }
}

/// `true` when the characters of `v` spell `s`.
pub fn chars_eq(v: &[char], s: &str) -> (b: bool)
    ensures
        b == (v@ == s@),
{
    let w = chars_of(s);
    if v.len() != w.len() {
        return false;
    }
    let mut i: usize = 0;
    while i < v.len()
        invariant
            v@.len() == w@.len(),
            w@ == s@,
            i <= v@.len(),
            forall|j: int| 0 <= j < i ==> v@[j] == w@[j],
        decreases v.len() - i,
    {
        if v[i] != w[i] {
            return false;
        }
        i = i + 1;
    }
    assert(v@ =~= w@);
    true
}

/// Reads the `direction` attribute.
pub fn parse_direction(value: &str) -> (r: Option<GpioDirection>)
    ensures
        r == spec_parse_direction(value@),
{
    let v = chars_of(value);
    if chars_eq(&v, "in") {
        Some(GpioDirection::Input)
    } else if chars_eq(&v, "out") || chars_eq(&v, "low") || chars_eq(&v, "high") {
        Some(GpioDirection::Output)
    } else {
        None
    }
}

/// Reads the `active_low` attribute.
pub fn parse_active_low(value: &str) -> (r: Option<bool>)
    ensures
        r == spec_parse_bit(value@),
{
    let v = chars_of(value);
    if chars_eq(&v, "0") {
        Some(false)
    } else if chars_eq(&v, "1") {
        Some(true)
    } else {
        None
    }
}

/// Reads the `edge` attribute; `none` is no edge detection.
pub fn parse_edge(value: &str) -> (r: Option<Option<GpioEdge>>)
    ensures
        r == spec_parse_edge(value@),
{
    let v = chars_of(value);
    if chars_eq(&v, "none") {
        Some(None)
    } else if chars_eq(&v, "rising") {
        Some(Some(GpioEdge::Rising))
    } else if chars_eq(&v, "falling") {
        Some(Some(GpioEdge::Falling))
    } else if chars_eq(&v, "both") {
        Some(Some(GpioEdge::Both))
    } else {
        None
    }
}

/// Reads the `value` attribute.
pub fn parse_level(value: &str) -> (r: Option<GpioLevel>)
    ensures
        r == spec_parse_level(value@),
{
    let v = chars_of(value);
    if chars_eq(&v, "0") {
        Some(GpioLevel::Low)
    } else if chars_eq(&v, "1") {
        Some(GpioLevel::High)
    } else {
        None
    }
}

pub open spec fn spec_read_configuration(
    direction: Seq<char>,
    active_low: Option<Seq<char>>,
    edge: Option<Seq<char>>,
) -> Result<GpioLineConfiguration, GpioAttribute> {
    match spec_parse_direction(direction) {
        None => Err(GpioAttribute::Direction),
        Some(d) => {
            let al = match active_low {
                Some(a) => spec_parse_bit(a),
                None => Some(false),
            };
            match al {
                None => Err(GpioAttribute::ActiveLow),
                Some(al) => {
                    let ed = match edge {
                        Some(e) => spec_parse_edge(e),
                        None => Some(None),
                    };
                    match ed {
                        None => Err(GpioAttribute::Edge),
                        Some(ed) => Ok(
                            GpioLineConfiguration {
                                direction: d,
                                active_low: al,
                                bias: None,
                                drive: None,
                                edge: ed,
                                debounce_us: None,
                                initial_level: None,
                            },
                        ),
                    }
                },
            }
        },
    }
}

pub open spec fn opt_view(s: Option<&str>) -> Option<Seq<char>> {
    match s {
        Some(s) => Some(s@),
        None => None,
    }
}

/// A line's configuration as sysfs reports it, from the trimmed contents of
/// `direction` and of `active_low` and `edge` (`None` where the file is
/// missing, which reads as not inverted and no edge detection).
pub fn read_configuration(direction: &str, active_low: Option<&str>, edge: Option<&str>) -> (r:
    Result<GpioLineConfiguration, GpioAttribute>)
    ensures
        r == spec_read_configuration(direction@, opt_view(active_low), opt_view(edge)),
{
    let d = match parse_direction(direction) {
        None => return Err(GpioAttribute::Direction),
        Some(d) => d,
    };
    let al = match active_low {
        Some(a) => match parse_active_low(a) {
            None => return Err(GpioAttribute::ActiveLow),
            Some(b) => b,
        },
        None => false,
    };
    let ed = match edge {
        Some(e) => match parse_edge(e) {
            None => return Err(GpioAttribute::Edge),
            Some(x) => x,
        },
        None => None,
    };
    Ok(
        GpioLineConfiguration {
            direction: d,
            active_low: al,
            bias: None,
            drive: None,
            edge: ed,
            debounce_us: None,
            initial_level: None,
        },
    )
}

/// Applying an accepted configuration and reading the line back gives the
/// same direction, inversion and edge detection (the initial level and a
/// push-pull drive are requests that sysfs does not report, and read back as
/// none).
pub proof fn law_configuration_reads_back(c: GpioLineConfiguration)
    requires
        spec_validate(c) is Ok,
    ensures
        spec_read_configuration(
            spec_direction_value(c.direction, c.initial_level),
            Some(spec_bit_value(c.active_low)),
            Some(spec_edge_value(c.edge)),
        ) == Ok::<GpioLineConfiguration, GpioAttribute>(
            GpioLineConfiguration { initial_level: None, drive: None, ..c },
        ),
{
    reveal_strlit("in");
    reveal_strlit("out");
    reveal_strlit("low");
    reveal_strlit("high");
    reveal_strlit("0");
    reveal_strlit("1");
    reveal_strlit("none");
    reveal_strlit("rising");
    reveal_strlit("falling");
    reveal_strlit("both");
    assert("in"@ != "out"@ && "in"@ != "low"@ && "in"@ != "high"@) by {
        assert("in"@.len() != "out"@.len());
        assert("in"@.len() != "low"@.len());
        assert("in"@.len() != "high"@.len());
    }
    assert("0"@ != "1"@) by {
        assert("0"@[0] != "1"@[0]);
    }
    assert("low"@ != "in"@);
    assert("rising"@ != "none"@ && "falling"@ != "none"@ && "both"@ != "none"@) by {
        assert("rising"@.len() != "none"@.len());
        assert("falling"@.len() != "none"@.len());
        assert("both"@[0] != "none"@[0]);
    }
    assert("falling"@ != "rising"@ && "both"@ != "rising"@ && "both"@ != "falling"@) by {
        assert("falling"@[0] != "rising"@[0]);
        assert("both"@[0] != "rising"@[0]);
        assert("both"@.len() != "falling"@.len());
    }
}

/// A level written to the `value` attribute reads back as the same level.
pub proof fn law_level_reads_back(level: GpioLevel)
    ensures
        spec_parse_level(spec_level_value(level)) == Some(level),
{
    reveal_strlit("0");
    reveal_strlit("1");
    assert("0"@ != "1"@) by {
        assert("0"@[0] != "1"@[0]);
    }
}

/// Why a level write is refused.
#[derive(Debug, Clone, Copy, PartialEq, Eq, Structural)]
pub enum GpioWriteError {
    /// The session was opened read-only.
    ReadOnly,
    /// The line is configured as an input.
    NotOutput,
}

/// Whether a level may be written: the session must allow writes and the
/// line must currently be an output.
pub fn check_write_level(can_write: bool, current_direction: GpioDirection) -> (r: Result<
    (),
    GpioWriteError,
>)
    ensures
        !can_write ==> r == Err::<(), GpioWriteError>(GpioWriteError::ReadOnly),
        can_write && current_direction == GpioDirection::Input ==> r == Err::<(), GpioWriteError>(
            GpioWriteError::NotOutput,
        ),
        can_write && current_direction == GpioDirection::Output ==> r is Ok,
{
    if !can_write {
        Err(GpioWriteError::ReadOnly)
    } else if current_direction != GpioDirection::Output {
        Err(GpioWriteError::NotOutput)
    } else {
        Ok(())
    }
}

/// The global sysfs number of a chip line: the chip's base plus the offset,
/// when that fits in a `u32`.
pub fn resolve_global_line(base: Option<u32>, offset: u32) -> (r: Option<u32>)
    ensures
        match base {
            Some(b) => if b + offset <= u32::MAX as int {
                r == Some((b + offset) as u32)
            } else {
                r is None
            },
            None => r is None,
        },
{
    match base {
        Some(b) => b.checked_add(offset),
        None => None,
    }
}

/// The first step of opening a sysfs line or channel.
#[derive(Debug, Clone, Copy, PartialEq, Eq, Structural)]
pub enum ExportStep {
    /// The directory already exists; the session did not export it.
    AlreadyExported,
    /// Write the number to the export file and wait for the directory.
    Export,
    /// Neither the directory nor the export file exists.
    Unavailable,
}

/// What opening does, given whether the line directory and the export file exist.
pub fn export_step(root_exists: bool, export_exists: bool) -> (r: ExportStep)
    ensures
        root_exists ==> r == ExportStep::AlreadyExported,
        !root_exists && export_exists ==> r == ExportStep::Export,
        !root_exists && !export_exists ==> r == ExportStep::Unavailable,
{
    if root_exists {
        ExportStep::AlreadyExported
    } else if !export_exists {
        ExportStep::Unavailable
    } else {
        ExportStep::Export
    }
}

/// Closing unexports exactly what the session itself exported, and only when
/// the unexport file is there.
pub fn should_unexport_on_close(exported_by_session: bool, unexport_exists: bool) -> (r: bool)
    ensures
        r == (exported_by_session && unexport_exists),
{
    exported_by_session && unexport_exists
}

/// The sysfs GPIO attribute encodings are the kernel's: an output asked to
/// start at a level is written as that level's name (`high` or `low`), one
/// without is `out`, an input is `in`; `value` and `active_low` hold `1` for
/// high (or set) and `0` for low (or clear); the edge names are the
/// kernel's. Each reads back as what was meant.
pub proof fn law_sysfs_encodings_are_the_kernels(level: GpioLevel)
    ensures
        spec_direction_value(GpioDirection::Output, Some(GpioLevel::High)) == "high"@,
        spec_direction_value(GpioDirection::Output, Some(GpioLevel::Low)) == "low"@,
        spec_direction_value(GpioDirection::Output, None) == "out"@,
        spec_direction_value(GpioDirection::Input, Some(level)) == "in"@,
        spec_direction_value(GpioDirection::Input, None) == "in"@,
        spec_write_value(GpioSysfsWrite::Value(GpioLevel::High)) == "1"@,
        spec_write_value(GpioSysfsWrite::Value(GpioLevel::Low)) == "0"@,
        spec_write_value(GpioSysfsWrite::ActiveLow(true)) == "1"@,
        spec_write_value(GpioSysfsWrite::ActiveLow(false)) == "0"@,
        spec_write_value(GpioSysfsWrite::Edge(None)) == "none"@,
        spec_write_value(GpioSysfsWrite::Edge(Some(GpioEdge::Rising))) == "rising"@,
        spec_write_value(GpioSysfsWrite::Edge(Some(GpioEdge::Falling))) == "falling"@,
        spec_write_value(GpioSysfsWrite::Edge(Some(GpioEdge::Both))) == "both"@,
        spec_parse_level("1"@) == Some(GpioLevel::High),
        spec_parse_level("0"@) == Some(GpioLevel::Low),
        spec_parse_bit("1"@) == Some(true),
        spec_parse_bit("0"@) == Some(false),
        spec_parse_direction("in"@) == Some(GpioDirection::Input),
        spec_parse_direction("high"@) == Some(GpioDirection::Output),
        spec_parse_direction("low"@) == Some(GpioDirection::Output),
        spec_parse_direction("out"@) == Some(GpioDirection::Output),
{
    reveal_strlit("0");
    reveal_strlit("1");
    reveal_strlit("in");
    reveal_strlit("out");
    reveal_strlit("low");
    reveal_strlit("high");
    assert("0"@ != "1"@) by {
        assert("0"@[0] != "1"@[0]);
    }
    assert("high"@ != "in"@) by {
        assert("high"@.len() != "in"@.len());
    }
    assert("low"@ != "in"@) by {
        assert("low"@.len() != "in"@.len());
    }
    assert("out"@ != "in"@) by {
        assert("out"@.len() != "in"@.len());
    }
}

} // verus!
