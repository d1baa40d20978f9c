//! The Linux spidev transport: mode bits, configuration checks, the settings
//! handed to the kernel and the configuration read back from it.
use crate::errors::{classify_open, spec_classify_open, IoErrorKind, OpenFailure};
use crate::paths::{path_join, LinuxPaths};
use crate::text::{dec_digits, push_str_chars, string_from_chars};
use vstd::prelude::*;

verus! {

#[derive(Debug, Clone, Copy, PartialEq, Eq, Structural)]
pub enum SpiMode {
    Mode0,
    Mode1,
    Mode2,
    Mode3,
}

#[derive(Debug, Clone, Copy, PartialEq, Eq, Structural)]
pub enum SpiBitOrder {
    MsbFirst,
    LsbFirst,
}

/// An SPI device configuration; unset fields keep the kernel's current value.
#[derive(Debug, Clone, Copy, PartialEq, Eq, Structural)]
pub struct SpiConfiguration {
    pub mode: SpiMode,
    pub max_frequency_hz: Option<u32>,
    pub bits_per_word: Option<u8>,
    pub bit_order: SpiBitOrder,
}

/// Why an SPI configuration is refused.
#[derive(Debug, Clone, Copy, PartialEq, Eq, Structural)]
pub enum SpiConfigError {
    ZeroFrequency,
    ZeroBitsPerWord,
}

/// The clock polarity and phase bits (`SPI_CPOL`, `SPI_CPHA`) of a mode.
pub open spec fn spec_mode_bits(mode: SpiMode) -> u8 {
    match mode {
        SpiMode::Mode0 => 0,
        SpiMode::Mode1 => 1,
        SpiMode::Mode2 => 2,
        SpiMode::Mode3 => 3,
    }
}

pub open spec fn spec_mode_from_bits(bits: u8) -> SpiMode {
    let m = bits % 4;
    if m == 0 {
        SpiMode::Mode0
    } else if m == 1 {
        SpiMode::Mode1
    } else if m == 2 {
        SpiMode::Mode2
    } else {
        SpiMode::Mode3
    }
}

/// The `SPI_MODE_n` flags of a mode.
pub fn mode_to_bits(mode: SpiMode) -> (r: u8)
    ensures
        r == spec_mode_bits(mode),
{
    match mode {
        SpiMode::Mode0 => 0,
        SpiMode::Mode1 => 1,
        SpiMode::Mode2 => 2,
        SpiMode::Mode3 => 3,
    }
}

/// The mode named by the low two bits of the kernel's mode word; the other
/// flags (such as chip-select polarity) do not affect it.
pub fn mode_from_bits(bits: u8) -> (r: SpiMode)
    ensures
        r == spec_mode_from_bits(bits),
{
    let m = bits & 0x03;
    assert(m == bits % 4) by (bit_vector)
        requires
            m == bits & 0x03,
    ;
    if m == 0 {
        SpiMode::Mode0
    } else if m == 1 {
        SpiMode::Mode1
    } else if m == 2 {
        SpiMode::Mode2
    } else {
        SpiMode::Mode3
    }
}

pub open spec fn spec_validate(c: SpiConfiguration) -> Result<(), SpiConfigError> {
    if c.max_frequency_hz == Some(0u32) {
        Err(SpiConfigError::ZeroFrequency)
    } else if c.bits_per_word == Some(0u8) {
        Err(SpiConfigError::ZeroBitsPerWord)
    } else {
        Ok(())
    }
}

/// Refuses a zero clock frequency and zero bits per word.
pub fn validate_configuration(c: &SpiConfiguration) -> (r: Result<(), SpiConfigError>)
    ensures
        r == spec_validate(*c),
{
    match c.max_frequency_hz {
        Some(f) => if f == 0 {
            return Err(SpiConfigError::ZeroFrequency);
        },
        None => {},
    }
    match c.bits_per_word {
        Some(b) => if b == 0 {
            return Err(SpiConfigError::ZeroBitsPerWord);
        },
        None => {},
    }
    Ok(())
}

/// The options handed to `SPI_IOC_WR_*`: unset fields are left alone.
#[derive(Debug, Clone, Copy, PartialEq, Eq, Structural)]
pub struct SpidevSettings {
    pub bits_per_word: Option<u8>,
    pub max_speed_hz: Option<u32>,
    pub lsb_first: bool,
    pub mode_bits: u8,
}

pub open spec fn spec_settings(c: SpiConfiguration) -> SpidevSettings {
    SpidevSettings {
        bits_per_word: c.bits_per_word,
        max_speed_hz: c.max_frequency_hz,
        lsb_first: c.bit_order == SpiBitOrder::LsbFirst,
        mode_bits: spec_mode_bits(c.mode),
    }
}

/// The kernel settings that apply a configuration.
pub fn to_spidev_settings(c: &SpiConfiguration) -> (r: SpidevSettings)
    ensures
        r == spec_settings(*c),
{
    SpidevSettings {
        bits_per_word: c.bits_per_word,
        max_speed_hz: c.max_frequency_hz,
        lsb_first: match c.bit_order {
            SpiBitOrder::LsbFirst => true,
            SpiBitOrder::MsbFirst => false,
        },
        mode_bits: mode_to_bits(c.mode),
    }
}

pub open spec fn spec_decode(mode_bits: u8, bits_per_word: u8, max_speed_hz: u32, lsb_first: u8) -> SpiConfiguration {
    SpiConfiguration {
        mode: spec_mode_from_bits(mode_bits),
        max_frequency_hz: if max_speed_hz != 0 {
            Some(max_speed_hz)
        } else {
            None
        },
        bits_per_word: Some(if bits_per_word == 0 { 8u8 } else { bits_per_word }),
        bit_order: if lsb_first == 0 {
            SpiBitOrder::MsbFirst
        } else {
            SpiBitOrder::LsbFirst
        },
    }
}

/// The configuration reported by the kernel's mode, word size, speed and bit
/// order: a zero speed is unknown, and a zero word size means eight bits.
pub fn decode_kernel_configuration(mode_bits: u8, bits_per_word: u8, max_speed_hz: u32, lsb_first: u8) -> (r:
    SpiConfiguration)
    ensures
        r == spec_decode(mode_bits, bits_per_word, max_speed_hz, lsb_first),
{
    SpiConfiguration {
        mode: mode_from_bits(mode_bits),
        max_frequency_hz: if max_speed_hz != 0 {
            Some(max_speed_hz)
        } else {
            None
        },
        bits_per_word: Some(if bits_per_word == 0 { 8u8 } else { bits_per_word }),
        bit_order: if lsb_first == 0 {
            SpiBitOrder::MsbFirst
        } else {
            SpiBitOrder::LsbFirst
        },
    }
}

/// A fully specified, accepted configuration that the kernel stores as
/// given is read back unchanged: the mode survives the mode bits, and speed,
/// word size and bit order survive their encodings.
pub proof fn law_configuration_reads_back(c: SpiConfiguration, bits: u8, speed: u32)
    requires
        spec_validate(c) is Ok,
        c.bits_per_word == Some(bits),
        c.max_frequency_hz == Some(speed),
    ensures
        spec_decode(
            spec_settings(c).mode_bits,
            bits,
            speed,
            if spec_settings(c).lsb_first {
                1u8
            } else {
                0u8
            },
        ) == c,
{
}

/// The mode bits of a mode name that mode again.
pub proof fn law_mode_bits_round_trip(mode: SpiMode)
    ensures
        spec_mode_from_bits(spec_mode_bits(mode)) == mode,
{
}

/// The mode bits are the kernel's `SPI_MODE_n` values: clock phase
/// (`SPI_CPHA`, bit 0) is set exactly in modes 1 and 3, clock polarity
/// (`SPI_CPOL`, bit 1) exactly in modes 2 and 3, and no other bit is set;
/// read back, a mode word names the mode with the same two bits, whatever
/// else it holds.
pub proof fn law_mode_bits_are_cpol_and_cpha(mode: SpiMode, bits: u8)
    ensures
        spec_mode_bits(SpiMode::Mode0) == 0,
        spec_mode_bits(SpiMode::Mode1) == 1,
        spec_mode_bits(SpiMode::Mode2) == 2,
        spec_mode_bits(SpiMode::Mode3) == 3,
        spec_mode_bits(mode) < 4,
        (spec_mode_bits(mode) % 2 == 1) == (mode == SpiMode::Mode1 || mode == SpiMode::Mode3),
        (spec_mode_bits(mode) / 2 == 1) == (mode == SpiMode::Mode2 || mode == SpiMode::Mode3),
        (spec_mode_from_bits(bits) == SpiMode::Mode1 || spec_mode_from_bits(bits) == SpiMode::Mode3) == (bits
            % 2 == 1),
        (spec_mode_from_bits(bits) == SpiMode::Mode2 || spec_mode_from_bits(bits) == SpiMode::Mode3) == ((bits
            / 2) % 2 == 1),
{
}

/// Reading the kernel's settings back: a word size of 0 means eight bits, a
/// speed of 0 means none is set, and any non-zero bit-order flag means least
/// significant bit first; other values are taken as they are.
pub proof fn law_kernel_settings_read_back(mode_bits: u8, bits_per_word: u8, max_speed_hz: u32, lsb_first: u8)
    ensures
        spec_decode(mode_bits, 0, max_speed_hz, lsb_first).bits_per_word == Some(8u8),
        bits_per_word != 0 ==> spec_decode(mode_bits, bits_per_word, max_speed_hz, lsb_first).bits_per_word
            == Some(bits_per_word),
        spec_decode(mode_bits, bits_per_word, 0, lsb_first).max_frequency_hz is None,
        max_speed_hz != 0 ==> spec_decode(mode_bits, bits_per_word, max_speed_hz, lsb_first).max_frequency_hz
            == Some(max_speed_hz),
        (spec_decode(mode_bits, bits_per_word, max_speed_hz, lsb_first).bit_order == SpiBitOrder::LsbFirst) == (
        lsb_first != 0),
        spec_decode(mode_bits, bits_per_word, max_speed_hz, lsb_first).mode == spec_mode_from_bits(mode_bits),
        spec_settings(SpiConfiguration {
            mode: SpiMode::Mode0,
            max_frequency_hz: Some(max_speed_hz),
            bits_per_word: Some(bits_per_word),
            bit_order: SpiBitOrder::LsbFirst,
        }).lsb_first,
        !spec_settings(SpiConfiguration {
            mode: SpiMode::Mode0,
            max_frequency_hz: Some(max_speed_hz),
            bits_per_word: Some(bits_per_word),
            bit_order: SpiBitOrder::MsbFirst,
        }).lsb_first,
{
}

/// Why a transfer is refused before reaching the bus.
#[derive(Debug, Clone, Copy, PartialEq, Eq, Structural)]
pub enum SpiRequestError {
    EmptyPayload,
}

/// Transfers and writes need a payload.
pub fn check_payload(bytes: &[u8]) -> (r: Result<(), SpiRequestError>)
    ensures
        r == if bytes@.len() == 0 {
            Err::<(), SpiRequestError>(SpiRequestError::EmptyPayload)
        } else {
            Ok(())
        },
{
    if bytes.len() == 0 {
        Err(SpiRequestError::EmptyPayload)
    } else {
        Ok(())
    }
}

/// Classifies a failed open of a spidev node: access errors, `EBUSY`, absence
/// (not found, `ENOENT`, `ENXIO`, `ENODEV`), or a transport failure.
pub fn classify_open_error(kind: IoErrorKind, errno: Option<i32>) -> (r: OpenFailure)
    ensures
        r == spec_classify_open(kind, errno, true),
{
    classify_open(kind, errno, true)
}

/// `<dev>/spidev<bus>.<chip_select>`.
pub fn resolve_devnode(paths: &LinuxPaths, bus: u32, chip_select: u16) -> (r: String)
    ensures
        r@ == path_join(
            paths.dev_root@,
            "spidev"@ + dec_digits(bus as nat) + seq!['.'] + dec_digits(chip_select as nat),
        ),
{
    paths.spi_devnode(bus, chip_select)
}

/// The reason of each failure class when opening the spidev node
/// `devnode`, given the text of the operating-system error.
pub open spec fn spec_open_reason(failure: OpenFailure, devnode: Seq<char>, error: Seq<char>) -> Seq<char> {
    match failure {
        OpenFailure::AccessConflict => "Linux SPI device '"@ + devnode + "' is already in use"@,
        OpenFailure::SessionUnavailable => "Linux SPI device '"@ + devnode + "' is not currently available: "@
            + error,
        _ => "failed to open Linux SPI device '"@ + devnode + "': "@ + error,
    }
}

/// A failed open of a spidev node, classified and explained.
pub fn describe_open_error(kind: IoErrorKind, errno: Option<i32>, devnode: &str, error: &str) -> (r: (
    OpenFailure,
    String,
))
    ensures
        r.0 == spec_classify_open(kind, errno, true),
        r.1@ == spec_open_reason(r.0, devnode@, error@),
{
    let failure = classify_open_error(kind, errno);
    let mut out: Vec<char> = Vec::new();
    match failure {
        OpenFailure::AccessConflict => {
            push_str_chars(&mut out, "Linux SPI device '");
            push_str_chars(&mut out, devnode);
            push_str_chars(&mut out, "' is already in use");
        },
        OpenFailure::SessionUnavailable => {
            push_str_chars(&mut out, "Linux SPI device '");
            push_str_chars(&mut out, devnode);
            push_str_chars(&mut out, "' is not currently available: ");
            push_str_chars(&mut out, error);
        },
        _ => {
            push_str_chars(&mut out, "failed to open Linux SPI device '");
            push_str_chars(&mut out, devnode);
            push_str_chars(&mut out, "': ");
            push_str_chars(&mut out, error);
        },
    }
    (failure, string_from_chars(&out))
}

} // verus!
