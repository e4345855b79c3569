pub mod i2c;

use vstd::prelude::*;

verus! {

/// Errors reported by the register transport adapter.
#[derive(Debug, Clone, Copy, PartialEq, Eq)]
pub enum DeviceError<T> {
    /// The underlying bus transport failed; the error is passed
    /// through unmodified.
    Interface(T),
    /// A register payload did not fit the adapter's transfer buffer.
    /// Unreachable from the driver operations, whose payloads are
    /// bounded by the variant constants.
    BufferTooSmall,
}

/// The maximum current a single channel may sink.
///
/// `Current35MA` is only valid when the supply voltage is at least
/// 3.3 V; honouring that is the caller's responsibility.
#[derive(Debug, Clone, Copy, PartialEq, Eq, Structural)]
pub enum MaxCurrentOption {
    Current25MA5,
    Current35MA,
}

/// Register address of `DEVICE_CONFIG0`, holding the chip-enable bit.
pub const DEVICE_CONFIG0_ADDRESS: u8 = 0x00;

/// Register address of `DEVICE_CONFIG1`, holding the scaling, power
/// save, dithering and current-limit bits.
pub const DEVICE_CONFIG1_ADDRESS: u8 = 0x01;

/// Bit 6 of `DEVICE_CONFIG0`: chip enable.
pub const CHIP_EN_BIT: u8 = 0x40;

/// Bit 5 of `DEVICE_CONFIG1`: logarithmic scaling enable.
pub const LOG_SCALE_EN_BIT: u8 = 0x20;

/// Bit 4 of `DEVICE_CONFIG1`: automatic power save enable.
pub const POWER_SAVE_EN_BIT: u8 = 0x10;

/// Bit 2 of `DEVICE_CONFIG1`: PWM dithering enable.
pub const PWM_DITHERING_EN_BIT: u8 = 0x04;

/// Bit 1 of `DEVICE_CONFIG1`: maximum current option (set = 35 mA).
pub const MAX_CURRENT_OPTION_BIT: u8 = 0x02;

/// The bits of `DEVICE_CONFIG1` that the driver never writes
/// (bits 7, 6, 3 and 0); a read-modify-write keeps them as read.
pub const CONFIG1_KEPT_MASK: u8 = 0xC9;

/// The whole `DEVICE_CONFIG0` byte for a given chip-enable choice;
/// every other bit of that register is zero.
pub open spec fn spec_config0_byte(chip_en: bool) -> u8 {
    if chip_en {
        CHIP_EN_BIT
    } else {
        0u8
    }
}

pub fn config0_byte(chip_en: bool) -> (r: u8)
    ensures
        r == spec_config0_byte(chip_en),
{
    if chip_en {
        CHIP_EN_BIT
    } else {
        0u8
    }
}

/// The four configuration bits of `DEVICE_CONFIG1`, each present
/// exactly when the corresponding choice asks for it.
pub open spec fn spec_config1_bits(
    log_scale: bool,
    power_save: bool,
    pwm_dithering: bool,
    max_current_35: bool,
) -> u8 {
    (if log_scale {
        LOG_SCALE_EN_BIT
    } else {
        0u8
    }) | (if power_save {
        POWER_SAVE_EN_BIT
    } else {
        0u8
    }) | (if pwm_dithering {
        PWM_DITHERING_EN_BIT
    } else {
        0u8
    }) | (if max_current_35 {
        MAX_CURRENT_OPTION_BIT
    } else {
        0u8
    })
}

/// The byte written back by a read-modify-write of `DEVICE_CONFIG1`:
/// the four configuration bits replaced, all other bits kept from the
/// byte that was read.
pub open spec fn spec_config1_update(
    current: u8,
    log_scale: bool,
    power_save: bool,
    pwm_dithering: bool,
    max_current: MaxCurrentOption,
) -> u8 {
    (current & CONFIG1_KEPT_MASK) | spec_config1_bits(
        log_scale,
        power_save,
        pwm_dithering,
        max_current is Current35MA,
    )
}

pub fn config1_update(
    current: u8,
    log_scale: bool,
    power_save: bool,
    pwm_dithering: bool,
    max_current: MaxCurrentOption,
) -> (r: u8)
    ensures
        r == spec_config1_update(current, log_scale, power_save, pwm_dithering, max_current),
{
    let bits: u8 = (if log_scale {
        LOG_SCALE_EN_BIT
    } else {
        0u8
    }) | (if power_save {
        POWER_SAVE_EN_BIT
    } else {
        0u8
    }) | (if pwm_dithering {
        PWM_DITHERING_EN_BIT
    } else {
        0u8
    }) | (if matches!(max_current, MaxCurrentOption::Current35MA) {
        MAX_CURRENT_OPTION_BIT
    } else {
        0u8
    });
    (current & CONFIG1_KEPT_MASK) | bits
}

/// A read-modify-write of `DEVICE_CONFIG1` is exact: each
/// configuration bit of the written byte matches the requested
/// choice, and every bit outside the four configuration fields is
/// exactly the bit that was read.
pub proof fn lemma_config1_update_bits(
    current: u8,
    log_scale: bool,
    power_save: bool,
    pwm_dithering: bool,
    max_current: MaxCurrentOption,
)
    ensures
        spec_config1_update(current, log_scale, power_save, pwm_dithering, max_current)
            & CONFIG1_KEPT_MASK == current & CONFIG1_KEPT_MASK,
        (spec_config1_update(current, log_scale, power_save, pwm_dithering, max_current)
            & LOG_SCALE_EN_BIT != 0) == log_scale,
        (spec_config1_update(current, log_scale, power_save, pwm_dithering, max_current)
            & POWER_SAVE_EN_BIT != 0) == power_save,
        (spec_config1_update(current, log_scale, power_save, pwm_dithering, max_current)
            & PWM_DITHERING_EN_BIT != 0) == pwm_dithering,
        (spec_config1_update(current, log_scale, power_save, pwm_dithering, max_current)
            & MAX_CURRENT_OPTION_BIT != 0) == (max_current is Current35MA),
{
    let mc35 = max_current is Current35MA;
    assert({
        let r = (current & 0xC9u8) | spec_config1_bits(log_scale, power_save, pwm_dithering, mc35);
        &&& r & 0xC9u8 == current & 0xC9u8
        &&& (r & 0x20u8 != 0) == log_scale
        &&& (r & 0x10u8 != 0) == power_save
        &&& (r & 0x04u8 != 0) == pwm_dithering
        &&& (r & 0x02u8 != 0) == mc35
    }) by (bit_vector);
}

} // verus!
