//! The sensor's register map.
use vstd::prelude::*;

verus! {

/// Register map of bank 0 of the sensor.
#[allow(non_camel_case_types)]
#[derive(Copy, Clone, Debug, PartialEq, Eq, Structural)]
pub enum Register {
    /// Hold bit: 0x00 holds the registers, 0x01 runs the device normally.
    HOLD_BIT,
    /// Maximum emitting pulse width (0x03 = 40us up to 0x07 = 320us).
    MAXIMUM_EMITTING_PULSE_WIDTH,
    /// Spot symmetry threshold.
    SPOT_SYMMETRY_THRESHOLD,
    /// Signal intensity threshold; its default is set per sensor by E-Fuse.
    SIGNAL_INTENSITY_THRESHOLD,
    /// Maximum spot size threshold.
    MAXIMUM_SPOT_SIZE_THRESHOLD,
    /// Minimum spot size threshold; its default is set per sensor by E-Fuse.
    MINIMUM_SPOT_SIZE_THRESHOLD,
    /// Shift bit: 0x01 for a maximum display of 128cm, 0x02 (default) for 64cm.
    SHIFT_BIT,
    /// Median filter: number of samples of the median calculation.
    MEDIAN_FILTER,
    /// SRAM access (0x10 accesses SRAM).
    SRAM_ACCESS,
    /// Distance\[11:4\].
    DISTANCE_11_4,
    /// Distance\[3:0\].
    DISTANCE_3_0,
    /// AE\[15:8\]; write 0xFF to the clock select register before reading.
    AE_15_8,
    /// AE\[7:0\]; write 0xFF to the clock select register before reading.
    AE_7_0,
    /// AG\[7:0\]; write 0xFF to the clock select register before reading.
    AG_7_0,
    /// Cover compensation\[5:0\], held in bits \[7:2\] of the register.
    COVER_COMPENSATION_5_0,
    /// Cover compensation\[10:6\].
    COVER_COMPENSATION_10_6,
    /// Cover compensation enable bit: 0x02 enables, 0x03 disables.
    COVER_COMPENSATION_ENABLE_BIT,
    /// Read out of the image sensor data (0x00 disables; 0x10, 0x11, 0x12 select L, M, H).
    READ_OUT_IMAGE_SENSOR_DATA,
    /// Signal accumulation number.
    SIGNAL_ACCUMULATION_NUMBER,
    /// Enable bit of the signal intensity check (0x00 enables).
    ENABLE_BIT_SIGNAL_INTENSITY,
    /// Enable bit of the minimum spot size check (0x00 enables).
    ENABLE_BIT_MINIMUM_SPOT_SIZE,
    /// Enable bit of the maximum spot size check (0x00 enables).
    ENABLE_BIT_MAXIMUM_SPOT_SIZE,
    /// Enable bit of the spot symmetry check (0x00 enables).
    ENABLE_BIT_SPOT_SYMMETRY,
    /// E-Fuse target address, read out and enable bit.
    E_FUSE_TARGET_ADDRESS_READ_OUT_ENABLE_BIT,
    /// E-Fuse bit number (bits \[7:4\]) and bank assign (bits \[3:0\]).
    E_FUSE_BIT_NUMBER_BANK_ASSIGN,
    /// E-Fuse program enable bit.
    E_FUSE_PROGRAM_ENABLE_BIT,
    /// E-Fuse program data.
    E_FUSE_PROGRAM_DATA,
    /// Active (0x00) or stand-by (0x01) state.
    ACTIVE_STAND_BY_STATE_CONTROL,
    /// Clock select: 0x7F automatic, 0xFF manual.
    CLOCK_SELECT,
    /// Software reset (0x06 resets).
    SOFTWARE_RESET,
    /// Bank select: 0x00 bank 0, 0x03 bank 3 (E-Fuse).
    BANK_SELECT,
    /// Right edge coordinate (C).
    RIGHT_EDGE_COORDINATE,
    /// Left edge coordinate (A).
    LEFT_EDGE_COORDINATE,
    /// Peak coordinate (B).
    PEAK_COORDINATE,
}

impl Register {
    /// The one-byte bus address of the register.
    pub open spec fn spec_address(self) -> u8 {
        match self {
            Register::HOLD_BIT => 0x03,
            Register::MAXIMUM_EMITTING_PULSE_WIDTH => 0x13,
            Register::SPOT_SYMMETRY_THRESHOLD => 0x1C,
            Register::SIGNAL_INTENSITY_THRESHOLD => 0x2F,
            Register::MAXIMUM_SPOT_SIZE_THRESHOLD => 0x33,
            Register::MINIMUM_SPOT_SIZE_THRESHOLD => 0x34,
            Register::SHIFT_BIT => 0x35,
            Register::MEDIAN_FILTER => 0x3F,
            Register::SRAM_ACCESS => 0x4C,
            Register::DISTANCE_11_4 => 0x5E,
            Register::DISTANCE_3_0 => 0x5F,
            Register::AE_15_8 => 0x64,
            Register::AE_7_0 => 0x65,
            Register::AG_7_0 => 0x67,
            Register::COVER_COMPENSATION_5_0 => 0x8D,
            Register::COVER_COMPENSATION_10_6 => 0x8E,
            Register::COVER_COMPENSATION_ENABLE_BIT => 0x8F,
            Register::READ_OUT_IMAGE_SENSOR_DATA => 0x90,
            Register::SIGNAL_ACCUMULATION_NUMBER => 0xA8,
            Register::ENABLE_BIT_SIGNAL_INTENSITY => 0xBC,
            Register::ENABLE_BIT_MINIMUM_SPOT_SIZE => 0xBD,
            Register::ENABLE_BIT_MAXIMUM_SPOT_SIZE => 0xBE,
            Register::ENABLE_BIT_SPOT_SYMMETRY => 0xBF,
            Register::E_FUSE_TARGET_ADDRESS_READ_OUT_ENABLE_BIT => 0xC8,
            Register::E_FUSE_BIT_NUMBER_BANK_ASSIGN => 0xC9,
            Register::E_FUSE_PROGRAM_ENABLE_BIT => 0xCA,
            Register::E_FUSE_PROGRAM_DATA => 0xCD,
            Register::ACTIVE_STAND_BY_STATE_CONTROL => 0xE8,
            Register::CLOCK_SELECT => 0xEC,
            Register::SOFTWARE_RESET => 0xEE,
            Register::BANK_SELECT => 0xEF,
            Register::RIGHT_EDGE_COORDINATE => 0xF8,
            Register::LEFT_EDGE_COORDINATE => 0xF9,
            Register::PEAK_COORDINATE => 0xFA,
        }
    }

    /// The one-byte bus address of the register.
    pub fn address(self) -> (r: u8)
        ensures
            r == self.spec_address(),
    {
        match self {
            Register::HOLD_BIT => 0x03,
            Register::MAXIMUM_EMITTING_PULSE_WIDTH => 0x13,
            Register::SPOT_SYMMETRY_THRESHOLD => 0x1C,
            Register::SIGNAL_INTENSITY_THRESHOLD => 0x2F,
            Register::MAXIMUM_SPOT_SIZE_THRESHOLD => 0x33,
            Register::MINIMUM_SPOT_SIZE_THRESHOLD => 0x34,
            Register::SHIFT_BIT => 0x35,
            Register::MEDIAN_FILTER => 0x3F,
            Register::SRAM_ACCESS => 0x4C,
            Register::DISTANCE_11_4 => 0x5E,
            Register::DISTANCE_3_0 => 0x5F,
            Register::AE_15_8 => 0x64,
            Register::AE_7_0 => 0x65,
            Register::AG_7_0 => 0x67,
            Register::COVER_COMPENSATION_5_0 => 0x8D,
            Register::COVER_COMPENSATION_10_6 => 0x8E,
            Register::COVER_COMPENSATION_ENABLE_BIT => 0x8F,
            Register::READ_OUT_IMAGE_SENSOR_DATA => 0x90,
            Register::SIGNAL_ACCUMULATION_NUMBER => 0xA8,
            Register::ENABLE_BIT_SIGNAL_INTENSITY => 0xBC,
            Register::ENABLE_BIT_MINIMUM_SPOT_SIZE => 0xBD,
            Register::ENABLE_BIT_MAXIMUM_SPOT_SIZE => 0xBE,
            Register::ENABLE_BIT_SPOT_SYMMETRY => 0xBF,
            Register::E_FUSE_TARGET_ADDRESS_READ_OUT_ENABLE_BIT => 0xC8,
            Register::E_FUSE_BIT_NUMBER_BANK_ASSIGN => 0xC9,
            Register::E_FUSE_PROGRAM_ENABLE_BIT => 0xCA,
            Register::E_FUSE_PROGRAM_DATA => 0xCD,
            Register::ACTIVE_STAND_BY_STATE_CONTROL => 0xE8,
            Register::CLOCK_SELECT => 0xEC,
            Register::SOFTWARE_RESET => 0xEE,
            Register::BANK_SELECT => 0xEF,
            Register::RIGHT_EDGE_COORDINATE => 0xF8,
            Register::LEFT_EDGE_COORDINATE => 0xF9,
            Register::PEAK_COORDINATE => 0xFA,
        }
    }
}

/// The register that sits at a bus address, if any.
pub open spec fn register_at(byte: u8) -> Option<Register> {
    if byte == 0x03 { Some(Register::HOLD_BIT) }
    else if byte == 0x13 { Some(Register::MAXIMUM_EMITTING_PULSE_WIDTH) }
    else if byte == 0x1C { Some(Register::SPOT_SYMMETRY_THRESHOLD) }
    else if byte == 0x2F { Some(Register::SIGNAL_INTENSITY_THRESHOLD) }
    else if byte == 0x33 { Some(Register::MAXIMUM_SPOT_SIZE_THRESHOLD) }
    else if byte == 0x34 { Some(Register::MINIMUM_SPOT_SIZE_THRESHOLD) }
    else if byte == 0x35 { Some(Register::SHIFT_BIT) }
    else if byte == 0x3F { Some(Register::MEDIAN_FILTER) }
    else if byte == 0x4C { Some(Register::SRAM_ACCESS) }
    else if byte == 0x5E { Some(Register::DISTANCE_11_4) }
    else if byte == 0x5F { Some(Register::DISTANCE_3_0) }
    else if byte == 0x64 { Some(Register::AE_15_8) }
    else if byte == 0x65 { Some(Register::AE_7_0) }
    else if byte == 0x67 { Some(Register::AG_7_0) }
    else if byte == 0x8D { Some(Register::COVER_COMPENSATION_5_0) }
    else if byte == 0x8E { Some(Register::COVER_COMPENSATION_10_6) }
    else if byte == 0x8F { Some(Register::COVER_COMPENSATION_ENABLE_BIT) }
    else if byte == 0x90 { Some(Register::READ_OUT_IMAGE_SENSOR_DATA) }
    else if byte == 0xA8 { Some(Register::SIGNAL_ACCUMULATION_NUMBER) }
    else if byte == 0xBC { Some(Register::ENABLE_BIT_SIGNAL_INTENSITY) }
    else if byte == 0xBD { Some(Register::ENABLE_BIT_MINIMUM_SPOT_SIZE) }
    else if byte == 0xBE { Some(Register::ENABLE_BIT_MAXIMUM_SPOT_SIZE) }
    else if byte == 0xBF { Some(Register::ENABLE_BIT_SPOT_SYMMETRY) }
    else if byte == 0xC8 { Some(Register::E_FUSE_TARGET_ADDRESS_READ_OUT_ENABLE_BIT) }
    else if byte == 0xC9 { Some(Register::E_FUSE_BIT_NUMBER_BANK_ASSIGN) }
    else if byte == 0xCA { Some(Register::E_FUSE_PROGRAM_ENABLE_BIT) }
    else if byte == 0xCD { Some(Register::E_FUSE_PROGRAM_DATA) }
    else if byte == 0xE8 { Some(Register::ACTIVE_STAND_BY_STATE_CONTROL) }
    else if byte == 0xEC { Some(Register::CLOCK_SELECT) }
    else if byte == 0xEE { Some(Register::SOFTWARE_RESET) }
    else if byte == 0xEF { Some(Register::BANK_SELECT) }
    else if byte == 0xF8 { Some(Register::RIGHT_EDGE_COORDINATE) }
    else if byte == 0xF9 { Some(Register::LEFT_EDGE_COORDINATE) }
    else if byte == 0xFA { Some(Register::PEAK_COORDINATE) }
    else { None }
}

/// Each register is found back from its bus address.
pub proof fn lemma_register_at_address(r: Register)
    ensures
        register_at(r.spec_address()) == Some(r),
{
}

/// No two registers of the map share a bus address.
pub proof fn lemma_register_addresses_unique(a: Register, b: Register)
    ensures
        a.spec_address() == b.spec_address() ==> a == b,
{
    lemma_register_at_address(a);
    lemma_register_at_address(b);
}

} // verus!
