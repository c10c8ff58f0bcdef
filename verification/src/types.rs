//! The power-down mode enumeration and the two parsed status views.

use vstd::prelude::*;

verus! {

/// Power down modes
///
/// Each variant has a fixed 2-bit wire encoding, given by [`PowerDownMode::bits`];
/// the encoder and decoder both rely on that mapping.
#[derive(Clone, Copy, Debug, PartialEq, Eq, Structural)]
pub enum PowerDownMode {
    /// Normal mode
    Normal,
    /// 1k ohm resistor to ground
    OneK,
    /// 100k ohm resistor to ground
    OneHundredK,
    /// 500k ohm resistor to ground
    FiveHundredK,
}

impl PowerDownMode {
    /// The 2-bit wire encoding of this mode.
    pub open spec fn bits_spec(self) -> u8 {
        match self {
            PowerDownMode::Normal => 0b00,
            PowerDownMode::OneK => 0b01,
            PowerDownMode::OneHundredK => 0b10,
            PowerDownMode::FiveHundredK => 0b11,
        }
    }

    /// The mode encoded by a 2-bit pattern. Callers hand in already-masked
    /// values; anything above 2 bits falls into the last variant.
    pub open spec fn from_bits_spec(bits: u8) -> PowerDownMode {
        if bits == 0b00 {
            PowerDownMode::Normal
        } else if bits == 0b01 {
            PowerDownMode::OneK
        } else if bits == 0b10 {
            PowerDownMode::OneHundredK
        } else {
            PowerDownMode::FiveHundredK
        }
    }

    /// Convert this mode to its 2-bit wire encoding.
    pub fn bits(self) -> (r: u8)
        ensures
            r == self.bits_spec(),
    {
        match self {
            PowerDownMode::Normal => 0b00,
            PowerDownMode::OneK => 0b01,
            PowerDownMode::OneHundredK => 0b10,
            PowerDownMode::FiveHundredK => 0b11,
        }
    }

    /// Convert a 2-bit wire pattern back to the mode it encodes.
    pub fn from_bits(bits: u8) -> (r: PowerDownMode)
        ensures
            r == PowerDownMode::from_bits_spec(bits),
    {
        if bits == 0b00 {
            PowerDownMode::Normal
        } else if bits == 0b01 {
            PowerDownMode::OneK
        } else if bits == 0b10 {
            PowerDownMode::OneHundredK
        } else {
            PowerDownMode::FiveHundredK
        }
    }
}

/// The two encodings are inverse to each other: every mode survives a trip
/// through its 2-bit pattern, and every 2-bit pattern survives a trip through
/// the mode it encodes.
pub proof fn lemma_mode_bits_inverse(mode: PowerDownMode, bits: u8)
    requires
        bits < 4,
    ensures
        PowerDownMode::from_bits_spec(mode.bits_spec()) == mode,
        PowerDownMode::from_bits_spec(bits).bits_spec() == bits,
{
}

/// A 16-bit word assembled from two bytes, high byte first.
pub open spec fn be16(hi: u8, lo: u8) -> u16 {
    (((hi as u16) << 8) | (lo as u16)) as u16
}

/// The 12-bit DAC code carried by the register-status section of a reply:
/// the big-endian word of the two bytes, shifted right by 4 bits (the code
/// sits in bits 15-4, the low 4 bits are padding).
pub open spec fn register_dac_code(hi: u8, lo: u8) -> u16 {
    be16(hi, lo) >> 4
}

/// The 12-bit DAC code carried by the EEPROM-status section of a reply:
/// the low 12 bits of the big-endian word of the two bytes, unshifted.
///
/// This packing deliberately differs from [`register_dac_code`]: the device
/// really does store the code shifted in one section and unshifted in the
/// other.
pub open spec fn eeprom_dac_code(hi: u8, lo: u8) -> u16 {
    (be16(hi, lo) & 0xFFF) as u16
}

/// The DAC register status
#[derive(Clone, Copy, Debug)]
pub struct RegisterStatus {
    /// Data registers
    data: u8,
    /// DAC value
    dac: u16,
}

impl RegisterStatus {
    /// The raw status byte this view was parsed from.
    pub closed spec fn data_spec(self) -> u8 {
        self.data
    }

    /// The parsed 12-bit DAC code.
    pub closed spec fn dac_spec(self) -> u16 {
        self.dac
    }

    /// Only the low 12 bits of the DAC code are ever significant.
    pub open spec fn wf(self) -> bool {
        self.dac_spec() <= 0xFFF
    }

    /// Parse the first three bytes of a status reply: the raw status byte,
    /// then the DAC code packed shifted left by 4 across two big-endian bytes.
    pub fn new(data: [u8; 3]) -> (r: RegisterStatus)
        ensures
            r.data_spec() == data@[0],
            r.dac_spec() == register_dac_code(data@[1], data@[2]),
            r.wf(),
    {
        let hi = data[1];
        let lo = data[2];
        let word: u16 = ((hi as u16) << 8) | (lo as u16);
        let dac: u16 = word >> 4;
        proof {
            assert(be16(hi, lo) >> 4 <= 0xFFF) by (bit_vector);
        }
        RegisterStatus { data: data[0], dac }
    }

    /// Get the raw read data
    pub fn read_data(&self) -> (r: u8)
        ensures
            r == self.data_spec(),
    {
        self.data
    }

    /// Is the EEPROM ready? Returns:
    /// * `true` if the previous EEPROM write has completed and it is ready for a new write
    /// * `false` if the previous EEPROM write has not completed and it is not ready for a new write
    pub fn eeprom_ready(&self) -> (r: bool)
        ensures
            r == (self.data_spec() & 0b1000_0000 != 0),
    {
        self.data & 0b1000_0000 != 0
    }

    /// Get the power on reset state
    pub fn por(&self) -> (r: bool)
        ensures
            r == (self.data_spec() & 0b0100_0000 != 0),
    {
        self.data & 0b0100_0000 != 0
    }

    /// Get the power down mode
    pub fn power_down_mode(&self) -> (r: PowerDownMode)
        ensures
            r == PowerDownMode::from_bits_spec((self.data_spec() >> 1) & 0b11),
    {
        let bits = (self.data & 0b0000_0110) >> 1;
        proof {
            let d = self.data;
            assert((d & 0b0000_0110) >> 1 == (d >> 1) & 0b11) by (bit_vector);
        }
        PowerDownMode::from_bits(bits)
    }

    /// Get the DAC value
    pub fn dac(&self) -> (r: u16)
        ensures
            r == self.dac_spec(),
    {
        self.dac
    }
}

/// The EEPROM status
#[derive(Clone, Copy, Debug)]
pub struct EEPROMStatus {
    power_down_mode: PowerDownMode,
    dac: u16,
}

impl EEPROMStatus {
    /// The parsed power-down mode.
    pub closed spec fn power_down_mode_spec(self) -> PowerDownMode {
        self.power_down_mode
    }

    /// The parsed 12-bit DAC code.
    pub closed spec fn dac_spec(self) -> u16 {
        self.dac
    }

    /// Only the low 12 bits of the DAC code are ever significant.
    pub open spec fn wf(self) -> bool {
        self.dac_spec() <= 0xFFF
    }

    /// Parse the last two bytes of a status reply: the power-down mode in
    /// bits 6-5 of the first byte, and the DAC code in the low 12 bits of the
    /// big-endian word of both bytes.
    pub fn new(data: [u8; 2]) -> (r: EEPROMStatus)
        ensures
            r.power_down_mode_spec() == PowerDownMode::from_bits_spec((data@[0] >> 5) & 0b11),
            r.dac_spec() == eeprom_dac_code(data@[0], data@[1]),
            r.wf(),
    {
        let b0 = data[0];
        let b1 = data[1];
        let bits = (b0 & 0b0110_0000) >> 5;
        proof {
            assert((b0 & 0b0110_0000) >> 5 == (b0 >> 5) & 0b11) by (bit_vector);
            assert((be16(b0, b1) & 0xFFF) as u16 <= 0xFFF) by (bit_vector);
        }
        let power_down_mode = PowerDownMode::from_bits(bits);
        let word: u16 = ((b0 as u16) << 8) | (b1 as u16);
        let dac: u16 = word & 0xFFF;
        EEPROMStatus { power_down_mode, dac }
    }

    /// Get the power down mode
    pub fn power_down_mode(&self) -> (r: PowerDownMode)
        ensures
            r == self.power_down_mode_spec(),
    {
        self.power_down_mode
    }

    /// Get the DAC value
    pub fn dac(&self) -> (r: u16)
        ensures
            r == self.dac_spec(),
    {
        self.dac
    }
}

} // verus!
