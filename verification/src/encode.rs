//! Building the command frames for the three write operations.

use vstd::prelude::*;

use crate::types::PowerDownMode;

verus! {

/// The 2-byte fast-write frame, as a big-endian 16-bit word:
/// bits 15-14 are the fast-write selector `00`, bits 13-12 the power-down
/// mode, bits 11-0 the DAC code masked to 12 bits.
pub open spec fn fast_write_frame(mode: PowerDownMode, dac: u16) -> Seq<u8> {
    let word = ((dac & 0xFFF) | ((mode.bits_spec() as u16) << 12)) as u16;
    seq![(word >> 8) as u8, (word & 0xFF) as u8]
}

/// The 3-byte full-write frame. Byte 0: the command selector in bits 7-5
/// (`010` register-only, `011` write-and-persist), the power-down mode in
/// bits 2-1, all other bits zero. Bytes 1-2: the 12-bit DAC code shifted
/// left by 4 and packed big-endian, low 4 bits zero padding.
pub open spec fn write_frame(mode: PowerDownMode, dac: u16, write_eeprom: bool) -> Seq<u8> {
    let selector: u8 = if write_eeprom { 0b011 } else { 0b010 };
    let b0 = ((selector << 5) | (mode.bits_spec() << 1)) as u8;
    let shifted = (dac << 4) as u16;
    seq![b0, (shifted >> 8) as u8, (shifted & 0xFF) as u8]
}

/// Build the fast-write command: set the power-down mode and the DAC
/// register without touching the EEPROM. Only the lower 12 bits of the DAC
/// value are used; higher bits are silently discarded.
pub fn fast_write(power_down_mode: PowerDownMode, dac: u16) -> (r: [u8; 2])
    ensures
        r@ == fast_write_frame(power_down_mode, dac),
        r@[0] >> 6 == 0,
        (r@[0] >> 4) & 0b11 == power_down_mode.bits_spec(),
        (((r@[0] & 0xF) as u16) << 8) | (r@[1] as u16) == dac & 0xFFF,
{
    let m = power_down_mode.bits();
    let word: u16 = (dac & 0xFFF) | ((m as u16) << 12);
    let r: [u8; 2] = [(word >> 8) as u8, (word & 0xFF) as u8];
    proof {
        assert(m < 4);
        let w = word;
        assert(((w >> 8) as u8) >> 6 == 0 && (((w >> 8) as u8) >> 4) & 0b11 == m && (((((w >> 8)
            as u8) & 0xF) as u16) << 8) | (((w & 0xFF) as u8) as u16) == dac & 0xFFF)
            by (bit_vector)
            requires
                m < 4,
                w == ((dac & 0xFFF) | ((m as u16) << 12)) as u16,
        ;
        assert(r@ =~= fast_write_frame(power_down_mode, dac));
    }
    r
}

/// Build the full-write command: set the power-down mode and the DAC
/// register, and optionally persist both to the EEPROM. Only the lower 12
/// bits of the DAC value are used; higher bits are silently discarded.
pub fn write(power_down_mode: PowerDownMode, dac: u16, write_eeprom: bool) -> (r: [u8; 3])
    ensures
        r@ == write_frame(power_down_mode, dac, write_eeprom),
        r@[0] >> 5 == if write_eeprom { 0b011u8 } else { 0b010u8 },
        (r@[0] >> 1) & 0b11 == power_down_mode.bits_spec(),
        r@[0] & 0b0001_1001 == 0,
        ((((r@[1] as u16) << 8) | (r@[2] as u16)) >> 4) == dac & 0xFFF,
        r@[2] & 0xF == 0,
{
    let m = power_down_mode.bits();
    let selector: u8 = if write_eeprom { 0b011 } else { 0b010 };
    let b0: u8 = (selector << 5) | (m << 1);
    let shifted: u16 = dac << 4;
    let r: [u8; 3] = [b0, (shifted >> 8) as u8, (shifted & 0xFF) as u8];
    proof {
        assert(m < 4);
        let s = shifted;
        assert((((selector << 5) | (m << 1)) as u8) >> 5 == selector && ((((selector << 5) | (m
            << 1)) as u8) >> 1) & 0b11 == m && (((selector << 5) | (m << 1)) as u8) & 0b0001_1001
            == 0 && (((((s >> 8) as u8) as u16) << 8) | (((s & 0xFF) as u8) as u16)) >> 4 == dac
            & 0xFFF && ((s & 0xFF) as u8) & 0xF == 0) by (bit_vector)
            requires
                m < 4,
                selector == 0b011 || selector == 0b010,
                s == (dac << 4) as u16,
        ;
        assert(r@ =~= write_frame(power_down_mode, dac, write_eeprom));
    }
    r
}

/// Build the command that just sets the output voltage, in `Normal`
/// power-down mode. Only the lower 12 bits of the DAC value are used. If
/// `write_eeprom` is true the frame is the full write that also persists the
/// value (and `Normal` mode) to the EEPROM; otherwise it is the fast write.
pub fn set_voltage(dac: u16, write_eeprom: bool) -> (r: Vec<u8>)
    ensures
        write_eeprom ==> r@ == write_frame(PowerDownMode::Normal, dac, true),
        !write_eeprom ==> r@ == fast_write_frame(PowerDownMode::Normal, dac),
{
    let mut r: Vec<u8> = Vec::new();
    if write_eeprom {
        let frame = write(PowerDownMode::Normal, dac, true);
        r.push(frame[0]);
        r.push(frame[1]);
        r.push(frame[2]);
        proof {
            assert(r@ =~= write_frame(PowerDownMode::Normal, dac, true));
        }
    } else {
        let frame = fast_write(PowerDownMode::Normal, dac);
        r.push(frame[0]);
        r.push(frame[1]);
        proof {
            assert(r@ =~= fast_write_frame(PowerDownMode::Normal, dac));
        }
    }
    r
}

} // verus!
