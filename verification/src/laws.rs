//! Relations between the command frames and the status reply: masking of
//! over-wide DAC codes, and recovery of mode and code from a reply that
//! carries what a frame wrote.

use vstd::prelude::*;

use crate::encode::fast_write_frame;
use crate::encode::write_frame;
use crate::types::PowerDownMode;
use crate::types::eeprom_dac_code;
use crate::types::register_dac_code;

verus! {

/// The EEPROM-status section of a reply that carries `mode` and the low 12
/// bits of `dac`: the mode in bits 6-5 of the first byte, the code in the
/// low 12 bits of the big-endian word of both bytes.
pub open spec fn eeprom_reply(mode: PowerDownMode, dac: u16) -> Seq<u8> {
    seq![
        ((mode.bits_spec() << 5) | (((dac & 0xFFF) >> 8) as u8)) as u8,
        (dac & 0xFF) as u8,
    ]
}

/// Masking law: a fast write only ever looks at the low 12 bits of the DAC
/// code, so masking the code beforehand changes nothing.
pub proof fn lemma_fast_write_masks(mode: PowerDownMode, dac: u16)
    ensures
        fast_write_frame(mode, dac) == fast_write_frame(mode, (dac & 0xFFF) as u16),
{
    assert(dac & 0xFFF == ((dac & 0xFFF) as u16) & 0xFFF) by (bit_vector);
    assert(fast_write_frame(mode, dac) =~= fast_write_frame(mode, (dac & 0xFFF) as u16));
}

/// Masking law: a full write only ever looks at the low 12 bits of the DAC
/// code, so masking the code beforehand changes nothing.
pub proof fn lemma_write_masks(mode: PowerDownMode, dac: u16, write_eeprom: bool)
    ensures
        write_frame(mode, dac, write_eeprom) == write_frame(
            mode,
            (dac & 0xFFF) as u16,
            write_eeprom,
        ),
{
    assert((dac << 4) as u16 == ((((dac & 0xFFF) as u16)) << 4) as u16) by (bit_vector);
    assert(write_frame(mode, dac, write_eeprom) =~= write_frame(
        mode,
        (dac & 0xFFF) as u16,
        write_eeprom,
    ));
}

/// Round trip: a full-write frame for `(mode, dac)` laid into a status reply
/// decodes back to `mode` and to `dac` masked to 12 bits. The frame's first
/// byte carries the mode exactly where the register-status byte does, and its
/// last two bytes carry the code exactly as the register-status bytes do; the
/// EEPROM-status section built from the same mode and code decodes to them as
/// well.
pub proof fn lemma_write_round_trip(mode: PowerDownMode, dac: u16, write_eeprom: bool)
    ensures
        ({
            let f = write_frame(mode, dac, write_eeprom);
            &&& PowerDownMode::from_bits_spec((f[0] >> 1) & 0b11) == mode
            &&& register_dac_code(f[1], f[2]) == dac & 0xFFF
        }),
        ({
            let e = eeprom_reply(mode, dac);
            &&& PowerDownMode::from_bits_spec((e[0] >> 5) & 0b11) == mode
            &&& eeprom_dac_code(e[0], e[1]) == dac & 0xFFF
        }),
{
    let m = mode.bits_spec();
    let selector: u8 = if write_eeprom { 0b011 } else { 0b010 };
    assert(m < 4);
    let b0 = ((selector << 5) | (m << 1)) as u8;
    let s = (dac << 4) as u16;
    assert((b0 >> 1) & 0b11 == m && register_dac_code((s >> 8) as u8, (s & 0xFF) as u8) == dac
        & 0xFFF) by (bit_vector)
        requires
            m < 4,
            selector == 0b011 || selector == 0b010,
            b0 == ((selector << 5) | (m << 1)) as u8,
            s == (dac << 4) as u16,
    ;
    let e0 = ((m << 5) | (((dac & 0xFFF) >> 8) as u8)) as u8;
    let e1 = (dac & 0xFF) as u8;
    assert((e0 >> 5) & 0b11 == m && eeprom_dac_code(e0, e1) == dac & 0xFFF) by (bit_vector)
        requires
            m < 4,
            e0 == ((m << 5) | (((dac & 0xFFF) >> 8) as u8)) as u8,
            e1 == (dac & 0xFF) as u8,
    ;
}

} // verus!
