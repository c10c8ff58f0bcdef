use mcp4725::EEPROMStatus;
use mcp4725::PowerDownMode;
use mcp4725::RegisterStatus;
use mcp4725::fast_write;
use mcp4725::set_voltage;

const MODES: [PowerDownMode; 4] = [
    PowerDownMode::Normal,
    PowerDownMode::OneK,
    PowerDownMode::OneHundredK,
    PowerDownMode::FiveHundredK,
];

#[test]
fn mode_bits_are_inverse() {
    for (i, mode) in MODES.iter().enumerate() {
        assert_eq!(mode.bits(), i as u8);
        assert_eq!(PowerDownMode::from_bits(i as u8), *mode);
    }
}

#[test]
fn dac_code_is_masked_to_twelve_bits() {
    for mode in MODES {
        assert_eq!(fast_write(mode, 0xFAAA), fast_write(mode, 0xFAAA & 0xFFF));
        assert_eq!(mcp4725::encode::write(mode, 0xFFFF, false), mcp4725::encode::write(mode, 0x0FFF, false));
        assert_eq!(mcp4725::encode::write(mode, 0xFFFF, true), mcp4725::encode::write(mode, 0x0FFF, true));
    }
}

#[test]
fn set_voltage_matches_the_write_paths() {
    for dac in [0u16, 0x001, 0x800, 0xAAA, 0xFFF, 0xFFFF] {
        assert_eq!(set_voltage(dac, false), fast_write(PowerDownMode::Normal, dac).to_vec());
        assert_eq!(set_voltage(dac, true), mcp4725::encode::write(PowerDownMode::Normal, dac, true).to_vec());
    }
}

#[test]
fn write_frame_round_trips_through_a_reply() {
    for mode in MODES {
        for dac in [0u16, 0x001, 0x7FF, 0xAAA, 0xFFF, 0xFFFF] {
            let frame = mcp4725::encode::write(mode, dac, false);
            // The frame's bytes line up with the register-status section of a
            // reply: mode in bits 2-1 of the first byte, code shifted left by
            // 4 in the next two.
            let reg = RegisterStatus::new([frame[0], frame[1], frame[2]]);
            assert_eq!(reg.power_down_mode(), mode);
            assert_eq!(reg.dac(), dac & 0xFFF);
            // Embed the same mode and code per the EEPROM-status layout:
            // mode in bits 6-5 of the first byte, code in the low 12 bits.
            let masked = dac & 0xFFF;
            let eeprom = EEPROMStatus::new([
                (mode.bits() << 5) | (masked >> 8) as u8,
                (masked & 0xFF) as u8,
            ]);
            assert_eq!(eeprom.power_down_mode(), mode);
            assert_eq!(eeprom.dac(), masked);
        }
    }
}

#[test]
fn status_flags_come_from_the_top_bits() {
    let body = [0b1010_1010, 0b1010_0000];
    let reg = RegisterStatus::new([0b1000_0000, body[0], body[1]]);
    assert!(reg.eeprom_ready());
    assert!(!reg.por());
    let reg = RegisterStatus::new([0b0100_0000, body[0], body[1]]);
    assert!(!reg.eeprom_ready());
    assert!(reg.por());
    let reg = RegisterStatus::new([0b1100_0110, body[0], body[1]]);
    assert_eq!(reg.read_data(), 0b1100_0110);
}

#[test]
fn largest_and_smallest_codes_encode_exactly() {
    assert_eq!(fast_write(PowerDownMode::Normal, 0), [0b0000_0000, 0b0000_0000]);
    assert_eq!(fast_write(PowerDownMode::Normal, 0xFFF), [0b0000_1111, 0b1111_1111]);
    assert_eq!(mcp4725::encode::write(PowerDownMode::Normal, 0, false), [0b0100_0000, 0, 0]);
    assert_eq!(
        mcp4725::encode::write(PowerDownMode::Normal, 0xFFF, false),
        [0b0100_0000, 0b1111_1111, 0b1111_0000]
    );
}
