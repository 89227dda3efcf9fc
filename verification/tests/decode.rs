//! The tables, the encoders and the decoders on their own.

use lps2x::bus::Command;
use lps2x::fifo::fifo_level;
use lps2x::lps22hb;
use lps2x::lps25hb;
use lps2x::lps25hb::FIFO_MEAN;
use lps2x::register::Control;
use lps2x::sensor::{hpa_from, pressure_from, signed_from, steps_for, temperature_from};
use lps2x::{
    DataStatus, FIFOConfig, FifoStatus, IntStatus, InterruptConfig, Lps22hb, Lps25hb, Registers,
    Sensor, Variant, FIFO_MODE, FIFO_ON, FLAG, INT_ACTIVE, INT_DRDY, INT_PIN,
};

const ALL_REGISTERS: [Registers; 22] = [
    Registers::INTERRUPT_CFG,
    Registers::THS_P_L,
    Registers::THS_P_H,
    Registers::WHO_AM_I,
    Registers::CTRL_REG1,
    Registers::CTRL_REG2,
    Registers::CTRL_REG3,
    Registers::FIFO_CTRL,
    Registers::REF_P_XL,
    Registers::REF_P_L,
    Registers::REF_P_H,
    Registers::RPDS_L,
    Registers::RPDS_H,
    Registers::RES_CONF,
    Registers::INT_SOURCE,
    Registers::FIFO_STATUS,
    Registers::STATUS,
    Registers::PRESS_OUT_XL,
    Registers::PRESS_OUT_L,
    Registers::PRESS_OUT_H,
    Registers::TEMP_OUT_L,
    Registers::TEMP_OUT_H,
];

#[test]
fn register_map_of_the_lps22hb() {
    let expected: [u8; 22] = [
        0x0B, 0x0C, 0x0D, 0x0F, 0x10, 0x11, 0x12, 0x14, 0x15, 0x16, 0x17, 0x18, 0x19, 0x1A, 0x25,
        0x26, 0x27, 0x28, 0x29, 0x2A, 0x2B, 0x2C,
    ];
    for (register, addr) in ALL_REGISTERS.iter().zip(expected) {
        assert_eq!(register.addr(Variant::Lps22hb), addr);
    }
    assert_eq!(lps22hb::LPFP_RES, 0x33);
}

#[test]
fn register_map_of_the_lps25hb() {
    let expected: [u8; 22] = [
        0x24, 0x30, 0x31, 0x0F, 0x20, 0x21, 0x22, 0x2E, 0x08, 0x09, 0x0A, 0x39, 0x3A, 0x10, 0x25,
        0x2F, 0x27, 0x28, 0x29, 0x2A, 0x2B, 0x2C,
    ];
    for (register, addr) in ALL_REGISTERS.iter().zip(expected) {
        assert_eq!(register.addr(Variant::Lps25hb), addr);
    }
}

#[test]
fn register_addresses_are_distinct_within_a_chip() {
    for variant in [Variant::Lps22hb, Variant::Lps25hb] {
        for a in ALL_REGISTERS {
            for b in ALL_REGISTERS {
                assert_eq!(a.addr(variant) == b.addr(variant), a == b);
            }
        }
    }
}

#[test]
fn multi_byte_registers_are_neighbours() {
    for variant in [Variant::Lps22hb, Variant::Lps25hb] {
        assert_eq!(Registers::PRESS_OUT_L.addr(variant), Registers::PRESS_OUT_XL.addr(variant) + 1);
        assert_eq!(Registers::PRESS_OUT_H.addr(variant), Registers::PRESS_OUT_XL.addr(variant) + 2);
        assert_eq!(Registers::REF_P_L.addr(variant), Registers::REF_P_XL.addr(variant) + 1);
        assert_eq!(Registers::REF_P_H.addr(variant), Registers::REF_P_XL.addr(variant) + 2);
        assert_eq!(Registers::TEMP_OUT_H.addr(variant), Registers::TEMP_OUT_L.addr(variant) + 1);
        assert_eq!(Registers::THS_P_H.addr(variant), Registers::THS_P_L.addr(variant) + 1);
        assert_eq!(Registers::RPDS_H.addr(variant), Registers::RPDS_L.addr(variant) + 1);
    }
}

#[test]
fn controls_that_move_between_the_chips() {
    assert_eq!(Control::BlockDataUpdate.locate(Variant::Lps22hb), (0x10, 0b0000_0010));
    assert_eq!(Control::BlockDataUpdate.locate(Variant::Lps25hb), (0x20, 0b0000_0100));
    assert_eq!(Control::Autozero.locate(Variant::Lps22hb), (0x0B, 0b0010_0000));
    assert_eq!(Control::Autozero.locate(Variant::Lps25hb), (0x21, 0b0000_0010));
    assert_eq!(Control::AutozeroReset.locate(Variant::Lps22hb), (0x0B, 0b0001_0000));
    assert_eq!(Control::AutozeroReset.locate(Variant::Lps25hb), (0x20, 0b0000_0010));
    assert_eq!(Control::DifferentialInterrupt.locate(Variant::Lps22hb), (0x0B, 0b0000_1000));
    assert_eq!(Control::DifferentialInterrupt.locate(Variant::Lps25hb), (0x20, 0b0000_1000));
}

#[test]
fn chips_know_their_tag_and_their_rates() {
    assert_eq!(Lps22hb::variant(), Variant::Lps22hb);
    assert_eq!(Lps25hb::variant(), Variant::Lps25hb);
    assert_eq!(Lps22hb::rate_value(lps22hb::ODR::_25Hz), 0b0011_0000);
    assert_eq!(Lps25hb::rate_value(lps25hb::ODR::_25Hz), 0b0100_0000);
    assert_eq!(Lps22hb::rate_value(lps22hb::ODR::PowerDown), 0);
    assert_eq!(Lps25hb::rate_value(lps25hb::ODR::OneShot), 0);
    assert_eq!(Lps22hb::rate_value(lps22hb::ODR::_75Hz), 0b0101_0000);
}

#[test]
fn switch_sets_or_clears() {
    assert!(matches!(
        Command::switch(0x10, 0x02, true),
        Command::Modify { addr: 0x10, clear: 0, set: 0x02 }
    ));
    assert!(matches!(
        Command::switch(0x10, 0x02, false),
        Command::Modify { addr: 0x10, clear: 0x02, set: 0 }
    ));
}

#[test]
fn flags_and_choices_have_their_bits() {
    assert!(FLAG::Enabled.status());
    assert!(!FLAG::Disabled.status());
    assert!(FIFO_ON::Enabled.status());
    assert!(!FIFO_ON::Disabled.status());
    assert!(!INT_ACTIVE::High.status());
    assert!(INT_ACTIVE::Low.status());
    assert!(!INT_PIN::PushPull.status());
    assert!(INT_PIN::OpenDrain.status());
    assert_eq!(INT_DRDY::DataSignal.value(), 0b00);
    assert_eq!(INT_DRDY::P_high.value(), 0b01);
    assert_eq!(INT_DRDY::P_low.value(), 0b10);
    assert_eq!(INT_DRDY::P_low_or_high.value(), 0b11);
}

#[test]
fn fifo_modes_are_shifted_into_bits_7_to_5() {
    assert_eq!(FIFO_MODE::Bypass.value(), 0b000 << 5);
    assert_eq!(FIFO_MODE::FIFO.value(), 0b001 << 5);
    assert_eq!(FIFO_MODE::Stream.value(), 0b010 << 5);
    assert_eq!(FIFO_MODE::Stream_to_FIFO.value(), 0b011 << 5);
    assert_eq!(FIFO_MODE::Bypass_to_stream.value(), 0b100 << 5);
    assert_eq!(FIFO_MODE::Dynamic_Stream.value(), 0b110 << 5);
    assert_eq!(FIFO_MODE::FIFO_Mean.value(), 0b110 << 5);
    assert_eq!(FIFO_MODE::Bypass_to_FIFO.value(), 0b111 << 5);
}

#[test]
fn fifo_mean_sample_sizes() {
    assert_eq!(FIFO_MEAN::_2sample.value(), 0b00001);
    assert_eq!(FIFO_MEAN::_4sample.value(), 0b00011);
    assert_eq!(FIFO_MEAN::_8sample.value(), 0b00111);
    assert_eq!(FIFO_MEAN::_16sample.value(), 0b01111);
    assert_eq!(FIFO_MEAN::_32sample.value(), 0b11111);
}

#[test]
fn fifo_config_bits_for_ctrl_reg2() {
    let mut config = FIFOConfig::default();
    assert_eq!(config.f_ctrl_reg2(Variant::Lps22hb), 0);
    assert_eq!(config.f_ctrl_reg2(Variant::Lps25hb), 0);
    config.enable_watermark = FLAG::Enabled;
    assert_eq!(config.f_ctrl_reg2(Variant::Lps22hb), 1 << 5);
    assert_eq!(config.f_ctrl_reg2(Variant::Lps25hb), 1 << 5);
    config.enable_decimating = FLAG::Enabled;
    assert_eq!(config.f_ctrl_reg2(Variant::Lps22hb), 1 << 5);
    assert_eq!(config.f_ctrl_reg2(Variant::Lps25hb), (1 << 5) | (1 << 4));
    config.enable_watermark = FLAG::Disabled;
    assert_eq!(config.f_ctrl_reg2(Variant::Lps25hb), 1 << 4);
}

#[test]
fn fifo_config_byte_for_fifo_ctrl() {
    let mut config = FIFOConfig::default();
    // the default level, 32, is written as it is
    assert_eq!(config.f_fifo_ctrl(Variant::Lps22hb), 32);
    config.fifo_mode = FIFO_MODE::Stream_to_FIFO;
    config.watermark_level = 0;
    assert_eq!(config.f_fifo_ctrl(Variant::Lps22hb), 0b0110_0000);
    config.watermark_level = 31;
    assert_eq!(config.f_fifo_ctrl(Variant::Lps25hb), 0b0111_1111);
    config.fifo_mode = FIFO_MODE::FIFO_Mean;
    config.fifo_mean_config = FIFO_MEAN::_16sample;
    config.watermark_level = 1;
    assert_eq!(config.f_fifo_ctrl(Variant::Lps25hb), 0b1100_1111);
    assert_eq!(config.f_fifo_ctrl(Variant::Lps22hb), 0b1100_0001);
    config.fifo_mode = FIFO_MODE::Dynamic_Stream;
    assert_eq!(config.f_fifo_ctrl(Variant::Lps25hb), 0b1100_0001);
}

#[test]
fn fifo_level_lps25hb() {
    // empty flag set and field 0x1F: the flag wins
    assert_eq!(fifo_level(Variant::Lps25hb, 0b0011_1111), 0);
    // empty flag clear and field 5
    assert_eq!(fifo_level(Variant::Lps25hb, 0b0000_0101), 6);
    assert_eq!(fifo_level(Variant::Lps25hb, 0b0000_0000), 1);
    assert_eq!(fifo_level(Variant::Lps25hb, 0b1101_1111), 32);
    assert_eq!(fifo_level(Variant::Lps25hb, 0b0010_0000), 0);
}

#[test]
fn fifo_level_lps22hb_is_never_offset() {
    for status in 0..=255u8 {
        assert_eq!(fifo_level(Variant::Lps22hb, status), status & 0x3F);
    }
}

#[test]
fn fifo_status_decodes_each_flag_by_its_mask() {
    assert_eq!(
        FifoStatus::decode(Variant::Lps25hb, 0b1000_0000),
        FifoStatus {
            fifo_thresh_reached: true,
            fifo_overrun: false,
            fifo_empty: false,
            fifo_level: 1
        }
    );
    assert_eq!(
        FifoStatus::decode(Variant::Lps25hb, 0b0100_0011),
        FifoStatus {
            fifo_thresh_reached: false,
            fifo_overrun: true,
            fifo_empty: false,
            fifo_level: 4
        }
    );
    assert_eq!(
        FifoStatus::decode(Variant::Lps22hb, 0b0110_0000),
        FifoStatus {
            fifo_thresh_reached: false,
            fifo_overrun: true,
            fifo_empty: false,
            fifo_level: 32
        }
    );
    assert_eq!(
        FifoStatus::decode(Variant::Lps22hb, 0b0000_0000),
        FifoStatus {
            fifo_thresh_reached: false,
            fifo_overrun: false,
            fifo_empty: true,
            fifo_level: 0
        }
    );
}

#[test]
fn interrupt_config_pin_byte() {
    let mut config = InterruptConfig::default();
    config.active_high_or_low = INT_ACTIVE::Low;
    assert_eq!(config.int_ctrl_reg3(Variant::Lps22hb), 1 << 7);
    config.pushpull_or_opendrain = INT_PIN::OpenDrain;
    assert_eq!(config.int_ctrl_reg3(Variant::Lps22hb), (1 << 7) | (1 << 6));
    config.data_signal_config = INT_DRDY::P_low_or_high;
    assert_eq!(config.int_ctrl_reg3(Variant::Lps22hb), 0b1100_0011);
    assert_eq!(config.int_ctrl_reg3(Variant::Lps25hb), 0b1100_0011);
    config.enable_fifo_full = FLAG::Enabled;
    assert_eq!(config.int_ctrl_reg3(Variant::Lps25hb), 0b1110_0011);
    config.enable_fifo_fth = FLAG::Enabled;
    assert_eq!(config.int_ctrl_reg3(Variant::Lps25hb), 0b1111_0011);
    config.enable_fifo_overrun = FLAG::Enabled;
    assert_eq!(config.int_ctrl_reg3(Variant::Lps25hb), 0b1111_1011);
    config.enable_data_ready = FLAG::Enabled;
    assert_eq!(config.int_ctrl_reg3(Variant::Lps25hb), 0b1111_1111);
    assert_eq!(config.int_ctrl_reg3(Variant::Lps22hb), 0b1100_0011);
}

#[test]
fn interrupt_config_source_byte() {
    let mut config = InterruptConfig::default();
    config.enable_latch_interrupt = FLAG::Enabled;
    assert_eq!(config.int_interrupt_cfg(), 1 << 2);
    config.enable_low_event = FLAG::Enabled;
    assert_eq!(config.int_interrupt_cfg(), (1 << 2) | (1 << 1));
    config.enable_high_event = FLAG::Enabled;
    assert_eq!(config.int_interrupt_cfg(), 0b0000_0111);
    config.enable_latch_interrupt = FLAG::Disabled;
    assert_eq!(config.int_interrupt_cfg(), 0b0000_0011);
}

#[test]
fn int_status_decodes_each_flag_by_its_mask() {
    assert_eq!(
        IntStatus::decode(0b0000_0100),
        IntStatus { interrupt_active: true, diff_press_low: false, diff_press_high: false }
    );
    assert_eq!(
        IntStatus::decode(0b0000_0010),
        IntStatus { interrupt_active: false, diff_press_low: true, diff_press_high: false }
    );
    assert_eq!(
        IntStatus::decode(0b0000_0001),
        IntStatus { interrupt_active: false, diff_press_low: false, diff_press_high: true }
    );
    assert_eq!(
        IntStatus::decode(0b1111_1000),
        IntStatus { interrupt_active: false, diff_press_low: false, diff_press_high: false }
    );
}

#[test]
fn data_status_has_pressure_and_temperature_swapped_between_the_chips() {
    for status in 0..=255u8 {
        let a = DataStatus::decode(Variant::Lps22hb, status);
        let b = DataStatus::decode(Variant::Lps25hb, status);
        assert_eq!(a.press_available, status & 0x01 != 0);
        assert_eq!(a.temp_available, status & 0x02 != 0);
        assert_eq!(a.press_overrun, status & 0x10 != 0);
        assert_eq!(a.temp_overrun, status & 0x20 != 0);
        assert_eq!(b.temp_available, status & 0x01 != 0);
        assert_eq!(b.press_available, status & 0x02 != 0);
        assert_eq!(b.temp_overrun, status & 0x10 != 0);
        assert_eq!(b.press_overrun, status & 0x20 != 0);
    }
}

#[test]
fn pressure_from_three_bytes() {
    let p = pressure_from(0x00, 0x00, 0x10);
    assert_eq!(p.counts, 1_048_576);
    assert_eq!(p.per_hpa, 4096);
    assert_eq!(p.counts as f32 / p.per_hpa as f32, 256.0);
    assert_eq!(pressure_from(0x00, 0x00, 0x01).counts as f32 / 4096.0, 16.0);
    assert_eq!(pressure_from(0x00, 0x10, 0x00).counts as f32 / 4096.0, 1.0);
    assert_eq!(pressure_from(0x01, 0x02, 0x03).counts, 0x03_0201);
    assert_eq!(pressure_from(0xFF, 0xFF, 0xFF).counts, 16_777_215);
    assert_eq!(pressure_from(0, 0, 0).counts, 0);
}

#[test]
fn signed_from_two_bytes() {
    assert_eq!(signed_from(0xC0, 0x12), 4800);
    assert_eq!(signed_from(0x00, 0x00), 0);
    assert_eq!(signed_from(0xFF, 0x7F), i16::MAX);
    assert_eq!(signed_from(0x00, 0x80), i16::MIN);
    assert_eq!(signed_from(0xFF, 0xFF), -1);
    for hi in 0..=255u8 {
        for lo in [0u8, 1, 0x7F, 0x80, 0xFF] {
            assert_eq!(signed_from(lo, hi), i16::from_le_bytes([lo, hi]));
        }
    }
}

#[test]
fn temperature_from_two_bytes() {
    let a = temperature_from(Variant::Lps22hb, 0xC0, 0x12);
    assert_eq!((a.counts, a.per_degree, a.offset_tenths), (4800, 100, 0));
    assert_eq!(a.counts as f32 / a.per_degree as f32 + a.offset_tenths as f32 / 10.0, 48.0);
    let b = temperature_from(Variant::Lps25hb, 0x00, 0x00);
    assert_eq!((b.counts, b.per_degree, b.offset_tenths), (0, 480, 425));
    assert_eq!(b.counts as f32 / b.per_degree as f32 + b.offset_tenths as f32 / 10.0, 42.5);
    // 480 counts are one degree above the offset
    let c = temperature_from(Variant::Lps25hb, 0xE0, 0x01);
    assert_eq!(c.counts as f32 / c.per_degree as f32 + c.offset_tenths as f32 / 10.0, 43.5);
}

#[test]
fn hpa_from_sixteenths() {
    assert_eq!(hpa_from(160, 0), 10);
    assert_eq!(hpa_from(0, 0), 0);
    assert_eq!(hpa_from(15, 0), 0);
    assert_eq!(hpa_from(16, 0), 1);
    assert_eq!(hpa_from(0xFF, 0x7F), 2047);
    assert_eq!(hpa_from(0x00, 0x80), -2048);
    assert_eq!(hpa_from(0xFF, 0xFF), 0);
    assert_eq!(hpa_from(0xF0, 0xFF), -1);
    assert_eq!(hpa_from(0xEF, 0xFF), -1);
    for hi in 0..=255u8 {
        for lo in [0u8, 1, 15, 16, 0x7F, 0x80, 0xFF] {
            assert_eq!(hpa_from(lo, hi), i16::from_le_bytes([lo, hi]) / 16);
        }
    }
}

#[test]
fn steps_for_hectopascals() {
    assert_eq!(steps_for(10), (160, 0));
    assert_eq!(steps_for(0), (0, 0));
    assert_eq!(steps_for(16), (0, 1));
    assert_eq!(steps_for(4095), (0xF0, 0xFF));
    for hpa in 0..=2047u16 {
        let (lo, hi) = steps_for(hpa);
        assert_eq!(hpa_from(lo, hi), hpa as i16);
    }
}
