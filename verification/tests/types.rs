use mp3326::types::Channels;
use mp3326::types::Control;
use mp3326::types::Current;
use mp3326::types::DimmingFreq;
use mp3326::types::Error;
use mp3326::types::OtpAndRefreshFreq;
use mp3326::types::Pwm;
use mp3326::types::PwmLsb;
use mp3326::types::PwmMsb;
use mp3326::types::RefreshFreq;
use mp3326::types::RegisterError;
use mp3326::types::ShortThreshold;
use mp3326::types::Slew;
use mp3326::types::FPWM;

#[test]
fn control_default_is_0x40() {
    let raw: u8 = Control::default().into();
    assert_eq!(raw, 0x40);
}

#[test]
fn control_0x40_decodes_to_latch_only() {
    let c = Control::from(0x40);
    assert!(!c.device_enable);
    assert!(!c.phase_shift_enable);
    assert_eq!(c.slew, Slew::NoSlew);
    assert_eq!(c.short_threshold, ShortThreshold::V2);
    assert!(c.latch_enable);
    assert!(!c.fault_enable);
    assert_eq!(c, Control::default());
}

#[test]
fn control_fields_sit_at_their_bits() {
    let c = Control {
        device_enable: true,
        phase_shift_enable: false,
        slew: Slew::Us10,
        short_threshold: ShortThreshold::V5,
        latch_enable: false,
        fault_enable: true,
    };
    assert_eq!(u8::from(c), 0b1011_1001);
    assert_eq!(Control::from(0b1011_1001), c);
    assert_eq!(u8::from(Control::from(0x02)), 0x02);
    assert!(Control::from(0x02).phase_shift_enable);
    assert_eq!(Control::from(0x04).slew, Slew::Us5);
    assert_eq!(Control::from(0x0c).slew, Slew::Us20);
    assert_eq!(Control::from(0x10).short_threshold, ShortThreshold::V3);
    assert_eq!(Control::from(0x20).short_threshold, ShortThreshold::V4);
    assert_eq!(u8::from(Control::new()), 0x00);
}

#[test]
fn control_round_trip_all_bytes() {
    for raw in 0u8..=255 {
        assert_eq!(u8::from(Control::from(raw)), raw);
    }
}

#[test]
fn dimming_freq_round_trip_all_bytes() {
    for raw in 0u8..=255 {
        assert_eq!(u8::from(DimmingFreq::from(raw)), raw & 0x03);
    }
}

#[test]
fn dimming_freq_selectors() {
    assert_eq!(DimmingFreq::from(0).fpwm, FPWM::Hz220);
    assert_eq!(DimmingFreq::from(1).fpwm, FPWM::Hz250);
    assert_eq!(DimmingFreq::from(2).fpwm, FPWM::Hz280);
    assert_eq!(DimmingFreq::from(3).fpwm, FPWM::Hz330);
    assert_eq!(DimmingFreq::from(0xfe).fpwm, FPWM::Hz280);
    assert_eq!(u8::from(DimmingFreq { fpwm: FPWM::Hz330 }), 3);
    assert_eq!(u8::from(DimmingFreq::new()), 0);
}

#[test]
fn selector_codes() {
    assert_eq!(FPWM::Hz280.bits(), 2);
    assert_eq!(FPWM::from_bits(7), FPWM::Hz330);
    assert_eq!(Slew::Us20.bits(), 3);
    assert_eq!(Slew::from_bits(4), Slew::NoSlew);
    assert_eq!(ShortThreshold::V4.bits(), 2);
    assert_eq!(ShortThreshold::from_bits(1), ShortThreshold::V3);
}

#[test]
fn otp_and_refresh_freq_round_trip_all_bytes() {
    for raw in 0u8..=255 {
        let v = OtpAndRefreshFreq::from(raw);
        assert_eq!(v.freq_shift_1_0(), raw & 0x03);
        assert_eq!(v.over_temp_fault(), raw & 0x04 != 0);
        assert_eq!(u8::from(v), raw & 0x07);
    }
}

#[test]
fn otp_and_refresh_freq_default_is_0x01() {
    let v = OtpAndRefreshFreq::default();
    assert_eq!(u8::from(v), 0x01);
    assert_eq!(v.freq_shift_1_0(), 1);
    assert!(!v.over_temp_fault());
}

#[test]
fn otp_and_refresh_freq_builders() {
    let v = OtpAndRefreshFreq::new().with_freq_shift_1_0(2).with_over_temp_fault(true);
    assert_eq!(u8::from(v), 0x06);
    assert_eq!(OtpAndRefreshFreq::new().with_freq_shift_1_0_checked(4), None);
    assert_eq!(
        OtpAndRefreshFreq::new().with_freq_shift_1_0_checked(3).map(u8::from),
        Some(0x03)
    );
}

#[test]
fn refresh_freq_round_trip_all_bytes() {
    for raw in 0u8..=255 {
        assert_eq!(RefreshFreq::from(raw).freq_shift_1_0, raw);
        assert_eq!(u8::from(RefreshFreq::from(raw)), raw);
    }
}

#[test]
fn refresh_freq_default_is_0x6a() {
    assert_eq!(u8::from(RefreshFreq::default()), 0x6a);
    assert_eq!(u8::from(RefreshFreq::new()), 0x00);
}

#[test]
fn channels_round_trip_all_bytes() {
    for raw in 0u8..=255 {
        let c = Channels::from(raw);
        assert_eq!(c.offset0, raw & 0x01 != 0);
        assert_eq!(c.offset1, raw & 0x02 != 0);
        assert_eq!(c.offset2, raw & 0x04 != 0);
        assert_eq!(c.offset3, raw & 0x08 != 0);
        assert_eq!(c.offset4, raw & 0x10 != 0);
        assert_eq!(c.offset5, raw & 0x20 != 0);
        assert_eq!(c.offset6, raw & 0x40 != 0);
        assert_eq!(c.offset7, raw & 0x80 != 0);
        assert_eq!(u8::from(c), raw);
    }
}

#[test]
fn channels_default_is_0x00() {
    let c = Channels::default();
    assert_eq!(u8::from(c), 0x00);
    assert_eq!(c, Channels::new());
    assert!(!c.offset0 && !c.offset7);
}

#[test]
fn channels_0b101_is_channels_0_and_2() {
    let c = Channels::from(0b0000_0101);
    assert!(c.offset0);
    assert!(!c.offset1);
    assert!(c.offset2);
    assert!(!c.offset3);
    assert!(!c.offset4);
    assert!(!c.offset5);
    assert!(!c.offset6);
    assert!(!c.offset7);
}

#[test]
fn current_round_trip_all_bytes() {
    for raw in 0u8..=255 {
        let c = Current::from(raw);
        assert_eq!(c.channel_current(), raw & 0x3f);
        assert_eq!(u8::from(c), raw & 0x3f);
    }
}

#[test]
fn current_default_is_0x3f() {
    assert_eq!(u8::from(Current::default()), 0x3f);
    assert_eq!(Current::default().channel_current(), 63);
    assert_eq!(u8::from(Current::new()), 0x00);
}

#[test]
fn current_code_is_checked() {
    assert_eq!(u8::from(Current::new().with_channel_current(0x20)), 0x20);
    assert_eq!(Current::new().with_channel_current_checked(63).map(u8::from), Some(63));
    assert_eq!(Current::new().with_channel_current_checked(64), None);
    assert_eq!(Current::new().with_channel_current_checked(255), None);
}

#[test]
fn pwm_msb_round_trip_all_bytes() {
    for raw in 0u8..=255 {
        assert_eq!(PwmMsb::from(raw).value, raw);
        assert_eq!(u8::from(PwmMsb::from(raw)), raw);
    }
    assert_eq!(u8::from(PwmMsb::new()), 0);
}

#[test]
fn pwm_lsb_round_trip_all_bytes() {
    for raw in 0u8..=255 {
        let l = PwmLsb::from(raw);
        assert_eq!(l.value(), raw >> 4);
        assert_eq!(u8::from(l), raw & 0xf0);
    }
}

#[test]
fn pwm_lsb_value_is_checked() {
    assert_eq!(u8::from(PwmLsb::new().with_value(0x0a)), 0xa0);
    assert_eq!(PwmLsb::new().with_value_checked(15).map(u8::from), Some(0xf0));
    assert_eq!(PwmLsb::new().with_value_checked(16), None);
    assert_eq!(u8::from(PwmLsb::new()), 0);
}

#[test]
fn pwm_2048_splits_into_0x00_and_0x80() {
    let pwm = Pwm::new().with_value(2048);
    assert_eq!(u8::from(PwmLsb::from(pwm)), 0x00);
    assert_eq!(u8::from(PwmMsb::from(pwm)), 0x80);
}

#[test]
fn pwm_split_exact_values() {
    let pwm = Pwm::new().with_value(0x0abc);
    assert_eq!(u8::from(PwmLsb::from(pwm)), 0xc0);
    assert_eq!(u8::from(PwmMsb::from(pwm)), 0xab);
    let top = Pwm::new().with_value(4095);
    assert_eq!(u8::from(PwmLsb::from(top)), 0xf0);
    assert_eq!(u8::from(PwmMsb::from(top)), 0xff);
    let one = Pwm::new().with_value(1);
    assert_eq!(u8::from(PwmLsb::from(one)), 0x10);
    assert_eq!(u8::from(PwmMsb::from(one)), 0x00);
    assert_eq!(Pwm::new().value(), 0);
}

#[test]
fn pwm_split_then_merge_all_values() {
    for v in 0u16..4096 {
        let pwm = Pwm::new().with_value(v);
        let lsb = u8::from(PwmLsb::from(pwm));
        let msb = u8::from(PwmMsb::from(pwm));
        assert_eq!((((msb as u16) << 8) | (lsb as u16)) >> 4, v);
        assert_eq!(lsb as u16, (v << 4) & 0xff);
        assert_eq!(msb as u16, (v << 4) >> 8);
        assert_eq!(Pwm::from_parts(PwmLsb::from(pwm), PwmMsb::from(pwm)).value(), v);
    }
}

#[test]
fn pwm_merge_reads_the_register_bytes() {
    let pwm = Pwm::from_parts(PwmLsb::from(0xc7), PwmMsb::from(0xab));
    assert_eq!(pwm.value(), 0x0abc);
}

#[test]
fn pwm_value_is_checked() {
    assert_eq!(Pwm::new().with_value_checked(4095).map(|p| p.value()), Some(4095));
    assert_eq!(Pwm::new().with_value_checked(4096), None);
    assert_eq!(Pwm::new().with_value_checked(65535), None);
}

#[test]
fn bus_failure_converts_into_error() {
    let e: Error<u32> = Error::from(7u32);
    assert_eq!(e, Error::Bus(7));
    assert_ne!(e, Error::Register(RegisterError::InvalidOffset));
    assert_ne!(
        Error::<u32>::Register(RegisterError::InvalidOffset),
        Error::Register(RegisterError::InvalidConversion)
    );
}
