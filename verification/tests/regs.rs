use mp3326::regs::Register;
use mp3326::types::RegisterError;

const SINGLES: [(Register, u8); 10] = [
    (Register::DimmingFreq, 0x00),
    (Register::Control, 0x01),
    (Register::OtpAndRefreshFreq, 0x02),
    (Register::RefreshFreq, 0x03),
    (Register::ChannelEnable0, 0x04),
    (Register::ChannelEnable1, 0x05),
    (Register::ChannelOpenFault0, 0x06),
    (Register::ChannelOpenFault1, 0x07),
    (Register::ChannelShortFault0, 0x08),
    (Register::ChannelShortFault1, 0x09),
];

const FAMILIES: [(Register, u8); 3] = [
    (Register::ChannelCurrentStart, 0x0a),
    (Register::ChannelPwmDutyLsbStart, 0x0b),
    (Register::ChannelPwmDutyMsbStart, 0x0c),
];

#[test]
fn single_registers_have_their_fixed_addresses() {
    for (reg, addr) in SINGLES {
        assert_eq!(reg.addr(), Ok(addr));
    }
}

#[test]
fn families_have_no_fixed_address() {
    for (family, _) in FAMILIES {
        assert_eq!(family.addr(), Err(RegisterError::InvalidConversion));
    }
}

#[test]
fn channel_address_is_base_plus_three_times_offset() {
    for (family, base) in FAMILIES {
        for offset in 0u8..16 {
            assert_eq!(family.offset_addr(offset), Ok(base + 3 * offset));
        }
    }
}

#[test]
fn channel_address_exact_values() {
    assert_eq!(Register::ChannelCurrentStart.offset_addr(0), Ok(0x0a));
    assert_eq!(Register::ChannelCurrentStart.offset_addr(15), Ok(0x37));
    assert_eq!(Register::ChannelPwmDutyLsbStart.offset_addr(5), Ok(0x1a));
    assert_eq!(Register::ChannelPwmDutyMsbStart.offset_addr(5), Ok(0x1b));
    assert_eq!(Register::ChannelPwmDutyMsbStart.offset_addr(15), Ok(0x39));
}

#[test]
fn channel_addresses_never_collide() {
    let mut seen: Vec<u8> = Vec::new();
    for (reg, _) in SINGLES {
        seen.push(reg.addr().unwrap());
    }
    for (family, _) in FAMILIES {
        for offset in 0u8..16 {
            seen.push(family.offset_addr(offset).unwrap());
        }
    }
    assert_eq!(seen.len(), 58);
    let mut sorted = seen.clone();
    sorted.sort();
    sorted.dedup();
    assert_eq!(sorted.len(), 58);
    assert_eq!(sorted.first(), Some(&0x00));
    assert_eq!(sorted.last(), Some(&0x39));
}

#[test]
fn offsets_from_sixteen_up_are_refused() {
    for (family, _) in FAMILIES {
        for offset in 16u8..=255 {
            assert_eq!(family.offset_addr(offset), Err(RegisterError::InvalidOffset));
        }
    }
}

#[test]
fn offset_is_judged_before_the_identity() {
    assert_eq!(Register::Control.offset_addr(16), Err(RegisterError::InvalidOffset));
    assert_eq!(Register::Control.offset_addr(255), Err(RegisterError::InvalidOffset));
}

#[test]
fn single_registers_have_no_channel_address() {
    for (reg, _) in SINGLES {
        for offset in 0u8..16 {
            assert_eq!(reg.offset_addr(offset), Err(RegisterError::InvalidConversion));
        }
    }
}

#[test]
fn resolving_twice_gives_the_same_address() {
    let first = Register::ChannelPwmDutyLsbStart.offset_addr(7);
    let second = Register::ChannelPwmDutyLsbStart.offset_addr(7);
    assert_eq!(first, second);
    assert_eq!(first, Ok(0x0b + 21));
}
