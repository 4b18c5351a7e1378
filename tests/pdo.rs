use usb_pd::pdo::{
    AugmentedPowerDataObject, Battery, EPRAdjustableVoltageSupply, FixedSupply,
    FixedVariableRequestDataObject, PowerDataObject, SPRProgrammablePowerSupply, VariableSupply,
};

fn fixed_word(voltage_50mv: u32, current_10ma: u32) -> u32 {
    (voltage_50mv << 10) | current_10ma
}

#[test]
fn fixed_supply_fields_round_trip() {
    let w = 0x0801_912c_u32 & 0x3fff_ffff;
    let p = PowerDataObject::decode(w);
    assert_eq!(p, PowerDataObject::FixedSupply(FixedSupply(w)));
    if let PowerDataObject::FixedSupply(f) = p {
        assert_eq!(f.voltage() as u32, (w >> 10) & 0x3ff);
        assert_eq!(f.max_current() as u32, w & 0x3ff);
        let rebuilt = (w & 0xfff0_0000) | ((f.voltage() as u32) << 10) | f.max_current() as u32;
        assert_eq!(rebuilt, w);
    }
}

#[test]
fn fixed_supply_five_volts() {
    let w = fixed_word(100, 300);
    let p = PowerDataObject::decode(w);
    match p {
        PowerDataObject::FixedSupply(f) => {
            assert_eq!(f.voltage(), 100);
            assert_eq!(f.max_current(), 300);
            assert_eq!(f.voltage() as u32 * 50, 5000);
            assert_eq!(f.max_current() as u32 * 10, 3000);
        }
        _ => panic!("not a fixed supply"),
    }
}

#[test]
fn battery_and_variable_kinds() {
    let b = 0x4000_1234_u32;
    let v = 0x8000_1234_u32;
    assert_eq!(PowerDataObject::decode(b), PowerDataObject::Battery(Battery(b)));
    assert_eq!(PowerDataObject::decode(v), PowerDataObject::VariableSupply(VariableSupply(v)));
}

#[test]
fn augmented_supply_sub_tags() {
    let spr = 0xC000_1234_u32;
    let epr = 0xD000_1234_u32;
    assert_eq!(
        PowerDataObject::decode(spr),
        PowerDataObject::AugmentedPowerDataObject(AugmentedPowerDataObject::SPR(
            SPRProgrammablePowerSupply(spr)
        ))
    );
    assert_eq!(
        PowerDataObject::decode(epr),
        PowerDataObject::AugmentedPowerDataObject(AugmentedPowerDataObject::EPR(
            EPRAdjustableVoltageSupply(epr)
        ))
    );
}

#[test]
fn reserved_augmented_sub_tags_are_invalid() {
    assert!(PowerDataObject::is_valid_word(0xC000_0000));
    assert!(PowerDataObject::is_valid_word(0xD000_0000));
    assert!(!PowerDataObject::is_valid_word(0xE000_0000));
    assert!(!PowerDataObject::is_valid_word(0xF000_0000));
    assert!(PowerDataObject::is_valid_word(0x3000_0000));
    assert!(PowerDataObject::is_valid_word(0xB000_0000));
}

#[test]
fn request_object_layout() {
    let rdo = FixedVariableRequestDataObject::sink_request(4, 150);
    assert_eq!(rdo.0, (4 << 28) | (1 << 25) | (1 << 24) | (150 << 10) | 150);
    assert_eq!(rdo.to_bytes(), rdo.0.to_le_bytes());
    assert_eq!(rdo.to_bytes(), [0x96, 0x58, 0x02, 0x43]);
}

#[test]
fn request_object_fields() {
    let rdo = FixedVariableRequestDataObject::sink_request(7, 1023);
    assert_eq!(rdo.object_position(), 7);
    assert_eq!(rdo.operating_current(), 1023);
    assert_eq!(rdo.maximum_operating_current(), 1023);
    assert!(rdo.no_usb_suspend());
    assert!(rdo.usb_communications_capable());
    let other = FixedVariableRequestDataObject(0);
    assert!(!other.no_usb_suspend());
    assert!(!other.usb_communications_capable());
}

#[test]
fn vdm_header_fields() {
    let h = usb_pd::pdo::VDMHeader(0xFF00_A044);
    assert_eq!(h.standard_or_vid(), 0xFF00);
    assert!(h.vdm_type());
    assert_eq!(h.vdm_version(), 1);
    assert_eq!(h.command_type(), 1);
    assert_eq!(h.command(), 4);
    let u = usb_pd::pdo::VDMHeader(0x1234_0000);
    assert!(!u.vdm_type());
    assert_eq!(u.command(), 0);
}
