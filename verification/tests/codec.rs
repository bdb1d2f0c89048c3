use midi_cc::byte::U7;
use midi_cc::cc::ControlFunction;

fn u7(value: u8) -> U7 {
    match U7::new(value) {
        Some(v) => v,
        None => panic!("value {} is out of the 7-bit range", value),
    }
}

#[test]
fn u7_accepts_exactly_the_7_bit_range() {
    for value in 0u8..=127 {
        let v = match U7::new(value) {
            Some(v) => v,
            None => panic!("{} was rejected", value),
        };
        assert_eq!(v.value(), value);
    }
    assert!(matches!(U7::new(128), None));
    assert!(matches!(U7::new(200), None));
    assert!(matches!(U7::new(255), None));
}

#[test]
fn encode_of_decode_returns_the_value() {
    for value in 0u8..=127 {
        let f = ControlFunction::decode(u7(value));
        assert_eq!(f.encode().value(), value);
        assert_eq!(f.encode_raw(), value);
    }
}

#[test]
fn decode_of_encode_returns_the_variant() {
    for value in 0u8..=127 {
        let f = ControlFunction::decode(u7(value));
        assert_eq!(ControlFunction::decode(f.encode()), f);
    }
}

#[test]
fn encode_raw_stays_within_7_bits() {
    for value in 0u8..=127 {
        let f = ControlFunction::decode(u7(value));
        assert!(f.encode_raw() <= 127);
    }
}

#[test]
fn no_two_variants_share_a_number() {
    let mut seen = [false; 128];
    for value in 0u8..=127 {
        let n = ControlFunction::decode(u7(value)).encode_raw() as usize;
        assert!(!seen[n]);
        seen[n] = true;
    }
    for taken in seen.iter() {
        assert!(*taken);
    }
}

#[test]
fn table_fidelity_decode() {
    assert_eq!(ControlFunction::decode(u7(0)), ControlFunction::BankSelect);
    assert_eq!(ControlFunction::decode(u7(7)), ControlFunction::ChannelVolume);
    assert_eq!(ControlFunction::decode(u7(64)), ControlFunction::DamperPedal);
    assert_eq!(
        ControlFunction::decode(u7(100)),
        ControlFunction::RegisteredParameterNumberLSB
    );
    assert_eq!(ControlFunction::decode(u7(120)), ControlFunction::AllSoundOff);
    assert_eq!(ControlFunction::decode(u7(127)), ControlFunction::PolyOperation);
}

#[test]
fn table_fidelity_encode() {
    assert_eq!(ControlFunction::ModulationWheel.encode().value(), 1);
    assert_eq!(ControlFunction::AllNotesOff.encode().value(), 123);
}

#[test]
fn table_spot_checks_across_groups() {
    assert_eq!(ControlFunction::BankSelect.encode_raw(), 0);
    assert_eq!(ControlFunction::Undefined3.encode_raw(), 3);
    assert_eq!(ControlFunction::DataEntryMSB.encode_raw(), 6);
    assert_eq!(ControlFunction::GeneralPurposeController4.encode_raw(), 19);
    assert_eq!(ControlFunction::BankSelectLSB.encode_raw(), 32);
    assert_eq!(ControlFunction::DataEntryLSB.encode_raw(), 38);
    assert_eq!(ControlFunction::Undefined31LSB.encode_raw(), 63);
    assert_eq!(ControlFunction::LegatoFootswitch.encode_raw(), 68);
    assert_eq!(ControlFunction::SoundController10.encode_raw(), 79);
    assert_eq!(ControlFunction::PortamentoControl.encode_raw(), 84);
    assert_eq!(ControlFunction::Effects1Depth.encode_raw(), 91);
    assert_eq!(ControlFunction::DataIncrement.encode_raw(), 96);
    assert_eq!(ControlFunction::NonRegisteredParameterNumberLSB.encode_raw(), 98);
    assert_eq!(ControlFunction::RegisteredParameterNumberMSB.encode_raw(), 101);
    assert_eq!(ControlFunction::Undefined102.encode_raw(), 102);
    assert_eq!(ControlFunction::Undefined119.encode_raw(), 119);
    assert_eq!(ControlFunction::LocalControl.encode_raw(), 122);
    assert_eq!(ControlFunction::OmniModeOn.encode_raw(), 124);
    assert_eq!(ControlFunction::MonoOperation.encode_raw(), 126);
}

#[test]
fn from_impls_agree_with_the_codec() {
    for value in 0u8..=127 {
        let v = u7(value);
        let f = ControlFunction::from(v);
        assert_eq!(f, ControlFunction::decode(v));
        assert_eq!(U7::from(f).value(), value);
        assert_eq!(u8::from(f), value);
    }
    assert_eq!(
        ControlFunction::from(u7(66)),
        ControlFunction::Sostenuto
    );
    assert_eq!(U7::from(ControlFunction::SoftPedal).value(), 67);
    assert_eq!(u8::from(ControlFunction::ResetAllControllers), 121);
}
