use multislope_adc::logic::{LogicError, LogicValue};

fn all_states() -> Vec<LogicValue> {
    vec![
        LogicValue::Uninitialized,
        LogicValue::Unknown,
        LogicValue::High,
        LogicValue::Low,
        LogicValue::HiZ,
        LogicValue::Weak,
        LogicValue::WeakLow,
        LogicValue::WeakHigh,
        LogicValue::DontCare,
    ]
}

#[test]
fn code_round_trip_all_nine_states() {
    for v in all_states() {
        assert_eq!(LogicValue::from_code(v.to_code()), v);
    }
}

#[test]
fn codes_cover_the_valid_range_exactly_once() {
    let mut seen = [false; 9];
    for v in all_states() {
        let c = v.to_code();
        assert!(c <= 8);
        assert!(!seen[c as usize]);
        seen[c as usize] = true;
    }
    assert!(seen.iter().all(|s| *s));
}

#[test]
fn out_of_range_codes_read_as_unknown() {
    for c in 9..=255u8 {
        assert_eq!(LogicValue::from_code(c), LogicValue::Unknown);
    }
}

#[test]
fn from_bool_drives_strongly() {
    assert_eq!(LogicValue::from_bool(true), LogicValue::High);
    assert_eq!(LogicValue::from_bool(false), LogicValue::Low);
}

#[test]
fn try_to_bool_resolves_only_driven_states() {
    assert_eq!(LogicValue::Low.try_to_bool(), Ok(false));
    assert_eq!(LogicValue::WeakLow.try_to_bool(), Ok(false));
    assert_eq!(LogicValue::High.try_to_bool(), Ok(true));
    assert_eq!(LogicValue::WeakHigh.try_to_bool(), Ok(true));
    for v in [
        LogicValue::Uninitialized,
        LogicValue::Unknown,
        LogicValue::HiZ,
        LogicValue::Weak,
        LogicValue::DontCare,
    ] {
        assert_eq!(v.try_to_bool(), Err(LogicError::UnresolvedState));
    }
}

#[test]
fn canonical_characters() {
    assert_eq!(LogicValue::Uninitialized.to_char(), 'U');
    assert_eq!(LogicValue::Unknown.to_char(), 'X');
    assert_eq!(LogicValue::High.to_char(), '1');
    assert_eq!(LogicValue::Low.to_char(), '0');
    assert_eq!(LogicValue::HiZ.to_char(), 'Z');
    assert_eq!(LogicValue::Weak.to_char(), 'W');
    assert_eq!(LogicValue::WeakLow.to_char(), 'L');
    assert_eq!(LogicValue::WeakHigh.to_char(), 'H');
    assert_eq!(LogicValue::DontCare.to_char(), '-');
}

#[test]
fn default_state_is_uninitialized() {
    assert_eq!(LogicValue::default(), LogicValue::Uninitialized);
}
