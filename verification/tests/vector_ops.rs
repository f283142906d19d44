use multislope_adc::logic::{LogicError, LogicValue};
use multislope_adc::vector::LogicVector;

#[test]
fn unsigned_round_trip_width_4() {
    for n in 0u32..16 {
        let mut v = LogicVector::new(4);
        v.set_unsigned(n);
        assert_eq!(v.get_unsigned(), Ok(n));
    }
}

#[test]
fn unsigned_round_trip_width_8() {
    for n in 0u32..256 {
        let mut v = LogicVector::new(8);
        v.set_unsigned(n);
        assert_eq!(v.get_unsigned(), Ok(n));
    }
}

#[test]
fn set_unsigned_drives_each_bit() {
    let n = 0b1011_0010u32;
    let mut v = LogicVector::new(8);
    v.set_unsigned(n);
    for i in 0..8usize {
        let expected = if n & (1 << i) != 0 {
            LogicValue::High
        } else {
            LogicValue::Low
        };
        assert_eq!(v.get(i), Ok(expected));
    }
}

#[test]
fn set_unsigned_truncates_wide_values() {
    let mut v = LogicVector::new(4);
    v.set_unsigned(0x1f);
    assert_eq!(v.get_unsigned(), Ok(0xf));
}

#[test]
fn index_at_width_is_out_of_range() {
    let mut v = LogicVector::new(8);
    assert_eq!(v.get(8), Err(LogicError::IndexOutOfRange));
    assert_eq!(v.set(8, LogicValue::High), Err(LogicError::IndexOutOfRange));
    assert!(v.get(7).is_ok());
    assert_eq!(v.set(7, LogicValue::High), Ok(()));
    assert_eq!(v.get(7), Ok(LogicValue::High));
}

#[test]
fn aggregate_read_of_undriven_bus_is_unresolved() {
    let mut v = LogicVector::new(4);
    v.set_unsigned(0b0101);
    v.set(2, LogicValue::HiZ).unwrap();
    assert_eq!(v.get_unsigned(), Err(LogicError::UnresolvedState));
}

#[test]
fn fresh_bus_is_uninitialized_and_unresolved() {
    let v = LogicVector::new(3);
    assert_eq!(v.width(), 3);
    for i in 0..3usize {
        assert_eq!(v.get(i), Ok(LogicValue::Uninitialized));
    }
    assert_eq!(v.get_unsigned(), Err(LogicError::UnresolvedState));
}

#[test]
fn from_cells_keeps_the_cells() {
    let v = LogicVector::from_cells(vec![LogicValue::High, LogicValue::Low, LogicValue::Weak]);
    assert_eq!(v.width(), 3);
    assert_eq!(v.get(0), Ok(LogicValue::High));
    assert_eq!(v.get(1), Ok(LogicValue::Low));
    assert_eq!(v.get(2), Ok(LogicValue::Weak));
}

#[test]
fn bit_string_renders_in_index_order() {
    let v = LogicVector::from_cells(vec![
        LogicValue::High,
        LogicValue::Low,
        LogicValue::HiZ,
        LogicValue::WeakHigh,
    ]);
    let s: String = v.to_bit_string().into_iter().collect();
    assert_eq!(s, "\"10ZH\"");
}
