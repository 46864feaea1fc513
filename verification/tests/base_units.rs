use units::{BaseUnit, Val, MAGNITUDE_ONE};

#[test]
fn base_unit_value_is_one_of_itself() {
    for b in BaseUnit::all() {
        let v = b.value();
        assert_eq!(f64::from_bits(v.0), 1.0);
        assert_eq!(*v.1, b);
    }
}

#[test]
fn base_unit_value_borrows_the_unit_asked() {
    let metre = BaseUnit::Metre;
    let v = metre.value();
    assert!(std::ptr::eq(v.1, &metre));
}

#[test]
fn magnitude_one_is_the_bit_pattern_of_one() {
    assert_eq!(MAGNITUDE_ONE, 0x3FF0_0000_0000_0000);
    assert_eq!(MAGNITUDE_ONE, 1.0f64.to_bits());
    assert_eq!(f64::from_bits(MAGNITUDE_ONE), 1.0);
}

#[test]
fn metre_exists() {
    let metre = BaseUnit::Metre;
    assert!(matches!(metre, BaseUnit::Metre));
    assert_eq!(metre, BaseUnit::Metre);
    assert_ne!(metre, BaseUnit::Second);
    assert_ne!(metre, BaseUnit::Kilogram);
}

#[test]
fn all_lists_the_three_base_units_in_order() {
    let all = BaseUnit::all();
    assert_eq!(all.len(), 3);
    assert_eq!(all[0], BaseUnit::Metre);
    assert_eq!(all[1], BaseUnit::Second);
    assert_eq!(all[2], BaseUnit::Kilogram);
}

#[test]
fn all_lists_no_unit_twice() {
    let all = BaseUnit::all();
    for i in 0..all.len() {
        for j in 0..all.len() {
            assert_eq!(all[i] == all[j], i == j);
        }
    }
}

#[test]
fn enumerating_twice_gives_the_same_units() {
    assert_eq!(BaseUnit::all(), BaseUnit::all());
}

#[test]
fn equal_base_units_are_the_same_variant() {
    assert_eq!(BaseUnit::Second, BaseUnit::Second);
    assert_eq!(BaseUnit::Kilogram, BaseUnit::Kilogram);
    assert_ne!(BaseUnit::Second, BaseUnit::Kilogram);
}
