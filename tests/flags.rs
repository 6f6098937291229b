use gd_closures::flags::ConnectFlags;

#[test]
fn combine_is_commutative() {
    let a = ConnectFlags::new(true, false, true, false);
    let b = ConnectFlags::new(false, true, true, false);
    assert_eq!(a.and(b), b.and(a));
    assert_eq!(a.and(b), ConnectFlags::new(true, true, true, false));
}

#[test]
fn combine_is_idempotent() {
    for bits in 0..16u32 {
        let f = ConnectFlags::new(bits & 1 != 0, bits & 2 != 0, bits & 4 != 0, bits & 8 != 0);
        assert_eq!(f.and(f), f);
    }
}

#[test]
fn deferred_and_one_shot_encode_to_five() {
    let f = ConnectFlags::DEFERRED().and(ConnectFlags::ONE_SHOT());
    assert_eq!(f.bits(), 5);
    assert_eq!(f.bits(), ConnectFlags::DEFERRED().bits() | ConnectFlags::ONE_SHOT().bits());
    assert_eq!(i64::from(f), 5);
    assert_eq!(
        ConnectFlags::ONE_SHOT().and(ConnectFlags::DEFERRED()),
        ConnectFlags::new(true, false, true, false)
    );
}

#[test]
fn presets_set_one_bit_each() {
    assert_eq!(ConnectFlags::DEFERRED().bits(), 1);
    assert_eq!(ConnectFlags::PERSIST().bits(), 2);
    assert_eq!(ConnectFlags::ONE_SHOT().bits(), 4);
    assert_eq!(ConnectFlags::REF_COUNTED().bits(), 8);
}

#[test]
fn default_flags_are_empty() {
    let f = ConnectFlags::default();
    assert_eq!(f, ConnectFlags::new(false, false, false, false));
    assert_eq!(i64::from(f), 0);
}

#[test]
fn all_flags_encode_to_fifteen() {
    let f = ConnectFlags::new(true, true, true, true);
    assert_eq!(f.bits(), 15);
    let g = ConnectFlags::DEFERRED()
        .and(ConnectFlags::PERSIST())
        .and(ConnectFlags::ONE_SHOT())
        .and(ConnectFlags::REF_COUNTED());
    assert_eq!(g, f);
}

#[test]
fn encoding_of_combination_is_bitwise_or() {
    for x in 0..16u32 {
        for y in 0..16u32 {
            let a = ConnectFlags::new(x & 1 != 0, x & 2 != 0, x & 4 != 0, x & 8 != 0);
            let b = ConnectFlags::new(y & 1 != 0, y & 2 != 0, y & 4 != 0, y & 8 != 0);
            assert_eq!(a.bits(), x as i64);
            assert_eq!(a.and(b).bits(), a.bits() | b.bits());
        }
    }
}
