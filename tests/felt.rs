use katana_provider::felt::Felt;

const MODULUS_HIGH: u128 = 0x800_0000_0000_0011_0000_0000_0000_0000;

#[test]
fn from_parts_accepts_values_below_the_modulus() {
    let max = Felt::from_parts(MODULUS_HIGH, 0).unwrap();
    assert_eq!(max.high, MODULUS_HIGH);
    assert_eq!(max.low, 0);
    let below = Felt::from_parts(MODULUS_HIGH - 1, u128::MAX).unwrap();
    assert_eq!(below.low, u128::MAX);
    assert_eq!(Felt::from_parts(0, 5), Some(Felt::from_u128(5)));
}

#[test]
fn from_parts_rejects_the_modulus_and_above() {
    assert_eq!(Felt::from_parts(MODULUS_HIGH, 1), None);
    assert_eq!(Felt::from_parts(MODULUS_HIGH + 1, 0), None);
    assert_eq!(Felt::from_parts(u128::MAX, u128::MAX), None);
}

#[test]
fn zero_is_the_zero_element() {
    assert_eq!(Felt::zero(), Felt::from_u128(0));
    assert_ne!(Felt::zero(), Felt::from_u128(1));
}
