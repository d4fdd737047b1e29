use intent_builder::primitives::{Address, I256, U256};

#[test]
fn address_holds_its_bytes() {
    let mut bytes = [0u8; 20];
    bytes[0] = 0xde;
    bytes[19] = 0xad;
    let address = Address::new(bytes);
    assert_eq!(address.bytes, bytes);
    assert_eq!(Address::zero().bytes, [0u8; 20]);
    assert_eq!(Address::zero(), Address::new([0u8; 20]));
    assert_ne!(address, Address::zero());
}

#[test]
fn unsigned_word_from_its_limbs() {
    let word = U256::from_limbs([1, 2, 3, 4]);
    assert_eq!(word.limbs, [1, 2, 3, 4]);
    assert_eq!(U256::zero(), U256::from_limbs([0, 0, 0, 0]));
    assert_eq!(U256::zero(), U256::default());
}

#[test]
fn unsigned_word_of_a_number() {
    assert_eq!(U256::from_u128(0), U256::zero());
    assert_eq!(U256::from_u128(9), U256::from_limbs([9, 0, 0, 0]));
    assert_eq!(U256::from_u128(1 << 64), U256::from_limbs([0, 1, 0, 0]));
    assert_eq!(
        U256::from_u128(0x0123_4567_89ab_cdef_fedc_ba98_7654_3210),
        U256::from_limbs([0xfedc_ba98_7654_3210, 0x0123_4567_89ab_cdef, 0, 0])
    );
    assert_eq!(U256::from_u128(u128::MAX), U256::from_limbs([u64::MAX, u64::MAX, 0, 0]));
}

#[test]
fn signed_word_of_a_positive_number() {
    assert_eq!(I256::from_i128(1000).into_raw(), U256::from_u128(1000));
    assert_eq!(I256::from_i128(0), I256::zero());
    assert_eq!(I256::zero().into_raw(), U256::zero());
    assert_eq!(
        I256::from_i128(i128::MAX).into_raw(),
        U256::from_limbs([u64::MAX, u64::MAX >> 1, 0, 0])
    );
}

#[test]
fn signed_word_of_a_negative_number_is_its_twos_complement() {
    assert_eq!(I256::from_i128(-1).into_raw(), U256::from_limbs([u64::MAX; 4]));
    assert_eq!(
        I256::from_i128(-2).into_raw(),
        U256::from_limbs([u64::MAX - 1, u64::MAX, u64::MAX, u64::MAX])
    );
    assert_eq!(
        I256::from_i128(-1000).into_raw(),
        U256::from_limbs([u64::MAX - 999, u64::MAX, u64::MAX, u64::MAX])
    );
    assert_eq!(
        I256::from_i128(i128::MIN).into_raw(),
        U256::from_limbs([0, 1 << 63, u64::MAX, u64::MAX])
    );
}

#[test]
fn signed_word_keeps_the_bits_it_is_read_from() {
    let raw = U256::from_limbs([5, 0, 0, 1 << 63]);
    assert_eq!(I256::from_raw(raw).into_raw(), raw);
    assert_eq!(I256::from_raw(raw).raw, raw);
    assert_eq!(I256::from_raw(U256::from_u128(1000)), I256::from_i128(1000));
    assert_eq!(I256::from_raw(U256::from_limbs([u64::MAX; 4])), I256::from_i128(-1));
}

#[test]
fn words_agree_with_ethers() {
    for value in [0u128, 1, 1000, 1 << 64, u128::MAX] {
        assert_eq!(ethers::types::U256(U256::from_u128(value).limbs), ethers::types::U256::from(value));
    }
    for value in [0i128, 1, -1, 1000, -1000, i128::MAX, i128::MIN] {
        let ours = ethers::types::U256(I256::from_i128(value).into_raw().limbs);
        assert_eq!(ours, ethers::types::I256::from(value).into_raw());
        assert_eq!(ethers::types::I256::from_raw(ours), ethers::types::I256::from(value));
    }
}

#[test]
fn default_values_are_zero() {
    assert_eq!(Address::default(), Address::zero());
    assert_eq!(Address::default().bytes, [0u8; 20]);
    assert_eq!(U256::default().limbs, [0, 0, 0, 0]);
    assert_eq!(I256::default(), I256::zero());
    assert_eq!(I256::default(), I256::from_i128(0));
    assert_eq!(I256::default().into_raw(), U256::zero());
}
