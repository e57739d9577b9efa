use rand_wyrand::model::{INCREMENT, MIX};
use rand_wyrand::WyRand;

#[test]
fn known_answer_for_seed_zero() {
    let mut rng = WyRand::seed_from_u64(0);

    assert_eq!(rng.next_u64(), 0x111c_b3a7_8f59_a58e);
}

#[test]
fn first_words_for_seed_zero() {
    let mut rng = WyRand::seed_from_u64(0);

    assert_eq!(rng.next_u64(), 0x111c_b3a7_8f59_a58e);
    assert_eq!(rng.next_u64(), 0xceab_d938_ff4e_856d);
    assert_eq!(rng.next_u64(), 0x61fb_5131_8f47_d2a4);
    assert_eq!(rng.next_u64(), 0x78bd_03c4_9190_9760);
}

#[test]
fn first_words_for_seed_12345() {
    let mut rng = WyRand::seed_from_u64(12345);

    assert_eq!(rng.next_u64(), 0x3440_f9f4_6981_0c7b);
    assert_eq!(rng.next_u64(), 0xc794_9c1f_4870_8594);
    assert_eq!(rng.next_u64(), 0xda98_0e92_2b5f_67f8);
}

#[test]
fn constants_are_those_of_the_algorithm() {
    assert_eq!(INCREMENT, 0xa076_1d64_78bd_642f);
    assert_eq!(MIX, 0xe703_7ed1_a0b4_28db);
}

#[test]
fn each_word_advances_the_state_by_the_increment() {
    let mut rng = WyRand::seed_from_u64(0);
    rng.next_u64();
    assert_eq!(rng.state(), 0xa076_1d64_78bd_642f);
    rng.next_u64();
    assert_eq!(rng.state(), 0x40ec_3ac8_f17a_c85e);
    rng.next_u64();
    assert_eq!(rng.state(), 0xe162_582d_6a38_2c8d);
}

#[test]
fn state_addition_wraps_around() {
    let mut rng = WyRand::seed_from_u64(u64::MAX);

    assert_eq!(rng.next_u64(), 0xba1d_c814_e82d_5d44);
    assert_eq!(rng.state(), 0xa076_1d64_78bd_642e);
    assert_eq!(rng.next_u64(), 0x57ac_cfe8_5fe2_9d15);
    assert_eq!(rng.next_u64(), 0x3afa_6e61_6fb3_aa6f);
    assert_eq!(rng.state(), 0xe162_582d_6a38_2c8c);
}

#[test]
fn word_folds_both_halves_of_the_wide_product() {
    let mut rng = WyRand::seed_from_u64(1);
    let word = rng.next_u64();
    let state = rng.state();
    let product = u128::from(state) * u128::from(state ^ MIX);

    assert_eq!(word, ((product >> 64) as u64) ^ (product as u64));
    assert_ne!(word, state.wrapping_mul(state ^ MIX));
    assert_eq!(word, 0xcdef_1695_e1f8_ed2c);
}

#[test]
fn same_seed_gives_the_same_outputs() {
    let mut a = WyRand::seed_from_u64(0x0123_4567_89ab_cdef);
    let mut b = WyRand::seed_from_u64(0x0123_4567_89ab_cdef);
    let mut bytes_a = [0u8; 13];
    let mut bytes_b = [0u8; 13];

    for _ in 0..100 {
        assert_eq!(a.next_u64(), b.next_u64());
        assert_eq!(a.next_u32(), b.next_u32());
        a.fill_bytes(&mut bytes_a);
        b.fill_bytes(&mut bytes_b);
        assert_eq!(bytes_a, bytes_b);
        assert_eq!(a.state(), b.state());
    }
    assert!(a == b);
}

#[test]
fn different_seeds_give_different_first_words() {
    let mut a = WyRand::seed_from_u64(0);
    let mut b = WyRand::seed_from_u64(1);

    assert_ne!(a.next_u64(), b.next_u64());
}

#[test]
fn next_u32_is_the_low_half_of_next_u64() {
    for seed in [0u64, 1, 12345, u64::MAX, 0x8000_0000_0000_0000] {
        let mut narrow = WyRand::seed_from_u64(seed);
        let mut wide = WyRand::seed_from_u64(seed);
        for _ in 0..50 {
            let word = wide.next_u64();
            assert_eq!(u64::from(narrow.next_u32()), word & 0xFFFF_FFFF);
            assert_eq!(narrow.state(), wide.state());
        }
    }
}

#[test]
fn next_u32_for_seed_zero() {
    let mut rng = WyRand::seed_from_u64(0);

    assert_eq!(rng.next_u32(), 0x8f59_a58e);
    assert_eq!(rng.next_u32(), 0xff4e_856d);
    assert_eq!(rng.next_u32(), 0x8f47_d2a4);
    assert_eq!(rng.state(), 0xe162_582d_6a38_2c8d);
}
