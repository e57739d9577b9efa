use rand_core::Error;
use rand_wyrand::WyRand;
use std::collections::hash_map::DefaultHasher;
use std::hash::{Hash, Hasher};
use std::num::NonZeroU32;

fn hash_of(rng: &WyRand) -> u64 {
    let mut hasher = DefaultHasher::new();
    rng.hash(&mut hasher);
    hasher.finish()
}

#[test]
fn seed_from_u64_takes_the_value_as_it_is() {
    assert_eq!(WyRand::seed_from_u64(0).state(), 0);
    assert_eq!(WyRand::seed_from_u64(12345).state(), 12345);
    assert_eq!(WyRand::seed_from_u64(u64::MAX).state(), u64::MAX);
}

#[test]
fn from_seed_reads_little_endian() {
    assert_eq!(WyRand::from_seed([1, 0, 0, 0, 0, 0, 0, 0]).state(), 1);
    assert_eq!(WyRand::from_seed([0, 0, 0, 0, 0, 0, 0, 0x80]).state(), 0x8000_0000_0000_0000);
    assert_eq!(
        WyRand::from_seed([0x08, 0x07, 0x06, 0x05, 0x04, 0x03, 0x02, 0x01]).state(),
        0x0102_0304_0506_0708
    );
    assert_eq!(WyRand::from_seed([0xff; 8]).state(), u64::MAX);
}

#[test]
fn from_seed_of_the_bytes_of_a_word_is_seed_from_u64_of_the_word() {
    for word in [0u64, 1, 255, 256, 12345, 0x0102_0304_0506_0708, u64::MAX - 1, u64::MAX] {
        let mut from_bytes = WyRand::from_seed(word.to_le_bytes());
        let mut from_word = WyRand::seed_from_u64(word);

        assert!(from_bytes == from_word);
        for _ in 0..10 {
            assert_eq!(from_bytes.next_u64(), from_word.next_u64());
        }
    }
}

#[test]
fn zero_seed_is_not_special() {
    let mut rng = WyRand::from_seed([0; 8]);

    assert_eq!(rng.state(), 0);
    assert_eq!(rng.next_u64(), 0x111c_b3a7_8f59_a58e);
}

#[test]
fn from_rng_takes_the_drawn_word_as_the_state() {
    let mut source = WyRand::seed_from_u64(0);
    let made = WyRand::from_rng(Ok(source.next_u64()));

    match made {
        Ok(rng) => assert_eq!(rng.state(), 0x111c_b3a7_8f59_a58e),
        Err(_) => panic!("a drawn word must give a generator"),
    }
    assert_eq!(source.state(), 0xa076_1d64_78bd_642f);
}

#[test]
fn from_rng_hands_on_the_error_of_the_source() {
    let code = NonZeroU32::new(Error::CUSTOM_START + 7).unwrap();
    let made = WyRand::from_rng(Err(Error::from(code)));

    match made {
        Ok(_) => panic!("a failed draw must not give a generator"),
        Err(error) => assert_eq!(error.code(), Some(code)),
    }
}

#[test]
fn saved_state_restores_the_stream() {
    let mut first = WyRand::seed_from_u64(0x5eed);
    first.next_u64();
    first.next_u32();
    let mut restored = WyRand::seed_from_u64(first.state());

    assert!(restored == first);
    for _ in 0..64 {
        assert_eq!(restored.next_u64(), first.next_u64());
    }
}

#[test]
fn reading_the_state_does_not_advance() {
    let rng = WyRand::seed_from_u64(9);

    assert_eq!(rng.state(), 9);
    assert_eq!(rng.state(), 9);
}

#[test]
fn clone_carries_on_with_the_same_stream() {
    let mut first = WyRand::seed_from_u64(31);
    first.next_u64();
    let mut copy = first.clone();

    assert!(copy == first);
    assert_eq!(copy.next_u64(), first.next_u64());
    copy.next_u64();
    assert!(copy != first);
}

#[test]
fn equality_and_hash_go_by_the_state() {
    let a = WyRand::seed_from_u64(10);
    let b = WyRand::from_seed([10, 0, 0, 0, 0, 0, 0, 0]);
    let c = WyRand::seed_from_u64(11);

    assert!(a == b);
    assert!(a != c);
    assert_eq!(hash_of(&a), hash_of(&b));
}
