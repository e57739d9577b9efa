use rand_wyrand::WyRand;

#[test]
fn no_leaking_debug() {
    let rng = WyRand::from_seed(Default::default());

    assert_eq!(format!("{:?}", rng), "WyRand");
}

#[test]
fn debug_is_the_same_for_different_seeds() {
    let a = WyRand::seed_from_u64(1);
    let b = WyRand::seed_from_u64(0xdead_beef_0123_4567);

    assert_eq!(format!("{:?}", a), format!("{:?}", b));
    assert_eq!(format!("{:?}", b), "WyRand");
}

#[test]
fn debug_does_not_change_as_the_generator_advances() {
    let mut rng = WyRand::seed_from_u64(42);
    let before = format!("{:?}", rng);
    rng.next_u64();
    rng.next_u32();

    assert_eq!(format!("{:?}", rng), before);
}

#[test]
fn pretty_debug_is_the_bare_name() {
    let rng = WyRand::seed_from_u64(7);

    assert_eq!(format!("{:#?}", rng), "WyRand");
}

#[test]
fn debug_str_is_what_debug_prints() {
    let rng = WyRand::seed_from_u64(99);

    assert_eq!(rng.debug_str(), "WyRand");
    assert_eq!(format!("{:?}", rng), rng.debug_str());
}

#[test]
fn debug_writes_the_name_behind_what_was_written_before() {
    let a = WyRand::seed_from_u64(3);
    let b = WyRand::seed_from_u64(0x1234_5678_9abc_def0);

    assert_eq!(format!("rng = {:?}", a), "rng = WyRand");
    assert_eq!(format!("{:?}{:?}", a, b), "WyRandWyRand");
    assert_eq!(format!("[{:?}, {:?}]", a, b), "[WyRand, WyRand]");
}
