use canbusnoop::demo::{payload_of, Reader};

#[test]
fn readers_of_one_seed_give_the_same_frames() {
    for seed in [0u64, 1, 42, u64::MAX] {
        let mut first = Reader::with_seed(seed);
        let mut second = Reader::with_seed(seed);
        assert_eq!(first.ids(), second.ids());
        for _ in 0..200 {
            assert_eq!(first.delay(), second.delay());
            let a = first.read();
            let b = second.read();
            assert_eq!(a.id(), b.id());
            assert_eq!(a.data(), b.data());
        }
    }
}

#[test]
fn new_reader_is_the_reader_of_seed_zero() {
    let mut first = Reader::new();
    let mut second = Reader::with_seed(0);
    assert_eq!(first.ids(), second.ids());
    for _ in 0..50 {
        assert_eq!(first.delay(), second.delay());
        let a = first.read();
        let b = second.read();
        assert_eq!(a.id(), b.id());
        assert_eq!(a.data(), b.data());
    }
}

#[test]
fn readers_of_two_seeds_differ() {
    let first = Reader::with_seed(1);
    let second = Reader::with_seed(2);
    assert_ne!(first.ids(), second.ids());
}

#[test]
fn reader_draws_as_the_generator_does() {
    for seed in [0u64, 7, 0xDEAD_BEEF] {
        let mut prng = oorandom::Rand32::new(seed);
        let n = prng.rand_range(8..16);
        let ids: Vec<u32> = (0..n).map(|_| prng.rand_u32()).collect();

        let mut reader = Reader::with_seed(seed);
        assert_eq!(reader.ids(), &ids[..]);
        for _ in 0..100 {
            let delay = u64::from(prng.rand_range(1..100));
            assert_eq!(reader.delay(), delay);
            let index = prng.rand_range(0..(ids.len() as u32)) as usize;
            let len = prng.rand_range(1..8);
            let data: Vec<u8> = (0..len).map(|_| prng.rand_u32() as u8).collect();

            let frame = reader.read();
            assert_eq!(frame.id(), ids[index]);
            assert_eq!(frame.data(), &data[..]);
        }
    }
}

#[test]
fn pool_delay_and_payload_stay_in_their_ranges() {
    for seed in 0..50u64 {
        let mut reader = Reader::with_seed(seed);
        let ids: Vec<u32> = reader.ids().to_vec();
        assert!(8 <= ids.len() && ids.len() < 16);
        for _ in 0..100 {
            let delay = reader.delay();
            assert!(1 <= delay && delay < 100);
            let frame = reader.read();
            assert!(ids.contains(&frame.id()));
            assert!(1 <= frame.data().len() && frame.data().len() < 8);
            assert_eq!(reader.ids(), &ids[..]);
        }
    }
}

#[test]
fn delay_does_not_move_the_reader() {
    let mut asked = Reader::with_seed(9);
    let mut other = Reader::with_seed(9);
    let delay = asked.delay();
    assert_eq!(asked.delay(), delay);
    assert_eq!(asked.delay(), delay);
    let a = asked.read();
    let b = other.read();
    assert_eq!(a.id(), b.id());
    assert_eq!(a.data(), b.data());
}

#[test]
fn payload_is_the_lowest_byte_of_each_number() {
    assert_eq!(payload_of(&vec![]), Vec::<u8>::new());
    assert_eq!(
        payload_of(&vec![0, 0xFF, 0x100, 0x1234_5678, 0xFFFF_FFFF, 0xABCD_EF01]),
        vec![0, 0xFF, 0, 0x78, 0xFF, 0x01]
    );
}

#[test]
fn generator_of_a_seed_has_an_odd_increment_that_no_draw_changes() {
    for seed in [0u64, 1, 2, 42, 0xDEAD_BEEF, u64::MAX - 1, u64::MAX] {
        let mut prng = oorandom::Rand32::new(seed);
        let (_, inc) = prng.state();
        assert_eq!(inc % 2, 1);
        for _ in 0..100 {
            let _ = prng.rand_u32();
            let _ = prng.rand_range(1..100);
            let _ = prng.rand_range(8..16);
            assert_eq!(prng.state().1, inc);
        }
        // The reader of the seed has drawn from that generator.
        let reader = Reader::with_seed(seed);
        let mut again = oorandom::Rand32::new(seed);
        let n = again.rand_range(8..16);
        let ids: Vec<u32> = (0..n).map(|_| again.rand_u32()).collect();
        assert_eq!(reader.ids(), &ids[..]);
    }
}
