use tilegame_hal::rng::Rng;

#[test]
fn next_follows_the_shift_register() {
    let mut rng = Rng::new(1);
    assert_eq!(rng.next(), 0xB4);
    assert_eq!(rng.next(), 0x5A);
    assert_eq!(rng.next(), 0x2D);
}

#[test]
fn next_range_reduces_into_range() {
    let mut rng = Rng::new(1);
    assert_eq!(rng.next_range(2, 14), 2);
    assert_eq!(rng.next_range(5, 5), 5);
    assert_eq!(rng.next_range(0, 100), 90);
    let mut rng = Rng::new(0xACE1);
    for _ in 0..1000 {
        let v = rng.next_range(3, 13);
        assert!((3..13).contains(&v));
    }
}
