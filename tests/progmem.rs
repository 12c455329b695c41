use tilegame_hal::progmem::{ByteBundle, PGMSlice};

static TABLE: [u8; 70] = {
    let mut t = [0u8; 70];
    let mut i = 0;
    while i < 70 {
        t[i] = i as u8;
        i += 1;
    }
    t
};

#[test]
fn chunks_cut_the_table_in_order() {
    let s = PGMSlice::new(&TABLE);
    assert_eq!(s.len(), 70);
    assert_eq!(s.length(), 70);
    assert_eq!(s.get(69), 69);
    let mut chunks = s.chunks(32);
    let a = chunks.next().unwrap();
    let b = chunks.next().unwrap();
    let c = chunks.next().unwrap();
    assert!(chunks.next().is_none());
    assert!(chunks.next().is_none());
    assert_eq!((a.len(), b.len(), c.len()), (32, 32, 6));
    assert_eq!(a.get(0), 0);
    assert_eq!(b.get(0), 32);
    assert_eq!(c.get(5), 69);
}

#[test]
fn exact_multiple_has_no_short_chunk() {
    let s = PGMSlice::new(&TABLE[..64]);
    let mut chunks = s.chunks(32);
    assert_eq!(chunks.next().unwrap().len(), 32);
    assert_eq!(chunks.next().unwrap().len(), 32);
    assert!(chunks.next().is_none());
}

#[test]
fn slices_are_byte_bundles() {
    let v: &[u8] = &[4, 5, 6];
    assert_eq!(v.length(), 3);
    assert_eq!(ByteBundle::get(v, 1), 5);
}
