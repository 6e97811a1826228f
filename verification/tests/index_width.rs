use procmesh::IndexType;

#[test]
fn u8_checked_construction_at_the_boundary() {
    // the largest value of the width succeeds
    let i = <u8 as IndexType>::try_new(255);
    assert_eq!(i, Some(255u8));
    // one past the width's maximum is rejected
    let i = <u8 as IndexType>::try_new(256);
    assert_eq!(i, None);
}

#[test]
fn u16_checked_construction_at_the_boundary() {
    assert_eq!(<u16 as IndexType>::try_new(65535), Some(65535u16));
    assert_eq!(<u16 as IndexType>::try_new(65536), None);
}

#[test]
fn index_conversion_round_trip() {
    let i = <u8 as IndexType>::new(200);
    assert_eq!(i.index(), 200);
    let i = <u32 as IndexType>::new(70000);
    assert_eq!(i.index(), 70000);
    let i = <usize as IndexType>::new(5);
    assert_eq!(i.index(), 5);
}

#[test]
fn index_max_per_width() {
    assert_eq!(<u8 as IndexType>::max(), 255u8);
    assert_eq!(<u16 as IndexType>::max(), 65535u16);
    assert_eq!(<u32 as IndexType>::max(), 4294967295u32);
}

#[test]
fn index_add_within_width() {
    let a = <u8 as IndexType>::new(100);
    let b = <u8 as IndexType>::new(55);
    assert_eq!(a.add(b), 155u8);
}
