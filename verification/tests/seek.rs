//! `SeekFrom` as a plain value.

use genfs::SeekFrom;

#[test]
fn seek_from_is_copied_and_compared_by_value() {
    let a = SeekFrom::Current(-3);
    let b = a;
    assert_eq!(a, b);
    assert_eq!(a.clone(), SeekFrom::Current(-3));
    assert_ne!(SeekFrom::Current(-3), SeekFrom::End(-3));
    assert_ne!(SeekFrom::Start(3), SeekFrom::Start(4));
    assert_ne!(SeekFrom::End(0), SeekFrom::Current(0));
}

#[test]
fn seek_from_is_ordered() {
    assert!(SeekFrom::Start(1) < SeekFrom::Start(2));
    assert!(SeekFrom::End(-1) < SeekFrom::End(0));
    assert!(SeekFrom::Current(i64::MIN) < SeekFrom::Current(i64::MAX));
    assert!(SeekFrom::Start(u64::MAX) < SeekFrom::End(i64::MIN));
    assert!(SeekFrom::End(i64::MAX) < SeekFrom::Current(i64::MIN));
    let mut targets = vec![SeekFrom::Current(2), SeekFrom::Start(9), SeekFrom::End(-4)];
    targets.sort();
    assert_eq!(targets, vec![SeekFrom::Start(9), SeekFrom::End(-4), SeekFrom::Current(2)]);
    assert_eq!(SeekFrom::End(5).max(SeekFrom::End(7)), SeekFrom::End(7));
}

#[test]
fn seek_from_shows_its_variant_and_offset() {
    assert_eq!(format!("{:?}", SeekFrom::Start(0)), "Start(0)");
    assert_eq!(format!("{:?}", SeekFrom::End(-12)), "End(-12)");
    assert_eq!(format!("{:?}", SeekFrom::Current(7)), "Current(7)");
}
