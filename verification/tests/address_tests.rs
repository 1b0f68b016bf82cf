use idlib_typeinfo::address::ForeignAddress;

#[test]
fn null_address_is_null() {
    assert!(ForeignAddress::null().is_null());
    assert!(ForeignAddress(0).is_null());
    assert!(!ForeignAddress(1).is_null());
    assert!(!ForeignAddress(u64::MAX).is_null());
}

#[test]
fn element_address_is_base_plus_index_times_stride() {
    assert_eq!(ForeignAddress(0x1000).element(0, 88), Some(ForeignAddress(0x1000)));
    assert_eq!(ForeignAddress(0x1000).element(3, 88), Some(ForeignAddress(0x1000 + 264)));
    assert_eq!(ForeignAddress(0x2000).element(5, 8), Some(ForeignAddress(0x2028)));
}

#[test]
fn element_address_past_the_address_space_is_none() {
    assert_eq!(ForeignAddress(u64::MAX).element(1, 1), None);
    assert_eq!(ForeignAddress(u64::MAX - 87).element(1, 88), None);
    assert_eq!(ForeignAddress(u64::MAX - 88).element(1, 88), Some(ForeignAddress(u64::MAX)));
    assert_eq!(ForeignAddress(0).element(u64::MAX, 2), None);
    assert_eq!(ForeignAddress(0).element(u64::MAX, 1), Some(ForeignAddress(u64::MAX)));
}
