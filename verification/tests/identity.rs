use yapping_server::identity::Identity;

#[test]
fn unset_identity_is_not_valid() {
    let id = Identity::unset();
    assert_eq!(id.get_value(), 0);
    assert!(!id.is_valid());
}

#[test]
fn any_other_identity_is_valid() {
    assert!(Identity::new(1).is_valid());
    assert!(Identity::new(u128::MAX).is_valid());
    assert_eq!(Identity::new(77).get_value(), 77);
    assert_eq!(Identity::new(5), Identity::new(5));
    assert_ne!(Identity::new(5), Identity::new(6));
}
