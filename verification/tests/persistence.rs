use auth_controller::resources::ResourceKind;

#[test]
fn it_works() {
    assert_eq!(2 + 2, 4);
}

#[test]
fn only_user_seeds_carry_a_status() {
    assert!(!ResourceKind::Client.has_status());
    assert!(ResourceKind::UserSeed.has_status());
}
