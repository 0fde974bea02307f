use rocket_auth::program::func;

#[test]
fn func_doubles() {
    assert_eq!(func(3), 6);
    assert_eq!(func(0), 0);
    assert_eq!(func(-21), -42);
    assert_eq!(func(99), 198);
}
