use pos_backend::features::health::check_health;

#[test]
fn handler_should_return_ok_with_message() {
    let result = check_health();
    assert_eq!(result, "server is up and running");
}
