use warp_helm::http_status::HttpStatus;

#[test]
fn status_codes_run_from_100_to_999() {
    assert!(HttpStatus::new(99).is_none());
    assert!(HttpStatus::new(1000).is_none());
    assert_eq!(HttpStatus::new(100).unwrap().code(), 100);
    assert_eq!(HttpStatus::new(999).unwrap().code(), 999);
}

#[test]
fn success_and_error_are_ranges() {
    let s = |code: u16| HttpStatus::new(code).unwrap();
    assert!(!s(199).is_success());
    assert!(s(200).is_success());
    assert!(s(299).is_success());
    assert!(!s(300).is_success());
    assert!(!s(399).is_error());
    assert!(s(400).is_error());
    assert!(s(599).is_error());
    assert!(!s(600).is_error());
}

#[test]
fn statuses_print_with_their_reason() {
    assert_eq!(HttpStatus::new(404).unwrap().display_text(), "404 Not Found");
    assert_eq!(HttpStatus::new(200).unwrap().display_text(), "200 OK");
}
