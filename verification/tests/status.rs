use coverage_http::status::HttpStatus;

#[test]
fn status_codes_have_three_digits() {
    assert!(HttpStatus::new(99).is_none());
    assert!(HttpStatus::new(1000).is_none());
    assert_eq!(HttpStatus::new(100).unwrap().code(), 100);
    assert_eq!(HttpStatus::new(999).unwrap().code(), 999);
}

#[test]
fn statuses_of_success_are_the_two_hundreds() {
    for code in 100..1000u16 {
        let status = HttpStatus::new(code).unwrap();
        let real = reqwest::StatusCode::from_u16(code).unwrap();
        assert_eq!(status.is_success(), real.is_success());
        assert_eq!(status.line(), real.to_string());
    }
}

#[test]
fn statuses_are_written_with_their_reason() {
    assert_eq!(HttpStatus::new(404).unwrap().line(), "404 Not Found");
    assert_eq!(HttpStatus::new(500).unwrap().line(), "500 Internal Server Error");
    assert_eq!(HttpStatus::new(299).unwrap().line(), "299 <unknown status code>");
}
