use acril_web::StatusCode;

#[test]
fn three_digit_numbers_are_status_codes() {
    assert_eq!(StatusCode::from_u16(100).map(|s| s.as_u16()), Some(100));
    assert_eq!(StatusCode::from_u16(200).map(|s| s.as_u16()), Some(200));
    assert_eq!(StatusCode::from_u16(404).map(|s| s.as_u16()), Some(404));
    assert_eq!(StatusCode::from_u16(999).map(|s| s.as_u16()), Some(999));
}

#[test]
fn other_numbers_are_not_status_codes() {
    assert_eq!(StatusCode::from_u16(0), None);
    assert_eq!(StatusCode::from_u16(99), None);
    assert_eq!(StatusCode::from_u16(1000), None);
    assert_eq!(StatusCode::from_u16(u16::MAX), None);
}

#[test]
fn internal_server_error_is_500() {
    assert_eq!(StatusCode::internal_server_error().as_u16(), 500);
    assert_eq!(Some(StatusCode::internal_server_error()), StatusCode::from_u16(500));
}

#[test]
fn server_errors_are_the_codes_from_500_to_599() {
    assert!(!StatusCode::from_u16(499).unwrap().is_server_error());
    assert!(StatusCode::from_u16(500).unwrap().is_server_error());
    assert!(StatusCode::from_u16(503).unwrap().is_server_error());
    assert!(StatusCode::from_u16(599).unwrap().is_server_error());
    assert!(!StatusCode::from_u16(600).unwrap().is_server_error());
    assert!(!StatusCode::from_u16(200).unwrap().is_server_error());
}

#[test]
fn status_codes_compare_by_number() {
    assert_eq!(StatusCode::from_u16(204), StatusCode::from_u16(204));
    assert_ne!(StatusCode::from_u16(204), StatusCode::from_u16(205));
}
