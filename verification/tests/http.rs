use chat_gpt_lib_rs::http::{Header, HttpStatus};

#[test]
fn status_is_a_number_from_100_to_999() {
    assert!(HttpStatus::from_u16(99).is_none());
    assert!(HttpStatus::from_u16(0).is_none());
    assert!(HttpStatus::from_u16(1000).is_none());
    assert!(HttpStatus::from_u16(u16::MAX).is_none());
    assert_eq!(HttpStatus::from_u16(100).unwrap().as_u16(), 100);
    assert_eq!(HttpStatus::from_u16(999).unwrap().as_u16(), 999);
}

#[test]
fn success_is_200_to_299() {
    assert!(!HttpStatus::from_u16(199).unwrap().is_success());
    assert!(HttpStatus::from_u16(200).unwrap().is_success());
    assert!(HttpStatus::from_u16(299).unwrap().is_success());
    assert!(!HttpStatus::from_u16(300).unwrap().is_success());
}

#[test]
fn status_displays_number_and_reason() {
    assert_eq!(HttpStatus::from_u16(200).unwrap().to_string(), "200 OK");
    assert_eq!(HttpStatus::from_u16(404).unwrap().to_string(), "404 Not Found");
    assert_eq!(
        HttpStatus::from_u16(429).unwrap().to_string(),
        "429 Too Many Requests"
    );
    assert_eq!(
        HttpStatus::from_u16(799).unwrap().to_string(),
        "799 <unknown status code>"
    );
}

#[test]
fn status_text_starts_with_its_three_digits() {
    for code in [100u16, 109, 110, 250, 407, 999] {
        let text = HttpStatus::from_u16(code).unwrap().to_string();
        assert_eq!(&text[..3], code.to_string());
        assert_eq!(&text[3..4], " ");
    }
}

#[test]
fn header_holds_name_and_value() {
    let header = Header::new("Content-Type", "application/json");
    assert_eq!(header.name, "Content-Type");
    assert_eq!(header.value, "application/json");
}
