use recipe_api::db::{parse_id, StoreKey};
use recipe_api::errors::Status;
use recipe_api::routes::request_key;

const SAMPLE: [u8; 12] = [0x53, 0xe3, 0x7d, 0x08, 0x77, 0x6f, 0x72, 0x4e, 0x42, 0x00, 0x00, 0xff];

#[test]
fn empty_identifier_is_rejected() {
    let err = parse_id(&String::new()).unwrap_err();
    assert_eq!(err.details, "failed to parse  as an ObjectId.");
}

#[test]
fn key_text_parses_to_its_bytes() {
    let key = parse_id(&"53e37d08776f724e420000ff".to_string()).unwrap();
    assert_eq!(key, StoreKey { bytes: SAMPLE });
}

#[test]
fn upper_and_mixed_case_digits_are_accepted() {
    let key = parse_id(&"53E37D08776F724e420000Ff".to_string()).unwrap();
    assert_eq!(key.bytes, SAMPLE);
}

#[test]
fn all_zero_and_all_f_keys_parse() {
    assert_eq!(parse_id(&"0".repeat(24)).unwrap().bytes, [0u8; 12]);
    assert_eq!(parse_id(&"f".repeat(24)).unwrap().bytes, [0xffu8; 12]);
}

#[test]
fn short_identifier_is_rejected_with_the_parser_message() {
    let err = parse_id(&"abcd".to_string()).unwrap_err();
    assert_eq!(
        err.details,
        "provided hex string representation must be exactly 12 bytes, instead got: \"abcd\", length 4"
    );
}

#[test]
fn odd_length_identifier_is_rejected() {
    let err = parse_id(&"abc".to_string()).unwrap_err();
    assert_eq!(
        err.details,
        "provided hex string representation must be exactly 12 bytes, instead got: \"abc\", length 3"
    );
}

#[test]
fn long_identifier_is_rejected() {
    assert!(parse_id(&"0".repeat(26)).is_err());
    assert!(parse_id(&"0".repeat(25)).is_err());
    assert!(parse_id(&"0".repeat(23)).is_err());
}

#[test]
fn non_hex_identifier_is_rejected_with_the_parser_message() {
    let id = "53e37d08776f724e420000zz".to_string();
    let err = parse_id(&id).unwrap_err();
    assert_eq!(
        err.details,
        "invalid character 'z' was found at index 22 in the provided hex string: \"53e37d08776f724e420000zz\""
    );
}

#[test]
fn non_ascii_identifier_is_rejected() {
    assert!(parse_id(&"é".repeat(12)).is_err());
    assert!(parse_id(&"é".repeat(24)).is_err());
}

#[test]
fn request_with_bad_identifier_is_a_bad_request() {
    let err = request_key(&"not-a-hex-string".to_string()).unwrap_err();
    assert_eq!(err.status, Status::BadRequest);
    assert_eq!(err.status.code(), 400);
    assert_eq!(
        err.description,
        "invalid character 'n' was found at index 0 in the provided hex string: \"not-a-hex-string\""
    );
}

#[test]
fn request_with_empty_identifier_is_a_bad_request() {
    let err = request_key(&String::new()).unwrap_err();
    assert_eq!(err.status, Status::BadRequest);
    assert_eq!(err.description, "failed to parse  as an ObjectId.");
}

#[test]
fn request_with_key_text_gives_the_key() {
    let key = request_key(&"53e37d08776f724e420000ff".to_string()).unwrap();
    assert_eq!(key.bytes, SAMPLE);
}

#[test]
fn status_codes() {
    assert_eq!(Status::BadRequest.code(), 400);
    assert_eq!(Status::NotFound.code(), 404);
    assert_eq!(Status::InternalServerError.code(), 500);
}
