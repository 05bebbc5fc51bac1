use base64::Engine;
use jidori_kun::codec::{decode_data_url, report_decoding, Base64Error, Payload};

#[test]
fn data_url_payload_is_decoded() {
    let r = decode_data_url("data:image/png;base64,aGVsbG8=");
    assert_eq!(
        r,
        Ok(Payload { text: "aGVsbG8=".to_string(), bytes: b"hello".to_vec() })
    );
}

#[test]
fn url_without_comma_decodes_nothing() {
    let r = decode_data_url("aGVsbG8=");
    assert_eq!(r, Ok(Payload { text: String::new(), bytes: Vec::new() }));
}

#[test]
fn decoding_errors_read_as_the_crate_displays_them() {
    for bad in ["@@@@", "abc", "aGVsbG8", "aGVsbG9=", "a===", "QUJD=="] {
        let expected = base64::engine::general_purpose::STANDARD
            .decode(bad)
            .unwrap_err()
            .to_string();
        let r = decode_data_url(&format!("data:image/png;base64,{bad}"));
        assert_eq!(r, Err(expected), "input {bad}");
    }
}

#[test]
fn error_messages() {
    assert_eq!(Base64Error::InvalidByte(3, 64).message(), "Invalid symbol 64, offset 3.");
    assert_eq!(Base64Error::InvalidLength(5).message(), "Invalid input length: 5");
    assert_eq!(
        Base64Error::InvalidLastSymbol(10, 66).message(),
        "Invalid last symbol 66, offset 10."
    );
    assert_eq!(Base64Error::InvalidPadding.message(), "Invalid padding");
    assert_eq!(report_decoding(Err(Base64Error::InvalidPadding)), Err("Invalid padding".to_string()));
    assert_eq!(report_decoding(Ok(vec![1, 2])), Ok(vec![1, 2]));
}
