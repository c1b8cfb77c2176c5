use wsforwarder::basic_auth::{basic_header, AuthError, BasicAuthentication, Utf8Error};
use wsforwarder::encoding::Base64Error;

#[test]
fn test_basic_auth() {
    assert_eq!(
        BasicAuthentication::parse("Basic dXNlcjpwYXNz").unwrap(),
        ("user", "pass").into()
    );

    assert_eq!(
        BasicAuthentication::from(("user", "pass")).to_string(),
        "Basic dXNlcjpwYXNz"
    )
}

#[test]
fn owned_parts_make_credentials() {
    let auth = BasicAuthentication::from(("user".to_string(), "pass".to_string()));
    assert_eq!(auth.username, "user");
    assert_eq!(auth.password, "pass");
    assert_eq!(auth.clone(), auth);
    assert_eq!(BasicAuthentication::from(("user".to_string(), "pass")), auth);
    assert_eq!(BasicAuthentication::from(("user", "pass".to_string())), auth);
}

#[test]
fn a_header_holds_only_symbols_of_the_alphabet() {
    for (username, password) in [
        ("", ""),
        ("user", "pass"),
        ("a\r\nb", "c:d\n"),
        ("\u{fb}\u{ff}\u{3ff}", ">>>???~~~"),
        ("0123456789", "\u{1f600}\u{1f511}"),
    ] {
        let header = BasicAuthentication::from((username, password)).to_string();
        let n = username.len() + 1 + password.len();
        assert_eq!(header.len(), 6 + 4 * ((n + 2) / 3));
        assert!(header.is_ascii());
        assert!(header.starts_with("Basic "));
        assert!(header[6..]
            .chars()
            .all(|c| c.is_ascii_alphanumeric() || c == '+' || c == '/' || c == '='));
    }
}

#[test]
fn every_symbol_stands_for_its_six_bits() {
    let bytes: Vec<u8> = (0..16u8)
        .flat_map(|i| {
            let bits = [4 * i, 4 * i + 1, 4 * i + 2, 4 * i + 3];
            [
                bits[0] << 2 | bits[1] >> 4,
                bits[1] << 4 | bits[2] >> 2,
                bits[2] << 6 | bits[3],
            ]
        })
        .collect();
    assert_eq!(
        base64::encode(&bytes),
        "ABCDEFGHIJKLMNOPQRSTUVWXYZabcdefghijklmnopqrstuvwxyz0123456789+/"
    );
    // the last two symbols, in headers
    assert_eq!(
        BasicAuthentication::from(("", "~~>~~?")).to_string(),
        "Basic On5+Pn5+Pw=="
    );
    assert_eq!(
        BasicAuthentication::from(("", "??")).to_string(),
        "Basic Oj8/"
    );
}

#[test]
fn headers_are_equal_exactly_for_equal_text() {
    let header = |username, password| BasicAuthentication::from((username, password)).to_string();
    assert_eq!(header("a:b", "c"), header("a", "b:c"));
    assert_ne!(header("a", "bc"), header("ab", "c"));
    assert_ne!(header("a", ""), header("", "a"));
    assert_ne!(header("user", "pass"), header("user", "Pass"));
}

#[test]
fn reading_a_written_header_gives_the_credentials_back() {
    for (username, password) in [
        ("user", "pass"),
        ("", ""),
        ("user", ""),
        ("", "pass"),
        ("user", "a:b:c"),
        ("J\u{fc}rgen", "\u{1f511} key"),
        ("with space", "two  spaces"),
    ] {
        let auth = BasicAuthentication::from((username, password));
        assert_eq!(BasicAuthentication::parse(&auth.to_string()).unwrap(), auth);
    }
}

#[test]
fn a_colon_in_the_username_moves_to_the_password() {
    let auth = BasicAuthentication::from(("a:b", "c"));
    assert_eq!(
        BasicAuthentication::parse(&auth.to_string()).unwrap(),
        BasicAuthentication::from(("a", "b:c"))
    );
}

#[test]
fn the_encoded_part_is_padded() {
    assert_eq!(
        BasicAuthentication::from(("a", "b")).to_string(),
        "Basic YTpi"
    );
    assert_eq!(
        BasicAuthentication::from(("a", "bc")).to_string(),
        "Basic YTpiYw=="
    );
    assert_eq!(
        BasicAuthentication::from(("a", "bcd")).to_string(),
        "Basic YTpiY2Q="
    );
    assert_eq!(basic_header("YTpi"), "Basic YTpi");
}

#[test]
fn a_header_without_a_space_is_invalid() {
    assert_eq!(
        BasicAuthentication::parse("Basic"),
        Err(AuthError::InvalidHeader)
    );
    assert_eq!(
        BasicAuthentication::parse(""),
        Err(AuthError::InvalidHeader)
    );
    assert_eq!(
        AuthError::InvalidHeader.message(),
        "Invalid Authentication header."
    );
}

#[test]
fn only_the_basic_scheme_is_supported() {
    assert_eq!(
        BasicAuthentication::parse("Bearer dXNlcjpwYXNz"),
        Err(AuthError::UnsupportedType)
    );
    assert_eq!(
        BasicAuthentication::parse("basic dXNlcjpwYXNz"),
        Err(AuthError::UnsupportedType)
    );
    assert_eq!(
        BasicAuthentication::parse(" dXNlcjpwYXNz"),
        Err(AuthError::UnsupportedType)
    );
    assert_eq!(
        AuthError::UnsupportedType.message(),
        "Authentication header is not a supported type."
    );
}

#[test]
fn what_is_not_base64_is_reported() {
    let byte = AuthError::Base64(Base64Error::InvalidByte(4, b'!'));
    assert_eq!(BasicAuthentication::parse("Basic dXNl!jpw"), Err(byte));
    assert_eq!(byte.message(), base64::decode("dXNl!jpw").unwrap_err().to_string());
    assert_eq!(byte.message(), "Invalid byte 33, offset 4.");

    let length = AuthError::Base64(Base64Error::InvalidLength);
    assert_eq!(BasicAuthentication::parse("Basic dXNlc"), Err(length));
    assert_eq!(length.message(), base64::decode("dXNlc").unwrap_err().to_string());

    let symbol = AuthError::Base64(Base64Error::InvalidLastSymbol(1, b'Z'));
    assert_eq!(BasicAuthentication::parse("Basic YZ=="), Err(symbol));
    assert_eq!(symbol.message(), base64::decode("YZ==").unwrap_err().to_string());
    assert_eq!(symbol.message(), "Invalid last symbol 90, offset 1.");

    // a second space belongs to the encoded part
    assert_eq!(
        BasicAuthentication::parse("Basic  dXNlcjpwYXNz"),
        Err(AuthError::Base64(Base64Error::InvalidLength))
    );
}

#[test]
fn what_is_not_utf8_is_reported() {
    for bytes in [vec![b'a', 0xff, b':'], vec![b'a', b'b', 0xe2, 0x82], vec![0xe2, 0x28, 0xa1]] {
        let header = format!("Basic {}", base64::encode(&bytes));
        let expected = String::from_utf8(bytes).unwrap_err();
        let error = BasicAuthentication::parse(&header).unwrap_err();
        assert_eq!(
            error,
            AuthError::Utf8(Utf8Error {
                valid_up_to: expected.utf8_error().valid_up_to(),
                error_len: expected.utf8_error().error_len(),
            })
        );
        assert_eq!(error.message(), expected.to_string());
    }
}

#[test]
fn credentials_without_a_colon_are_invalid() {
    assert_eq!(
        BasicAuthentication::parse("Basic dXNlcg=="),
        Err(AuthError::InvalidCredentials)
    );
    assert_eq!(
        BasicAuthentication::parse("Basic "),
        Err(AuthError::InvalidCredentials)
    );
    assert_eq!(
        AuthError::InvalidCredentials.message(),
        "Invalid basic authentication header."
    );
}

#[test]
fn decoded_credentials_are_split_at_the_first_colon() {
    assert_eq!(
        BasicAuthentication::from_decoded(Ok(b"user:pa:ss".to_vec())),
        Ok(BasicAuthentication::from(("user", "pa:ss")))
    );
    assert_eq!(
        BasicAuthentication::from_decoded(Err(Base64Error::InvalidLength)),
        Err(AuthError::Base64(Base64Error::InvalidLength))
    );
    assert_eq!(
        BasicAuthentication::from_decoded(Ok(Vec::new())),
        Err(AuthError::InvalidCredentials)
    );
}

#[test]
fn a_read_username_holds_no_colon() {
    let auth = BasicAuthentication::parse("Basic OjphOmI=").unwrap();
    assert_eq!(auth, BasicAuthentication::from(("", ":a:b")));
}
