use wsforwarder::content_type::parse_content_type;
use wsforwarder::error::HttpError;

fn query(content_type: &str) -> Result<String, HttpError> {
    parse_content_type(content_type.to_string())
}

#[test]
fn linear_audio_is_described_by_its_rate() {
    assert_eq!(
        query("audio/l16;rate=16000"),
        Ok("?encoding=linear16&sample_rate=16000&channels=1".to_string())
    );
    assert_eq!(
        query("audio/l16;rate=8000"),
        Ok("?encoding=linear16&sample_rate=8000&channels=1".to_string())
    );
}

#[test]
fn an_empty_content_type_needs_no_query() {
    assert_eq!(query(""), Ok(String::new()));
}

#[test]
fn only_the_encoding_is_looked_at() {
    for accepted in ["x/l16;y=44100", "/l16;=44100", "a=b/l16;/=44100"] {
        assert_eq!(
            query(accepted),
            Ok("?encoding=linear16&sample_rate=44100&channels=1".to_string())
        );
    }
    assert_eq!(
        query("audio/l16;rate="),
        Ok("?encoding=linear16&sample_rate=&channels=1".to_string())
    );
}

#[test]
fn other_content_types_are_refused() {
    for refused in [
        "audio/l16",
        "audio/l16;",
        "audio/l16;rate",
        "audio/l16;rate=16000;",
        "audio/l16;rate=16000;channels=2",
        "audio/l16/x;rate=16000",
        "l16;rate=16000",
        "audio/l16;rate=16000=1",
        "audio/L16;rate=16000",
        "audio/wav;rate=16000",
        "audio/ l16;rate=16000",
        ";",
        " ",
    ] {
        assert_eq!(query(refused), Err(HttpError::ContentType), "{}", refused);
    }
    assert_eq!(HttpError::ContentType.status(), 400);
    assert_eq!(
        HttpError::ContentType.message(),
        "Failed to parse content-type."
    );
}
