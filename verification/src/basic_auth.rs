//! Credentials in the form of the HTTP `Authorization: Basic` header.

use crate::encoding::{
    base64_decode, base64_decoded, base64_encode, base64_of, decodable, decoded_bytes, encodable,
    encoded_len, encodings_differ, encodings_stay_in_the_alphabet, in_alphabet, Base64Error,
};
use crate::text::{
    append_decimal, cut, decimal, lemma_cut_joined, lemma_cut_parts, lemma_no_cut, same_text,
    split_once,
};
use vstd::prelude::*;
use vstd::utf8::{
    decode_utf8, encode_utf8, encode_utf8_decode_utf8, encode_utf8_valid_utf8, is_ascii_chars,
    is_ascii_chars_encode_utf8, valid_utf8,
};

verus! {

/// Why bytes are not UTF-8.
#[derive(Clone, Copy, PartialEq, Eq, Structural, Debug)]
pub struct Utf8Error {
    /// How many bytes at the start are valid.
    pub valid_up_to: usize,
    /// The length of the invalid sequence that follows them, or `None` if the
    /// bytes end in the middle of a character.
    pub error_len: Option<usize>,
}

/// Why a header is not a basic authentication header.
#[derive(Clone, Copy, PartialEq, Eq, Structural, Debug)]
pub enum AuthError {
    /// The header has no space between a scheme and credentials.
    InvalidHeader,
    /// The scheme is not `Basic`.
    UnsupportedType,
    /// The credentials are not base64.
    Base64(Base64Error),
    /// The decoded credentials are not UTF-8.
    Utf8(Utf8Error),
    /// The decoded credentials have no colon.
    InvalidCredentials,
}

/// A user name and a password.
#[derive(PartialEq, Eq, Debug)]
pub struct BasicAuthentication {
    pub username: String,
    pub password: String,
}

/// What `BasicAuthentication` stands for.
pub struct Credentials {
    pub username: Seq<char>,
    pub password: Seq<char>,
}

impl View for BasicAuthentication {
    type V = Credentials;

    open spec fn view(&self) -> Credentials {
        Credentials { username: self.username@, password: self.password@ }
    }
}

impl Clone for BasicAuthentication {
    fn clone(&self) -> (copy: Self)
        ensures
            copy@ == self@,
    {
        BasicAuthentication { username: self.username.clone(), password: self.password.clone() }
    }
}

/// What `Utf8Error::error_len` tells of bytes that are not UTF-8.
pub uninterp spec fn utf8_error_len(bytes: Seq<u8>) -> Option<usize>;

/// `String::from_utf8`. Claimed of it: it succeeds exactly on valid UTF-8, with
/// the characters that the bytes encode; otherwise it reports the longest valid
/// prefix, and a length that depends on the bytes alone.
#[verifier::external_body]
fn string_from_utf8(bytes: Vec<u8>) -> (text: Result<String, Utf8Error>)
    ensures
        match text {
            Ok(s) => valid_utf8(bytes@) && s@ == decode_utf8(bytes@),
            Err(e) => !valid_utf8(bytes@) && longest_valid_prefix(bytes@, e.valid_up_to as int)
                && e.error_len == utf8_error_len(bytes@),
        },
{
    match String::from_utf8(bytes) {
        Ok(text) => Ok(text),
        Err(e) => Err(
            Utf8Error {
                valid_up_to: e.utf8_error().valid_up_to(),
                error_len: e.utf8_error().error_len(),
            },
        ),
    }
}

/// Whether the first `len` bytes are UTF-8, and no longer prefix is.
pub open spec fn longest_valid_prefix(bytes: Seq<u8>, len: int) -> bool {
    &&& 0 <= len <= bytes.len()
    &&& valid_utf8(bytes.take(len))
    &&& forall|n: int| len < n <= bytes.len() ==> !valid_utf8(#[trigger] bytes.take(n))
}

/// Whether `e` tells where `bytes` stop being UTF-8.
pub open spec fn utf8_failure(bytes: Seq<u8>, e: Utf8Error) -> bool {
    &&& longest_valid_prefix(bytes, e.valid_up_to as int)
    &&& e.error_len == utf8_error_len(bytes)
}

/// The text that is encoded in a header: user name, colon, password.
pub open spec fn joined(c: Credentials) -> Seq<char> {
    c.username.push(':') + c.password
}

/// Whether the header of the credentials fits in memory.
pub open spec fn header_fits(c: Credentials) -> bool {
    encodable(encode_utf8(joined(c)).len())
}

/// The header that carries the encoded credentials.
pub open spec fn header_with(encoded: Seq<char>) -> Seq<char> {
    "Basic "@ + encoded
}

/// The header that carries the credentials.
pub open spec fn header_of(c: Credentials) -> Seq<char> {
    header_with(base64_of(encode_utf8(joined(c))))
}

/// The encoded credentials that a header carries.
pub open spec fn payload(header: Seq<char>) -> Result<Seq<char>, AuthError> {
    match cut(header, ' ') {
        None => Err(AuthError::InvalidHeader),
        Some((scheme, rest)) => if scheme == "Basic"@ {
            Ok(rest)
        } else {
            Err(AuthError::UnsupportedType)
        },
    }
}

/// Whether `result` is what decoded credentials stand for.
pub open spec fn reads_decoded(
    decoded: Result<Seq<u8>, Base64Error>,
    result: Result<Credentials, AuthError>,
) -> bool {
    match decoded {
        Err(e) => result == Err::<Credentials, AuthError>(AuthError::Base64(e)),
        Ok(bytes) => if !valid_utf8(bytes) {
            result matches Err(AuthError::Utf8(e)) && utf8_failure(bytes, e)
        } else {
            result == match cut(decode_utf8(bytes), ':') {
                Some((username, password)) => Ok(Credentials { username, password }),
                None => Err(AuthError::InvalidCredentials),
            }
        },
    }
}

/// Whether `result` is what a header stands for.
pub open spec fn reads_header(
    header: Seq<char>,
    result: Result<Credentials, AuthError>,
) -> bool {
    match payload(header) {
        Err(e) => result == Err::<Credentials, AuthError>(e),
        Ok(encoded) => reads_decoded(base64_decoded(encoded), result),
    }
}

/// Whether the header of the credentials is not too long to be decoded.
pub open spec fn readable(c: Credentials) -> bool {
    encoded_len(encode_utf8(joined(c)).len()) * 4 <= usize::MAX
}

/// The credentials as their header is read: cut at the first colon. They are
/// the same unless the user name holds a colon.
pub open spec fn as_read(c: Credentials) -> Credentials {
    match cut(joined(c), ':') {
        Some((username, password)) => Credentials { username, password },
        None => c,
    }
}

/// Whether the header of the credentials, where it is readable, can be read,
/// decodes to user name, colon and password, and is read as the credentials cut
/// at the first colon and nothing else.
pub open spec fn reads_back(c: Credentials) -> bool {
    readable(c) ==> {
        &&& payload(header_of(c)) matches Ok(encoded) && decodable(encoded)
            && base64_decoded(encoded) == decoded_bytes(encode_utf8(joined(c)))
        &&& forall|result: Result<Credentials, AuthError>|
            #[trigger] reads_header(header_of(c), result) <==> result == Ok::<
                Credentials,
                AuthError,
            >(as_read(c))
        &&& !c.username.contains(':') ==> as_read(c) == c
    }
}

/// The view of the outcome of reading a header.
pub open spec fn outcome(
    result: Result<BasicAuthentication, AuthError>,
) -> Result<Credentials, AuthError> {
    match result {
        Ok(a) => Ok(a@),
        Err(e) => Err(e),
    }
}

impl BasicAuthentication {
    /// Takes the value of the 'Authorization' header and tries to construct a
    /// BasicAuthentication object from it.
    pub fn parse(header: &str) -> (result: Result<Self, AuthError>)
        requires
            payload(header@) matches Ok(encoded) ==> decodable(encoded),
        ensures
            reads_header(header@, outcome(result)),
    {
        match split_once(header, ' ') {
            None => Err(AuthError::InvalidHeader),
            Some((scheme, encoded)) => if same_text(scheme, "Basic") {
                Self::from_decoded(base64_decode(encoded))
            } else {
                Err(AuthError::UnsupportedType)
            },
        }
    }

    /// Reads credentials from what the encoded part of a header decodes to.
    pub fn from_decoded(decoded: Result<Vec<u8>, Base64Error>) -> (result: Result<Self, AuthError>)
        ensures
            reads_decoded(
                match decoded {
                    Ok(bytes) => Ok(bytes@),
                    Err(e) => Err(e),
                },
                outcome(result),
            ),
    {
        match decoded {
            Err(e) => Err(AuthError::Base64(e)),
            Ok(bytes) => match string_from_utf8(bytes) {
                Err(e) => Err(AuthError::Utf8(e)),
                Ok(text) => match split_once(text.as_str(), ':') {
                    Some((username, password)) => Ok(
                        BasicAuthentication {
                            username: username.to_owned(),
                            password: password.to_owned(),
                        },
                    ),
                    None => Err(AuthError::InvalidCredentials),
                },
            },
        }
    }

    /// The header that carries these credentials: the scheme and a space, then
    /// symbols of the base64 alphabet only. Reading it gives the credentials
    /// back, unless the user name holds a colon.
    pub fn to_string(&self) -> (header: String)
        requires
            header_fits(self@),
        ensures
            header@ == header_of(self@),
            header@ == "Basic "@ + base64_of(
                encode_utf8(self.username@ + ":"@ + self.password@),
            ),
            header@.len() == 6 + encoded_len(encode_utf8(joined(self@)).len()),
            header@.take(6) == "Basic "@,
            forall|i: int| 6 <= i < header@.len() ==> in_alphabet(#[trigger] header@[i]),
            is_ascii_chars(header@),
            reads_back(self@),
    {
        let mut text: String = self.username.clone();
        text.append(":");
        text.append(self.password.as_str());
        proof {
            reveal_strlit(":");
            assert(text@ =~= joined(self@));
        }
        let encoded = base64_encode(text.as_str().as_bytes());
        proof {
            encode_utf8_valid_utf8(joined(self@));
            encode_utf8_decode_utf8(joined(self@));
            header_shape(self@);
            the_header_is_the_encoded_text(self@);
            is_ascii_chars_encode_utf8(encoded@);
            lemma_as_read(self@);
            lemma_payload(encoded@);
        }
        basic_header(encoded.as_str())
    }
}

impl From<(String, String)> for BasicAuthentication {
    fn from(other: (String, String)) -> (result: Self)
        ensures
            result@ == (Credentials { username: other.0@, password: other.1@ }),
    {
        BasicAuthentication { username: other.0, password: other.1 }
    }
}

impl vstd::std_specs::convert::FromSpecImpl<(String, String)> for BasicAuthentication {
    open spec fn obeys_from_spec() -> bool {
        true
    }

    open spec fn from_spec(other: (String, String)) -> Self {
        BasicAuthentication { username: other.0, password: other.1 }
    }
}

impl<'a> From<(String, &'a str)> for BasicAuthentication {
    fn from(other: (String, &'a str)) -> (result: Self)
        ensures
            result@ == (Credentials { username: other.0@, password: other.1@ }),
    {
        BasicAuthentication { username: other.0, password: other.1.to_owned() }
    }
}

impl<'a> vstd::std_specs::convert::FromSpecImpl<(String, &'a str)> for BasicAuthentication {
    open spec fn obeys_from_spec() -> bool {
        false
    }

    open spec fn from_spec(other: (String, &'a str)) -> Self {
        arbitrary()
    }
}

impl<'a> From<(&'a str, String)> for BasicAuthentication {
    fn from(other: (&'a str, String)) -> (result: Self)
        ensures
            result@ == (Credentials { username: other.0@, password: other.1@ }),
    {
        BasicAuthentication { username: other.0.to_owned(), password: other.1 }
    }
}

impl<'a> vstd::std_specs::convert::FromSpecImpl<(&'a str, String)> for BasicAuthentication {
    open spec fn obeys_from_spec() -> bool {
        false
    }

    open spec fn from_spec(other: (&'a str, String)) -> Self {
        arbitrary()
    }
}

impl<'a> From<(&'a str, &'a str)> for BasicAuthentication {
    fn from(other: (&'a str, &'a str)) -> (result: Self)
        ensures
            result@ == (Credentials { username: other.0@, password: other.1@ }),
    {
        BasicAuthentication { username: other.0.to_owned(), password: other.1.to_owned() }
    }
}

impl<'a> vstd::std_specs::convert::FromSpecImpl<(&'a str, &'a str)> for BasicAuthentication {
    open spec fn obeys_from_spec() -> bool {
        false
    }

    open spec fn from_spec(other: (&'a str, &'a str)) -> Self {
        arbitrary()
    }
}

/// The header that carries the encoded credentials.
pub fn basic_header(encoded: &str) -> (header: String)
    ensures
        header@ == header_with(encoded@),
        header@ == "Basic "@ + encoded@,
{
    let mut header: String = "Basic ".to_owned();
    header.append(encoded);
    header
}

impl AuthError {
    /// What the error says.
    pub fn message(&self) -> (text: String)
        ensures
            text@ == error_text(*self),
    {
        match *self {
            AuthError::InvalidHeader => "Invalid Authentication header.".to_owned(),
            AuthError::UnsupportedType => {
                "Authentication header is not a supported type.".to_owned()
            },
            AuthError::Base64(Base64Error::InvalidByte(at, byte)) => {
                let mut text = located("Invalid byte ", byte as u64, ", offset ", at as u64);
                text.append(".");
                text
            },
            AuthError::Base64(Base64Error::InvalidLength) => {
                "Encoded text cannot have a 6-bit remainder.".to_owned()
            },
            AuthError::Base64(Base64Error::InvalidLastSymbol(at, byte)) => {
                let mut text = located("Invalid last symbol ", byte as u64, ", offset ", at as u64);
                text.append(".");
                text
            },
            AuthError::Utf8(e) => match e.error_len {
                Some(len) => located(
                    "invalid utf-8 sequence of ",
                    len as u64,
                    " bytes from index ",
                    e.valid_up_to as u64,
                ),
                None => {
                    let mut text: String = "incomplete utf-8 byte sequence from index ".to_owned();
                    append_decimal(&mut text, e.valid_up_to as u64);
                    text
                },
            },
            AuthError::InvalidCredentials => "Invalid basic authentication header.".to_owned(),
        }
    }
}

/// Two numbers in decimal, each with a text before it.
fn located(before: &str, first: u64, between: &str, second: u64) -> (text: String)
    ensures
        text@ == before@ + decimal(first as nat) + between@ + decimal(second as nat),
{
    let mut text: String = before.to_owned();
    append_decimal(&mut text, first);
    text.append(between);
    append_decimal(&mut text, second);
    text
}

/// What an error says.
pub open spec fn error_text(e: AuthError) -> Seq<char> {
    match e {
        AuthError::InvalidHeader => "Invalid Authentication header."@,
        AuthError::UnsupportedType => "Authentication header is not a supported type."@,
        AuthError::Base64(Base64Error::InvalidByte(at, byte)) => "Invalid byte "@ + decimal(
            byte as nat,
        ) + ", offset "@ + decimal(at as nat) + "."@,
        AuthError::Base64(
            Base64Error::InvalidLength,
        ) => "Encoded text cannot have a 6-bit remainder."@,
        AuthError::Base64(
            Base64Error::InvalidLastSymbol(at, byte),
        ) => "Invalid last symbol "@ + decimal(byte as nat) + ", offset "@ + decimal(at as nat)
            + "."@,
        AuthError::Utf8(e) => match e.error_len {
            Some(len) => "invalid utf-8 sequence of "@ + decimal(len as nat)
                + " bytes from index "@ + decimal(e.valid_up_to as nat),
            None => "incomplete utf-8 byte sequence from index "@ + decimal(e.valid_up_to as nat),
        },
        AuthError::InvalidCredentials => "Invalid basic authentication header."@,
    }
}

/// A user name that was read from a header holds no colon; user name, colon and
/// password make up the decoded text.
pub proof fn read_username_holds_no_colon(header: Seq<char>, c: Credentials)
    requires
        reads_header(header, Ok(c)),
    ensures
        !c.username.contains(':'),
        valid_utf8(base64_decoded(payload(header)->Ok_0)->Ok_0),
        decode_utf8(base64_decoded(payload(header)->Ok_0)->Ok_0) == joined(c),
{
    lemma_cut_parts(decode_utf8(base64_decoded(payload(header)->Ok_0)->Ok_0), ':');
}

proof fn lemma_as_read(c: Credentials)
    ensures
        cut(joined(c), ':') is Some,
        !c.username.contains(':') ==> as_read(c) == c,
{
    lemma_cut_parts(joined(c), ':');
    assert(joined(c)[c.username.len() as int] == ':');
    if !c.username.contains(':') {
        lemma_cut_joined(c.username, c.password, ':');
    }
}

/// A header is the scheme and a space, then four symbols of the base64 alphabet
/// for each three bytes of the credentials begun: no colon and no line break of
/// the credentials is in it.
pub proof fn header_shape(c: Credentials)
    ensures
        header_of(c).len() == 6 + encoded_len(encode_utf8(joined(c)).len()),
        header_of(c).take(6) == "Basic "@,
        forall|i: int| 6 <= i < header_of(c).len() ==> in_alphabet(#[trigger] header_of(c)[i]),
        is_ascii_chars(header_of(c)),
{
    reveal_strlit("Basic ");
    let encoded = base64_of(encode_utf8(joined(c)));
    encodings_stay_in_the_alphabet(encode_utf8(joined(c)));
    assert(header_of(c).take(6) =~= "Basic "@);
    assert forall|i: int| 6 <= i < header_of(c).len() implies in_alphabet(
        #[trigger] header_of(c)[i],
    ) by {
        assert(header_of(c)[i] == encoded[i - 6]);
    }
}

/// Two headers are equal exactly if user name, colon and password make the same
/// text. So different credentials have different headers where neither user
/// name holds a colon.
pub proof fn headers_are_equal_for_equal_text(a: Credentials, b: Credentials)
    ensures
        header_of(a) == header_of(b) <==> joined(a) == joined(b),
        !a.username.contains(':') && !b.username.contains(':') ==> (header_of(a) == header_of(b)
            <==> a == b),
{
    let (x, y) = (base64_of(encode_utf8(joined(a))), base64_of(encode_utf8(joined(b))));
    assert(header_of(a).skip("Basic "@.len() as int) =~= x);
    assert(header_of(b).skip("Basic "@.len() as int) =~= y);
    encodings_differ(encode_utf8(joined(a)), encode_utf8(joined(b)));
    encode_utf8_decode_utf8(joined(a));
    encode_utf8_decode_utf8(joined(b));
    lemma_as_read(a);
    lemma_as_read(b);
}

/// A header carries the encoded credentials that it was made with.
pub proof fn lemma_payload(encoded: Seq<char>)
    ensures
        payload(header_with(encoded)) == Ok::<Seq<char>, AuthError>(encoded),
{
    reveal_strlit("Basic ");
    reveal_strlit("Basic");
    assert("Basic "@ =~= "Basic"@.push(' '));
    assert(!"Basic"@.contains(' '));
    lemma_cut_joined("Basic"@, encoded, ' ');
}

/// The header of credentials is the scheme and a space, then the base64 of the
/// UTF-8 of user name, colon and password.
pub proof fn the_header_is_the_encoded_text(c: Credentials)
    ensures
        header_of(c) == "Basic "@ + base64_of(encode_utf8(c.username + ":"@ + c.password)),
        header_fits(c) <==> (encode_utf8(c.username + ":"@ + c.password).len() + 2) / 3 * 4
            <= isize::MAX,
        readable(c) <==> (encode_utf8(c.username + ":"@ + c.password).len() + 2) / 3 * 4 * 4
            <= usize::MAX,
{
    reveal_strlit(":");
    assert(joined(c) =~= c.username + ":"@ + c.password);
}

/// A header without a space is invalid.
pub proof fn a_header_needs_a_space(header: Seq<char>, result: Result<Credentials, AuthError>)
    requires
        !header.contains(' '),
    ensures
        payload(header) is Err,
        reads_header(header, result) <==> result == Err::<Credentials, AuthError>(
            AuthError::InvalidHeader,
        ),
{
    lemma_cut_parts(header, ' ');
    lemma_no_cut(header, ' ');
}

/// A header with any scheme but `Basic` before its first space is not supported.
pub proof fn a_header_needs_the_scheme(
    scheme: Seq<char>,
    rest: Seq<char>,
    result: Result<Credentials, AuthError>,
)
    requires
        !scheme.contains(' '),
        scheme != "Basic"@,
    ensures
        payload(scheme + " "@ + rest) is Err,
        reads_header(scheme + " "@ + rest, result) <==> result == Err::<Credentials, AuthError>(
            AuthError::UnsupportedType,
        ),
{
    reveal_strlit(" ");
    assert(scheme + " "@ + rest =~= scheme.push(' ') + rest);
    lemma_cut_joined(scheme, rest, ' ');
}

/// Everything behind `Basic` and one space is what is decoded, and it decides
/// what the header is read as.
pub proof fn the_rest_of_the_header_is_decoded(
    encoded: Seq<char>,
    result: Result<Credentials, AuthError>,
)
    ensures
        payload("Basic "@ + encoded) == Ok::<Seq<char>, AuthError>(encoded),
        decodable(encoded) <==> encode_utf8(encoded).len() * 4 <= usize::MAX,
        reads_header("Basic "@ + encoded, result) <==> reads_decoded(
            base64_decoded(encoded),
            result,
        ),
{
    lemma_payload(encoded);
}

/// What cannot be decoded is reported with the reason that the decoder gives.
pub proof fn decoding_errors_are_reported(
    e: Base64Error,
    result: Result<Credentials, AuthError>,
)
    ensures
        reads_decoded(Err(e), result) <==> result == Err::<Credentials, AuthError>(
            AuthError::Base64(e),
        ),
{
}

/// Bytes that are not UTF-8 are reported with the length of their longest valid
/// prefix and of the invalid sequence behind it.
pub proof fn invalid_utf8_is_reported(bytes: Seq<u8>, result: Result<Credentials, AuthError>)
    requires
        !valid_utf8(bytes),
    ensures
        reads_decoded(Ok(bytes), result) <==> (result matches Err(AuthError::Utf8(e))
            && e.valid_up_to <= bytes.len() && valid_utf8(bytes.take(e.valid_up_to as int)) && (
        forall|n: int| e.valid_up_to < n <= bytes.len() ==> !valid_utf8(#[trigger] bytes.take(n)))
            && e.error_len == utf8_error_len(bytes)),
{
}

/// The UTF-8 of user name, colon and password is read as these, where the user
/// name holds no colon, whatever the password holds.
pub proof fn decoded_text_is_cut_at_its_first_colon(
    username: Seq<char>,
    password: Seq<char>,
    result: Result<Credentials, AuthError>,
)
    requires
        !username.contains(':'),
    ensures
        reads_decoded(Ok(encode_utf8(username + ":"@ + password)), result) <==> result == Ok::<
            Credentials,
            AuthError,
        >(Credentials { username, password }),
{
    reveal_strlit(":");
    let text = username + ":"@ + password;
    assert(text =~= username.push(':') + password);
    encode_utf8_valid_utf8(text);
    encode_utf8_decode_utf8(text);
    lemma_cut_joined(username, password, ':');
}

/// The UTF-8 of a text without a colon holds no credentials.
pub proof fn decoded_text_needs_a_colon(text: Seq<char>, result: Result<Credentials, AuthError>)
    requires
        !text.contains(':'),
    ensures
        reads_decoded(Ok(encode_utf8(text)), result) <==> result == Err::<Credentials, AuthError>(
            AuthError::InvalidCredentials,
        ),
{
    encode_utf8_valid_utf8(text);
    encode_utf8_decode_utf8(text);
    lemma_no_cut(text, ':');
}

/// What each error says: those of the decoder name the byte and the offset,
/// those of UTF-8 the length and the index.
pub proof fn errors_name_the_place(at: usize, byte: u8, len: usize)
    ensures
        error_text(AuthError::InvalidHeader) == "Invalid Authentication header."@,
        error_text(AuthError::UnsupportedType)
            == "Authentication header is not a supported type."@,
        error_text(AuthError::InvalidCredentials) == "Invalid basic authentication header."@,
        error_text(AuthError::Base64(Base64Error::InvalidLength))
            == "Encoded text cannot have a 6-bit remainder."@,
        error_text(AuthError::Base64(Base64Error::InvalidByte(at, byte))) == "Invalid byte "@
            + decimal(byte as nat) + ", offset "@ + decimal(at as nat) + "."@,
        error_text(AuthError::Base64(Base64Error::InvalidLastSymbol(at, byte)))
            == "Invalid last symbol "@ + decimal(byte as nat) + ", offset "@ + decimal(at as nat)
            + "."@,
        error_text(AuthError::Utf8(Utf8Error { valid_up_to: at, error_len: Some(len) }))
            == "invalid utf-8 sequence of "@ + decimal(len as nat) + " bytes from index "@
            + decimal(at as nat),
        error_text(AuthError::Utf8(Utf8Error { valid_up_to: at, error_len: None }))
            == "incomplete utf-8 byte sequence from index "@ + decimal(at as nat),
{
}

/// Credentials are seen by their two parts, and the outcome of reading by what
/// it holds.
pub proof fn credentials_are_seen_whole(a: BasicAuthentication, e: AuthError)
    ensures
        a@.username == a.username@,
        a@.password == a.password@,
        outcome(Ok(a)) == Ok::<Credentials, AuthError>(a@),
        outcome(Err(e)) == Err::<Credentials, AuthError>(e),
{
}

/// Credentials that can be read back are so from the header that is written for
/// them: as they are where the user name holds no colon, otherwise cut at the
/// first colon of the same text.
pub proof fn written_headers_are_read_back(c: Credentials, result: Result<Credentials, AuthError>)
    requires
        reads_back(c),
        (encode_utf8(c.username + ":"@ + c.password).len() + 2) / 3 * 4 * 4 <= usize::MAX,
        reads_header(
            "Basic "@ + base64_of(encode_utf8(c.username + ":"@ + c.password)),
            result,
        ),
    ensures
        result is Ok,
        result->Ok_0.username + ":"@ + result->Ok_0.password == c.username + ":"@ + c.password,
        !result->Ok_0.username.contains(':'),
        !c.username.contains(':') ==> result->Ok_0 == c,
{
    the_header_is_the_encoded_text(c);
    lemma_as_read(c);
    lemma_cut_parts(joined(c), ':');
    reveal_strlit(":");
    let read = as_read(c);
    assert(joined(c) =~= c.username + ":"@ + c.password);
    assert(joined(read) =~= read.username + ":"@ + read.password);
}

} // verus!
