//! The operator's credentials: reading them from a request, and checking them
//! against the stored password hash.

use crate::collaborators::{StoredCredentials, StoredCredentialsView, Unavailable};
use crate::routes::newsletters::{AuthFailure, PublishError, PublishFault};
use crate::secret::SecretText;
use argon2::{Argon2, PasswordHash, PasswordVerifier};
use base64::Engine;
use vstd::prelude::*;
use vstd::slice::slice_subrange;
use vstd::utf8::{decode_utf8, encode_utf8, valid_utf8};

verus! {

/// The error of `base64`'s decoder. Nothing is read from it.
#[verifier::external_type_specification]
#[verifier::external_body]
pub struct ExDecodeError(base64::DecodeError);

/// A parsed PHC string. It is carried from the parser to the verifier and
/// nothing is read from it.
#[verifier::external_type_specification]
#[verifier::external_body]
pub struct ExPasswordHash<'a>(argon2::PasswordHash<'a>);

/// The error of the parser and of the verifier. Nothing is read from it.
#[verifier::external_type_specification]
#[verifier::external_body]
pub struct ExPasswordHashError(argon2::password_hash::Error);

/// What `base64`'s standard engine (the standard alphabet, with padding)
/// decodes `encoded` to, if it decodes it at all.
pub uninterp spec fn base64_decoded(encoded: Seq<u8>) -> Option<Seq<u8>>;

/// What `PasswordHash::new` parses `text` to, if `text` is a PHC string.
pub uninterp spec fn phc_parsed(text: Seq<char>) -> Option<PasswordHash<'static>>;

/// Whether Argon2, with the parameters and the salt that `hash` names,
/// derives the output of `hash` from `password`.
pub uninterp spec fn argon2_accepts(password: Seq<u8>, hash: PasswordHash<'static>) -> bool;

/// Calls `Engine::decode` on `base64::engine::general_purpose::STANDARD`.
///
/// Whether the input decodes, and to which bytes, depends on the input
/// alone.
#[verifier::external_body]
fn decode_base64(encoded: &[u8]) -> (decoded: Result<Vec<u8>, base64::DecodeError>)
    ensures
        match decoded {
            Ok(bytes) => base64_decoded(encoded@) == Some(bytes@),
            Err(_) => base64_decoded(encoded@) is None,
        },
{
    base64::engine::general_purpose::STANDARD.decode(encoded)
}

/// Calls `String::from_utf8`, which accepts exactly the byte sequences that
/// are UTF-8 and hands back the text that they encode.
#[verifier::external_body]
fn string_from_utf8(bytes: Vec<u8>) -> (text: Option<String>)
    ensures
        match text {
            Some(text) => valid_utf8(bytes@) && text@ == decode_utf8(bytes@),
            None => !valid_utf8(bytes@),
        },
{
    match String::from_utf8(bytes) {
        Ok(text) => Some(text),
        Err(_) => None,
    }
}

/// Calls `PasswordHash::new`, the parser of PHC strings.
///
/// Whether the text parses, and to what, depends on the text alone.
#[verifier::external_body]
fn parse_password_hash(text: &str) -> (parsed: Result<
    PasswordHash<'_>,
    argon2::password_hash::Error,
>)
    ensures
        match parsed {
            Ok(hash) => phc_parsed(text@) == Some(hash),
            Err(_) => phc_parsed(text@) is None,
        },
{
    PasswordHash::new(text)
}

/// Calls `PasswordVerifier::verify_password` on `Argon2::default()`.
///
/// It hashes the password with what the parsed hash names and compares the
/// outputs, so the verdict depends on the password and the hash alone.
#[verifier::external_body]
fn verify_password(password: &[u8], hash: &PasswordHash<'_>) -> (verdict: Result<
    (),
    argon2::password_hash::Error,
>)
    ensures
        verdict is Ok <==> argon2_accepts(password@, *hash),
{
    Argon2::default().verify_password(password, hash)
}

/// The username and the password that a request carries.
pub struct Credentials {
    pub username: String,
    pub password: SecretText,
}

/// The mathematical value of `Credentials`.
pub struct CredentialsView {
    pub username: Seq<char>,
    pub password: Seq<char>,
}

impl View for Credentials {
    type V = CredentialsView;

    open spec fn view(&self) -> CredentialsView {
        CredentialsView { username: self.username@, password: self.password@ }
    }
}

/// A byte that may stand in a header value which is read as text: visible
/// ASCII, a space or a tab.
pub open spec fn is_visible_ascii(byte: u8) -> bool {
    32 <= byte < 127 || byte == 9
}

/// Every byte of `value` may stand in a header value which is read as text.
pub open spec fn is_header_text(value: Seq<u8>) -> bool {
    forall|i: int| 0 <= i < value.len() ==> is_visible_ascii(#[trigger] value[i])
}

/// The bytes of `Basic `, the scheme and the space that follows it.
pub open spec fn basic_scheme() -> Seq<u8> {
    seq![66u8, 97u8, 115u8, 105u8, 99u8, 32u8]
}

/// Splits `text` at its first `:` into a username and a password, if it has
/// one.
pub open spec fn split_at_first_colon(text: Seq<char>) -> Option<CredentialsView> {
    match text.index_of_first(':') {
        Some(i) => Some(CredentialsView { username: text.take(i), password: text.skip(i + 1) }),
        None => None,
    }
}

/// What follows the scheme in an `Authorization` header, or the reason why
/// the header has no such part. `None` stands for a request without the
/// header.
pub open spec fn encoded_segment(authorization: Option<Seq<u8>>) -> Result<Seq<u8>, AuthFailure> {
    match authorization {
        None => Err(AuthFailure::MissingHeader),
        Some(value) => {
            if !is_header_text(value) {
                Err(AuthFailure::HeaderNotText)
            } else if !basic_scheme().is_prefix_of(value) {
                Err(AuthFailure::NotBasic)
            } else {
                Ok(value.skip(6))
            }
        },
    }
}

/// The credentials that the decoded bytes hold, or the reason why they hold
/// none. `None` stands for a part that is not base64.
pub open spec fn decoded_credentials(decoded: Option<Seq<u8>>) -> Result<
    CredentialsView,
    AuthFailure,
> {
    match decoded {
        None => Err(AuthFailure::InvalidBase64),
        Some(bytes) => {
            if !valid_utf8(bytes) {
                Err(AuthFailure::CredentialsNotUtf8)
            } else {
                match split_at_first_colon(decode_utf8(bytes)) {
                    None => Err(AuthFailure::MissingPassword),
                    Some(credentials) => Ok(credentials),
                }
            }
        },
    }
}

/// The credentials that an `Authorization` header carries, or the reason why
/// it carries none. `None` stands for a request without the header.
pub open spec fn basic_credentials(authorization: Option<Seq<u8>>) -> Result<
    CredentialsView,
    AuthFailure,
> {
    match encoded_segment(authorization) {
        Err(failure) => Err(failure),
        Ok(segment) => decoded_credentials(base64_decoded(segment)),
    }
}

/// The mathematical value of what `basic_authentication` hands out.
pub open spec fn authentication_view(result: Result<Credentials, AuthFailure>) -> Result<
    CredentialsView,
    AuthFailure,
> {
    match result {
        Ok(credentials) => Ok(credentials@),
        Err(failure) => Err(failure),
    }
}

/// The mathematical value of a header value that may be absent.
pub open spec fn header_view(authorization: Option<&[u8]>) -> Option<Seq<u8>> {
    match authorization {
        Some(value) => Some(value@),
        None => None,
    }
}

/// The mathematical value of what `encoded_credentials` hands out.
pub open spec fn segment_view(result: Result<&[u8], AuthFailure>) -> Result<Seq<u8>, AuthFailure> {
    match result {
        Ok(segment) => Ok(segment@),
        Err(failure) => Err(failure),
    }
}

/// The mathematical value of bytes that may be absent.
pub open spec fn bytes_view(bytes: Option<Vec<u8>>) -> Option<Seq<u8>> {
    match bytes {
        Some(bytes) => Some(bytes@),
        None => None,
    }
}

fn header_is_text(value: &[u8]) -> (result: bool)
    ensures
        result == is_header_text(value@),
{
    let mut i: usize = 0;
    while i < value.len()
        invariant
            i <= value.len(),
            forall|j: int| 0 <= j < i ==> is_visible_ascii(#[trigger] value@[j]),
        decreases value.len() - i,
    {
        let byte = value[i];
        if !(byte >= 32 && byte < 127 || byte == 9) {
            return false;
        }
        i += 1;
    }
    true
}

fn has_basic_scheme(value: &[u8]) -> (result: bool)
    ensures
        result == basic_scheme().is_prefix_of(value@),
{
    if value.len() < 6 {
        return false;
    }
    let result = value[0] == 66 && value[1] == 97 && value[2] == 115 && value[3] == 105
        && value[4] == 99 && value[5] == 32;
    proof {
        let scheme = basic_scheme();
        if result {
            assert(value@.subrange(0, 6) =~= scheme);
        } else {
            if scheme.is_prefix_of(value@) {
                assert(value@.subrange(0, 6) == scheme);
                assert(value@.subrange(0, 6)[0] == scheme[0]);
                assert(value@.subrange(0, 6)[1] == scheme[1]);
                assert(value@.subrange(0, 6)[2] == scheme[2]);
                assert(value@.subrange(0, 6)[3] == scheme[3]);
                assert(value@.subrange(0, 6)[4] == scheme[4]);
                assert(value@.subrange(0, 6)[5] == scheme[5]);
            }
        }
    }
    result
}

fn find_first_colon(text: &str) -> (found: Option<usize>)
    ensures
        match found {
            Some(i) => text@.index_of_first(':') == Some(i as int),
            None => text@.index_of_first(':') is None,
        },
{
    let length = text.unicode_len();
    let mut position: usize = 0;
    for c in it: text.chars()
        invariant
            it.seq() == text@,
            length == text@.len(),
            position == it.index(),
            forall|j: int| 0 <= j < it.index() ==> #[trigger] text@[j] != ':',
    {
        if c == ':' {
            proof {
                text@.index_of_first_ensures(':');
                assert(text@[position as int] == ':');
                assert(text@.contains(':'));
                let first = text@.index_of_first(':')->0;
                if first < position {
                    assert(text@[first] != ':');
                }
                if position < first {
                    assert(text@[position as int] != ':');
                }
            }
            return Some(position);
        }
        position += 1;
    }
    proof {
        text@.index_of_first_ensures(':');
        if text@.contains(':') {
            let i = choose|i: int| 0 <= i < text@.len() && text@[i] == ':';
            assert(text@[i] != ':');
        }
    }
    None
}

/// Finds what follows the scheme in the value of the `Authorization`
/// header, where `None` stands for a request without that header. The value
/// has to be text that starts with `Basic ` .
pub fn encoded_credentials<'a>(authorization: Option<&'a [u8]>) -> (result: Result<
    &'a [u8],
    AuthFailure,
>)
    ensures
        segment_view(result) == encoded_segment(header_view(authorization)),
{
    let header_value = match authorization {
        Some(value) => value,
        None => { return Err(AuthFailure::MissingHeader); },
    };
    if !header_is_text(header_value) {
        return Err(AuthFailure::HeaderNotText);
    }
    if !has_basic_scheme(header_value) {
        return Err(AuthFailure::NotBasic);
    }
    let base64encoded_segment = slice_subrange(header_value, 6, header_value.len());
    assert(base64encoded_segment@ == header_value@.skip(6));
    Ok(base64encoded_segment)
}

/// Reads the credentials from the bytes that the header's base64 stands
/// for, where `None` stands for a header whose part after the scheme is not
/// base64. The bytes have to be `username:password` in UTF-8. The username
/// ends at the first `:`.
pub fn credentials_from_decoded(decoded: Option<Vec<u8>>) -> (result: Result<
    Credentials,
    AuthFailure,
>)
    ensures
        authentication_view(result) == decoded_credentials(bytes_view(decoded)),
{
    let decoded_bytes = match decoded {
        Some(bytes) => bytes,
        None => { return Err(AuthFailure::InvalidBase64); },
    };
    let decoded_credentials = match string_from_utf8(decoded_bytes) {
        Some(text) => text,
        None => { return Err(AuthFailure::CredentialsNotUtf8); },
    };
    let text = decoded_credentials.as_str();
    let colon = match find_first_colon(text) {
        Some(i) => i,
        None => { return Err(AuthFailure::MissingPassword); },
    };
    proof {
        text@.index_of_first_ensures(':');
    }
    let length = text.unicode_len();
    let username = text.substring_char(0, colon).to_owned();
    let password = text.substring_char(colon + 1, length).to_owned();
    assert(username@ == text@.take(colon as int));
    assert(password@ == text@.skip(colon + 1));
    Ok(Credentials { username, password: SecretText::new(password) })
}

/// Reads the credentials from the value of the `Authorization` header, where
/// `None` stands for a request without that header.
///
/// The value has to be text, of the form `Basic ` followed by the base64 of
/// `username:password` in UTF-8. The username ends at the first `:`.
pub fn basic_authentication(authorization: Option<&[u8]>) -> (result: Result<
    Credentials,
    AuthFailure,
>)
    ensures
        authentication_view(result) == basic_credentials(header_view(authorization)),
{
    let base64encoded_segment = match encoded_credentials(authorization) {
        Ok(segment) => segment,
        Err(failure) => { return Err(failure); },
    };
    let decoded_bytes = match decode_base64(base64encoded_segment) {
        Ok(bytes) => Some(bytes),
        Err(_) => None,
    };
    credentials_from_decoded(decoded_bytes)
}

/// What the store answered when it was asked for a user's credentials, as a
/// mathematical value.
pub open spec fn lookup_view(stored: Result<Option<StoredCredentials>, Unavailable>) -> Result<
    Option<StoredCredentialsView>,
    Unavailable,
> {
    match stored {
        Ok(Some(row)) => Ok(Some(row@)),
        Ok(None) => Ok(None),
        Err(unavailable) => Err(unavailable),
    }
}

/// `password`, as the bytes of its UTF-8, is the password from which `hash`
/// was derived.
pub open spec fn password_matches(password: Seq<char>, hash: PasswordHash<'static>) -> bool {
    argon2_accepts(encode_utf8(password), hash)
}

/// What checking a password against a stored hash comes to: `None` where
/// the stored hash is not a PHC string, and otherwise whether the password
/// matches it.
pub open spec fn verification(password: Seq<char>, password_hash: Seq<char>) -> Option<bool> {
    match phc_parsed(password_hash) {
        None => None,
        Some(hash) => Some(password_matches(password, hash)),
    }
}

/// What a verification means for the user `user_id`: the user is
/// authenticated where the password matches; a password that does not match
/// is the fault of the request, and a stored hash that is malformed is not.
pub open spec fn password_verdict(user_id: u128, verification: Option<bool>) -> Result<
    u128,
    PublishError,
> {
    match verification {
        None => Err(PublishError::UnexpectedError(PublishFault::MalformedPasswordHash)),
        Some(matches) => if matches {
            Ok(user_id)
        } else {
            Err(PublishError::AuthError(AuthFailure::InvalidPassword))
        },
    }
}

/// The verdict on a pair of credentials, given what the store answered when
/// it was asked for the user of that name.
pub open spec fn credentials_verdict(
    credentials: CredentialsView,
    stored: Result<Option<StoredCredentialsView>, Unavailable>,
) -> Result<u128, PublishError> {
    match stored {
        Err(_) => Err(PublishError::UnexpectedError(PublishFault::CredentialsQuery)),
        Ok(None) => Err(PublishError::AuthError(AuthFailure::UnknownUsername)),
        Ok(Some(row)) => password_verdict(
            row.user_id,
            verification(credentials.password, row.password_hash),
        ),
    }
}

/// Says what a verification means for the user `user_id`, where `None`
/// stands for a stored hash that is not a PHC string.
pub fn verified_user(user_id: u128, verification: Option<bool>) -> (result: Result<
    u128,
    PublishError,
>)
    ensures
        result == password_verdict(user_id, verification),
{
    match verification {
        None => Err(PublishError::UnexpectedError(PublishFault::MalformedPasswordHash)),
        Some(true) => Ok(user_id),
        Some(false) => Err(PublishError::AuthError(AuthFailure::InvalidPassword)),
    }
}

/// Checks the credentials against what the store holds for the user of that
/// name, and hands back the user's identifier if the password matches.
///
/// `stored` is the store's answer: the user's row, `None` where no user has
/// that name, or an error where the store could not be asked.
pub fn validate_credentials(
    credentials: Credentials,
    stored: Result<Option<StoredCredentials>, Unavailable>,
) -> (result: Result<u128, PublishError>)
    ensures
        result == credentials_verdict(credentials@, lookup_view(stored)),
{
    let row = match stored {
        Err(_) => {
            return Err(PublishError::UnexpectedError(PublishFault::CredentialsQuery));
        },
        Ok(None) => {
            return Err(PublishError::AuthError(AuthFailure::UnknownUsername));
        },
        Ok(Some(row)) => row,
    };
    let verification = match parse_password_hash(row.password_hash.expose_secret()) {
        Ok(expected_password_hash) => Some(
            verify_password(
                credentials.password.expose_secret().as_bytes(),
                &expected_password_hash,
            ).is_ok(),
        ),
        Err(_) => None,
    };
    verified_user(row.user_id, verification)
}

} // verus!
