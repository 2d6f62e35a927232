//! The tool's answer: a JSON document that holds the credentials, and the
//! shell statements that export them.

use crate::args::text_of;
use crate::error::AppError;
use vstd::prelude::*;
use vstd::string::*;

verus! {

/// `serde_json::Value`, read only through the functions below.
#[verifier::external_type_specification]
#[verifier::external_body]
pub struct ExValue(serde_json::Value);

/// `serde_json::Error`, of which only the words are read.
#[verifier::external_type_specification]
#[verifier::external_body]
pub struct ExJsonError(serde_json::Error);

/// The JSON value that the bytes spell, or what is wrong with them where
/// they spell none.
pub uninterp spec fn json_document(bytes: Seq<u8>) -> Result<serde_json::Value, serde_json::Error>;

/// The member of a JSON object under a key, or `None` where the value is no
/// object or has no such member.
pub uninterp spec fn json_member(value: serde_json::Value, key: Seq<char>) -> Option<
    serde_json::Value,
>;

/// The characters of a JSON string, or `None` where the value is no string.
pub uninterp spec fn json_text(value: serde_json::Value) -> Option<Seq<char>>;

/// The words in which a JSON error is shown.
pub uninterp spec fn json_error_words(error: serde_json::Error) -> Seq<char>;

/// `serde_json::from_slice` at type `Value`. Trusted: what it gives depends
/// on the bytes alone, and `json_document` is the name of it.
#[verifier::external_body]
fn parse_json(bytes: &[u8]) -> (r: Result<serde_json::Value, serde_json::Error>)
    ensures
        r == json_document(bytes@),
{
    serde_json::from_slice::<serde_json::Value>(bytes)
}

/// `serde_json::Value::get` with a string key. Trusted: it gives the member
/// that `json_member` names, and `None` where there is none.
#[verifier::external_body]
fn member<'a>(value: &'a serde_json::Value, key: &str) -> (r: Option<&'a serde_json::Value>)
    ensures
        match r {
            Some(m) => json_member(*value, key@) == Some(*m),
            None => json_member(*value, key@) is None,
        },
{
    value.get(key)
}

/// `serde_json::Value::as_str`. Trusted: it gives the characters that
/// `json_text` names, and `None` where the value is no string.
#[verifier::external_body]
fn text<'a>(value: &'a serde_json::Value) -> (r: Option<&'a str>)
    ensures
        match r {
            Some(s) => json_text(*value) == Some(s@),
            None => json_text(*value) is None,
        },
{
    value.as_str()
}

/// `to_string` of a `serde_json::Error`, which shows it by its `Display`.
/// Trusted: the text depends on the error alone, and `json_error_words` is
/// the name of it.
#[verifier::external_body]
fn json_error_text(error: &serde_json::Error) -> (r: String)
    ensures
        r@ == json_error_words(*error),
{
    error.to_string()
}

/// Temporary credentials as a mathematical value.
pub struct Credentials {
    pub access_key_id: Seq<char>,
    pub secret_access_key: Seq<char>,
    pub session_token: Seq<char>,
}

/// The string member of a JSON object under a key, if it has one.
pub open spec fn text_member(value: serde_json::Value, key: Seq<char>) -> Option<Seq<char>> {
    match json_member(value, key) {
        Some(m) => json_text(m),
        None => None,
    }
}

/// The credentials that a JSON document holds: its member `Credentials` with
/// the three string members `AccessKeyId`, `SecretAccessKey` and
/// `SessionToken`. `None` where any of them is missing or no string.
pub open spec fn credentials_in(doc: serde_json::Value) -> Option<Credentials> {
    match json_member(doc, "Credentials"@) {
        Some(c) => match (
            text_member(c, "AccessKeyId"@),
            text_member(c, "SecretAccessKey"@),
            text_member(c, "SessionToken"@),
        ) {
            (Some(access_key_id), Some(secret_access_key), Some(session_token)) => Some(
                Credentials { access_key_id, secret_access_key, session_token },
            ),
            _ => None,
        },
        None => None,
    }
}

/// The credentials that the tool's output holds, if it holds any.
pub open spec fn decoded(output: Seq<u8>) -> Option<Credentials> {
    match json_document(output) {
        Ok(doc) => credentials_in(doc),
        Err(_) => None,
    }
}

/// What is reported of output that holds no credentials: the parser's words
/// where it is no JSON, else the complaint about its shape.
pub open spec fn complaint(output: Seq<u8>) -> Seq<char> {
    match json_document(output) {
        Ok(_) => shape_complaint(),
        Err(error) => json_error_words(error),
    }
}

/// The three export statements, one per line, with no newline at the end.
pub open spec fn rendered(c: Credentials) -> Seq<char> {
    "export AWS_ACCESS_KEY_ID='"@ + c.access_key_id + "'\nexport AWS_SECRET_ACCESS_KEY='"@
        + c.secret_access_key + "'\nexport AWS_SESSION_TOKEN='"@ + c.session_token + "'"@
}

/// What is reported of a document that parses and holds no credentials.
pub open spec fn shape_complaint() -> Seq<char> {
    "expected an object `Credentials` with the strings `AccessKeyId`, `SecretAccessKey` and `SessionToken`"@
}

/// Temporary credentials.
#[derive(Debug, Clone, PartialEq, Eq)]
pub struct SessionCredentials {
    pub access_key_id: String,
    pub secret_access_key: String,
    pub session_token: String,
}

impl View for SessionCredentials {
    type V = Credentials;

    open spec fn view(&self) -> Credentials {
        Credentials {
            access_key_id: self.access_key_id@,
            secret_access_key: self.secret_access_key@,
            session_token: self.session_token@,
        }
    }
}

/// The string member of `value` under `key`, copied out.
fn string_member(value: &serde_json::Value, key: &str) -> (r: Option<String>)
    ensures
        text_of(r) == text_member(*value, key@),
{
    match member(value, key) {
        Some(m) => match text(m) {
            Some(s) => Some(s.to_owned()),
            None => None,
        },
        None => None,
    }
}

impl SessionCredentials {
    /// Reads the credentials out of a parsed document.
    pub fn from_document(doc: &serde_json::Value) -> (r: Option<SessionCredentials>)
        ensures
            match r {
                Some(c) => credentials_in(*doc) == Some(c@),
                None => credentials_in(*doc) is None,
            },
    {
        let inner = match member(doc, "Credentials") {
            Some(inner) => inner,
            None => { return None; },
        };
        let access_key_id = string_member(inner, "AccessKeyId");
        let secret_access_key = string_member(inner, "SecretAccessKey");
        let session_token = string_member(inner, "SessionToken");
        match (access_key_id, secret_access_key, session_token) {
            (Some(access_key_id), Some(secret_access_key), Some(session_token)) => Some(
                SessionCredentials { access_key_id, secret_access_key, session_token },
            ),
            _ => None,
        }
    }

    /// Reads the credentials out of the tool's output. Output that is no
    /// JSON, or that lacks a member or has one of another type, is an error
    /// and never an empty set of credentials.
    pub fn parse(output: &[u8]) -> (r: Result<SessionCredentials, AppError>)
        ensures
            match r {
                Ok(c) => decoded(output@) == Some(c@),
                Err(AppError::UnexpectedOutput(reason)) => decoded(output@) is None && reason@
                    == complaint(output@),
                Err(_) => false,
            },
    {
        match parse_json(output) {
            Ok(doc) => match SessionCredentials::from_document(&doc) {
                Some(c) => Ok(c),
                None => Err(
                    AppError::UnexpectedOutput(
                        "expected an object `Credentials` with the strings `AccessKeyId`, `SecretAccessKey` and `SessionToken`".to_owned(),
                    ),
                ),
            },
            Err(error) => Err(AppError::UnexpectedOutput(json_error_text(&error))),
        }
    }

    /// The shell statements that export the credentials.
    pub fn render(&self) -> (r: String)
        ensures
            r@ == rendered(self@),
    {
        String::from_str("export AWS_ACCESS_KEY_ID='").concat(self.access_key_id.as_str()).concat(
            "'\nexport AWS_SECRET_ACCESS_KEY='",
        ).concat(self.secret_access_key.as_str()).concat("'\nexport AWS_SESSION_TOKEN='").concat(
            self.session_token.as_str(),
        ).concat("'")
    }
}

/// What one call of the tool came to. Where the tool reported failure the
/// result is `CmdError` with the command, and the output is not read; where
/// it reported success the result is what the output holds.
pub fn read_tool_output(succeeded: bool, command: &str, output: &[u8]) -> (r: Result<
    SessionCredentials,
    AppError,
>)
    ensures
        !succeeded ==> (r matches Err(AppError::CmdError(c)) && c@ == command@),
        succeeded ==> match r {
            Ok(c) => decoded(output@) == Some(c@),
            Err(AppError::UnexpectedOutput(reason)) => decoded(output@) is None && reason@
                == complaint(output@),
            Err(_) => false,
        },
{
    if !succeeded {
        return Err(AppError::CmdError(command.to_owned()));
    }
    SessionCredentials::parse(output)
}

} // verus!
