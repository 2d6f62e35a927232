use assume_role::error::AppError;
use assume_role::response::{read_tool_output, SessionCredentials};

const GOOD: &str =
    r#"{"Credentials":{"AccessKeyId":"AK","SecretAccessKey":"SK","SessionToken":"ST"}}"#;

fn sample() -> SessionCredentials {
    SessionCredentials {
        access_key_id: "AK".to_string(),
        secret_access_key: "SK".to_string(),
        session_token: "ST".to_string(),
    }
}

#[test]
fn response_renders_as_three_exports() {
    let credentials = SessionCredentials::parse(GOOD.as_bytes()).unwrap();
    assert_eq!(credentials, sample());
    assert_eq!(
        credentials.render(),
        "export AWS_ACCESS_KEY_ID='AK'\nexport AWS_SECRET_ACCESS_KEY='SK'\nexport AWS_SESSION_TOKEN='ST'"
    );
    let rendered = credentials.render();
    let lines: Vec<&str> = rendered.lines().collect();
    assert_eq!(
        lines,
        vec![
            "export AWS_ACCESS_KEY_ID='AK'",
            "export AWS_SECRET_ACCESS_KEY='SK'",
            "export AWS_SESSION_TOKEN='ST'",
        ]
    );
    assert!(!rendered.ends_with('\n'));
}

#[test]
fn other_members_are_passed_over() {
    let text = r#"{"AssumedRoleUser":{"Arn":"a"},"Credentials":{"Expiration":"2020","SessionToken":"t","AccessKeyId":"a","SecretAccessKey":"s"}}"#;
    let credentials = SessionCredentials::parse(text.as_bytes()).unwrap();
    assert_eq!(credentials.access_key_id, "a");
    assert_eq!(credentials.secret_access_key, "s");
    assert_eq!(credentials.session_token, "t");
}

#[test]
fn malformed_json_is_unexpected_output() {
    for text in ["", "{", "not json", r#"{"Credentials":"#, "{}{}"] {
        let result = SessionCredentials::parse(text.as_bytes());
        assert!(matches!(result, Err(AppError::UnexpectedOutput(_))));
    }
}

#[test]
fn missing_or_mistyped_members_are_unexpected_output() {
    let shape = "expected an object `Credentials` with the strings `AccessKeyId`, `SecretAccessKey` and `SessionToken`";
    for text in [
        "{}",
        "null",
        "[]",
        r#"{"Credentials":null}"#,
        r#"{"Credentials":{}}"#,
        r#"{"Credentials":{"AccessKeyId":"AK","SecretAccessKey":"SK"}}"#,
        r#"{"Credentials":{"AccessKeyId":"AK","SessionToken":"ST"}}"#,
        r#"{"Credentials":{"SecretAccessKey":"SK","SessionToken":"ST"}}"#,
        r#"{"Credentials":{"AccessKeyId":1,"SecretAccessKey":"SK","SessionToken":"ST"}}"#,
        r#"{"Credentials":{"AccessKeyId":"AK","SecretAccessKey":"SK","SessionToken":null}}"#,
        r#"{"credentials":{"AccessKeyId":"AK","SecretAccessKey":"SK","SessionToken":"ST"}}"#,
        r#"{"Credentials":{"accessKeyId":"AK","SecretAccessKey":"SK","SessionToken":"ST"}}"#,
    ] {
        assert_eq!(
            SessionCredentials::parse(text.as_bytes()),
            Err(AppError::UnexpectedOutput(shape.to_string()))
        );
    }
}

#[test]
fn from_document_reads_a_parsed_value() {
    let doc: serde_json::Value = serde_json::from_str(GOOD).unwrap();
    assert_eq!(SessionCredentials::from_document(&doc), Some(sample()));
    let empty: serde_json::Value = serde_json::from_str("{}").unwrap();
    assert_eq!(SessionCredentials::from_document(&empty), None);
    let inner: serde_json::Value =
        serde_json::from_str(r#"{"AccessKeyId":"AK","SecretAccessKey":"SK","SessionToken":"ST"}"#)
            .unwrap();
    assert_eq!(SessionCredentials::from_document(&inner), None);
}

#[test]
fn failed_tool_is_reported_and_its_output_not_read() {
    assert_eq!(
        read_tool_output(false, "\"aws\" \"sts\"", GOOD.as_bytes()),
        Err(AppError::CmdError("\"aws\" \"sts\"".to_string()))
    );
    assert_eq!(
        read_tool_output(false, "aws", b"not json"),
        Err(AppError::CmdError("aws".to_string()))
    );
}

#[test]
fn successful_tool_output_is_parsed() {
    assert_eq!(read_tool_output(true, "aws", GOOD.as_bytes()), Ok(sample()));
    assert!(matches!(
        read_tool_output(true, "aws", b"oops"),
        Err(AppError::UnexpectedOutput(_))
    ));
}

#[test]
fn values_are_rendered_as_they_are() {
    let credentials = SessionCredentials {
        access_key_id: "".to_string(),
        secret_access_key: "a/b+c=".to_string(),
        session_token: "x y".to_string(),
    };
    assert_eq!(
        credentials.render(),
        "export AWS_ACCESS_KEY_ID=''\nexport AWS_SECRET_ACCESS_KEY='a/b+c='\nexport AWS_SESSION_TOKEN='x y'"
    );
}

#[test]
fn each_error_has_its_message() {
    assert_eq!(
        AppError::CmdError("\"aws\" \"sts\"".to_string()).message(),
        "AWS CLI call failed: \"aws\" \"sts\""
    );
    assert_eq!(AppError::Generic("plain".to_string()).message(), "plain");
    assert_eq!(AppError::Io("broken pipe".to_string()).message(), "broken pipe");
    assert_eq!(
        AppError::ProfileError("\"/home/u/.aws/config\"".to_string(), "1:2 bad".to_string())
            .message(),
        "unable to read \"/home/u/.aws/config\": 1:2 bad"
    );
    assert_eq!(
        AppError::UnexpectedOutput("eof".to_string()).message(),
        "unexpected output from AWS CLI call: eof"
    );
    assert_eq!(AppError::from("text".to_string()), AppError::Generic("text".to_string()));
}

#[test]
fn parse_failure_carries_the_parser_words() {
    let expected = serde_json::from_slice::<serde_json::Value>(b"{").unwrap_err().to_string();
    assert_eq!(
        SessionCredentials::parse(b"{"),
        Err(AppError::UnexpectedOutput(expected))
    );
}
