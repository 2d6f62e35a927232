use assume_role::args::{AssumeRoleArgs, AwsArgs, AwsSubcommand};
use assume_role::error::AppError;
use assume_role::invocation::{App, Plan};

fn some(s: &str) -> Option<String> {
    Some(s.to_string())
}

#[test]
fn a_named_profile_is_looked_up() {
    let app = App { profile: some("dev"), source_profile: None, role_arn: None, external_id: None };
    assert_eq!(app.plan(), Ok(Plan::Profile("dev".to_string())));
    let both = App {
        profile: some("dev"),
        source_profile: some("base"),
        role_arn: some("arn:x"),
        external_id: some("eid"),
    };
    assert_eq!(both.plan(), Ok(Plan::Profile("dev".to_string())));
}

#[test]
fn explicit_role_is_assumed() {
    let app = App {
        profile: None,
        source_profile: some("base"),
        role_arn: some("arn:x"),
        external_id: some("eid"),
    };
    let expected = AwsArgs {
        source_profile: some("base"),
        subcommand: AwsSubcommand::AssumeRole(AssumeRoleArgs {
            role_arn: "arn:x".to_string(),
            external_id: some("eid"),
            mfa: None,
        }),
    };
    assert_eq!(app.plan(), Ok(Plan::Explicit(expected)));
}

#[test]
fn explicit_invocation_has_the_expected_tail() {
    let app =
        App { profile: None, source_profile: None, role_arn: some("arn:x"), external_id: some("eid") };
    let request = match app.plan() {
        Ok(Plan::Explicit(request)) => request,
        _ => panic!("an explicit request was expected"),
    };
    let args = request.into_args();
    assert_eq!(
        args,
        vec![
            "sts",
            "assume-role",
            "--role-arn",
            "arn:x",
            "--role-session-name",
            "blah",
            "--external_id",
            "eid",
        ]
    );
    assert!(!args.iter().any(|a| a == "--serial-number" || a == "--token-code"));
}

#[test]
fn a_role_is_mandatory_without_a_profile() {
    let message = "a role ARN is required where no profile is named".to_string();
    let none = App { profile: None, source_profile: None, role_arn: None, external_id: some("e") };
    assert_eq!(none.plan(), Err(AppError::Generic(message.clone())));
    let empty = App { profile: None, source_profile: None, role_arn: some(""), external_id: None };
    assert_eq!(empty.plan(), Err(AppError::Generic(message)));
}
