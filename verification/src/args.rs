//! The credential request and the argument list that it stands for.

use vstd::prelude::*;
use vstd::string::*;

verus! {

/// The operation that a request asks for, as a mathematical value.
pub enum Operation {
    AssumeRole { role_arn: Seq<char>, external_id: Option<Seq<char>>, mfa: Option<(Seq<char>, Seq<char>)> },
    GetSessionToken { mfa: Option<(Seq<char>, Seq<char>)> },
}

/// A credential request as a mathematical value.
pub struct CredentialRequest {
    pub source_profile: Option<Seq<char>>,
    pub operation: Operation,
}

impl Operation {
    /// A role can only be assumed by a name that is not empty.
    pub open spec fn wf(self) -> bool {
        match self {
            Operation::AssumeRole { role_arn, .. } => role_arn.len() > 0,
            Operation::GetSessionToken { .. } => true,
        }
    }
}

/// The characters of an optional string.
pub open spec fn text_of(value: Option<String>) -> Option<Seq<char>> {
    match value {
        Some(s) => Some(s@),
        None => None,
    }
}

/// The device serial and the code of an optional MFA challenge.
pub open spec fn challenge_of(mfa: Option<(String, String)>) -> Option<(Seq<char>, Seq<char>)> {
    match mfa {
        Some((serial, code)) => Some((serial@, code@)),
        None => None,
    }
}

/// The characters of each string of a list.
pub open spec fn texts(list: Seq<String>) -> Seq<Seq<char>> {
    list.map_values(|s: String| s@)
}

/// The session name that every assumed role is given.
pub open spec fn session_name() -> Seq<char> {
    "blah"@
}

/// A flag and its value, or nothing where there is no value.
pub open spec fn flag_tokens(flag: Seq<char>, value: Option<Seq<char>>) -> Seq<Seq<char>> {
    match value {
        Some(v) => seq![flag, v],
        None => Seq::empty(),
    }
}

/// The two flags of an MFA challenge, serial first, or nothing.
pub open spec fn mfa_tokens(mfa: Option<(Seq<char>, Seq<char>)>) -> Seq<Seq<char>> {
    match mfa {
        Some((serial, code)) => seq!["--serial-number"@, serial, "--token-code"@, code],
        None => Seq::empty(),
    }
}

/// The tokens of an operation: its subcommand, then its flags in fixed order.
pub open spec fn operation_tokens(op: Operation) -> Seq<Seq<char>> {
    match op {
        Operation::AssumeRole { role_arn, external_id, mfa } => {
            seq!["assume-role"@, "--role-arn"@, role_arn, "--role-session-name"@, session_name()]
                + flag_tokens("--external_id"@, external_id) + mfa_tokens(mfa)
        },
        Operation::GetSessionToken { mfa } => seq!["get-session-token"@] + mfa_tokens(mfa),
    }
}

/// The whole argument list of a request.
pub open spec fn request_tokens(request: CredentialRequest) -> Seq<Seq<char>> {
    flag_tokens("--profile"@, request.source_profile) + seq!["sts"@] + operation_tokens(
        request.operation,
    )
}

/// The request that explicit parameters come to: the role is assumed, with
/// the external id where there is one, and no MFA challenge.
pub open spec fn explicit_request(
    source_profile: Option<Seq<char>>,
    role_arn: Seq<char>,
    external_id: Option<Seq<char>>,
) -> CredentialRequest {
    CredentialRequest {
        source_profile,
        operation: Operation::AssumeRole { role_arn, external_id, mfa: None },
    }
}

/// The request to assume a role.
#[derive(Debug, Clone, PartialEq, Eq)]
pub struct AssumeRoleArgs {
    pub role_arn: String,
    pub external_id: Option<String>,
    pub mfa: Option<(String, String)>,
}

impl View for AssumeRoleArgs {
    type V = Operation;

    open spec fn view(&self) -> Operation {
        Operation::AssumeRole {
            role_arn: self.role_arn@,
            external_id: text_of(self.external_id),
            mfa: challenge_of(self.mfa),
        }
    }
}

impl AssumeRoleArgs {
    pub fn new(role_arn: String, external_id: Option<String>, mfa: Option<(String, String)>) -> (r: Self)
        requires
            role_arn@.len() > 0,
        ensures
            r.role_arn == role_arn,
            r.external_id == external_id,
            r.mfa == mfa,
            r@.wf(),
    {
        AssumeRoleArgs { role_arn, external_id, mfa }
    }
}

/// The request for a session token.
#[derive(Debug, Clone, PartialEq, Eq)]
pub struct GetSessionTokenArgs {
    pub mfa: Option<(String, String)>,
}

impl View for GetSessionTokenArgs {
    type V = Operation;

    open spec fn view(&self) -> Operation {
        Operation::GetSessionToken { mfa: challenge_of(self.mfa) }
    }
}

impl GetSessionTokenArgs {
    pub fn new(mfa: Option<(String, String)>) -> (r: Self)
        ensures
            r.mfa == mfa,
            r@.wf(),
    {
        GetSessionTokenArgs { mfa }
    }
}

/// One of the two operations.
#[derive(Debug, Clone, PartialEq, Eq)]
pub enum AwsSubcommand {
    AssumeRole(AssumeRoleArgs),
    GetSessionToken(GetSessionTokenArgs),
}

impl View for AwsSubcommand {
    type V = Operation;

    open spec fn view(&self) -> Operation {
        match self {
            AwsSubcommand::AssumeRole(a) => a@,
            AwsSubcommand::GetSessionToken(a) => a@,
        }
    }
}

/// A credential request: the profile to call the tool under, if any, and the
/// operation.
#[derive(Debug, Clone, PartialEq, Eq)]
pub struct AwsArgs {
    pub source_profile: Option<String>,
    pub subcommand: AwsSubcommand,
}

impl View for AwsArgs {
    type V = CredentialRequest;

    open spec fn view(&self) -> CredentialRequest {
        CredentialRequest {
            source_profile: text_of(self.source_profile),
            operation: self.subcommand@,
        }
    }
}

/// An argument list under construction.
#[derive(Debug, Clone, PartialEq, Eq)]
pub struct ArgsBuilder(pub Vec<String>);

impl View for ArgsBuilder {
    type V = Seq<Seq<char>>;

    open spec fn view(&self) -> Seq<Seq<char>> {
        texts(self.0@)
    }
}

impl Default for ArgsBuilder {
    fn default() -> (r: Self)
        ensures
            r@ == Seq::<Seq<char>>::empty(),
    {
        let r = ArgsBuilder(Vec::new());
        assert(r@ =~= Seq::<Seq<char>>::empty());
        r
    }
}

impl ArgsBuilder {
    /// Appends one token.
    pub fn push(&mut self, arg: &str)
        ensures
            final(self)@ == old(self)@.push(arg@),
    {
        self.0.push(arg.to_owned());
        assert(self@ =~= old(self)@.push(arg@));
    }

    /// Appends a flag and its value.
    pub fn push_flag(&mut self, flag: &str, value: String)
        ensures
            final(self)@ == old(self)@.push(flag@).push(value@),
            final(self)@ == old(self)@ + flag_tokens(flag@, Some(value@)),
    {
        self.0.push(flag.to_owned());
        self.0.push(value);
        assert(self@ =~= old(self)@.push(flag@).push(value@));
        assert(self@ =~= old(self)@ + flag_tokens(flag@, Some(value@)));
    }

    /// Appends a flag and its value where there is a value, and nothing
    /// where there is none.
    pub fn push_flag_opt(&mut self, flag: &str, value: Option<String>)
        ensures
            final(self)@ == old(self)@ + flag_tokens(flag@, text_of(value)),
    {
        if let Some(value) = value {
            self.push_flag(flag, value);
        } else {
            assert(self@ =~= old(self)@ + flag_tokens(flag@, text_of(value)));
        }
    }

    /// Appends the two flags of an MFA challenge, where there is one.
    pub fn push_mfa(&mut self, mfa: Option<(String, String)>)
        ensures
            final(self)@ == old(self)@ + mfa_tokens(challenge_of(mfa)),
    {
        if let Some((mfa_serial, mfa_token)) = mfa {
            self.push_flag("--serial-number", mfa_serial);
            self.push_flag("--token-code", mfa_token);
            assert(self@ =~= old(self)@ + mfa_tokens(challenge_of(mfa)));
        } else {
            assert(self@ =~= old(self)@ + mfa_tokens(challenge_of(mfa)));
        }
    }
}

/// What can append its tokens to an argument list.
pub trait ExtendArgs: Sized {
    /// The tokens that this value stands for.
    spec fn tokens(&self) -> Seq<Seq<char>>;

    /// Appends those tokens, and changes nothing that was there.
    fn extend(self, args: &mut ArgsBuilder)
        ensures
            final(args)@ == old(args)@ + self.tokens(),
    ;
}

impl ExtendArgs for AssumeRoleArgs {
    open spec fn tokens(&self) -> Seq<Seq<char>> {
        operation_tokens(self@)
    }

    fn extend(self, args: &mut ArgsBuilder) {
        args.push("assume-role");
        args.push_flag("--role-arn", self.role_arn);
        args.push_flag("--role-session-name", "blah".to_owned());
        args.push_flag_opt("--external_id", self.external_id);
        args.push_mfa(self.mfa);
        assert(args@ =~= old(args)@ + operation_tokens(self@));
    }
}

impl ExtendArgs for GetSessionTokenArgs {
    open spec fn tokens(&self) -> Seq<Seq<char>> {
        operation_tokens(self@)
    }

    fn extend(self, args: &mut ArgsBuilder) {
        args.push("get-session-token");
        args.push_mfa(self.mfa);
        assert(args@ =~= old(args)@ + operation_tokens(self@));
    }
}

impl ExtendArgs for AwsSubcommand {
    open spec fn tokens(&self) -> Seq<Seq<char>> {
        operation_tokens(self@)
    }

    fn extend(self, args: &mut ArgsBuilder) {
        match self {
            AwsSubcommand::AssumeRole(a) => a.extend(args),
            AwsSubcommand::GetSessionToken(a) => a.extend(args),
        }
    }
}

impl ExtendArgs for AwsArgs {
    open spec fn tokens(&self) -> Seq<Seq<char>> {
        request_tokens(self@)
    }

    fn extend(self, args: &mut ArgsBuilder) {
        args.push_flag_opt("--profile", self.source_profile);
        args.push("sts");
        self.subcommand.extend(args);
        assert(args@ =~= old(args)@ + request_tokens(self@));
    }
}

impl AwsArgs {
    /// The request made of explicit parameters: it assumes the given role,
    /// with the external id where there is one, and without MFA.
    pub fn from_explicit(
        source_profile: Option<String>,
        role_arn: String,
        external_id: Option<String>,
    ) -> (r: Self)
        requires
            role_arn@.len() > 0,
        ensures
            r@ == explicit_request(text_of(source_profile), role_arn@, text_of(external_id)),
            r@.operation.wf(),
    {
        AwsArgs {
            source_profile,
            subcommand: AwsSubcommand::AssumeRole(AssumeRoleArgs::new(role_arn, external_id, None)),
        }
    }

    /// The argument list of the request, in the order that the tool reads.
    pub fn into_args(self) -> (r: Vec<String>)
        ensures
            texts(r@) == request_tokens(self@),
    {
        let mut args = ArgsBuilder::default();
        self.extend(&mut args);
        assert(args@ =~= request_tokens(self@));
        args.0
    }
}

/// The argument list is a function of the request's fields alone: requests
/// that agree in every field stand for the same tokens in the same order.
pub proof fn lemma_tokens_depend_on_fields(a: AwsArgs, b: AwsArgs)
    requires
        a@ == b@,
    ensures
        a.tokens() == b.tokens(),
{
}

/// Where a source profile is given, the argument list begins with
/// `--profile` and that profile, and `sts` follows; where none is given, it
/// begins with `sts`.
pub proof fn lemma_source_profile_leads(request: CredentialRequest)
    ensures
        match request.source_profile {
            Some(p) => {
                &&& request_tokens(request).len() >= 3
                &&& request_tokens(request)[0] == "--profile"@
                &&& request_tokens(request)[1] == p
                &&& request_tokens(request)[2] == "sts"@
            },
            None => request_tokens(request).len() >= 1 && request_tokens(request)[0] == "sts"@,
        },
{
}

} // verus!
