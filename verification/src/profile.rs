//! Profiles: the configuration that holds them, the settings that one
//! declares, and the request that those settings come to.

use crate::args::{
    challenge_of, text_of, AssumeRoleArgs, AwsArgs, AwsSubcommand, CredentialRequest,
    GetSessionTokenArgs, Operation,
};
use crate::error::AppError;
use vstd::prelude::*;
use vstd::string::*;

verus! {

/// `ini::Ini`, a configuration: sections by name, in order.
#[verifier::external_type_specification]
#[verifier::external_body]
pub struct ExIni(ini::Ini);

/// `ini::Properties`, the entries of one section, in order.
#[verifier::external_type_specification]
#[verifier::external_body]
pub struct ExProperties(ini::Properties);

/// `ini::ParseError`, of which only the words are read.
#[verifier::external_type_specification]
#[verifier::external_body]
pub struct ExParseError(ini::ParseError);

/// The sections of a configuration in the order in which they were added,
/// each with its name and its properties.
pub uninterp spec fn ini_sections(doc: ini::Ini) -> Seq<
    (Option<Seq<char>>, Seq<(Seq<char>, Seq<char>)>),
>;

/// The properties of a section in the order in which they were added, each
/// with its key and its value.
pub uninterp spec fn properties_entries(props: ini::Properties) -> Seq<(Seq<char>, Seq<char>)>;

/// The sections that a configuration text spells, or the words that say
/// what is wrong with the text where it spells none.
pub uninterp spec fn ini_document(text: Seq<char>) -> Result<
    Seq<(Option<Seq<char>>, Seq<(Seq<char>, Seq<char>)>)>,
    Seq<char>,
>;

/// The words in which a parse error is shown.
pub uninterp spec fn parse_error_words(error: ini::ParseError) -> Seq<char>;

/// The value of the first entry under a key.
pub open spec fn first_of<K, V>(entries: Seq<(K, V)>, key: K) -> Option<V>
    decreases entries.len(),
{
    if entries.len() == 0 {
        None
    } else if entries[0].0 == key {
        Some(entries[0].1)
    } else {
        first_of(entries.drop_first(), key)
    }
}

/// The entries without those under a key, the others in their order.
pub open spec fn without_key<K, V>(entries: Seq<(K, V)>, key: K) -> Seq<(K, V)>
    decreases entries.len(),
{
    if entries.len() == 0 {
        entries
    } else if entries[0].0 == key {
        without_key(entries.drop_first(), key)
    } else {
        seq![entries[0]] + without_key(entries.drop_first(), key)
    }
}

/// Taking one key out leaves the first value of every other key as it was.
pub proof fn lemma_first_of_without_key<K, V>(entries: Seq<(K, V)>, gone: K, key: K)
    requires
        gone != key,
    ensures
        first_of(without_key(entries, gone), key) == first_of(entries, key),
    decreases entries.len(),
{
    if entries.len() > 0 {
        lemma_first_of_without_key(entries.drop_first(), gone, key);
        if entries[0].0 != gone {
            let rest = without_key(entries.drop_first(), gone);
            assert((seq![entries[0]] + rest).drop_first() =~= rest);
        }
    }
}

/// `ini::Ini::load_from_str`. Trusted: the sections of the configuration
/// that it gives, or the words of its error, depend on the text alone, and
/// `ini_document` is the name of them.
#[verifier::external_body]
fn load_ini(text: &str) -> (r: Result<ini::Ini, ini::ParseError>)
    ensures
        match r {
            Ok(doc) => ini_document(text@) == Ok::<_, Seq<char>>(ini_sections(doc)),
            Err(error) => ini_document(text@) == Err::<
                Seq<(Option<Seq<char>>, Seq<(Seq<char>, Seq<char>)>)>,
                _,
            >(parse_error_words(error)),
        },
{
    ini::Ini::load_from_str(text)
}

/// `ini::Ini::delete` with a section name. Trusted: it gives the properties
/// of the first section of that name, `None` where there is none, and
/// leaves the sections of other names in their order.
#[verifier::external_body]
fn delete_section(doc: &mut ini::Ini, name: String) -> (r: Option<ini::Properties>)
    ensures
        match r {
            Some(props) => first_of(ini_sections(*old(doc)), Some(name@)) == Some(
                properties_entries(props),
            ),
            None => first_of(ini_sections(*old(doc)), Some(name@)) is None,
        },
        ini_sections(*final(doc)) == without_key(ini_sections(*old(doc)), Some(name@)),
{
    doc.delete(Some(name))
}

/// `ini::Properties::remove`. Trusted: it gives the first value under the
/// key, `None` where there is none, and leaves the entries under other keys
/// in their order.
#[verifier::external_body]
fn remove_property(props: &mut ini::Properties, key: &str) -> (r: Option<String>)
    ensures
        text_of(r) == first_of(properties_entries(*old(props)), key@),
        properties_entries(*final(props)) == without_key(properties_entries(*old(props)), key@),
{
    props.remove(key)
}

/// `to_string` of an `ini::ParseError`, which shows it by its `Display`.
/// Trusted: the text depends on the error alone, and `parse_error_words` is
/// the name of it.
#[verifier::external_body]
fn parse_error_text(error: &ini::ParseError) -> (r: String)
    ensures
        r@ == parse_error_words(*error),
{
    error.to_string()
}

/// Whether a character is white space, as Unicode's property `White_Space`
/// has it.
pub open spec fn is_white_space(c: char) -> bool {
    let n: u32 = c as u32;
    (0x09 <= n <= 0x0D) || n == 0x20 || n == 0x85 || n == 0xA0 || n == 0x1680 || (0x2000 <= n
        <= 0x200A) || n == 0x2028 || n == 0x2029 || n == 0x202F || n == 0x205F || n == 0x3000
}

/// The text without the white space at its end.
pub open spec fn trimmed_end(s: Seq<char>) -> Seq<char>
    decreases s.len(),
{
    if s.len() > 0 && is_white_space(s.last()) {
        trimmed_end(s.drop_last())
    } else {
        s
    }
}

/// `str::trim_end`. Trusted: it gives the text up to its last character that
/// is no white space.
#[verifier::external_body]
fn trim_end<'a>(s: &'a str) -> (r: &'a str)
    ensures
        r@ == trimmed_end(s@),
{
    s.trim_end()
}

/// What a profile declares, as a mathematical value.
pub struct Settings {
    pub source_profile: Option<Seq<char>>,
    pub role_arn: Option<Seq<char>>,
    pub mfa_serial: Option<Seq<char>>,
}

/// The settings that a section's entries declare: for each of the three
/// keys the first value under it.
pub open spec fn settings_of(entries: Seq<(Seq<char>, Seq<char>)>) -> Settings {
    Settings {
        source_profile: first_of(entries, "source_profile"@),
        role_arn: first_of(entries, "role_arn"@),
        mfa_serial: first_of(entries, "mfa_serial"@),
    }
}

/// The name of the section that holds a profile.
pub open spec fn section_of(name: Seq<char>) -> Seq<char> {
    "profile "@ + name
}

/// The settings of a profile among the sections, if it is there.
pub open spec fn profile_in(
    sections: Seq<(Option<Seq<char>>, Seq<(Seq<char>, Seq<char>)>)>,
    name: Seq<char>,
) -> Option<Settings> {
    match first_of(sections, Some(section_of(name))) {
        Some(entries) => Some(settings_of(entries)),
        None => None,
    }
}

/// What is reported of a profile that the configuration does not hold.
pub open spec fn not_found_text(name: Seq<char>, location: Seq<char>) -> Seq<char> {
    "profile \""@ + name + "\" not found in "@ + location
}

/// The role that the settings name: one that is declared and not empty.
pub open spec fn role_of(settings: Settings) -> Option<Seq<char>> {
    match settings.role_arn {
        Some(arn) => if arn.len() > 0 {
            Some(arn)
        } else {
            None
        },
        None => None,
    }
}

/// The request that settings come to, given the MFA code where one was
/// asked for. A declared serial and the code make the challenge; a role
/// selects the operation, and no external id comes from a profile.
pub open spec fn resolved(settings: Settings, code: Option<Seq<char>>) -> CredentialRequest {
    let mfa = match (settings.mfa_serial, code) {
        (Some(serial), Some(code)) => Some((serial, code)),
        _ => None,
    };
    CredentialRequest {
        source_profile: settings.source_profile,
        operation: match role_of(settings) {
            Some(role_arn) => Operation::AssumeRole { role_arn, external_id: None, mfa },
            None => Operation::GetSessionToken { mfa },
        },
    }
}

/// What a profile declares.
#[derive(Debug, Clone, PartialEq, Eq)]
pub struct ProfileSettings {
    pub source_profile: Option<String>,
    pub role_arn: Option<String>,
    pub mfa_serial: Option<String>,
}

impl View for ProfileSettings {
    type V = Settings;

    open spec fn view(&self) -> Settings {
        Settings {
            source_profile: text_of(self.source_profile),
            role_arn: text_of(self.role_arn),
            mfa_serial: text_of(self.mfa_serial),
        }
    }
}

/// A resolution that waits for the MFA code of a device.
#[derive(Debug, Clone, PartialEq, Eq)]
pub struct MfaPending {
    pub source_profile: Option<String>,
    pub role_arn: Option<String>,
    pub serial: String,
}

impl MfaPending {
    /// The settings that are being resolved.
    pub open spec fn settings(self) -> Settings {
        Settings {
            source_profile: text_of(self.source_profile),
            role_arn: text_of(self.role_arn),
            mfa_serial: Some(self.serial@),
        }
    }
}

/// Where a resolution stands: it needs one line from the user, or it is done.
#[derive(Debug, Clone, PartialEq, Eq)]
pub enum Resolution {
    NeedsMfaCode(MfaPending),
    Ready(AwsArgs),
}

/// The request for a role where one is named, else for a session token.
fn request_for(
    source_profile: Option<String>,
    role_arn: Option<String>,
    mfa: Option<(String, String)>,
) -> (r: AwsArgs)
    ensures
        r@.source_profile == text_of(source_profile),
        r@.operation == match text_of(role_arn) {
            Some(arn) if arn.len() > 0 => Operation::AssumeRole {
                role_arn: arn,
                external_id: None,
                mfa: challenge_of(mfa),
            },
            _ => Operation::GetSessionToken { mfa: challenge_of(mfa) },
        },
        r@.operation.wf(),
{
    match role_arn {
        Some(role_arn) if !role_arn.as_str().is_empty() => AwsArgs {
            source_profile,
            subcommand: AwsSubcommand::AssumeRole(AssumeRoleArgs::new(role_arn, None, mfa)),
        },
        _ => AwsArgs {
            source_profile,
            subcommand: AwsSubcommand::GetSessionToken(GetSessionTokenArgs::new(mfa)),
        },
    }
}

impl ProfileSettings {
    /// Takes the three settings out of a section's properties.
    pub fn from_properties(props: ini::Properties) -> (r: ProfileSettings)
        ensures
            r@ == settings_of(properties_entries(props)),
    {
        let mut props = props;
        let ghost entries = properties_entries(props);
        let source_profile = remove_property(&mut props, "source_profile");
        let ghost after_source = properties_entries(props);
        let role_arn = remove_property(&mut props, "role_arn");
        let ghost after_role = properties_entries(props);
        let mfa_serial = remove_property(&mut props, "mfa_serial");
        proof {
            reveal_strlit("source_profile");
            reveal_strlit("role_arn");
            reveal_strlit("mfa_serial");
            assert("source_profile"@.len() == 14 && "role_arn"@.len() == 8 && "mfa_serial"@.len()
                == 10);
            lemma_first_of_without_key(entries, "source_profile"@, "role_arn"@);
            lemma_first_of_without_key(entries, "source_profile"@, "mfa_serial"@);
            lemma_first_of_without_key(after_source, "role_arn"@, "mfa_serial"@);
        }
        ProfileSettings { source_profile, role_arn, mfa_serial }
    }

    /// Begins the resolution. A profile that declares an MFA serial needs
    /// the code of that device, once; any other is resolved at once.
    pub fn resolve(self) -> (r: Resolution)
        ensures
            match self@.mfa_serial {
                Some(serial) => r matches Resolution::NeedsMfaCode(pending) && pending.settings()
                    == self@,
                None => r matches Resolution::Ready(args) && args@ == resolved(self@, None)
                    && args@.operation.wf(),
            },
    {
        match self.mfa_serial {
            Some(serial) => Resolution::NeedsMfaCode(
                MfaPending { source_profile: self.source_profile, role_arn: self.role_arn, serial },
            ),
            None => Resolution::Ready(request_for(self.source_profile, self.role_arn, None)),
        }
    }
}

impl MfaPending {
    /// Ends the resolution with the line that the user typed: the code is
    /// the line without the white space at its end.
    pub fn supply(self, line: &str) -> (r: AwsArgs)
        ensures
            r@ == resolved(self.settings(), Some(trimmed_end(line@))),
            r@.operation.wf(),
    {
        let code = trim_end(line).to_owned();
        request_for(self.source_profile, self.role_arn, Some((self.serial, code)))
    }
}

/// The name of the section that holds the profile `name`.
pub fn section_name(name: &str) -> (r: String)
    ensures
        r@ == section_of(name@),
{
    String::from_str("profile ").concat(name)
}

/// Looks a profile up in a configuration. `location` says where the
/// configuration lies, for the report of a profile that is not there.
pub fn find_profile(doc: ini::Ini, name: &str, location: &str) -> (r: Result<
    ProfileSettings,
    AppError,
>)
    ensures
        match profile_in(ini_sections(doc), name@) {
            Some(settings) => r matches Ok(found) && found@ == settings,
            None => r matches Err(AppError::Generic(message)) && message@ == not_found_text(
                name@,
                location@,
            ),
        },
{
    let mut doc = doc;
    match delete_section(&mut doc, section_name(name)) {
        Some(props) => Ok(ProfileSettings::from_properties(props)),
        None => Err(
            AppError::Generic(
                String::from_str("profile \"").concat(name).concat("\" not found in ").concat(
                    location,
                ),
            ),
        ),
    }
}

/// Reads a configuration text and looks a profile up in it. A text that is
/// no configuration is a `ProfileError` with the location; a configuration
/// without the profile is reported as `find_profile` does.
pub fn load_profile(config: &str, name: &str, location: &str) -> (r: Result<
    ProfileSettings,
    AppError,
>)
    ensures
        match ini_document(config@) {
            Ok(sections) => match profile_in(sections, name@) {
                Some(settings) => r matches Ok(found) && found@ == settings,
                None => r matches Err(AppError::Generic(message)) && message@ == not_found_text(
                    name@,
                    location@,
                ),
            },
            Err(words) => r matches Err(AppError::ProfileError(place, reason)) && place@
                == location@ && reason@ == words,
        },
{
    match load_ini(config) {
        Ok(doc) => find_profile(doc, name, location),
        Err(error) => Err(AppError::ProfileError(location.to_owned(), parse_error_text(&error))),
    }
}

/// A profile that declares a role and no MFA serial resolves at once, to
/// the assumption of that role with no external id and no MFA challenge.
pub proof fn lemma_role_alone_assumes_role(settings: Settings)
    requires
        role_of(settings) is Some,
        settings.mfa_serial is None,
    ensures
        resolved(settings, None).operation == (Operation::AssumeRole {
            role_arn: settings.role_arn.unwrap(),
            external_id: None,
            mfa: None,
        }),
        resolved(settings, None).source_profile == settings.source_profile,
{
}

/// A profile that declares neither a role nor an MFA serial resolves at
/// once, to a session token without an MFA challenge.
pub proof fn lemma_bare_profile_gets_session_token(settings: Settings)
    requires
        role_of(settings) is None,
        settings.mfa_serial is None,
    ensures
        resolved(settings, None).operation == (Operation::GetSessionToken { mfa: None }),
        resolved(settings, None).source_profile == settings.source_profile,
{
}

/// Whatever a profile declares and whatever code is typed, the request that
/// it resolves to names a role only where that role is not empty.
pub proof fn lemma_resolved_is_well_formed(settings: Settings, code: Option<Seq<char>>)
    ensures
        resolved(settings, code).operation.wf(),
{
}

/// A resolution that waits for a code ends, whatever the role, in a request
/// whose MFA challenge is the declared serial with the code that was typed.
pub proof fn lemma_mfa_serial_embeds_code(pending: MfaPending, line: Seq<char>)
    ensures
        pending.settings().mfa_serial == Some(pending.serial@),
        match resolved(pending.settings(), Some(trimmed_end(line))).operation {
            Operation::AssumeRole { role_arn, external_id, mfa } => {
                &&& role_of(pending.settings()) == Some(role_arn)
                &&& external_id is None
                &&& mfa == Some((pending.serial@, trimmed_end(line)))
            },
            Operation::GetSessionToken { mfa } => {
                &&& role_of(pending.settings()) is None
                &&& mfa == Some((pending.serial@, trimmed_end(line)))
            },
        },
{
}

} // verus!
