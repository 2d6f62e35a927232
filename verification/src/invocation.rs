//! What the user asked for, and the first decision: a profile to look up,
//! or a request made of the explicit parameters.

use crate::args::{explicit_request, text_of, AwsArgs};
use crate::error::AppError;
use vstd::prelude::*;
use vstd::string::*;

verus! {

/// The parameters of one run.
#[derive(Debug, Clone, PartialEq, Eq)]
pub struct App {
    /// The profile to assume.
    pub profile: Option<String>,
    /// The source profile to assume from.
    pub source_profile: Option<String>,
    /// A specific role ARN to assume.
    pub role_arn: Option<String>,
    /// An external ID to use when assuming a specific ARN.
    pub external_id: Option<String>,
}

/// What is to be done first.
#[derive(Debug, Clone, PartialEq, Eq)]
pub enum Plan {
    /// Look this profile up and resolve it.
    Profile(String),
    /// The request is complete.
    Explicit(AwsArgs),
}

/// What is reported where neither a profile nor a role is named.
pub open spec fn missing_role_text() -> Seq<char> {
    "a role ARN is required where no profile is named"@
}

impl App {
    /// Decides between the two ways. A named profile wins, and the other
    /// parameters are then not read. Without one the role is mandatory: with
    /// a role that is not empty the request is made of the explicit
    /// parameters, and without it the run fails.
    pub fn plan(self) -> (r: Result<Plan, AppError>)
        ensures
            match text_of(self.profile) {
                Some(name) => r matches Ok(Plan::Profile(found)) && found@ == name,
                None => match text_of(self.role_arn) {
                    Some(arn) if arn.len() > 0 => r matches Ok(Plan::Explicit(args)) && args@
                        == explicit_request(
                        text_of(self.source_profile),
                        arn,
                        text_of(self.external_id),
                    ) && args@.operation.wf(),
                    _ => r matches Err(AppError::Generic(message)) && message@
                        == missing_role_text(),
                },
            },
    {
        if let Some(name) = self.profile {
            return Ok(Plan::Profile(name));
        }
        match self.role_arn {
            Some(role_arn) if !role_arn.as_str().is_empty() => Ok(
                Plan::Explicit(AwsArgs::from_explicit(self.source_profile, role_arn, self.external_id)),
            ),
            _ => Err(
                AppError::Generic("a role ARN is required where no profile is named".to_owned()),
            ),
        }
    }
}

} // verus!
