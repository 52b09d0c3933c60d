//! The one authentication request and the provider's answer.
//!
//! The request is built from the loaded config and the resolved credentials:
//! an admin username/password flow against the configured pool and client,
//! with the credentials passed as two named auth parameters. The answer is a
//! tagged value, decoupled from any particular SDK's response shape: a
//! success carries the optional authentication result with its optional
//! identity token, a failure carries a kind and a message. The caller sends
//! the request over the network and maps what came back into [`AuthOutcome`].

use crate::config::Config;
use crate::credentials::Credentials;
use vstd::prelude::*;
use vstd::string::StringExecFns;

verus! {

/// The authentication flow the tool uses; only the admin username/password
/// flow is ever requested.
#[derive(Debug)]
pub enum AuthFlow {
    AdminUserPasswordAuth,
}

/// Everything the one outbound call needs: pool and client identifiers, the
/// flow selector, and the named auth parameters.
#[derive(Debug)]
pub struct AuthRequest {
    pub user_pool_id: String,
    pub client_id: String,
    pub flow: AuthFlow,
    pub parameters: Vec<(String, String)>,
}

impl AuthRequest {
    /// A request is well-formed when it targets a fully populated config,
    /// asks for the admin username/password flow, and carries exactly the
    /// two named credential parameters.
    pub open spec fn wf(self) -> bool {
        &&& self.user_pool_id@.len() > 0
        &&& self.client_id@.len() > 0
        &&& self.flow is AdminUserPasswordAuth
        &&& self.parameters@.len() == 2
        &&& self.parameters@[0].0@ == "USERNAME"@
        &&& self.parameters@[1].0@ == "PASSWORD"@
    }
}

/// Why the provider's answer was not a success with a usable token.
#[derive(Debug)]
pub enum AuthFailureKind {
    /// The call never produced a service answer: connection, timeout, or
    /// request construction trouble.
    Transport,
    /// The service refused the caller's own cloud credentials.
    AccessDenied,
    /// The service rejected the supplied username or password.
    NotAuthorized,
    /// The service did not accept the requested auth flow.
    InvalidFlow,
    /// Any other service-side rejection.
    Other,
}

/// The token fields of a successful answer; only the identity token is ever
/// read.
#[derive(Debug)]
pub struct AuthTokens {
    pub id_token: Option<String>,
}

/// The provider's answer to the one call, as a tagged value.
#[derive(Debug)]
pub enum AuthOutcome {
    Success { authentication_result: Option<AuthTokens> },
    Failure { kind: AuthFailureKind, message: String },
}

/// Why no identity token could be extracted from an [`AuthOutcome`].
#[derive(Debug)]
pub enum AuthError {
    /// The call itself failed.
    Failed { kind: AuthFailureKind, message: String },
    /// A success answer without an authentication result substructure.
    MissingAuthenticationResult,
    /// An authentication result without an identity token.
    MissingIdToken,
}

/// The identity token a success answer carries, if any.
pub open spec fn spec_id_token(outcome: AuthOutcome) -> Option<Seq<char>> {
    match outcome {
        AuthOutcome::Success { authentication_result } => match authentication_result {
            Option::Some(tokens) => match tokens.id_token {
                Option::Some(t) => Option::Some(t@),
                Option::None => Option::None,
            },
            Option::None => Option::None,
        },
        AuthOutcome::Failure { .. } => Option::None,
    }
}

/// Builds the one authentication request: the admin username/password flow
/// against the configured pool and client, with the username and password as
/// the two named auth parameters, in that order.
pub fn build_auth_request(config: &Config, creds: &Credentials) -> (r: AuthRequest)
    requires
        config.wf(),
    ensures
        r.user_pool_id@ == config.user_pool_id@,
        r.client_id@ == config.client_id@,
        r.flow is AdminUserPasswordAuth,
        r.parameters@.len() == 2,
        r.parameters@[0].0@ == "USERNAME"@,
        r.parameters@[0].1@ == creds.username@,
        r.parameters@[1].0@ == "PASSWORD"@,
        r.parameters@[1].1@ == creds.password@,
        r.wf(),
{
    let mut parameters: Vec<(String, String)> = Vec::new();
    parameters.push(("USERNAME".to_owned(), creds.username.clone()));
    parameters.push(("PASSWORD".to_owned(), creds.password.clone()));
    AuthRequest {
        user_pool_id: config.user_pool_id.clone(),
        client_id: config.client_id.clone(),
        flow: AuthFlow::AdminUserPasswordAuth,
        parameters,
    }
}

/// Extracts the identity token from the provider's answer. A failure
/// answer, a success without an authentication result, and a result without
/// an identity token each yield their own error; nothing is defaulted.
pub fn id_token_of(outcome: AuthOutcome) -> (r: Result<String, AuthError>)
    ensures
        r matches Ok(t) ==> spec_id_token(outcome) == Option::Some(t@),
        r is Err ==> spec_id_token(outcome) is None,
        outcome matches AuthOutcome::Failure { kind, message } ==> r matches Err(e)
            && e matches AuthError::Failed { kind: k, message: m } && k == kind && m@
            == message@,
        outcome matches AuthOutcome::Success { authentication_result: None } ==> r == Err::<
            String,
            AuthError,
        >(AuthError::MissingAuthenticationResult),
        outcome matches AuthOutcome::Success { authentication_result: Some(tokens) }
            && tokens.id_token is None ==> r == Err::<String, AuthError>(
            AuthError::MissingIdToken,
        ),
{
    match outcome {
        AuthOutcome::Success { authentication_result } => match authentication_result {
            Some(tokens) => match tokens.id_token {
                Some(t) => Ok(t),
                None => Err(AuthError::MissingIdToken),
            },
            None => Err(AuthError::MissingAuthenticationResult),
        },
        AuthOutcome::Failure { kind, message } => Err(AuthError::Failed { kind, message }),
    }
}

/// The line printed on success: the `JWT:` label, a newline, and the token
/// verbatim.
pub fn token_output(token: &str) -> (r: String)
    ensures
        r@ == "JWT:\n"@ + token@,
{
    let mut out: String = "JWT:\n".to_owned();
    out.append(token);
    out
}

} // verus!
