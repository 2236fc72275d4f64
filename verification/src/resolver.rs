//! Team resolution and session-expiry detection.
//!
//! Privileged operations run under a team context derived from the current
//! session. The provider call that lists teams happens outside this crate;
//! the library classifies its outcome: a specific provider code means the
//! session has aged out (the slot is then cleared so the caller must
//! re-authenticate), an empty team list is its own error, and otherwise
//! the first team in provider-returned order is selected.

use vstd::prelude::*;
use crate::session::SessionManager;

verus! {

/// The provider code meaning the authentication has aged out.
pub const EXPIRED_SESSION_CODE: i64 = -22411;

/// The resolved operating context: the team under which certificate and
/// identifier operations run.
#[derive(Debug, Clone, PartialEq, Eq)]
pub struct TeamContext {
    pub team_id: String,
}

impl TeamContext {
    /// A second handle to the same context, equal to this one.
    pub fn duplicate(&self) -> (r: TeamContext)
        ensures
            r == *self,
    {
        TeamContext { team_id: self.team_id.clone() }
    }
}

/// A provider failure as this library reads it: the two variants that
/// carry a numeric code, and free-text for everything else.
#[derive(Debug, Clone, PartialEq, Eq)]
pub enum ProviderError {
    Auth(i64, String),
    DeveloperSession(i64, String),
    Other(String),
}

/// Whether a provider failure means the session has expired.
pub open spec fn is_expired_error(e: ProviderError) -> bool {
    match e {
        ProviderError::Auth(code, _) => code == EXPIRED_SESSION_CODE,
        ProviderError::DeveloperSession(code, _) => code == EXPIRED_SESSION_CODE,
        ProviderError::Other(_) => false,
    }
}

/// The free-text part of a provider failure.
pub open spec fn provider_detail(e: ProviderError) -> Seq<char> {
    match e {
        ProviderError::Auth(_, d) => d@,
        ProviderError::DeveloperSession(_, d) => d@,
        ProviderError::Other(d) => d@,
    }
}

/// Why no team context could be resolved.
#[derive(Debug, PartialEq, Eq)]
pub enum SessionError {
    /// No session is installed.
    NotLoggedIn,
    /// The provider said the session has aged out; the slot was cleared
    /// and the caller must re-authenticate.
    Expired(String),
    /// The provider listed zero teams — distinct from expiry.
    NoTeams,
    /// Any other provider failure, passed through.
    Provider(String),
}

impl SessionError {
    /// The user-visible description of this error.
    pub fn message(&self) -> (r: String)
        ensures
            match self {
                SessionError::NotLoggedIn => r@ == "Not logged in"@,
                SessionError::Expired(d) => r@ == "Session timed out, please try again: "@ + d@,
                SessionError::NoTeams => r@ == "No developer teams found for this account"@,
                SessionError::Provider(d) => r@ == "Failed to list teams: "@ + d@,
            },
    {
        match self {
            SessionError::NotLoggedIn => "Not logged in".to_owned(),
            SessionError::Expired(d) => String::from_str("Session timed out, please try again: ")
                .concat(d.as_str()),
            SessionError::NoTeams => "No developer teams found for this account".to_owned(),
            SessionError::Provider(d) => String::from_str("Failed to list teams: ").concat(
                d.as_str(),
            ),
        }
    }
}

/// Classifies the outcome of the provider's team listing and keeps the
/// session slot honest.
///
/// An expired-session code clears the slot — the single self-healing step
/// for stale credentials; no automatic re-login is attempted. Any other
/// failure, and an empty team list, leave the slot untouched. On success
/// the first team in provider-returned order is selected; no ranking is
/// attempted.
pub fn resolve_team(manager: &mut SessionManager, outcome: Result<
    Vec<TeamContext>,
    ProviderError,
>) -> (r: Result<TeamContext, SessionError>)
    ensures
        match outcome {
            Err(e) => {
                if is_expired_error(e) {
                    &&& final(manager).current is None
                    &&& r matches Err(SessionError::Expired(d)) && d@ == provider_detail(e)
                } else {
                    &&& *final(manager) == *old(manager)
                    &&& r matches Err(SessionError::Provider(d)) && d@ == provider_detail(e)
                }
            },
            Ok(teams) => {
                &&& *final(manager) == *old(manager)
                &&& if teams@.len() == 0 {
                    r == Err::<TeamContext, SessionError>(SessionError::NoTeams)
                } else {
                    r == Ok::<TeamContext, SessionError>(teams@[0])
                }
            },
        },
{
    match outcome {
        Err(e) => {
            let (expired, detail) = match e {
                ProviderError::Auth(code, d) => (code == EXPIRED_SESSION_CODE, d),
                ProviderError::DeveloperSession(code, d) => (code == EXPIRED_SESSION_CODE, d),
                ProviderError::Other(d) => (false, d),
            };
            if expired {
                manager.invalidate();
                Err(SessionError::Expired(detail))
            } else {
                Err(SessionError::Provider(detail))
            }
        },
        Ok(mut teams) => {
            if teams.len() == 0 {
                Err(SessionError::NoTeams)
            } else {
                let first = teams.remove(0);
                Ok(first)
            }
        },
    }
}

} // verus!
