//! The out-of-band challenge handshake.
//!
//! A login may require a one-time code delivered through a separate
//! surface. The wait itself (a one-shot, timeout-bounded rendezvous on its
//! own thread) happens outside this crate; the library states how long the
//! wait may last, classifies its three possible outcomes, and strips the
//! quote characters a transport may wrap around a delivered code.

use vstd::prelude::*;

verus! {

/// How long the challenge rendezvous waits for a code, in seconds.
pub const CHALLENGE_TIMEOUT_SECS: u64 = 120;

/// What the rendezvous ended with: a delivered code, no code within the
/// window, or the sender side dropping before delivering.
pub enum ChallengeOutcome {
    Delivered(String),
    TimedOut,
    Disconnected,
}

/// Why no code was returned. `Timeout` and `Disconnected` are distinct
/// and must not be confused by callers.
#[derive(Debug, PartialEq, Eq)]
pub enum ChallengeError {
    Timeout,
    Disconnected,
}

impl ChallengeError {
    /// The user-visible description of this error.
    pub fn message(&self) -> (r: String)
        ensures
            match self {
                ChallengeError::Timeout => r@ == "2FA cancelled or timed out"@,
                ChallengeError::Disconnected => r@ == "2FA disconnected"@,
            },
    {
        match self {
            ChallengeError::Timeout => "2FA cancelled or timed out".to_owned(),
            ChallengeError::Disconnected => "2FA disconnected".to_owned(),
        }
    }
}

/// A delivered code with at most one leading and one trailing quote
/// character removed.
pub open spec fn strip_quotes_spec(s: Seq<char>) -> Seq<char> {
    let t = if s.len() > 0 && s[0] == '"' {
        s.skip(1)
    } else {
        s
    };
    if t.len() > 0 && t[t.len() - 1] == '"' {
        t.take(t.len() - 1)
    } else {
        t
    }
}

/// Removes a single leading and a single trailing quote character from a
/// delivered code, each if present, and nothing else.
pub fn strip_code_quotes(code: &str) -> (r: String)
    ensures
        r@ == strip_quotes_spec(code@),
{
    let len = code.unicode_len();
    let from: usize = if len > 0 && code.get_char(0) == '"' {
        1
    } else {
        0
    };
    let to: usize = if len > from && code.get_char(len - 1) == '"' {
        len - 1
    } else {
        len
    };
    let stripped = code.substring_char(from, to);
    proof {
        let s = code@;
        let t = if s.len() > 0 && s[0] == '"' {
            s.skip(1)
        } else {
            s
        };
        assert(t =~= s.subrange(from as int, s.len() as int));
        assert(strip_quotes_spec(s) =~= s.subrange(from as int, to as int));
    }
    stripped.to_owned()
}

/// What the waiting call returns for each outcome of the rendezvous: the
/// delivered code with surrounding quotes stripped exactly once, or the
/// matching error. An outcome is consumed exactly once; a code arriving
/// after the wait has resolved is never part of the outcome, so it is
/// never observed here.
pub fn resolve_challenge(outcome: ChallengeOutcome) -> (r: Result<String, ChallengeError>)
    ensures
        match outcome {
            ChallengeOutcome::Delivered(code) => r matches Ok(c) && c@ == strip_quotes_spec(
                code@,
            ),
            ChallengeOutcome::TimedOut => r == Err::<String, ChallengeError>(
                ChallengeError::Timeout,
            ),
            ChallengeOutcome::Disconnected => r == Err::<String, ChallengeError>(
                ChallengeError::Disconnected,
            ),
        },
{
    match outcome {
        ChallengeOutcome::Delivered(code) => Ok(strip_code_quotes(code.as_str())),
        ChallengeOutcome::TimedOut => Err(ChallengeError::Timeout),
        ChallengeOutcome::Disconnected => Err(ChallengeError::Disconnected),
    }
}

/// Law: a code wrapped in one pair of quote characters comes back with
/// exactly that pair removed — inner quotes survive.
pub proof fn lemma_strip_wrapped_code(s: Seq<char>)
    requires
        s.len() >= 2,
        s[0] == '"',
        s[s.len() - 1] == '"',
    ensures
        strip_quotes_spec(s) == s.subrange(1, s.len() - 1),
{
    assert(strip_quotes_spec(s) =~= s.subrange(1, s.len() - 1));
}

/// Law: a code with no leading and no trailing quote character is
/// returned unchanged.
pub proof fn lemma_strip_plain_code(s: Seq<char>)
    requires
        s.len() > 0 ==> s[0] != '"' && s[s.len() - 1] != '"',
    ensures
        strip_quotes_spec(s) == s,
{
    assert(strip_quotes_spec(s) =~= s);
}

} // verus!
