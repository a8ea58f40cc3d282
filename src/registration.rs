use vstd::prelude::*;
use crate::device::{DeviceError, DeviceInitResponse, DeviceVerifyResponse};

verus! {

/// Seconds between two verification polls.
pub const DEVICE_VERIFY_POLL_INTERVAL: u64 = 5;

/// The Unix time (seconds) of an RFC 3339 timestamp, if it is one.
pub uninterp spec fn rfc3339_timestamp(s: Seq<char>) -> Option<i64>;

/// Relies on chrono's `DateTime::parse_from_rfc3339` and `DateTime::timestamp`:
/// the instant as Unix seconds, or none where `s` is not RFC 3339.
#[verifier::external_body]
fn parse_rfc3339_timestamp(s: &str) -> (r: Option<i64>)
    ensures
        r == rfc3339_timestamp(s@),
{
    chrono::DateTime::parse_from_rfc3339(s).ok().map(|d| d.timestamp())
}

/// The credential the agent holds once registered.
#[derive(Debug, Clone)]
pub struct Credential {
    pub access_token: String,
    pub refresh_token: String,
    pub node_id: String,
    pub base_url: String,
}

/// How a registration ends without a credential.
#[derive(Debug, Clone, Copy, PartialEq, Eq, Structural)]
pub enum RegistrationEnd {
    CodeExpired,
    DeviceDisabled,
    VerificationTimeout,
}

/// What the registration flow does next.
#[derive(Debug, Clone)]
pub enum RegistrationStep {
    /// Poll the verify endpoint now.
    Poll,
    /// Wait this many seconds, then poll.
    WaitThenPoll(u64),
    /// Verification succeeded: store this credential.
    Succeeded(Credential),
    /// The flow ended without a credential.
    Ended(RegistrationEnd),
}

/// Polls that fit before the code expires: `floor((expires_at - now) / interval)`,
/// and none once it has expired.
pub open spec fn attempt_budget_spec(expires_at: int, now: int, interval: int) -> int {
    if expires_at <= now {
        0
    } else {
        (expires_at - now) / interval
    }
}

/// The number of verification polls allowed.
pub fn attempt_budget(expires_at: i64, now: i64, poll_interval: u64) -> (r: u64)
    requires
        poll_interval > 0,
    ensures
        r == attempt_budget_spec(expires_at as int, now as int, poll_interval as int),
{
    if expires_at <= now {
        0
    } else {
        let diff: i128 = expires_at as i128 - now as i128;
        let q: i128 = diff / (poll_interval as i128);
        assert(q <= diff) by (nonlinear_arith)
            requires q as int == (diff as int) / (poll_interval as int), diff > 0, poll_interval >= 1;
        q as u64
    }
}

/// The one-shot device-authorization flow: poll verification at a fixed
/// interval until success, a terminal refusal, or the budget is spent.
#[derive(Debug, Clone)]
pub struct RegistrationFlow {
    user_code: String,
    base_url: String,
    poll_interval: u64,
    max_attempts: u64,
    attempts: u64,
}

impl RegistrationFlow {
    pub closed spec fn spec_user_code(&self) -> Seq<char> {
        self.user_code@
    }

    pub closed spec fn spec_base_url(&self) -> Seq<char> {
        self.base_url@
    }

    pub closed spec fn spec_poll_interval(&self) -> u64 {
        self.poll_interval
    }

    /// Polls allowed in all.
    pub closed spec fn spec_max_attempts(&self) -> u64 {
        self.max_attempts
    }

    /// Polls made so far.
    pub closed spec fn spec_attempts(&self) -> u64 {
        self.attempts
    }

    /// Starts the flow for the session that device-init returned, at Unix time
    /// `now`; an expiry that is not RFC 3339 is an init error.
    pub fn start(init: &DeviceInitResponse, now: i64, poll_interval: u64, base_url: String) -> (r: Result<
        RegistrationFlow,
        DeviceError,
    >)
        requires
            poll_interval > 0,
        ensures
            match rfc3339_timestamp(init.expires_at@) {
                Some(exp) => r matches Ok(f) && f.spec_attempts() == 0 && f.spec_max_attempts()
                    == attempt_budget_spec(exp as int, now as int, poll_interval as int)
                    && f.spec_user_code() == init.user_code@ && f.spec_base_url() == base_url@
                    && f.spec_poll_interval() == poll_interval,
                None => r matches Err(DeviceError::InitError(_)),
            },
    {
        match parse_rfc3339_timestamp(init.expires_at.as_str()) {
            Some(exp) => Ok(RegistrationFlow {
                user_code: init.user_code.clone(),
                base_url,
                poll_interval,
                max_attempts: attempt_budget(exp, now, poll_interval),
                attempts: 0,
            }),
            None => Err(DeviceError::InitError(String::from_str("expiry time is not RFC 3339"))),
        }
    }

    /// The user code to verify.
    pub fn user_code(&self) -> (r: &String)
        ensures
            r@ == self.spec_user_code(),
    {
        &self.user_code
    }

    /// Polls made so far.
    pub fn attempts(&self) -> (r: u64)
        ensures
            r == self.spec_attempts(),
    {
        self.attempts
    }

    /// Polls allowed in all.
    pub fn max_attempts(&self) -> (r: u64)
        ensures
            r == self.spec_max_attempts(),
    {
        self.max_attempts
    }

    /// The first step: poll, unless no poll fits before expiry.
    pub fn first_step(&self) -> (r: RegistrationStep)
        ensures
            self.spec_attempts() < self.spec_max_attempts() ==> r is Poll,
            self.spec_attempts() >= self.spec_max_attempts() ==> r == RegistrationStep::Ended(
                RegistrationEnd::VerificationTimeout,
            ),
    {
        if self.attempts < self.max_attempts {
            RegistrationStep::Poll
        } else {
            RegistrationStep::Ended(RegistrationEnd::VerificationTimeout)
        }
    }

    /// Takes the outcome of one verification poll. Success yields the
    /// credential; an expired code or a disabled device ends the flow at once;
    /// any other failure counts as a poll and waits for the next one, until
    /// the budget is spent.
    pub fn on_verify(&mut self, outcome: Result<DeviceVerifyResponse, DeviceError>) -> (r: RegistrationStep)
        ensures
            final(self).spec_user_code() == old(self).spec_user_code(),
            final(self).spec_base_url() == old(self).spec_base_url(),
            final(self).spec_poll_interval() == old(self).spec_poll_interval(),
            final(self).spec_max_attempts() == old(self).spec_max_attempts(),
            old(self).spec_attempts() >= old(self).spec_max_attempts() ==> r == RegistrationStep::Ended(
                RegistrationEnd::VerificationTimeout,
            ) && final(self).spec_attempts() == old(self).spec_attempts(),
            old(self).spec_attempts() < old(self).spec_max_attempts() ==> final(self).spec_attempts()
                == old(self).spec_attempts() + 1 && match outcome {
                Ok(v) => r matches RegistrationStep::Succeeded(c) && c.access_token == v.access_token
                    && c.refresh_token == v.refresh_token && c.node_id == v.node_id
                    && c.base_url@ == old(self).spec_base_url(),
                Err(DeviceError::CodeExpired) => r == RegistrationStep::Ended(RegistrationEnd::CodeExpired),
                Err(DeviceError::DeviceDisabled) => r == RegistrationStep::Ended(RegistrationEnd::DeviceDisabled),
                Err(_) => if final(self).spec_attempts() >= old(self).spec_max_attempts() {
                    r == RegistrationStep::Ended(RegistrationEnd::VerificationTimeout)
                } else {
                    r == RegistrationStep::WaitThenPoll(old(self).spec_poll_interval())
                },
            },
    {
        if self.attempts >= self.max_attempts {
            return RegistrationStep::Ended(RegistrationEnd::VerificationTimeout);
        }
        self.attempts = self.attempts + 1;
        match outcome {
            Ok(v) => RegistrationStep::Succeeded(
                Credential {
                    access_token: v.access_token,
                    refresh_token: v.refresh_token,
                    node_id: v.node_id,
                    base_url: self.base_url.clone(),
                },
            ),
            Err(DeviceError::CodeExpired) => RegistrationStep::Ended(RegistrationEnd::CodeExpired),
            Err(DeviceError::DeviceDisabled) => RegistrationStep::Ended(RegistrationEnd::DeviceDisabled),
            Err(_) => {
                if self.attempts >= self.max_attempts {
                    RegistrationStep::Ended(RegistrationEnd::VerificationTimeout)
                } else {
                    RegistrationStep::WaitThenPoll(self.poll_interval)
                }
            },
        }
    }
}

} // verus!
