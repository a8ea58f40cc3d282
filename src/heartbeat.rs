use vstd::prelude::*;
use crate::device::{DeviceError, DeviceMetrics, error_detail};
use crate::text::contains;

verus! {

/// Seconds between two heartbeats.
pub const HEARTBEAT_INTERVAL_SECONDS: u64 = 60;

/// Refresh the access token when it expires within this many seconds.
pub const TOKEN_REFRESH_THRESHOLD_SECONDS: u64 = 300;

/// Where the heartbeat cycle stands.
#[derive(Debug, Clone, Copy, PartialEq, Eq, Structural)]
pub enum HeartbeatPhase {
    /// Checking whether the access token needs refreshing.
    CheckRefresh,
    /// A refresh is under way; `after_unauthorized` tells whether a refused
    /// heartbeat asked for it (then the cycle sleeps after it).
    Refreshing { after_unauthorized: bool },
    /// Collecting GPU telemetry.
    CollectTelemetry,
    /// Sending the heartbeat.
    SendHeartbeat,
    /// Waiting for the next cycle.
    Sleep,
}

/// What the heartbeat loop observed.
#[derive(Debug)]
pub enum HeartbeatEvent {
    /// The expiry check answered (an error means the expiry is unknown).
    ExpiryChecked(Result<bool, DeviceError>),
    /// The refresh call answered with a new access token, or failed.
    Refreshed(Result<String, DeviceError>),
    /// Telemetry was collected, or could not be.
    Telemetry(Option<DeviceMetrics>),
    /// The heartbeat call answered.
    HeartbeatSent(Result<(), DeviceError>),
    /// The wait between cycles is over.
    Woke,
}

/// What the heartbeat loop does next.
#[derive(Debug, Clone)]
pub enum HeartbeatAction {
    /// Check the access token's expiry.
    CheckExpiry,
    /// Call the refresh endpoint with the refresh token.
    Refresh,
    /// Persist this new access token, then go on.
    StoreAccessToken(String),
    /// Collect GPU telemetry.
    CollectTelemetry,
    /// Send these metrics with the current access token.
    SendHeartbeat(DeviceMetrics),
    /// Wait this many seconds.
    Sleep(u64),
}

/// The next phase after a refresh finishes.
pub open spec fn phase_after_refresh(after_unauthorized: bool) -> HeartbeatPhase {
    if after_unauthorized {
        HeartbeatPhase::Sleep
    } else {
        HeartbeatPhase::CollectTelemetry
    }
}

/// The periodic heartbeat with credential refresh. It has no terminal state:
/// every failure leads on to the next step of the cycle.
#[derive(Debug, Clone)]
pub struct HeartbeatLoop {
    phase: HeartbeatPhase,
    access_token: String,
    interval_secs: u64,
}

impl HeartbeatLoop {
    pub closed spec fn spec_phase(&self) -> HeartbeatPhase {
        self.phase
    }

    pub closed spec fn spec_access_token(&self) -> Seq<char> {
        self.access_token@
    }

    pub closed spec fn spec_interval(&self) -> u64 {
        self.interval_secs
    }

    /// A loop about to check the given access token, with a cycle of `interval_secs`.
    pub fn new(access_token: String, interval_secs: u64) -> (r: (HeartbeatLoop, HeartbeatAction))
        ensures
            r.0.spec_phase() == HeartbeatPhase::CheckRefresh,
            r.0.spec_access_token() == access_token@,
            r.0.spec_interval() == interval_secs,
            r.1 is CheckExpiry,
    {
        (HeartbeatLoop { phase: HeartbeatPhase::CheckRefresh, access_token, interval_secs }, HeartbeatAction::CheckExpiry)
    }

    /// The access token the loop currently uses.
    pub fn access_token(&self) -> (r: &String)
        ensures
            r@ == self.spec_access_token(),
    {
        &self.access_token
    }

    pub fn phase(&self) -> (r: HeartbeatPhase)
        ensures
            r == self.spec_phase(),
    {
        self.phase
    }

    /// Advances the cycle on `event`:
    /// - an expiry check that says "refresh", or that could not read the
    ///   expiry, starts a refresh; otherwise telemetry is collected;
    /// - a successful refresh replaces the access token and has it stored;
    ///   a failed one keeps the old token; either way the cycle goes on;
    /// - missing telemetry skips this cycle's heartbeat;
    /// - a heartbeat refused with 401 starts a refresh, and the cycle then
    ///   sleeps without sending again; any other outcome sleeps;
    /// - waking starts the next cycle.
    /// An event that does not fit the phase leaves the loop as it is and
    /// repeats the action of that phase.
    pub fn step(&mut self, event: HeartbeatEvent) -> (r: HeartbeatAction)
        ensures
            final(self).spec_interval() == old(self).spec_interval(),
            match (old(self).spec_phase(), event) {
                (HeartbeatPhase::CheckRefresh, HeartbeatEvent::ExpiryChecked(Ok(false))) =>
                    final(self).spec_phase() == HeartbeatPhase::CollectTelemetry && r is CollectTelemetry
                    && final(self).spec_access_token() == old(self).spec_access_token(),
                (HeartbeatPhase::CheckRefresh, HeartbeatEvent::ExpiryChecked(_)) =>
                    final(self).spec_phase() == (HeartbeatPhase::Refreshing { after_unauthorized: false })
                    && r is Refresh && final(self).spec_access_token() == old(self).spec_access_token(),
                (HeartbeatPhase::Refreshing { after_unauthorized }, HeartbeatEvent::Refreshed(Ok(t))) =>
                    final(self).spec_phase() == phase_after_refresh(after_unauthorized)
                    && r == HeartbeatAction::StoreAccessToken(t) && final(self).spec_access_token() == t@,
                (HeartbeatPhase::Refreshing { after_unauthorized }, HeartbeatEvent::Refreshed(Err(_))) =>
                    final(self).spec_phase() == phase_after_refresh(after_unauthorized)
                    && final(self).spec_access_token() == old(self).spec_access_token()
                    && if after_unauthorized {
                        r == HeartbeatAction::Sleep(old(self).spec_interval())
                    } else {
                        r is CollectTelemetry
                    },
                (HeartbeatPhase::CollectTelemetry, HeartbeatEvent::Telemetry(Some(m))) =>
                    final(self).spec_phase() == HeartbeatPhase::SendHeartbeat && r == HeartbeatAction::SendHeartbeat(m)
                    && final(self).spec_access_token() == old(self).spec_access_token(),
                (HeartbeatPhase::CollectTelemetry, HeartbeatEvent::Telemetry(None)) =>
                    final(self).spec_phase() == HeartbeatPhase::Sleep && r == HeartbeatAction::Sleep(old(self).spec_interval())
                    && final(self).spec_access_token() == old(self).spec_access_token(),
                (HeartbeatPhase::SendHeartbeat, HeartbeatEvent::HeartbeatSent(Err(e))) =>
                    final(self).spec_access_token() == old(self).spec_access_token()
                    && if contains(error_detail(e), "401"@) {
                        final(self).spec_phase() == (HeartbeatPhase::Refreshing { after_unauthorized: true }) && r is Refresh
                    } else {
                        final(self).spec_phase() == HeartbeatPhase::Sleep && r == HeartbeatAction::Sleep(old(self).spec_interval())
                    },
                (HeartbeatPhase::SendHeartbeat, HeartbeatEvent::HeartbeatSent(Ok(_))) =>
                    final(self).spec_phase() == HeartbeatPhase::Sleep && r == HeartbeatAction::Sleep(old(self).spec_interval())
                    && final(self).spec_access_token() == old(self).spec_access_token(),
                (HeartbeatPhase::Sleep, HeartbeatEvent::Woke) =>
                    final(self).spec_phase() == HeartbeatPhase::CheckRefresh && r is CheckExpiry
                    && final(self).spec_access_token() == old(self).spec_access_token(),
                _ => final(self).spec_phase() == old(self).spec_phase()
                    && final(self).spec_access_token() == old(self).spec_access_token(),
            },
    {
        match (self.phase, event) {
            (HeartbeatPhase::CheckRefresh, HeartbeatEvent::ExpiryChecked(Ok(false))) => {
                self.phase = HeartbeatPhase::CollectTelemetry;
                HeartbeatAction::CollectTelemetry
            },
            (HeartbeatPhase::CheckRefresh, HeartbeatEvent::ExpiryChecked(_)) => {
                self.phase = HeartbeatPhase::Refreshing { after_unauthorized: false };
                HeartbeatAction::Refresh
            },
            (HeartbeatPhase::Refreshing { after_unauthorized }, HeartbeatEvent::Refreshed(Ok(t))) => {
                self.phase = if after_unauthorized { HeartbeatPhase::Sleep } else { HeartbeatPhase::CollectTelemetry };
                self.access_token = t.clone();
                HeartbeatAction::StoreAccessToken(t)
            },
            (HeartbeatPhase::Refreshing { after_unauthorized }, HeartbeatEvent::Refreshed(Err(_))) => {
                if after_unauthorized {
                    self.phase = HeartbeatPhase::Sleep;
                    HeartbeatAction::Sleep(self.interval_secs)
                } else {
                    self.phase = HeartbeatPhase::CollectTelemetry;
                    HeartbeatAction::CollectTelemetry
                }
            },
            (HeartbeatPhase::CollectTelemetry, HeartbeatEvent::Telemetry(Some(m))) => {
                self.phase = HeartbeatPhase::SendHeartbeat;
                HeartbeatAction::SendHeartbeat(m)
            },
            (HeartbeatPhase::CollectTelemetry, HeartbeatEvent::Telemetry(None)) => {
                self.phase = HeartbeatPhase::Sleep;
                HeartbeatAction::Sleep(self.interval_secs)
            },
            (HeartbeatPhase::SendHeartbeat, HeartbeatEvent::HeartbeatSent(Err(e))) => {
                if e.is_unauthorized() {
                    self.phase = HeartbeatPhase::Refreshing { after_unauthorized: true };
                    HeartbeatAction::Refresh
                } else {
                    self.phase = HeartbeatPhase::Sleep;
                    HeartbeatAction::Sleep(self.interval_secs)
                }
            },
            (HeartbeatPhase::SendHeartbeat, HeartbeatEvent::HeartbeatSent(Ok(_))) => {
                self.phase = HeartbeatPhase::Sleep;
                HeartbeatAction::Sleep(self.interval_secs)
            },
            (HeartbeatPhase::Sleep, HeartbeatEvent::Woke) => {
                self.phase = HeartbeatPhase::CheckRefresh;
                HeartbeatAction::CheckExpiry
            },
            (phase, _) => Self::action_of(phase, self.interval_secs),
        }
    }

    /// What follows once a new access token has been stored: the cycle goes
    /// on where the refresh left it.
    pub fn after_store(&self) -> (r: HeartbeatAction)
        ensures
            self.spec_phase() == HeartbeatPhase::Sleep ==> r == HeartbeatAction::Sleep(self.spec_interval()),
            self.spec_phase() == HeartbeatPhase::CollectTelemetry ==> r is CollectTelemetry,
    {
        Self::action_of(self.phase, self.interval_secs)
    }

    /// The action that a phase waits on.
    fn action_of(phase: HeartbeatPhase, interval_secs: u64) -> (r: HeartbeatAction)
        ensures
            phase == HeartbeatPhase::Sleep ==> r == HeartbeatAction::Sleep(interval_secs),
            phase == HeartbeatPhase::CollectTelemetry ==> r is CollectTelemetry,
    {
        match phase {
            HeartbeatPhase::CheckRefresh => HeartbeatAction::CheckExpiry,
            HeartbeatPhase::Refreshing { .. } => HeartbeatAction::Refresh,
            HeartbeatPhase::CollectTelemetry => HeartbeatAction::CollectTelemetry,
            HeartbeatPhase::SendHeartbeat => HeartbeatAction::Sleep(interval_secs),
            HeartbeatPhase::Sleep => HeartbeatAction::Sleep(interval_secs),
        }
    }
}

} // verus!
