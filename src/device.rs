//! The orchestrator: a state machine that boots the node, authenticates with
//! the network, collects sensor data, sends it and sleeps.
//!
//! Every phase's outside work (storage, radio, sensors, timers) is done by the
//! caller; the functions here take what that work returned and decide the
//! phase's outcome, and [`Device::advance`] moves to the next state.
use vstd::prelude::*;

use crate::duty::{
    accept_all, delivered_by, distinct_sources, lemma_attribution, Collected, Collector, Report,
    SensorId,
};
use crate::payload::{Payload, PAYLOAD_CAPACITY};
use crate::radio::{LoraRadioError, UplinkOutcome};
use crate::sensor::air_sensor::AIR_RECORD_LEN;
use crate::sensor::soil_sensor::SOIL_RECORD_LEN;
use crate::sensor::system_sensor::SYSTEM_RECORD_LEN;
use crate::session::Session;
use crate::storage::StorageError;

verus! {

/// Consecutive failed joins after which the node backs off.
pub const JOIN_ATTEMPT_LIMIT: u8 = 10;

/// Sleep after a failed boot or after too many failed joins, in seconds.
pub const LONG_BACKOFF_SECS: u64 = 3600;

/// Sleep after any other failure, in seconds.
pub const MEDIUM_BACKOFF_SECS: u64 = 600;

/// Period of the ticker that paces the main loop, in seconds.
pub const TICK_SECS: u64 = 600;

/// Phase of the node.
#[derive(Clone, Copy, Debug, PartialEq, Eq, Structural)]
pub enum State {
    Boot,
    Auth,
    Duty,
    Send,
    /// Sleep for the given number of seconds, then authenticate again.
    Idle(u64),
}

impl Default for State {
    fn default() -> (r: State)
        ensures
            r == State::Boot,
    {
        State::Boot
    }
}

/// Why a phase failed.
#[derive(Clone, Copy, Debug, PartialEq, Eq, Structural)]
pub enum DeviceError {
    /// Rejoining with the stored session failed.
    Auth,
    /// A full join failed; it will be retried.
    AuthFailed,
    /// Too many full joins failed in a row.
    AuthJoinAttemptsExhausted,
    /// The network session expired.
    SessionExpired,
    /// An uplink was not acknowledged.
    NoAck,
    /// A sensor could not be probed.
    Duty,
    /// An uplink could not be sent.
    Send,
    /// The persistent store failed.
    Storage(StorageError),
}

/// State that follows `state` when its phase ended with `outcome`.
pub open spec fn next_state(state: State, outcome: Result<(), DeviceError>) -> State {
    match state {
        State::Boot => match outcome {
            Ok(_) => State::Auth,
            Err(_) => State::Idle(LONG_BACKOFF_SECS),
        },
        State::Auth => match outcome {
            Ok(_) => State::Duty,
            Err(DeviceError::AuthFailed) => State::Auth,
            Err(DeviceError::AuthJoinAttemptsExhausted) => State::Idle(LONG_BACKOFF_SECS),
            Err(_) => State::Idle(MEDIUM_BACKOFF_SECS),
        },
        State::Duty => match outcome {
            Ok(_) => State::Send,
            Err(_) => State::Idle(MEDIUM_BACKOFF_SECS),
        },
        State::Send => match outcome {
            Ok(_) => State::Duty,
            Err(DeviceError::NoAck) => State::Duty,
            Err(DeviceError::SessionExpired) => State::Auth,
            Err(_) => State::Idle(MEDIUM_BACKOFF_SECS),
        },
        State::Idle(_) => State::Auth,
    }
}

/// How to authenticate.
#[derive(Clone, Copy, Debug, PartialEq, Eq)]
pub enum JoinRequest {
    /// Rejoin with a stored session, without a handshake.
    Rejoin(Session),
    /// Perform a full join handshake.
    Join,
}

/// What the authentication work came to.
#[derive(Clone, Copy, Debug, PartialEq, Eq)]
pub enum AuthReport {
    /// The rejoin with the stored session succeeded.
    Rejoined,
    /// The rejoin with the stored session failed.
    RejoinFailed,
    /// The full join succeeded; this is the result of storing its session.
    Joined(Result<(), StorageError>),
    /// The full join failed.
    JoinFailed,
}

/// Join attempt counter and outcome after `report`, from counter `attempt`.
pub open spec fn auth_spec(attempt: u8, report: AuthReport) -> (u8, Result<(), DeviceError>) {
    match report {
        AuthReport::Rejoined => (0, Ok(())),
        AuthReport::RejoinFailed => (attempt, Err(DeviceError::Auth)),
        AuthReport::Joined(Ok(_)) => (0, Ok(())),
        AuthReport::Joined(Err(e)) => (0, Err(DeviceError::Storage(e))),
        AuthReport::JoinFailed => if attempt + 1 >= JOIN_ATTEMPT_LIMIT {
            (0, Err(DeviceError::AuthJoinAttemptsExhausted))
        } else {
            ((attempt + 1) as u8, Err(DeviceError::AuthFailed))
        },
    }
}

/// Outcome of the send phase for what the radio returned.
pub open spec fn uplink_spec(sent: Result<UplinkOutcome, LoraRadioError>) -> Result<
    (),
    DeviceError,
> {
    match sent {
        Ok(UplinkOutcome::DownlinkReceived(_)) => Ok(()),
        Ok(UplinkOutcome::RxComplete) => Ok(()),
        Ok(UplinkOutcome::NoAck) => Err(DeviceError::NoAck),
        Ok(UplinkOutcome::SessionExpired) => Err(DeviceError::SessionExpired),
        Err(LoraRadioError::NoAck) => Err(DeviceError::NoAck),
        Err(LoraRadioError::SessionExpired) => Err(DeviceError::SessionExpired),
        Err(_) => Err(DeviceError::Send),
    }
}

/// Payload assembled from a cycle's results: the three records in sensor
/// order, or nothing when a sensor is missing or failed.
pub open spec fn assembled(c: Collected) -> Option<Seq<u8>> {
    if c.contains_key(SensorId::System) && c[SensorId::System] is Some && c.contains_key(
        SensorId::Soil,
    ) && c[SensorId::Soil] is Some && c.contains_key(SensorId::Air) && c[SensorId::Air] is Some {
        Some(c[SensorId::System]->0 + c[SensorId::Soil]->0 + c[SensorId::Air]->0)
    } else {
        None
    }
}

/// Payload left by a cycle that failed: the records delivered before the
/// first sensor that failed or did not report, in sensor order.
pub open spec fn delivered(c: Collected) -> Seq<u8> {
    match delivered_by(c, SensorId::System) {
        None => Seq::empty(),
        Some(s) => match delivered_by(c, SensorId::Soil) {
            None => s,
            Some(m) => match delivered_by(c, SensorId::Air) {
                None => s + m,
                Some(a) => s + m + a,
            },
        },
    }
}

/// The orchestrator's state: its phase, the failed join counter, the payload
/// of the current cycle, whether the store is reformatted at every boot, and
/// whether a storage fault asks for a reformat at the next boot.
pub struct Device {
    state: State,
    auth_attempt: u8,
    data: Payload,
    reset: bool,
    format_pending: bool,
}

impl Device {
    pub closed spec fn state_spec(&self) -> State {
        self.state
    }

    pub closed spec fn attempts(&self) -> u8 {
        self.auth_attempt
    }

    pub closed spec fn data_spec(&self) -> Seq<u8> {
        self.data.view()
    }

    pub closed spec fn resets(&self) -> bool {
        self.reset
    }

    /// A storage fault happened since the store was last formatted.
    pub closed spec fn pending_format(&self) -> bool {
        self.format_pending
    }

    /// The failed join counter stays below the limit.
    #[verifier::type_invariant]
    spec fn below_limit(&self) -> bool {
        self.auth_attempt < JOIN_ATTEMPT_LIMIT
    }

    /// A node about to boot. With `reset` the store is formatted at boot even
    /// when it mounts.
    pub fn new(reset: bool) -> (r: Device)
        ensures
            r.state_spec() == State::Boot,
            r.attempts() == 0,
            r.data_spec() == Seq::<u8>::empty(),
            r.resets() == reset,
            !r.pending_format(),
    {
        Device {
            state: State::default(),
            auth_attempt: 0,
            data: Payload::new(),
            reset,
            format_pending: false,
        }
    }

    pub fn state(&self) -> (r: State)
        ensures
            r == self.state_spec(),
    {
        self.state
    }

    pub fn auth_attempt(&self) -> (r: u8)
        ensures
            r == self.attempts(),
    {
        self.auth_attempt
    }

    /// The payload assembled by the last duty phase.
    pub fn payload(&self) -> (r: &[u8])
        ensures
            r@ == self.data_spec(),
    {
        self.data.as_slice()
    }

    /// Whether boot must format the store, given whether it mounted: when it
    /// did not, when reset is set, or after a storage fault.
    pub fn needs_format(&self, mounted: bool) -> (r: bool)
        ensures
            r == (!mounted || self.resets() || self.pending_format()),
    {
        !mounted || self.reset || self.format_pending
    }

    /// Outcome of the boot phase, given the result of formatting the store if
    /// it was formatted. Sensor checks at boot never fail it. A successful
    /// format clears a pending one; a failed format leaves one pending.
    pub fn boot(&mut self, formatted: Option<Result<(), StorageError>>) -> (r: Result<
        (),
        DeviceError,
    >)
        ensures
            r == (match formatted {
                Some(Err(e)) => Err(DeviceError::Storage(e)),
                _ => Ok(()),
            }),
            final(self).pending_format() == (match formatted {
                Some(Ok(_)) => false,
                Some(Err(_)) => true,
                None => old(self).pending_format(),
            }),
            final(self).state_spec() == old(self).state_spec(),
            final(self).attempts() == old(self).attempts(),
            final(self).data_spec() == old(self).data_spec(),
            final(self).resets() == old(self).resets(),
    {
        proof {
            use_type_invariant(&*self);
        }
        match formatted {
            Some(Ok(())) => {
                self.format_pending = false;
                Ok(())
            },
            Some(Err(e)) => {
                self.format_pending = true;
                Err(DeviceError::Storage(e))
            },
            None => Ok(()),
        }
    }

    /// How to authenticate, given the session loaded from the store.
    pub fn join_request(&self, stored: Option<Session>) -> (r: JoinRequest)
        ensures
            r == (match stored {
                Some(s) => JoinRequest::Rejoin(s),
                None => JoinRequest::Join,
            }),
    {
        match stored {
            Some(s) => JoinRequest::Rejoin(s),
            None => JoinRequest::Join,
        }
    }

    /// Outcome of the auth phase. A failed full join counts towards the
    /// limit: below it the join is retried, at it the counter restarts and
    /// the node backs off. Any success restarts the counter. A session that
    /// could not be stored leaves a reformat pending.
    pub fn auth(&mut self, report: AuthReport) -> (r: Result<(), DeviceError>)
        ensures
            (final(self).attempts(), r) == auth_spec(old(self).attempts(), report),
            final(self).state_spec() == old(self).state_spec(),
            final(self).data_spec() == old(self).data_spec(),
            final(self).resets() == old(self).resets(),
            final(self).pending_format() == (old(self).pending_format() || report matches AuthReport::Joined(Err(_))),
    {
        proof {
            use_type_invariant(&*self);
        }
        match report {
            AuthReport::Rejoined => {
                self.auth_attempt = 0;
                Ok(())
            },
            AuthReport::RejoinFailed => Err(DeviceError::Auth),
            AuthReport::Joined(stored) => {
                self.auth_attempt = 0;
                match stored {
                    Ok(()) => Ok(()),
                    Err(e) => {
                        self.format_pending = true;
                        Err(DeviceError::Storage(e))
                    },
                }
            },
            AuthReport::JoinFailed => {
                if self.auth_attempt + 1 >= JOIN_ATTEMPT_LIMIT {
                    self.auth_attempt = 0;
                    Err(DeviceError::AuthJoinAttemptsExhausted)
                } else {
                    self.auth_attempt = self.auth_attempt + 1;
                    Err(DeviceError::AuthFailed)
                }
            },
        }
    }

    /// Outcome of the duty phase: the payload becomes the three records in
    /// sensor order when every sensor delivered one; otherwise the phase
    /// fails and the payload holds the records delivered before the first
    /// sensor that failed or did not report.
    pub fn collect_data(&mut self, results: &Collector) -> (r: Result<(), DeviceError>)
        ensures
            match assembled(results.view()) {
                Some(p) => r is Ok && final(self).data_spec() == p,
                None => r == Err::<(), DeviceError>(DeviceError::Duty) && final(self).data_spec()
                    == delivered(results.view()),
            },
            r is Ok ==> final(self).data_spec().len() == SYSTEM_RECORD_LEN + SOIL_RECORD_LEN
                + AIR_RECORD_LEN,
            final(self).data_spec().len() <= PAYLOAD_CAPACITY,
            final(self).state_spec() == old(self).state_spec(),
            final(self).attempts() == old(self).attempts(),
            final(self).resets() == old(self).resets(),
            final(self).pending_format() == old(self).pending_format(),
    {
        proof {
            use_type_invariant(&*self);
        }
        self.data.clear();
        let system = match results.record(SensorId::System) {
            Some(b) => b,
            None => return Err(DeviceError::Duty),
        };
        self.data.append(system);
        let soil = match results.record(SensorId::Soil) {
            Some(b) => b,
            None => return Err(DeviceError::Duty),
        };
        self.data.append(soil);
        let air = match results.record(SensorId::Air) {
            Some(b) => b,
            None => return Err(DeviceError::Duty),
        };
        self.data.append(air);
        Ok(())
    }

    /// Outcome of the send phase, given what the radio returned.
    pub fn uplink(&self, sent: Result<UplinkOutcome, LoraRadioError>) -> (r: Result<
        (),
        DeviceError,
    >)
        ensures
            r == uplink_spec(sent),
    {
        match sent {
            Ok(UplinkOutcome::DownlinkReceived(_)) => Ok(()),
            Ok(UplinkOutcome::RxComplete) => Ok(()),
            Ok(UplinkOutcome::NoAck) => Err(DeviceError::NoAck),
            Ok(UplinkOutcome::SessionExpired) => Err(DeviceError::SessionExpired),
            Err(LoraRadioError::NoAck) => Err(DeviceError::NoAck),
            Err(LoraRadioError::SessionExpired) => Err(DeviceError::SessionExpired),
            Err(_) => Err(DeviceError::Send),
        }
    }

    /// Moves to the state that follows the current phase's outcome. An idle
    /// phase ends when its sleep is over, whatever the outcome says.
    pub fn advance(&mut self, outcome: Result<(), DeviceError>) -> (r: State)
        ensures
            r == final(self).state_spec(),
            final(self).state_spec() == next_state(old(self).state_spec(), outcome),
            final(self).attempts() == old(self).attempts(),
            final(self).data_spec() == old(self).data_spec(),
            final(self).resets() == old(self).resets(),
            final(self).pending_format() == old(self).pending_format(),
    {
        proof {
            use_type_invariant(&*self);
        }
        let next = match self.state {
            State::Boot => match outcome {
                Ok(_) => State::Auth,
                Err(_) => State::Idle(LONG_BACKOFF_SECS),
            },
            State::Auth => match outcome {
                Ok(_) => State::Duty,
                Err(DeviceError::AuthFailed) => State::Auth,
                Err(DeviceError::AuthJoinAttemptsExhausted) => State::Idle(LONG_BACKOFF_SECS),
                Err(_) => State::Idle(MEDIUM_BACKOFF_SECS),
            },
            State::Duty => match outcome {
                Ok(_) => State::Send,
                Err(_) => State::Idle(MEDIUM_BACKOFF_SECS),
            },
            State::Send => match outcome {
                Ok(_) => State::Duty,
                Err(DeviceError::NoAck) => State::Duty,
                Err(DeviceError::SessionExpired) => State::Auth,
                Err(_) => State::Idle(MEDIUM_BACKOFF_SECS),
            },
            State::Idle(_) => State::Auth,
        };
        self.state = next;
        next
    }
}

/// Phase and join counter after an auth phase that ended with `report`.
pub open spec fn auth_round(s: (State, u8), report: AuthReport) -> (State, u8) {
    (next_state(s.0, auth_spec(s.1, report).1), auth_spec(s.1, report).0)
}

/// Phase and join counter after `n` failed full joins, from a fresh counter in Auth.
pub open spec fn after_join_failures(n: nat) -> (State, u8)
    decreases n,
{
    if n == 0 {
        (State::Auth, 0)
    } else {
        auth_round(after_join_failures((n - 1) as nat), AuthReport::JoinFailed)
    }
}

/// Join retry bound. From a fresh counter, each of the first nine failed
/// joins keeps the node in Auth with the counter equal to the failures so
/// far, and a join that then succeeds moves it on to Duty with the counter
/// back at zero. The tenth consecutive failure sends it to Idle for the long
/// backoff, with the counter back at zero for the next Auth.
pub proof fn lemma_join_retry_bound(n: nat)
    requires
        n <= JOIN_ATTEMPT_LIMIT,
    ensures
        n < JOIN_ATTEMPT_LIMIT ==> after_join_failures(n) == (State::Auth, n as u8),
        n < JOIN_ATTEMPT_LIMIT ==> auth_round(after_join_failures(n), AuthReport::Joined(Ok(())))
            == (State::Duty, 0u8),
        n == JOIN_ATTEMPT_LIMIT ==> after_join_failures(n) == (State::Idle(LONG_BACKOFF_SECS), 0u8),
    decreases n,
{
    if n > 0 {
        lemma_join_retry_bound((n - 1) as nat);
    }
}

/// Whatever order the three sensors' records arrive in, the payload they
/// assemble is the system record, then the soil record, then the air record,
/// and its length is the sum of the three record lengths.
pub proof fn lemma_assembled_any_order(
    rs: Seq<Report>,
    system: [u8; 18],
    soil: [u8; 4],
    air: [u8; 11],
)
    requires
        distinct_sources(rs),
        rs.contains(Report::System(Some(system))),
        rs.contains(Report::Soil(Some(soil))),
        rs.contains(Report::Air(Some(air))),
    ensures
        assembled(accept_all(Collected::empty(), rs)) == Some(system@ + soil@ + air@),
        (system@ + soil@ + air@).len() == SYSTEM_RECORD_LEN + SOIL_RECORD_LEN + AIR_RECORD_LEN,
{
    lemma_attribution(rs);
    let i = choose|i: int| 0 <= i < rs.len() && rs[i] == Report::System(Some(system));
    let j = choose|j: int| 0 <= j < rs.len() && rs[j] == Report::Soil(Some(soil));
    let k = choose|k: int| 0 <= k < rs.len() && rs[k] == Report::Air(Some(air));
    assert(rs[i].source_spec() == SensorId::System);
    assert(rs[j].source_spec() == SensorId::Soil);
    assert(rs[k].source_spec() == SensorId::Air);
}

} // verus!
