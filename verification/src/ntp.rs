//! The time synchronisation worker.
//!
//! The worker is a state machine. It resolves the name of the time server
//! once, then waits for its ticker, sends one query, and applies the answer.
//! After an exchange that succeeded the ticker runs at the nominal period,
//! after one that failed at the shorter retry period. Everything that takes
//! time (the lookup, the wait, the exchange on the socket, the write to the
//! hardware clock) is done by the caller: [`NtpClient::action`] says what is
//! due, and [`NtpClient::handle`] takes the outcome.

use vstd::prelude::*;
use crate::channel::{pending, published, TimeChannel};
use crate::clock::{MonotonicInstant, WallClock};
use crate::config::NtpClientConfig;
use crate::timestamp::{representable, Timestamp};

verus! {

broadcast use Timestamp::lemma_at;

/// The port of the time protocol: the socket is bound to it, and the query is
/// sent to it.
pub const NTP_PORT: u16 = 123;

/// An IPv4 address, as its four octets.
pub type ServerAddress = [u8; 4];

/// The two intervals at which the worker's ticker runs.
#[derive(Clone, Copy, Debug, PartialEq, Eq, Structural)]
pub enum SyncPeriod {
    /// The long interval between queries once an exchange has succeeded.
    Nominal,
    /// The short interval after an exchange that failed.
    Retry,
}

impl SyncPeriod {
    /// The interval in seconds, as `config` sets it.
    pub open spec fn seconds_spec(self, config: NtpClientConfig) -> u64 {
        match self {
            SyncPeriod::Nominal => config.query_period_spec(),
            SyncPeriod::Retry => config.retry_period_spec(),
        }
    }

    /// The interval in seconds, as `config` sets it.
    pub fn seconds(self, config: &NtpClientConfig) -> (r: u64)
        ensures
            r == self.seconds_spec(*config),
    {
        match self {
            SyncPeriod::Nominal => config.query_period(),
            SyncPeriod::Retry => config.retry_period(),
        }
    }
}

/// What one successful exchange with the server brought: the server's time in
/// seconds since the Unix epoch.
#[derive(Clone, Copy, Debug, PartialEq, Eq, Structural)]
pub struct NtpSample {
    pub seconds: u64,
}

impl NtpSample {
    /// The sample as a timestamp, where it names a representable instant.
    pub open spec fn timestamp_spec(self) -> Option<Timestamp> {
        if representable(self.seconds as int) {
            Some(Timestamp::at(self.seconds as int))
        } else {
            None
        }
    }

    /// The sample as a timestamp, where it names a representable instant.
    pub fn to_timestamp(self) -> (r: Option<Timestamp>)
        ensures
            r == self.timestamp_spec(),
            r matches Some(t) ==> t@ == self.seconds,
    {
        if self.seconds > i64::MAX as u64 {
            None
        } else {
            Timestamp::from_unix_seconds(self.seconds as i64)
        }
    }
}

/// The time that the worker puts into its queries as its own. The appliance
/// has no time worth sending before it is synchronised, so the value is the
/// Unix epoch unless another one is given.
#[derive(Clone, Copy, Debug, PartialEq, Eq, Structural)]
pub struct OriginTimestamp {
    secs: u64,
    micros: u32,
}

impl OriginTimestamp {
    /// Whole seconds since the Unix epoch.
    pub closed spec fn secs(&self) -> u64 {
        self.secs
    }

    /// Microseconds past the whole second.
    pub closed spec fn micros(&self) -> u32 {
        self.micros
    }

    /// The microseconds are less than a second.
    #[verifier::type_invariant]
    pub open spec fn is_valid(&self) -> bool {
        self.micros() < 1_000_000
    }

    /// The time `micros` microseconds after the Unix epoch.
    pub fn from_micros(micros: u64) -> (r: OriginTimestamp)
        ensures
            r.secs() == micros / 1_000_000,
            r.micros() == micros % 1_000_000,
    {
        OriginTimestamp { secs: micros / 1_000_000, micros: (micros % 1_000_000) as u32 }
    }

    /// Prepares the value for the next query. There is nothing to prepare.
    pub fn init(&mut self)
        ensures
            *final(self) == *old(self),
    {
    }

    /// Whole seconds since the Unix epoch.
    pub fn timestamp_sec(&self) -> (r: u64)
        ensures
            r == self.secs(),
    {
        self.secs
    }

    /// Microseconds past the whole second, below one million.
    pub fn timestamp_subsec_micros(&self) -> (r: u32)
        ensures
            r == self.micros(),
            r < 1_000_000,
    {
        proof {
            use_type_invariant(self);
        }
        self.micros
    }
}

impl Default for OriginTimestamp {
    /// The Unix epoch.
    fn default() -> (r: OriginTimestamp)
        ensures
            r.secs() == 0,
            r.micros() == 0,
    {
        OriginTimestamp { secs: 0, micros: 0 }
    }
}

/// Where the worker stands.
#[derive(Clone, Copy, Debug, PartialEq, Eq, Structural)]
pub enum SyncState {
    /// The server's name is being resolved. The worker starts here.
    ResolvingServer,
    /// The ticker runs at `period`; the worker waits for it to fire.
    AwaitingTick { period: SyncPeriod },
    /// One query is on its way.
    Querying,
    /// The server's answer, `time`, is being written to the hardware clock.
    ApplyingResult { time: Timestamp },
    /// The server's name could not be resolved. The worker stays here.
    Failed,
}

/// What came of the work that the worker asked for.
#[derive(Debug, PartialEq, Eq)]
pub enum SyncEvent {
    /// The lookup ended and found `addresses`, in the resolver's order.
    Resolved { addresses: Vec<ServerAddress> },
    /// The lookup failed.
    ResolveFailed,
    /// The ticker fired.
    TickFired,
    /// The socket could not be bound.
    BindFailed,
    /// The query was sent, or could not be sent, and no reply came.
    NoReply,
    /// A reply came that is no valid answer.
    MalformedReply,
    /// A valid reply came.
    Reply { sample: NtpSample },
    /// The time was written to the hardware clock.
    Applied,
    /// The write to the hardware clock failed.
    ApplyFailed,
}

/// The work that is due in a state.
#[derive(Clone, Copy, Debug, PartialEq, Eq)]
pub enum SyncAction {
    /// Resolve `server` to its addresses.
    ResolveServer { server: &'static str },
    /// Run the ticker at `seconds` and wait for it to fire.
    WaitForTick { seconds: u64 },
    /// Bind a socket to `port`, send one query to `address` at `port`, and
    /// wait for the reply.
    QueryServer { address: ServerAddress, port: u16 },
    /// Write `time` to the hardware clock.
    ApplyTime { time: Timestamp },
    /// Nothing can be done but to restart the device.
    Restart,
}

/// What went wrong in one step of the worker.
#[derive(Clone, Copy, Debug, PartialEq, Eq, Structural)]
pub enum NtpClientError {
    /// The server's name did not resolve to any address.
    Resolution,
    /// The socket could not be bound.
    Socket,
    /// No reply came, or one that is no valid answer.
    Protocol,
    /// The server's time is outside the representable range.
    Range,
    /// The hardware clock did not take the time.
    Hardware,
    /// The event does not belong to the state the worker is in.
    Unexpected,
}

impl NtpClientError {
    /// Whether this error leaves the worker running. Only a failed
    /// resolution ends it.
    pub open spec fn is_recoverable_spec(self) -> bool {
        self != NtpClientError::Resolution
    }

    /// Whether this error leaves the worker running.
    #[verifier::when_used_as_spec(is_recoverable_spec)]
    pub fn is_recoverable(self) -> (r: bool)
        ensures
            r == self.is_recoverable_spec(),
    {
        match self {
            NtpClientError::Resolution => false,
            _ => true,
        }
    }
}

/// The state that follows `state` on `event`.
pub open spec fn next_state(state: SyncState, event: SyncEvent) -> SyncState {
    match (state, event) {
        (SyncState::ResolvingServer, SyncEvent::Resolved { addresses }) => {
            if addresses@.len() > 0 {
                SyncState::AwaitingTick { period: SyncPeriod::Nominal }
            } else {
                SyncState::Failed
            }
        },
        (SyncState::ResolvingServer, SyncEvent::ResolveFailed) => SyncState::Failed,
        (SyncState::AwaitingTick { .. }, SyncEvent::TickFired) => SyncState::Querying,
        (SyncState::Querying, SyncEvent::BindFailed)
        | (SyncState::Querying, SyncEvent::NoReply)
        | (SyncState::Querying, SyncEvent::MalformedReply) => SyncState::AwaitingTick {
            period: SyncPeriod::Retry,
        },
        (SyncState::Querying, SyncEvent::Reply { sample }) => match sample.timestamp_spec() {
            Some(time) => SyncState::ApplyingResult { time },
            None => SyncState::AwaitingTick { period: SyncPeriod::Retry },
        },
        (SyncState::ApplyingResult { .. }, SyncEvent::Applied)
        | (SyncState::ApplyingResult { .. }, SyncEvent::ApplyFailed) => SyncState::AwaitingTick {
            period: SyncPeriod::Nominal,
        },
        _ => state,
    }
}

/// The error, if any, that the step from `state` on `event` reports.
pub open spec fn error_of(state: SyncState, event: SyncEvent) -> Option<NtpClientError> {
    match (state, event) {
        (SyncState::ResolvingServer, SyncEvent::Resolved { addresses }) => {
            if addresses@.len() > 0 {
                None
            } else {
                Some(NtpClientError::Resolution)
            }
        },
        (SyncState::ResolvingServer, SyncEvent::ResolveFailed) => Some(NtpClientError::Resolution),
        (SyncState::AwaitingTick { .. }, SyncEvent::TickFired) => None,
        (SyncState::Querying, SyncEvent::BindFailed) => Some(NtpClientError::Socket),
        (SyncState::Querying, SyncEvent::NoReply) => Some(NtpClientError::Protocol),
        (SyncState::Querying, SyncEvent::MalformedReply) => Some(NtpClientError::Protocol),
        (SyncState::Querying, SyncEvent::Reply { sample }) => {
            if sample.timestamp_spec() is Some {
                None
            } else {
                Some(NtpClientError::Range)
            }
        },
        (SyncState::ApplyingResult { .. }, SyncEvent::Applied) => None,
        (SyncState::ApplyingResult { .. }, SyncEvent::ApplyFailed) => Some(
            NtpClientError::Hardware,
        ),
        _ => Some(NtpClientError::Unexpected),
    }
}

/// The server address that the worker keeps after the step from `state` on
/// `event`: the first one of a successful lookup, and from then on the same.
pub open spec fn next_address(
    state: SyncState,
    event: SyncEvent,
    address: Option<ServerAddress>,
) -> Option<ServerAddress> {
    match (state, event) {
        (SyncState::ResolvingServer, SyncEvent::Resolved { addresses }) => {
            if addresses@.len() > 0 {
                Some(addresses@[0])
            } else {
                address
            }
        },
        _ => address,
    }
}

/// What the distribution channel holds after the step from `state` on
/// `event`, where it held `slot` before: the server's time where a query
/// brought one, and otherwise what it held.
pub open spec fn slot_after(state: SyncState, event: SyncEvent, slot: Option<Timestamp>) -> Option<
    Timestamp,
> {
    match (state, event) {
        (SyncState::Querying, SyncEvent::Reply { sample }) => match sample.timestamp_spec() {
            Some(time) => published(slot, time),
            None => slot,
        },
        _ => slot,
    }
}

/// The work that is due in `state`.
pub open spec fn action_of(
    config: NtpClientConfig,
    state: SyncState,
    address: Option<ServerAddress>,
) -> SyncAction {
    match state {
        SyncState::ResolvingServer => SyncAction::ResolveServer { server: config.server_spec() },
        SyncState::AwaitingTick { period } => SyncAction::WaitForTick {
            seconds: period.seconds_spec(config),
        },
        SyncState::Querying => SyncAction::QueryServer {
            address: address.unwrap(),
            port: NTP_PORT,
        },
        SyncState::ApplyingResult { time } => SyncAction::ApplyTime { time },
        SyncState::Failed => SyncAction::Restart,
    }
}

/// The worker: its settings, its state, and the server address it resolved.
#[derive(Clone, Copy, Debug)]
pub struct NtpClient {
    config: NtpClientConfig,
    state: SyncState,
    address: Option<ServerAddress>,
}

impl NtpClient {
    /// The worker's settings.
    pub closed spec fn config(&self) -> NtpClientConfig {
        self.config
    }

    /// Where the worker stands.
    pub closed spec fn state_spec(&self) -> SyncState {
        self.state
    }

    /// The server address that the worker resolved, once it has.
    pub closed spec fn address_spec(&self) -> Option<ServerAddress> {
        self.address
    }

    /// Once the lookup has succeeded the worker has an address.
    #[verifier::type_invariant]
    pub open spec fn is_valid(&self) -> bool {
        &&& self.state_spec() is ResolvingServer || self.state_spec() is Failed
            || self.address_spec() is Some
        &&& self.state_spec() matches SyncState::ApplyingResult { time } ==> time.is_valid()
    }

    /// A worker at its start: the server's name is to be resolved.
    pub fn new(config: NtpClientConfig) -> (r: NtpClient)
        ensures
            r.config() == config,
            r.state_spec() == SyncState::ResolvingServer,
            r.address_spec() is None,
    {
        NtpClient { config, state: SyncState::ResolvingServer, address: None }
    }

    /// Where the worker stands.
    #[verifier::when_used_as_spec(state_spec)]
    pub fn state(&self) -> (r: SyncState)
        ensures
            r == self.state_spec(),
    {
        self.state
    }

    /// The server address that the worker resolved, once it has.
    #[verifier::when_used_as_spec(address_spec)]
    pub fn address(&self) -> (r: Option<ServerAddress>)
        ensures
            r == self.address_spec(),
    {
        self.address
    }

    /// The interval in seconds at which the ticker runs while the worker
    /// waits for it.
    pub fn tick_interval(&self) -> (r: Option<u64>)
        ensures
            r == (match self.state_spec() {
                SyncState::AwaitingTick { period } => Some(period.seconds_spec(self.config())),
                _ => None,
            }),
    {
        match self.state {
            SyncState::AwaitingTick { period } => Some(period.seconds(&self.config)),
            _ => None,
        }
    }

    /// The work that is due now.
    pub fn action(&self) -> (r: SyncAction)
        ensures
            r == action_of(self.config(), self.state_spec(), self.address_spec()),
    {
        proof {
            use_type_invariant(self);
        }
        match self.state {
            SyncState::ResolvingServer => SyncAction::ResolveServer {
                server: self.config.server(),
            },
            SyncState::AwaitingTick { period } => SyncAction::WaitForTick {
                seconds: period.seconds(&self.config),
            },
            SyncState::Querying => SyncAction::QueryServer {
                address: self.address.unwrap(),
                port: NTP_PORT,
            },
            SyncState::ApplyingResult { time } => SyncAction::ApplyTime { time },
            SyncState::Failed => SyncAction::Restart,
        }
    }

    /// Takes the outcome of the work that was due and moves on. A time that a
    /// query brought is published on `channel` at once. Returns what went
    /// wrong, for the log.
    pub fn handle(&mut self, event: SyncEvent, channel: &mut TimeChannel) -> (r: Option<
        NtpClientError,
    >)
        ensures
            final(self).config() == old(self).config(),
            final(self).state_spec() == next_state(old(self).state_spec(), event),
            final(self).address_spec() == next_address(
                old(self).state_spec(),
                event,
                old(self).address_spec(),
            ),
            final(channel)@ == slot_after(old(self).state_spec(), event, old(channel)@),
            r == error_of(old(self).state_spec(), event),
    {
        proof {
            use_type_invariant(&*self);
        }
        match (self.state, event) {
            (SyncState::ResolvingServer, SyncEvent::Resolved { addresses }) => {
                if addresses.len() > 0 {
                    self.address = Some(addresses[0]);
                    self.state = SyncState::AwaitingTick { period: SyncPeriod::Nominal };
                    None
                } else {
                    self.state = SyncState::Failed;
                    Some(NtpClientError::Resolution)
                }
            },
            (SyncState::ResolvingServer, SyncEvent::ResolveFailed) => {
                self.state = SyncState::Failed;
                Some(NtpClientError::Resolution)
            },
            (SyncState::AwaitingTick { .. }, SyncEvent::TickFired) => {
                self.state = SyncState::Querying;
                None
            },
            (SyncState::Querying, SyncEvent::BindFailed) => {
                self.state = SyncState::AwaitingTick { period: SyncPeriod::Retry };
                Some(NtpClientError::Socket)
            },
            (SyncState::Querying, SyncEvent::NoReply) => {
                self.state = SyncState::AwaitingTick { period: SyncPeriod::Retry };
                Some(NtpClientError::Protocol)
            },
            (SyncState::Querying, SyncEvent::MalformedReply) => {
                self.state = SyncState::AwaitingTick { period: SyncPeriod::Retry };
                Some(NtpClientError::Protocol)
            },
            (SyncState::Querying, SyncEvent::Reply { sample }) => match sample.to_timestamp() {
                Some(time) => {
                    channel.publish(time);
                    self.state = SyncState::ApplyingResult { time };
                    None
                },
                None => {
                    self.state = SyncState::AwaitingTick { period: SyncPeriod::Retry };
                    Some(NtpClientError::Range)
                },
            },
            (SyncState::ApplyingResult { .. }, SyncEvent::Applied) => {
                self.state = SyncState::AwaitingTick { period: SyncPeriod::Nominal };
                None
            },
            (SyncState::ApplyingResult { .. }, SyncEvent::ApplyFailed) => {
                self.state = SyncState::AwaitingTick { period: SyncPeriod::Nominal };
                Some(NtpClientError::Hardware)
            },
            _ => Some(NtpClientError::Unexpected),
        }
    }
}

/// Whether `event` ends an exchange with a time that can be applied.
pub open spec fn exchange_succeeded(event: SyncEvent) -> bool {
    event matches SyncEvent::Reply { sample } && sample.timestamp_spec() is Some
}

/// Whether `event` ends an exchange without a time that can be applied: the
/// socket could not be bound, no reply or no valid one came, or the server's
/// time is out of range.
pub open spec fn exchange_failed(event: SyncEvent) -> bool {
    ||| event is BindFailed
    ||| event is NoReply
    ||| event is MalformedReply
    ||| (event matches SyncEvent::Reply { sample } && sample.timestamp_spec() is None)
}

/// Cadence after success: when a query brought a time, the worker applies it
/// and then waits for a ticker that runs at the nominal period, whether or
/// not the hardware clock took the time.
pub proof fn successful_exchange_runs_at_nominal(
    config: NtpClientConfig,
    address: Option<ServerAddress>,
    reply: SyncEvent,
    written: SyncEvent,
)
    requires
        exchange_succeeded(reply),
        written is Applied || written is ApplyFailed,
    ensures
        next_state(SyncState::Querying, reply) is ApplyingResult,
        next_state(next_state(SyncState::Querying, reply), written) == (SyncState::AwaitingTick {
            period: SyncPeriod::Nominal,
        }),
        action_of(config, next_state(next_state(SyncState::Querying, reply), written), address)
            == (SyncAction::WaitForTick { seconds: config.query_period_spec() }),
{
}

/// Cadence after failure: when an exchange fails, the worker waits next for
/// a ticker that runs at the retry period.
pub proof fn failed_exchange_runs_at_retry(
    config: NtpClientConfig,
    address: Option<ServerAddress>,
    outcome: SyncEvent,
)
    requires
        exchange_failed(outcome),
    ensures
        next_state(SyncState::Querying, outcome) == (SyncState::AwaitingTick {
            period: SyncPeriod::Retry,
        }),
        action_of(config, next_state(SyncState::Querying, outcome), address) == (
        SyncAction::WaitForTick { seconds: config.retry_period_spec() }),
        error_of(SyncState::Querying, outcome) matches Some(e) && e.is_recoverable_spec(),
{
}

/// A malformed reply is a recoverable error and changes no time. In every
/// state the step reports an error that does not end the worker, and the
/// distribution channel holds what it held. While a query is on its way the
/// worker falls back to the retry period; in any other state it stays where
/// it is. So a reader is handed what it would have been handed without the
/// reply, and a wall clock that follows the channel and had nothing to take
/// before has nothing to take after: its last authoritative time stays.
pub proof fn malformed_reply_changes_no_time(
    state: SyncState,
    slot: Option<Timestamp>,
    observed: Option<Timestamp>,
    clock: WallClock,
    now: MonotonicInstant,
)
    ensures
        error_of(state, SyncEvent::MalformedReply) matches Some(e) && e.is_recoverable_spec(),
        state is Querying ==> next_state(state, SyncEvent::MalformedReply) == (
        SyncState::AwaitingTick { period: SyncPeriod::Retry }),
        !(state is Querying) ==> next_state(state, SyncEvent::MalformedReply) == state,
        slot_after(state, SyncEvent::MalformedReply, slot) == slot,
        pending(observed, slot_after(state, SyncEvent::MalformedReply, slot)) == pending(
            observed,
            slot,
        ),
        pending(observed, slot) is None ==> clock.after_reading(
            pending(observed, slot_after(state, SyncEvent::MalformedReply, slot)),
            now,
        ) == clock,
{
    clock.lemma_after_reading(None, now);
}

/// Resolved once: the worker never goes back to resolving, and the address
/// it took from the lookup stays with it through every later step, failed
/// exchanges included.
pub proof fn resolved_address_is_kept(
    state: SyncState,
    event: SyncEvent,
    address: Option<ServerAddress>,
)
    requires
        !(state is ResolvingServer),
    ensures
        !(next_state(state, event) is ResolvingServer),
        next_address(state, event, address) == address,
{
}

} // verus!
