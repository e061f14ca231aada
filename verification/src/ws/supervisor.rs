use vstd::arithmetic::power2;
use vstd::prelude::*;

verus! {

/// The shortest pause before a new attempt, in seconds.
pub const BACKOFF_MIN_SECS: u64 = 1;

/// The longest pause before a new attempt, in seconds.
pub const BACKOFF_MAX_SECS: u64 = 60;

/// Where a supervised connection stands.
#[derive(Clone, Copy, Debug, PartialEq, Eq, Structural)]
pub enum Phase {
    /// The address is being made.
    Preparing,
    Connecting,
    /// The connection is open and greetings are exchanged.
    Greeting,
    /// Messages come in.
    Listening,
    /// A pause before the next attempt.
    Pausing,
    /// It is over.
    Stopped,
}

/// What has happened.
#[derive(Clone, Copy, Debug, PartialEq, Eq, Structural)]
pub enum WsInput {
    Prepared,
    PrepareFailed,
    Connected,
    ConnectFailed,
    Greeted,
    GreetingFailed,
    /// The pause is over.
    Paused,
    /// The time for a heartbeat has come.
    HeartbeatDue,
    HeartbeatFailed,
    /// A text or binary message came in.
    Message,
    /// A ping or pong came in.
    Control,
    /// The other side closed the connection.
    Closed,
    ReceiveFailed,
    StreamEnded,
    /// Someone wants it to stop.
    Cancelled,
}

/// What is to be done next.
#[derive(Clone, Copy, Debug, PartialEq, Eq, Structural)]
pub enum WsAction {
    Prepare,
    Connect,
    Greet,
    /// Wait for the next message, heartbeat or cancellation.
    Listen,
    /// Hand the message on, then listen; an error in it changes nothing.
    Handle,
    SendHeartbeat,
    /// Wait so many seconds, or for a cancellation.
    Pause(u64),
    /// Send a close message and stop.
    CloseAndStop,
    Stop,
    /// Nothing follows.
    Nothing,
}

/// The next pause: twice as long, up to the longest.
pub open spec fn longer(backoff: u64) -> u64 {
    if 2 * backoff < BACKOFF_MAX_SECS {
        (2 * backoff) as u64
    } else {
        BACKOFF_MAX_SECS
    }
}

/// Phase, pause and action after something has happened. A failed attempt and a lost connection are
/// followed by a pause, after which the next one is longer; a failed greeting makes the next pause
/// longer without one. A new connection starts over with the shortest.
pub open spec fn after(phase: Phase, backoff: u64, input: WsInput) -> (Phase, u64, WsAction) {
    match (phase, input) {
        (Phase::Preparing, WsInput::Prepared) => (Phase::Connecting, backoff, WsAction::Connect),
        (Phase::Preparing, WsInput::PrepareFailed) => (Phase::Pausing, backoff, WsAction::Pause(backoff)),
        (Phase::Connecting, WsInput::Connected) => (Phase::Greeting, BACKOFF_MIN_SECS, WsAction::Greet),
        (Phase::Connecting, WsInput::ConnectFailed) => (Phase::Pausing, backoff, WsAction::Pause(backoff)),
        (Phase::Greeting, WsInput::Greeted) => (Phase::Listening, backoff, WsAction::Listen),
        (Phase::Greeting, WsInput::GreetingFailed) => (Phase::Preparing, longer(backoff), WsAction::Prepare),
        (Phase::Listening, WsInput::Message) => (Phase::Listening, backoff, WsAction::Handle),
        (Phase::Listening, WsInput::Control) => (Phase::Listening, backoff, WsAction::Listen),
        (Phase::Listening, WsInput::HeartbeatDue) => (Phase::Listening, backoff, WsAction::SendHeartbeat),
        (Phase::Listening, WsInput::HeartbeatFailed) => (Phase::Pausing, backoff, WsAction::Pause(backoff)),
        (Phase::Listening, WsInput::Closed) => (Phase::Pausing, backoff, WsAction::Pause(backoff)),
        (Phase::Listening, WsInput::ReceiveFailed) => (Phase::Pausing, backoff, WsAction::Pause(backoff)),
        (Phase::Listening, WsInput::StreamEnded) => (Phase::Pausing, backoff, WsAction::Pause(backoff)),
        (Phase::Listening, WsInput::Cancelled) => (Phase::Stopped, backoff, WsAction::CloseAndStop),
        (Phase::Pausing, WsInput::Paused) => (Phase::Preparing, longer(backoff), WsAction::Prepare),
        (Phase::Pausing, WsInput::Cancelled) => (Phase::Stopped, backoff, WsAction::Stop),
        _ => (phase, backoff, WsAction::Nothing),
    }
}

/// A connection that is made again whenever it is lost.
#[derive(Clone, Copy, Debug)]
pub struct Supervisor {
    phase: Phase,
    backoff_secs: u64,
}

impl Supervisor {
    pub closed spec fn phase(&self) -> Phase {
        self.phase
    }

    pub closed spec fn backoff(&self) -> u64 {
        self.backoff_secs
    }

    /// A pause is never shorter than the shortest nor longer than the longest.
    #[verifier::type_invariant]
    pub open spec fn inv(self) -> bool {
        BACKOFF_MIN_SECS <= self.backoff() <= BACKOFF_MAX_SECS
    }

    /// Before the first attempt; the address is to be made.
    pub fn new() -> (r: Supervisor)
        ensures
            r.phase() == Phase::Preparing,
            r.backoff() == BACKOFF_MIN_SECS,
    {
        Supervisor { phase: Phase::Preparing, backoff_secs: BACKOFF_MIN_SECS }
    }

    fn next_backoff(&self) -> (r: u64)
        ensures
            r == longer(self.backoff()),
    {
        proof {
            use_type_invariant(self);
        }
        if self.backoff_secs * 2 < BACKOFF_MAX_SECS {
            self.backoff_secs * 2
        } else {
            BACKOFF_MAX_SECS
        }
    }

    /// Takes in what has happened and says what is to be done.
    pub fn step(&mut self, input: WsInput) -> (r: WsAction)
        ensures
            (final(self).phase(), final(self).backoff(), r) == after(old(self).phase(), old(self).backoff(), input),
            BACKOFF_MIN_SECS <= final(self).backoff() <= BACKOFF_MAX_SECS,
    {
        proof {
            use_type_invariant(&*self);
        }
        let backoff: u64 = self.backoff_secs;
        let longer: u64 = self.next_backoff();
        match (self.phase, input) {
            (Phase::Preparing, WsInput::Prepared) => {
                self.phase = Phase::Connecting;
                WsAction::Connect
            },
            (Phase::Preparing, WsInput::PrepareFailed) => {
                self.phase = Phase::Pausing;
                WsAction::Pause(backoff)
            },
            (Phase::Connecting, WsInput::Connected) => {
                self.phase = Phase::Greeting;
                self.backoff_secs = BACKOFF_MIN_SECS;
                WsAction::Greet
            },
            (Phase::Connecting, WsInput::ConnectFailed) => {
                self.phase = Phase::Pausing;
                WsAction::Pause(backoff)
            },
            (Phase::Greeting, WsInput::Greeted) => {
                self.phase = Phase::Listening;
                WsAction::Listen
            },
            (Phase::Greeting, WsInput::GreetingFailed) => {
                self.phase = Phase::Preparing;
                self.backoff_secs = longer;
                WsAction::Prepare
            },
            (Phase::Listening, WsInput::Message) => WsAction::Handle,
            (Phase::Listening, WsInput::Control) => WsAction::Listen,
            (Phase::Listening, WsInput::HeartbeatDue) => WsAction::SendHeartbeat,
            (Phase::Listening, WsInput::HeartbeatFailed) => {
                self.phase = Phase::Pausing;
                WsAction::Pause(backoff)
            },
            (Phase::Listening, WsInput::Closed) => {
                self.phase = Phase::Pausing;
                WsAction::Pause(backoff)
            },
            (Phase::Listening, WsInput::ReceiveFailed) => {
                self.phase = Phase::Pausing;
                WsAction::Pause(backoff)
            },
            (Phase::Listening, WsInput::StreamEnded) => {
                self.phase = Phase::Pausing;
                WsAction::Pause(backoff)
            },
            (Phase::Listening, WsInput::Cancelled) => {
                self.phase = Phase::Stopped;
                WsAction::CloseAndStop
            },
            (Phase::Pausing, WsInput::Paused) => {
                self.phase = Phase::Preparing;
                self.backoff_secs = longer;
                WsAction::Prepare
            },
            (Phase::Pausing, WsInput::Cancelled) => {
                self.phase = Phase::Stopped;
                WsAction::Stop
            },
            _ => WsAction::Nothing,
        }
    }
}

/// The pause before attempt number `n` after a connection was lost and no attempt has succeeded.
pub open spec fn backoff_after(n: nat) -> u64
    decreases n,
{
    if n == 0 {
        BACKOFF_MIN_SECS
    } else {
        longer(backoff_after((n - 1) as nat))
    }
}

/// The pauses double from one second on and stop growing at one minute.
pub proof fn backoff_doubles_up_to_a_minute(n: nat)
    ensures
        backoff_after(n) == (if power2::pow2(n) < BACKOFF_MAX_SECS { power2::pow2(n) } else {
            BACKOFF_MAX_SECS as nat
        }),
    decreases n,
{
    if n == 0 {
        power2::lemma2_to64();
    } else {
        backoff_doubles_up_to_a_minute((n - 1) as nat);
        power2::lemma_pow2_unfold(n);
    }
}

/// Whatever happens, a connection starts over with the shortest pause.
pub proof fn connecting_resets_backoff(backoff: u64)
    ensures
        after(Phase::Connecting, backoff, WsInput::Connected) == (Phase::Greeting, BACKOFF_MIN_SECS, WsAction::Greet),
{
}

/// Once stopped it stays so, and a bad message never costs the connection.
pub proof fn stopped_stays_stopped(backoff: u64, input: WsInput)
    ensures
        after(Phase::Stopped, backoff, input) == (Phase::Stopped, backoff, WsAction::Nothing),
        after(Phase::Listening, backoff, WsInput::Message).0 == Phase::Listening,
{
}

/// Whoever waits or listens can be stopped.
pub proof fn cancellation_stops(phase: Phase, backoff: u64)
    requires
        phase == Phase::Pausing || phase == Phase::Listening,
    ensures
        after(phase, backoff, WsInput::Cancelled).0 == Phase::Stopped,
{
}

} // verus!
