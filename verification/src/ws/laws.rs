use vstd::prelude::*;

use crate::ws::supervisor;
use crate::ws::supervisor::{Phase, WsAction, WsInput};

verus! {

/// The next pause is twice as long, but never longer than a minute, and never shorter than the one
/// before it.
pub proof fn pauses_double(backoff: u64)
    requires
        1 <= backoff <= 60,
    ensures
        backoff <= supervisor::longer(backoff) <= 60,
        backoff < 30 ==> supervisor::longer(backoff) == 2 * backoff,
        backoff >= 30 ==> supervisor::longer(backoff) == 60,
{
}

/// Without a failure a connection is made step by step, whatever the pause was: address, connection,
/// greeting, messages.
pub proof fn success_leads_to_listening(backoff: u64)
    ensures
        ({
            let (p1, b1, a1) = supervisor::after(Phase::Preparing, backoff, WsInput::Prepared);
            let (p2, b2, a2) = supervisor::after(p1, b1, WsInput::Connected);
            let (p3, b3, a3) = supervisor::after(p2, b2, WsInput::Greeted);
            let (p4, b4, a4) = supervisor::after(p3, b3, WsInput::Message);
            &&& a1 == WsAction::Connect
            &&& a2 == WsAction::Greet
            &&& a3 == WsAction::Listen
            &&& a4 == WsAction::Handle
            &&& p4 == Phase::Listening
            &&& b4 == 1
        }),
{
}

/// Whether the connection is lost with an input while messages come in.
pub open spec fn loses_connection(input: WsInput) -> bool {
    input == WsInput::Closed || input == WsInput::ReceiveFailed || input == WsInput::StreamEnded || input
        == WsInput::HeartbeatFailed
}

/// A lost connection is made again after a pause: first the pause as long as it is due, then the
/// next attempt, and the pause after that is longer.
pub proof fn lost_connection_is_made_again(backoff: u64, input: WsInput)
    requires
        1 <= backoff <= 60,
        loses_connection(input),
    ensures
        ({
            let (p1, b1, a1) = supervisor::after(Phase::Listening, backoff, input);
            let (p2, b2, a2) = supervisor::after(p1, b1, WsInput::Paused);
            &&& a1 == WsAction::Pause(backoff)
            &&& p2 == Phase::Preparing
            &&& a2 == WsAction::Prepare
            &&& b2 >= backoff
            &&& backoff < 60 ==> b2 > backoff
        }),
{
}

/// A failed attempt is followed by a pause and by another attempt.
pub proof fn failed_attempt_is_repeated(backoff: u64, input: WsInput, phase: Phase)
    requires
        1 <= backoff <= 60,
        phase == Phase::Preparing && input == WsInput::PrepareFailed || phase == Phase::Connecting && input
            == WsInput::ConnectFailed,
    ensures
        ({
            let (p1, b1, a1) = supervisor::after(phase, backoff, input);
            let (p2, b2, a2) = supervisor::after(p1, b1, WsInput::Paused);
            &&& a1 == WsAction::Pause(backoff)
            &&& p2 == Phase::Preparing
            &&& a2 == WsAction::Prepare
            &&& backoff < 60 ==> b2 > backoff
        }),
{
}

/// Nothing but a cancellation stops a connection for good, and one that listens is closed first.
pub proof fn only_cancellation_stops(phase: Phase, backoff: u64, input: WsInput)
    requires
        phase != Phase::Stopped,
    ensures
        supervisor::after(phase, backoff, input).0 == Phase::Stopped ==> input == WsInput::Cancelled,
        supervisor::after(phase, backoff, input).2 == WsAction::CloseAndStop ==> phase == Phase::Listening && input
            == WsInput::Cancelled,
        phase == Phase::Listening && input == WsInput::Cancelled ==> supervisor::after(phase, backoff, input).2
            == WsAction::CloseAndStop,
        phase == Phase::Pausing && input == WsInput::Cancelled ==> supervisor::after(phase, backoff, input).2
            == WsAction::Stop,
{
}

/// While messages come in, only what loses the connection or cancels it ends that; pauses stay as
/// they are, and a heartbeat is sent when it is due.
pub proof fn listening_goes_on(backoff: u64, input: WsInput)
    requires
        !loses_connection(input),
        input != WsInput::Cancelled,
    ensures
        supervisor::after(Phase::Listening, backoff, input).0 == Phase::Listening,
        supervisor::after(Phase::Listening, backoff, input).1 == backoff,
        supervisor::after(Phase::Listening, backoff, input).2 == WsAction::SendHeartbeat <==> input
            == WsInput::HeartbeatDue,
        supervisor::after(Phase::Listening, backoff, input).2 == WsAction::Handle <==> input == WsInput::Message,
{
}

} // verus!
