use boldtrax::ws::supervisor::{Supervisor, WsAction, WsInput};

#[test]
fn connection_is_made_and_listened_to() {
    let mut s = Supervisor::new();
    assert_eq!(s.step(WsInput::Prepared), WsAction::Connect);
    assert_eq!(s.step(WsInput::Connected), WsAction::Greet);
    assert_eq!(s.step(WsInput::Greeted), WsAction::Listen);
    assert_eq!(s.step(WsInput::Message), WsAction::Handle);
    assert_eq!(s.step(WsInput::Control), WsAction::Listen);
    assert_eq!(s.step(WsInput::HeartbeatDue), WsAction::SendHeartbeat);
    assert_eq!(s.step(WsInput::Cancelled), WsAction::CloseAndStop);
    assert_eq!(s.step(WsInput::Prepared), WsAction::Nothing);
    assert_eq!(s.step(WsInput::Cancelled), WsAction::Nothing);
}

#[test]
fn pauses_double_up_to_a_minute() {
    let mut s = Supervisor::new();
    for secs in [1, 2, 4, 8, 16, 32, 60, 60] {
        assert_eq!(s.step(WsInput::Prepared), WsAction::Connect);
        assert_eq!(s.step(WsInput::ConnectFailed), WsAction::Pause(secs));
        assert_eq!(s.step(WsInput::Paused), WsAction::Prepare);
    }
}

#[test]
fn connection_starts_the_pauses_over() {
    let mut s = Supervisor::new();
    s.step(WsInput::PrepareFailed);
    s.step(WsInput::Paused);
    assert_eq!(s.step(WsInput::PrepareFailed), WsAction::Pause(2));
    s.step(WsInput::Paused);
    s.step(WsInput::Prepared);
    s.step(WsInput::Connected);
    s.step(WsInput::Greeted);
    assert_eq!(s.step(WsInput::StreamEnded), WsAction::Pause(1));
    assert_eq!(s.step(WsInput::Cancelled), WsAction::Stop);
}

#[test]
fn failed_greeting_is_tried_again_at_once() {
    let mut s = Supervisor::new();
    s.step(WsInput::Prepared);
    s.step(WsInput::Connected);
    assert_eq!(s.step(WsInput::GreetingFailed), WsAction::Prepare);
    assert_eq!(s.step(WsInput::PrepareFailed), WsAction::Pause(2));
}
