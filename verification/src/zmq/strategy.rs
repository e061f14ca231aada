use vstd::prelude::*;

verus! {

/// Settings of a strategy's command server.
#[derive(Debug)]
pub struct StrategyServerConfig {
    pub strategy_id: String,
    pub redis_url: String,
    pub ttl_secs: u64,
}

/// What a strategy can be told: to report, or something for its engine.
#[derive(Debug)]
pub enum StrategyCommand<C> {
    GetStatus,
    Engine(C),
}

/// What a strategy answers.
#[derive(Debug)]
pub enum StrategyResponse<S> {
    Ack,
    Rejected(String),
    Error(String),
    Status(S),
}

/// What a command comes to: an answer at once, or something to hand to the engine.
#[derive(Debug)]
pub enum StrategyPlan<C, S> {
    Reply(StrategyResponse<S>),
    Forward(C),
}

/// A question for the status is answered with the last one known; anything else goes to the engine.
pub fn handle<C, S>(command: StrategyCommand<C>, status: Option<StrategyResponse<S>>) -> (r: StrategyPlan<C, S>)
    ensures
        match (command, status) {
            (StrategyCommand::GetStatus, Some(last)) => r == StrategyPlan::<C, S>::Reply(last),
            (StrategyCommand::GetStatus, None) => r matches StrategyPlan::Reply(StrategyResponse::Error(m)) && m@
                == "Status provider not configured"@,
            (StrategyCommand::Engine(c), _) => r == StrategyPlan::<C, S>::Forward(c),
        },
{
    match command {
        StrategyCommand::GetStatus => match status {
            Some(last) => StrategyPlan::Reply(last),
            None => StrategyPlan::Reply(StrategyResponse::Error("Status provider not configured".to_owned())),
        },
        StrategyCommand::Engine(c) => StrategyPlan::Forward(c),
    }
}

/// The answer after a command was handed to the engine: whether its queue took it.
pub fn forwarded<S>(accepted: bool) -> (r: StrategyResponse<S>)
    ensures
        accepted ==> r is Ack,
        !accepted ==> (r matches StrategyResponse::Rejected(m) && m@ == "Command channel full or closed"@),
{
    if accepted {
        StrategyResponse::Ack
    } else {
        StrategyResponse::Rejected("Command channel full or closed".to_owned())
    }
}

/// The answer to a message that cannot be read.
pub fn unreadable<S>() -> (r: StrategyResponse<S>)
    ensures
        r matches StrategyResponse::Error(m) && m@ == "Invalid payload format"@,
{
    StrategyResponse::Error("Invalid payload format".to_owned())
}

} // verus!
