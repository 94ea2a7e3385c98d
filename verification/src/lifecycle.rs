//! The agent's life: register, monitor, reconnect, until it is asked to stop.

use vstd::prelude::*;

verus! {

/// Seconds to wait before registering again, and before reconnecting.
pub const RETRY_SECONDS: u64 = 5;

/// What the agent is at.
#[derive(Debug, Clone, Copy, PartialEq, Eq)]
pub enum AgentPhase {
    /// About to register, unless a shutdown is requested.
    Starting,
    /// Registering.
    Registering,
    /// Waiting to register again.
    RegistrationDelay,
    /// About to start a session, unless a shutdown is requested.
    Connecting { device_id: i32 },
    /// In a session.
    InSession { device_id: i32 },
    /// Waiting to reconnect.
    ReconnectDelay { device_id: i32 },
    /// Over.
    Stopped,
}

/// What can happen to the agent.
#[derive(Debug, Clone, Copy, PartialEq, Eq)]
pub enum AgentEvent {
    /// The shutdown flag was looked at.
    Checked { shutdown: bool },
    /// The backend registered the agent.
    Registered { device_id: i32 },
    /// The registration failed.
    RegistrationFailed,
    /// The session is over, and the shutdown flag was looked at.
    SessionOver { shutdown: bool },
    /// The delay is over.
    DelayOver,
    /// The shutdown flag changed during the delay, or nobody can change it any more.
    ShutdownChanged { requested: bool, abandoned: bool },
}

/// What is reported in the log.
#[derive(Debug, Clone, Copy, PartialEq, Eq)]
pub enum AgentNotice {
    ShutdownBeforeRegistration,
    ShutdownRequested,
    ShutdownCompleted,
    Registered { device_id: i32 },
    RegistrationFailed,
    StartingSession,
    ConnectionLost,
}

/// One thing for the agent to do.
#[derive(Debug, Clone, Copy, PartialEq, Eq)]
pub enum AgentAction {
    Report { notice: AgentNotice },
    /// Look at the shutdown flag.
    Check,
    /// Register with the backend.
    Register,
    /// Run a session.
    RunSession { device_id: i32 },
    /// Wait, or until the shutdown flag changes.
    Delay,
    /// Return.
    Return,
}

/// Report, and return.
pub open spec fn farewell(notice: AgentNotice) -> Seq<AgentAction> {
    seq![AgentAction::Report { notice }, AgentAction::Return]
}

/// What an event has the agent do.
pub open spec fn agent_actions(phase: AgentPhase, event: AgentEvent) -> Seq<AgentAction> {
    match (phase, event) {
        (AgentPhase::Starting, AgentEvent::Checked { shutdown }) => if shutdown {
            farewell(AgentNotice::ShutdownBeforeRegistration)
        } else {
            seq![AgentAction::Register]
        },
        (AgentPhase::Registering, AgentEvent::Registered { device_id }) => seq![
            AgentAction::Report { notice: AgentNotice::Registered { device_id } },
            AgentAction::Check,
        ],
        (AgentPhase::Registering, AgentEvent::RegistrationFailed) => seq![
            AgentAction::Report { notice: AgentNotice::RegistrationFailed },
            AgentAction::Delay,
        ],
        (AgentPhase::RegistrationDelay, AgentEvent::DelayOver) => seq![AgentAction::Check],
        (AgentPhase::RegistrationDelay, AgentEvent::ShutdownChanged { requested, abandoned }) => {
            if requested || abandoned {
                farewell(AgentNotice::ShutdownRequested)
            } else {
                seq![AgentAction::Check]
            }
        },
        (AgentPhase::Connecting { device_id }, AgentEvent::Checked { shutdown }) => if shutdown {
            farewell(AgentNotice::ShutdownRequested)
        } else {
            seq![
                AgentAction::Report { notice: AgentNotice::StartingSession },
                AgentAction::RunSession { device_id },
            ]
        },
        (AgentPhase::InSession { .. }, AgentEvent::SessionOver { shutdown }) => if shutdown {
            farewell(AgentNotice::ShutdownCompleted)
        } else {
            seq![AgentAction::Report { notice: AgentNotice::ConnectionLost }, AgentAction::Delay]
        },
        (AgentPhase::ReconnectDelay { .. }, AgentEvent::DelayOver) => seq![AgentAction::Check],
        (
            AgentPhase::ReconnectDelay { .. },
            AgentEvent::ShutdownChanged { requested, abandoned },
        ) => if requested || abandoned {
            farewell(AgentNotice::ShutdownRequested)
        } else {
            seq![AgentAction::Check]
        },
        _ => seq![],
    }
}

/// What the agent is at after an event.
pub open spec fn agent_phase(phase: AgentPhase, event: AgentEvent) -> AgentPhase {
    match (phase, event) {
        (AgentPhase::Starting, AgentEvent::Checked { shutdown }) => if shutdown {
            AgentPhase::Stopped
        } else {
            AgentPhase::Registering
        },
        (AgentPhase::Registering, AgentEvent::Registered { device_id }) => AgentPhase::Connecting {
            device_id,
        },
        (AgentPhase::Registering, AgentEvent::RegistrationFailed) => AgentPhase::RegistrationDelay,
        (AgentPhase::RegistrationDelay, AgentEvent::DelayOver) => AgentPhase::Starting,
        (AgentPhase::RegistrationDelay, AgentEvent::ShutdownChanged { requested, abandoned }) => {
            if requested || abandoned {
                AgentPhase::Stopped
            } else {
                AgentPhase::Starting
            }
        },
        (AgentPhase::Connecting { device_id }, AgentEvent::Checked { shutdown }) => if shutdown {
            AgentPhase::Stopped
        } else {
            AgentPhase::InSession { device_id }
        },
        (AgentPhase::InSession { device_id }, AgentEvent::SessionOver { shutdown }) => {
            if shutdown {
                AgentPhase::Stopped
            } else {
                AgentPhase::ReconnectDelay { device_id }
            }
        },
        (AgentPhase::ReconnectDelay { device_id }, AgentEvent::DelayOver) => {
            AgentPhase::Connecting { device_id }
        },
        (
            AgentPhase::ReconnectDelay { device_id },
            AgentEvent::ShutdownChanged { requested, abandoned },
        ) => if requested || abandoned {
            AgentPhase::Stopped
        } else {
            AgentPhase::Connecting { device_id }
        },
        _ => phase,
    }
}

/// The agent.
#[derive(Debug, Clone, Copy, PartialEq, Eq)]
pub struct Agent {
    pub phase: AgentPhase,
}

impl Agent {
    /// An agent that is about to register. It begins by looking at the shutdown
    /// flag.
    pub fn new() -> (agent: Agent)
        ensures
            agent.phase is Starting,
    {
        Agent { phase: AgentPhase::Starting }
    }

    /// Report, and stop.
    fn stop(&mut self, notice: AgentNotice, actions: &mut Vec<AgentAction>)
        ensures
            final(self).phase is Stopped,
            final(actions)@ == old(actions)@ + farewell(notice),
    {
        self.phase = AgentPhase::Stopped;
        actions.push(AgentAction::Report { notice });
        actions.push(AgentAction::Return);
        assert(actions@ =~= old(actions)@ + farewell(notice));
    }

    /// What an event has the agent do.
    pub fn on_event(&mut self, event: AgentEvent) -> (actions: Vec<AgentAction>)
        ensures
            final(self).phase == agent_phase(old(self).phase, event),
            actions@ == agent_actions(old(self).phase, event),
    {
        let mut actions: Vec<AgentAction> = Vec::new();
        match (self.phase, event) {
            (AgentPhase::Starting, AgentEvent::Checked { shutdown }) => {
                if shutdown {
                    self.stop(AgentNotice::ShutdownBeforeRegistration, &mut actions);
                } else {
                    self.phase = AgentPhase::Registering;
                    actions.push(AgentAction::Register);
                }
            },
            (AgentPhase::Registering, AgentEvent::Registered { device_id }) => {
                self.phase = AgentPhase::Connecting { device_id };
                actions.push(
                    AgentAction::Report { notice: AgentNotice::Registered { device_id } },
                );
                actions.push(AgentAction::Check);
            },
            (AgentPhase::Registering, AgentEvent::RegistrationFailed) => {
                self.phase = AgentPhase::RegistrationDelay;
                actions.push(AgentAction::Report { notice: AgentNotice::RegistrationFailed });
                actions.push(AgentAction::Delay);
            },
            (AgentPhase::RegistrationDelay, AgentEvent::DelayOver) => {
                self.phase = AgentPhase::Starting;
                actions.push(AgentAction::Check);
            },
            (
                AgentPhase::RegistrationDelay,
                AgentEvent::ShutdownChanged { requested, abandoned },
            ) => {
                if requested || abandoned {
                    self.stop(AgentNotice::ShutdownRequested, &mut actions);
                } else {
                    self.phase = AgentPhase::Starting;
                    actions.push(AgentAction::Check);
                }
            },
            (AgentPhase::Connecting { device_id }, AgentEvent::Checked { shutdown }) => {
                if shutdown {
                    self.stop(AgentNotice::ShutdownRequested, &mut actions);
                } else {
                    self.phase = AgentPhase::InSession { device_id };
                    actions.push(AgentAction::Report { notice: AgentNotice::StartingSession });
                    actions.push(AgentAction::RunSession { device_id });
                }
            },
            (AgentPhase::InSession { device_id }, AgentEvent::SessionOver { shutdown }) => {
                if shutdown {
                    self.stop(AgentNotice::ShutdownCompleted, &mut actions);
                } else {
                    self.phase = AgentPhase::ReconnectDelay { device_id };
                    actions.push(AgentAction::Report { notice: AgentNotice::ConnectionLost });
                    actions.push(AgentAction::Delay);
                }
            },
            (AgentPhase::ReconnectDelay { device_id }, AgentEvent::DelayOver) => {
                self.phase = AgentPhase::Connecting { device_id };
                actions.push(AgentAction::Check);
            },
            (
                AgentPhase::ReconnectDelay { device_id },
                AgentEvent::ShutdownChanged { requested, abandoned },
            ) => {
                if requested || abandoned {
                    self.stop(AgentNotice::ShutdownRequested, &mut actions);
                } else {
                    self.phase = AgentPhase::Connecting { device_id };
                    actions.push(AgentAction::Check);
                }
            },
            _ => {},
        }
        assert(actions@ =~= agent_actions(old(self).phase, event));
        actions
    }
}

// ---------------------------------------------------------------------------
// Laws
// ---------------------------------------------------------------------------

/// The id under which the agent is registered, once it is.
pub open spec fn registered_id(phase: AgentPhase) -> Option<i32> {
    match phase {
        AgentPhase::Connecting { device_id } => Some(device_id),
        AgentPhase::InSession { device_id } => Some(device_id),
        AgentPhase::ReconnectDelay { device_id } => Some(device_id),
        _ => None,
    }
}

/// The agent registers once: from then on every session is run under the id it
/// was given, until it stops.
pub proof fn sessions_run_under_the_registered_id(phase: AgentPhase, event: AgentEvent)
    ensures
        forall|id: i32|
            agent_actions(phase, event).contains(AgentAction::RunSession { device_id: id })
                ==> #[trigger] registered_id(phase) == Some(id),
        registered_id(phase) is Some ==> {
            &&& !agent_actions(phase, event).contains(AgentAction::Register)
            &&& agent_phase(phase, event) is Stopped || registered_id(agent_phase(phase, event))
                == registered_id(phase)
        },
        registered_id(phase) is None && registered_id(agent_phase(phase, event)) is Some ==> event
            == (AgentEvent::Registered { device_id: registered_id(agent_phase(phase, event))->0 }),
{
}

/// A shutdown that is seen stops the agent, wherever it is seen, and a stopped
/// agent does nothing more.
pub proof fn a_shutdown_stops_the_agent(phase: AgentPhase, event: AgentEvent)
    ensures
        event == (AgentEvent::Checked { shutdown: true }) && (phase is Starting || phase
            is Connecting) ==> agent_phase(phase, event) is Stopped,
        event == (AgentEvent::SessionOver { shutdown: true }) && phase is InSession ==> agent_phase(
            phase,
            event,
        ) is Stopped,
        (event matches AgentEvent::ShutdownChanged { requested, abandoned } && (requested
            || abandoned)) && (phase is RegistrationDelay || phase is ReconnectDelay)
            ==> agent_phase(phase, event) is Stopped,
        phase is Stopped ==> agent_phase(phase, event) is Stopped && agent_actions(
            phase,
            event,
        ).len() == 0,
        agent_phase(phase, event) is Stopped && !(phase is Stopped) ==> agent_actions(
            phase,
            event,
        ).last() == AgentAction::Return,
{
}

/// The action that brings about what the agent waits for in a phase.
pub open spec fn asked_in(phase: AgentPhase) -> AgentAction {
    match phase {
        AgentPhase::Starting => AgentAction::Check,
        AgentPhase::Registering => AgentAction::Register,
        AgentPhase::RegistrationDelay => AgentAction::Delay,
        AgentPhase::Connecting { .. } => AgentAction::Check,
        AgentPhase::InSession { device_id } => AgentAction::RunSession { device_id },
        AgentPhase::ReconnectDelay { .. } => AgentAction::Delay,
        AgentPhase::Stopped => AgentAction::Return,
    }
}

/// The event is one that the action of a phase brings about.
pub open spec fn answers(phase: AgentPhase, event: AgentEvent) -> bool {
    match asked_in(phase) {
        AgentAction::Check => event is Checked,
        AgentAction::Register => event is Registered || event is RegistrationFailed,
        AgentAction::RunSession { .. } => event is SessionOver,
        AgentAction::Delay => event is DelayOver || event is ShutdownChanged,
        _ => false,
    }
}

/// The event carries a shutdown: one was requested, or nobody can request one any more.
pub open spec fn carries_shutdown(event: AgentEvent) -> bool {
    match event {
        AgentEvent::Checked { shutdown } => shutdown,
        AgentEvent::SessionOver { shutdown } => shutdown,
        AgentEvent::ShutdownChanged { requested, abandoned } => requested || abandoned,
        _ => false,
    }
}

/// The agent stops if and only if it is answered with a shutdown: nothing else ends it,
/// and it returns exactly then.
pub proof fn the_agent_stops_only_on_a_shutdown(phase: AgentPhase, event: AgentEvent)
    requires
        !(phase is Stopped),
    ensures
        agent_phase(phase, event) is Stopped <==> answers(phase, event) && carries_shutdown(event),
        agent_actions(phase, event).contains(AgentAction::Return) <==> agent_phase(
            phase,
            event,
        ) is Stopped,
{
    let actions = agent_actions(phase, event);
    if agent_phase(phase, event) is Stopped {
        assert(actions[1] == AgentAction::Return);
    }
}

/// The agent never gets stuck: whatever answers it, it goes on to ask for what its next
/// phase waits for, last of all and once; and what does not answer it changes nothing.
pub proof fn the_agent_asks_for_what_it_waits_for(phase: AgentPhase, event: AgentEvent)
    ensures
        answers(phase, event) ==> {
            &&& 1 <= agent_actions(phase, event).len() <= 2
            &&& agent_actions(phase, event).last() == asked_in(agent_phase(phase, event))
            &&& agent_actions(phase, event).len() == 2 ==> agent_actions(phase, event)[0] is Report
        },
        !answers(phase, event) ==> {
            &&& agent_phase(phase, event) == phase
            &&& agent_actions(phase, event).len() == 0
        },
{
}

/// A lost connection is made again under the same id: behind the end of a session, the
/// delay and a look at the flag that show no shutdown, the next session runs.
pub proof fn a_lost_connection_is_made_again(device_id: i32, waited: AgentEvent)
    requires
        waited is DelayOver || waited == (AgentEvent::ShutdownChanged {
            requested: false,
            abandoned: false,
        }),
    ensures
        ({
            let session = AgentPhase::InSession { device_id };
            let lost = agent_phase(session, AgentEvent::SessionOver { shutdown: false });
            let over = agent_phase(lost, waited);
            &&& lost == AgentPhase::ReconnectDelay { device_id }
            &&& over == AgentPhase::Connecting { device_id }
            &&& agent_phase(over, AgentEvent::Checked { shutdown: false }) == session
            &&& agent_actions(over, AgentEvent::Checked { shutdown: false }).contains(
                AgentAction::RunSession { device_id },
            )
        }),
{
    let over = AgentPhase::Connecting { device_id };
    assert(agent_actions(over, AgentEvent::Checked { shutdown: false })[1]
        == AgentAction::RunSession { device_id });
}

/// A registration that failed is tried again behind the delay, and one that succeeds
/// leads to a session under the id that was given.
pub proof fn a_failed_registration_is_tried_again(device_id: i32, waited: AgentEvent)
    requires
        waited is DelayOver || waited == (AgentEvent::ShutdownChanged {
            requested: false,
            abandoned: false,
        }),
    ensures
        ({
            let unasked = AgentEvent::Checked { shutdown: false };
            let failed = agent_phase(AgentPhase::Registering, AgentEvent::RegistrationFailed);
            let given = agent_phase(AgentPhase::Registering, AgentEvent::Registered { device_id });
            &&& agent_phase(AgentPhase::Starting, unasked) == AgentPhase::Registering
            &&& failed == AgentPhase::RegistrationDelay
            &&& agent_phase(failed, waited) == AgentPhase::Starting
            &&& given == AgentPhase::Connecting { device_id }
            &&& agent_phase(given, unasked) == AgentPhase::InSession { device_id }
        }),
{
}

/// What is reported is what happened.
pub proof fn the_agent_reports_what_happened(phase: AgentPhase, event: AgentEvent, i: int)
    requires
        0 <= i < agent_actions(phase, event).len(),
    ensures
        agent_actions(phase, event)[i] matches AgentAction::Report { notice } ==> match notice {
            AgentNotice::Registered { device_id } => event == (AgentEvent::Registered { device_id }),
            AgentNotice::RegistrationFailed => event is RegistrationFailed,
            AgentNotice::StartingSession => agent_phase(phase, event) is InSession,
            AgentNotice::ConnectionLost => phase is InSession && agent_phase(
                phase,
                event,
            ) is ReconnectDelay,
            AgentNotice::ShutdownBeforeRegistration => phase is Starting && carries_shutdown(event),
            AgentNotice::ShutdownCompleted => phase is InSession && carries_shutdown(event),
            AgentNotice::ShutdownRequested => carries_shutdown(event),
        },
{
}

/// What matters is reported, ahead of what comes next.
pub proof fn the_agent_reports_what_matters(phase: AgentPhase, event: AgentEvent)
    requires
        answers(phase, event),
    ensures
        ({
            let first = agent_actions(phase, event)[0];
            let after = agent_phase(phase, event);
            &&& event matches AgentEvent::Registered { device_id } ==> first
                == (AgentAction::Report { notice: AgentNotice::Registered { device_id } })
            &&& event is RegistrationFailed ==> first == (AgentAction::Report {
                notice: AgentNotice::RegistrationFailed,
            })
            &&& after is InSession ==> first == (AgentAction::Report {
                notice: AgentNotice::StartingSession,
            })
            &&& after is ReconnectDelay ==> first == (AgentAction::Report {
                notice: AgentNotice::ConnectionLost,
            })
            &&& after is Stopped ==> first is Report
        }),
{
}

} // verus!
