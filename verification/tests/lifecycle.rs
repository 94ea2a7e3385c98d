use agent::lifecycle::{Agent, AgentAction, AgentEvent, AgentNotice, AgentPhase};

#[test]
fn agent_registers_monitors_and_reconnects() {
    let mut agent = Agent::new();
    assert_eq!(agent.on_event(AgentEvent::Checked { shutdown: false }), vec![AgentAction::Register]);
    assert_eq!(
        agent.on_event(AgentEvent::RegistrationFailed),
        vec![
            AgentAction::Report { notice: AgentNotice::RegistrationFailed },
            AgentAction::Delay,
        ]
    );
    assert_eq!(agent.on_event(AgentEvent::DelayOver), vec![AgentAction::Check]);
    agent.on_event(AgentEvent::Checked { shutdown: false });
    assert_eq!(
        agent.on_event(AgentEvent::Registered { device_id: 7 }),
        vec![
            AgentAction::Report { notice: AgentNotice::Registered { device_id: 7 } },
            AgentAction::Check,
        ]
    );
    for _ in 0..3 {
        assert_eq!(
            agent.on_event(AgentEvent::Checked { shutdown: false }),
            vec![
                AgentAction::Report { notice: AgentNotice::StartingSession },
                AgentAction::RunSession { device_id: 7 },
            ]
        );
        assert_eq!(
            agent.on_event(AgentEvent::SessionOver { shutdown: false }),
            vec![AgentAction::Report { notice: AgentNotice::ConnectionLost }, AgentAction::Delay]
        );
        assert_eq!(
            agent.on_event(AgentEvent::ShutdownChanged { requested: false, abandoned: false }),
            vec![AgentAction::Check]
        );
    }
}

#[test]
fn shutdown_stops_the_agent_wherever_it_is_seen() {
    let stop = |phase: AgentPhase, event: AgentEvent, notice: AgentNotice| {
        let mut agent = Agent { phase };
        assert_eq!(
            agent.on_event(event),
            vec![AgentAction::Report { notice }, AgentAction::Return]
        );
        assert_eq!(agent.phase, AgentPhase::Stopped);
        assert!(agent.on_event(AgentEvent::Checked { shutdown: false }).is_empty());
    };
    stop(
        AgentPhase::Starting,
        AgentEvent::Checked { shutdown: true },
        AgentNotice::ShutdownBeforeRegistration,
    );
    stop(
        AgentPhase::RegistrationDelay,
        AgentEvent::ShutdownChanged { requested: true, abandoned: false },
        AgentNotice::ShutdownRequested,
    );
    stop(
        AgentPhase::Connecting { device_id: 1 },
        AgentEvent::Checked { shutdown: true },
        AgentNotice::ShutdownRequested,
    );
    stop(
        AgentPhase::InSession { device_id: 1 },
        AgentEvent::SessionOver { shutdown: true },
        AgentNotice::ShutdownCompleted,
    );
    stop(
        AgentPhase::ReconnectDelay { device_id: 1 },
        AgentEvent::ShutdownChanged { requested: false, abandoned: true },
        AgentNotice::ShutdownRequested,
    );
}
