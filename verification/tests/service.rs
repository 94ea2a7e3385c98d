use agent::platform::Platform;
use agent::service::macos::{
    failure_text, goes_on, install, launchctl_args, launchctl_failed, launchctl_missing,
    plist_contents, progress, read_state, status, status_header, uninstall, MacStep, PlanProgress, PrintOutcome, StepOutcome, Verb,
    INSTALL_PATH, LABEL, PLIST_PATH, TARGET,
};
use agent::service::windows::{
    after_look, before_look, install_failure, is_not_started_by_service_manager, is_win32_error,
    on_control, restart_delays, uninstall_failure, ControlReply, Install, InstallAction,
    InstallStage, ServiceControl, ServiceFacts, StepEnd, StopLook, StopStep, Uninstall,
    UninstallAction, UninstallEnd, UninstallStage,
};
use agent::service::{command_from_args, report, run, Command, Dispatch};

fn arguments(list: &[&str]) -> Vec<String> {
    list.iter().map(|argument| argument.to_string()).collect()
}

#[test]
fn commands_from_arguments() {
    let parse = |list: &[&str]| command_from_args(&arguments(list));
    assert_eq!(parse(&["agent", "--install-service"]), Some(Command::InstallService));
    assert_eq!(parse(&["agent", "x", "--uninstall-service"]), Some(Command::UninstallService));
    assert_eq!(parse(&["agent", "--status", "--install-service"]), Some(Command::ServiceStatus));
    assert_eq!(parse(&["agent", "--session-helper", "--pipe", "p"]), Some(Command::SessionHelper));
    assert_eq!(parse(&["--status"]), None);
    assert_eq!(parse(&["agent", "--Status"]), None);
    assert_eq!(parse(&[]), None);
}

#[test]
fn commands_go_where_they_are_handled() {
    assert!(matches!(run(Command::InstallService, Platform::Macos), Dispatch::Install));
    assert!(matches!(run(Command::UninstallService, Platform::Windows), Dispatch::Uninstall));
    assert!(matches!(run(Command::ServiceStatus, Platform::Windows), Dispatch::Status));
    assert!(matches!(run(Command::SessionHelper, Platform::Windows), Dispatch::RunHelper));
    let finished = |command: Command, platform: Platform| match run(command, platform) {
        Dispatch::Finished { outcome } => {
            assert!(!outcome.success);
            outcome.message
        }
        _ => panic!("handled"),
    };
    assert!(finished(Command::SessionHelper, Platform::Macos).starts_with("--session-helper is only"));
    assert_eq!(
        finished(Command::InstallService, Platform::Other),
        "GBOS agent service could not be installed: This platform has no supported background-service integration; run the agent in the foreground instead."
    );
    assert!(finished(Command::UninstallService, Platform::Other).contains("uninstalled: This"));
    assert!(finished(Command::ServiceStatus, Platform::Other).starts_with("This platform"));
}

#[test]
fn reports_say_how_it_went() {
    let good = report(Ok(()), "installed");
    assert_eq!((good.message.as_str(), good.success), ("GBOS agent service installed", true));
    let bad = report(Err("no".to_string()), "uninstalled");
    assert_eq!(bad.message, "GBOS agent service could not be uninstalled: no");
    assert!(!bad.success);
}

#[test]
fn plist_describes_the_daemon() {
    let plist = plist_contents("https://example.org");
    assert!(plist.starts_with("<?xml version=\"1.0\" encoding=\"UTF-8\"?>\n<!DOCTYPE plist"));
    assert!(plist.contains("<key>Label</key>\n    <string>com.gbaja.gbos.agent</string>\n"));
    assert!(plist.contains("        <string>/usr/local/libexec/gbos-agent</string>\n    </array>\n"));
    assert!(plist.contains("<key>GBOS_API_URL</key>\n        <string>https://example.org</string>\n"));
    assert!(plist.contains("<key>StandardOutPath</key>\n    <string>/var/log/gbos-agent.log</string>\n"));
    assert!(plist.contains("<string>/var/log/gbos-agent.err.log</string>\n</dict>\n</plist>\n"));
    assert!(plist.ends_with("</plist>\n"));
    assert_eq!(TARGET, format!("system/{}", LABEL));
}

#[test]
fn macos_installation_step_by_step() {
    let fresh = install("/tmp/agent");
    assert_eq!(fresh.len(), 11);
    assert_eq!(fresh[1], MacStep::CopyBinary);
    assert_eq!(fresh[7], MacStep::Launchctl { verb: Verb::Bootout });
    assert_eq!(fresh[8], MacStep::Launchctl { verb: Verb::Bootstrap });
    assert_eq!(install(INSTALL_PATH).len(), 8);
    assert_eq!(
        uninstall(),
        vec![
            MacStep::Launchctl { verb: Verb::Bootout },
            MacStep::RemovePlist,
            MacStep::RemoveBinary,
        ]
    );
    assert!(goes_on(MacStep::CopyBinary, true, false));
    assert!(!goes_on(MacStep::CopyBinary, false, true));
    assert!(goes_on(MacStep::ClearPlist, false, false));
    assert!(goes_on(MacStep::ChangePlistOwner, false, false));
    assert!(goes_on(MacStep::Launchctl { verb: Verb::Bootout }, false, false));
    assert!(!goes_on(MacStep::Launchctl { verb: Verb::Bootstrap }, false, false));
    assert!(goes_on(MacStep::RemovePlist, false, true));
    assert!(!goes_on(MacStep::RemoveBinary, false, false));
}

#[test]
fn macos_failures_in_words() {
    assert_eq!(
        failure_text(MacStep::CopyBinary, "/tmp/a", "denied"),
        "could not install /tmp/a to /usr/local/libexec/gbos-agent: denied\nInstalling a system daemon requires root — re-run with sudo."
    );
    assert_eq!(
        failure_text(MacStep::MakeDirectory, "s", "e"),
        "could not create /usr/local/libexec: e"
    );
    assert_eq!(
        failure_text(MacStep::SetBinaryMode, "s", "e"),
        "could not set mode 755 on /usr/local/libexec/gbos-agent: e"
    );
    assert_eq!(
        failure_text(MacStep::SetPlistMode, "s", "e"),
        format!("could not set mode 644 on {}: e", PLIST_PATH)
    );
    assert!(failure_text(MacStep::WritePlist, "s", "e").starts_with("could not write /Library"));
    assert_eq!(
        failure_text(MacStep::RemoveBinary, "s", "e"),
        "could not remove /usr/local/libexec/gbos-agent: e"
    );
    assert_eq!(failure_text(MacStep::Launchctl { verb: Verb::Enable }, "s", "e"), "e");
}

#[test]
fn launchctl_is_called_and_quoted() {
    assert_eq!(launchctl_args(Verb::Bootstrap), vec!["bootstrap", "system", PLIST_PATH]);
    assert_eq!(launchctl_args(Verb::Kickstart), vec!["kickstart", "-k", TARGET]);
    assert_eq!(launchctl_args(Verb::Enable), vec!["enable", TARGET]);
    assert_eq!(launchctl_args(Verb::Print), vec!["print", TARGET]);
    assert_eq!(
        launchctl_missing(Verb::Enable, "gone"),
        "could not run launchctl enable system/com.gbaja.gbos.agent: gone"
    );
    assert_eq!(
        launchctl_failed(Verb::Enable, "exit status: 5", b"out\n", b" \n"),
        "launchctl enable system/com.gbaja.gbos.agent failed (exit status: 5): out"
    );
    assert_eq!(
        launchctl_failed(Verb::Enable, "s", b"out", b" err\xff \n"),
        "launchctl enable system/com.gbaja.gbos.agent failed (s): err\u{fffd}"
    );
}

#[test]
fn macos_status() {
    let header = status_header(true, false);
    assert_eq!(
        header,
        format!(
            "GBOS agent service status\n  label:      {}\n  plist:      {} (present)\n  binary:     {} (missing)\n  log:        /var/log/gbos-agent.log\n",
            LABEL, PLIST_PATH, INSTALL_PATH
        )
    );
    assert_eq!(read_state("job = {\n\tstate = running\n\tstate = other\n}"), "running");
    assert_eq!(read_state("nothing"), "unknown");

    let running = status(PrintOutcome::Printed { stdout: b"\tstate = running\r\n".to_vec() });
    assert!(running.success);
    assert_eq!(running.message, "  loaded:     yes\n  state:      running\n");
    let dead = status(PrintOutcome::Printed { stdout: b"state = not running".to_vec() });
    assert!(!dead.success);
    assert_eq!(
        dead.message,
        "  loaded:     yes\n  state:      not running\n\nThe daemon is loaded but not running. Check /var/log/gbos-agent.err.log for why it exited.\n"
    );
    let missing = status(PrintOutcome::NotLoaded);
    assert!(!missing.success);
    assert!(missing.message.ends_with("  sudo /usr/local/libexec/gbos-agent --install-service\n"));
    let failed = status(PrintOutcome::Failed { error: "e".to_string() });
    assert_eq!(failed.message, "  loaded:     unknown (launchctl failed: e)\n");
}

#[test]
fn windows_installation_and_upgrade() {
    let done = StepEnd::Done;
    let failed = |code: i32| StepEnd::Failed { code: Some(code) };
    let attempt = |stage: InstallStage| vec![InstallAction::Attempt { stage }];

    let mut fresh = Install::new();
    assert_eq!(fresh.on_end(done), attempt(InstallStage::Create));
    assert_eq!(fresh.on_end(done), attempt(InstallStage::SetDescription));
    assert_eq!(fresh.on_end(failed(5)), attempt(InstallStage::SetRecovery));
    assert_eq!(
        fresh.on_end(failed(5)),
        vec![
            InstallAction::ReportNoRecovery,
            InstallAction::Attempt { stage: InstallStage::Start },
        ]
    );
    assert_eq!(fresh.on_end(done), vec![InstallAction::Succeed]);
    assert!(fresh.on_end(done).is_empty());

    let mut upgrade = Install { stage: InstallStage::Create };
    assert_eq!(upgrade.on_end(failed(1073)), attempt(InstallStage::OpenExisting));
    assert_eq!(upgrade.on_end(done), attempt(InstallStage::Reconfigure));
    assert_eq!(upgrade.on_end(done), attempt(InstallStage::SetDescription));
    upgrade.on_end(done);
    assert_eq!(upgrade.on_end(done), attempt(InstallStage::Start));
    assert_eq!(upgrade.on_end(failed(1056)), vec![InstallAction::Succeed]);

    for stage in [
        InstallStage::OpenManager,
        InstallStage::Create,
        InstallStage::OpenExisting,
        InstallStage::Reconfigure,
        InstallStage::Start,
    ] {
        let mut install = Install { stage };
        assert_eq!(install.on_end(failed(5)), vec![InstallAction::Fail { stage }]);
    }
    let mut nameless = Install { stage: InstallStage::Create };
    assert_eq!(
        nameless.on_end(StepEnd::Failed { code: None }),
        vec![InstallAction::Fail { stage: InstallStage::Create }]
    );
}

#[test]
fn windows_failures_in_words() {
    assert_eq!(
        install_failure(InstallStage::OpenManager, "e"),
        "could not open the service manager (e). Installing a service requires an elevated (Administrator) prompt."
    );
    assert_eq!(install_failure(InstallStage::Create, "e"), "could not create the service: e");
    assert_eq!(
        install_failure(InstallStage::OpenExisting, "e"),
        "could not open the existing service: e"
    );
    assert_eq!(
        install_failure(InstallStage::Reconfigure, "e"),
        "could not update the service configuration: e"
    );
    assert_eq!(install_failure(InstallStage::Start, "e"), "could not start the service: e");
    assert_eq!(
        uninstall_failure(UninstallStage::OpenManager, "e"),
        "could not open the service manager (e). Removing a service requires an elevated (Administrator) prompt."
    );
    assert_eq!(
        uninstall_failure(UninstallStage::Open, "e"),
        "could not open the service: e"
    );
    assert_eq!(
        uninstall_failure(UninstallStage::Delete, "e"),
        "could not delete the service: e"
    );
    assert!(is_win32_error(Some(1073), 1073));
    assert!(!is_win32_error(None, 1073));
    assert!(is_not_started_by_service_manager(Some(1063)));
    assert!(!is_not_started_by_service_manager(Some(1062)));
    assert_eq!(restart_delays(), vec![5, 10, 30]);
}

#[test]
fn windows_removal() {
    let attempt = |stage: UninstallStage| UninstallAction::Attempt { stage };

    let mut absent = Uninstall::new();
    assert_eq!(absent.on_end(UninstallEnd::Done), vec![attempt(UninstallStage::Open)]);
    assert_eq!(
        absent.on_end(UninstallEnd::Failed { code: Some(1060) }),
        vec![UninstallAction::ReportNotInstalled, UninstallAction::Succeed]
    );
    assert_eq!(absent.stage, UninstallStage::Over);

    // A service that is there and cannot be opened is not removed.
    for code in [Some(5), None] {
        let mut denied = Uninstall { stage: UninstallStage::Open };
        assert_eq!(
            denied.on_end(UninstallEnd::Failed { code }),
            vec![UninstallAction::Fail { stage: UninstallStage::Open }]
        );
        assert_eq!(denied.stage, UninstallStage::Over);
    }

    let mut running = Uninstall { stage: UninstallStage::Open };
    assert_eq!(running.on_end(UninstallEnd::Done), vec![attempt(UninstallStage::Query)]);
    assert_eq!(
        running.on_end(UninstallEnd::Queried { stopped: false }),
        vec![attempt(UninstallStage::Stop)]
    );
    assert_eq!(running.on_end(UninstallEnd::Done), vec![attempt(UninstallStage::AwaitStopped)]);
    assert_eq!(
        running.on_end(UninstallEnd::Failed { code: None }),
        vec![UninstallAction::ReportNotStopped, attempt(UninstallStage::Delete)]
    );
    assert_eq!(
        running.on_end(UninstallEnd::Done),
        vec![UninstallAction::ReportRemoved, UninstallAction::Succeed]
    );

    for end in [UninstallEnd::Queried { stopped: true }, UninstallEnd::Failed { code: None }] {
        let mut query = Uninstall { stage: UninstallStage::Query };
        assert_eq!(query.on_end(end), vec![attempt(UninstallStage::Delete)]);
    }
    let mut stubborn = Uninstall { stage: UninstallStage::Stop };
    assert_eq!(
        stubborn.on_end(UninstallEnd::Failed { code: None }),
        vec![UninstallAction::ReportStopFailed, attempt(UninstallStage::Delete)]
    );
    assert_eq!(
        stubborn.on_end(UninstallEnd::Failed { code: None }),
        vec![UninstallAction::Fail { stage: UninstallStage::Delete }]
    );
    let mut refused = Uninstall::new();
    assert_eq!(
        refused.on_end(UninstallEnd::Failed { code: None }),
        vec![UninstallAction::Fail { stage: UninstallStage::OpenManager }]
    );
}

#[test]
fn waiting_for_a_service_to_stop() {
    assert_eq!(before_look(19_999), StopStep::Look);
    assert_eq!(before_look(20_000), StopStep::TimedOut);
    assert_eq!(after_look(StopLook::Stopped), StopStep::Stopped);
    assert_eq!(after_look(StopLook::NotStopped), StopStep::Sleep { ms: 250 });
    assert_eq!(after_look(StopLook::Failed), StopStep::Failed);
}

#[test]
fn windows_status() {
    let text = |facts: ServiceFacts| {
        let report = agent::service::windows::status(facts);
        (report.message, report.success)
    };
    let head = "GBOS agent service status\n  service:    GBOSAgent\n";
    assert_eq!(
        text(ServiceFacts::NoManager { error: "e".to_string() }),
        (format!("{}  installed:  unknown (could not open the service manager: e)\n", head), false)
    );
    assert!(text(ServiceFacts::NotInstalled).0.ends_with("  GBOS-Agent.exe --install-service\n"));
    assert!(matches!(
        ServiceFacts::opening_failed(Some(1060), "e".to_string()),
        ServiceFacts::NotInstalled
    ));
    assert_eq!(
        text(ServiceFacts::opening_failed(Some(5), "denied".to_string())),
        (
            format!("{head}  installed:  unknown (could not open the service: denied)\n"),
            false
        )
    );
    assert_eq!(
        text(ServiceFacts::Installed {
            start_type: Some("AutoStart".to_string()),
            state: Ok(("Running".to_string(), true)),
        }),
        (
            format!("{}  installed:  yes\n  start:      AutoStart\n  state:      Running\n", head),
            true
        )
    );
    assert_eq!(
        text(ServiceFacts::Installed {
            start_type: None,
            state: Ok(("Stopped".to_string(), false)),
        }),
        (
            format!("{}  installed:  yes\n  state:      Stopped\n\nThe service is registered but not running. Check the GBOS agent log for why it exited.\n", head),
            false
        )
    );
    assert_eq!(
        text(ServiceFacts::Installed { start_type: None, state: Err("e".to_string()) }),
        (format!("{}  installed:  yes\n  state:      unknown (e)\n", head), false)
    );
}

#[test]
fn service_manager_is_answered() {
    assert_eq!(on_control(ServiceControl::Stop), (ControlReply::NoError, true));
    assert_eq!(on_control(ServiceControl::Shutdown), (ControlReply::NoError, true));
    assert_eq!(on_control(ServiceControl::Interrogate), (ControlReply::NoError, false));
    assert_eq!(on_control(ServiceControl::Other), (ControlReply::NotImplemented, false));
}

#[test]
fn binary_in_place_is_not_copied() {
    assert_eq!(install("/usr/local/libexec/./gbos-agent").len(), 8);
    assert_eq!(install("//usr/local//libexec/gbos-agent/").len(), 8);
    assert_eq!(install("usr/local/libexec/gbos-agent").len(), 11);
    assert_eq!(install("/usr/local/libexec/gbos-agent2").len(), 11);
    assert_eq!(install("/usr/local/libexec").len(), 11);
    assert_eq!(install("/usr/local/libexec/../libexec/gbos-agent").len(), 11);
    assert_eq!(install("").len(), 11);
}

#[test]
fn plan_ends_at_its_first_failure() {
    let plan = uninstall();
    let done = StepOutcome { done: true, missing: false };
    let failed = StepOutcome { done: false, missing: false };
    let missing = StepOutcome { done: false, missing: true };
    assert_eq!(progress(&plan, &vec![]), PlanProgress::Next { step: plan[0] });
    // A job that is not loaded, and files that are not there, do not matter.
    assert_eq!(progress(&plan, &vec![failed]), PlanProgress::Next { step: MacStep::RemovePlist });
    assert_eq!(progress(&plan, &vec![failed, missing, missing]), PlanProgress::Succeeded);
    assert_eq!(progress(&plan, &vec![done, done, done]), PlanProgress::Succeeded);
    assert_eq!(
        progress(&plan, &vec![done, failed]),
        PlanProgress::Failed { step: MacStep::RemovePlist }
    );
    assert_eq!(
        progress(&plan, &vec![done, done, failed]),
        PlanProgress::Failed { step: MacStep::RemoveBinary }
    );
    let plan = install("/tmp/agent");
    assert_eq!(progress(&plan, &vec![done, missing]), PlanProgress::Failed { step: plan[1] });
    assert_eq!(progress(&vec![], &vec![]), PlanProgress::Succeeded);
}
