//! Windows SCM service installation and control.
//!
//! The agent runs as a `LocalSystem` service so it survives logout, starts at
//! boot, and can launch the per-session helper into a user's interactive session.
//! The service itself lives in Session 0 and therefore cannot capture the screen
//! or read location.

use vstd::prelude::*;

use crate::service::Outcome;
use crate::text::{holds, is_held};

verus! {

/// Internal service name. Also the name shown in `services.msc` and used by
/// `sc.exe`, so it is part of the product's operational surface.
pub const SERVICE_NAME: &'static str = "GBOSAgent";

pub const DISPLAY_NAME: &'static str = "GBOS Device Agent";

pub const DESCRIPTION: &'static str =
    "Connects this computer to GBOS for device management, telemetry and remote monitoring.";

/// `ERROR_SERVICE_DOES_NOT_EXIST`: there is no service of that name.
pub const ERROR_SERVICE_DOES_NOT_EXIST: i32 = 1060;

/// Windows error raised when the service name is already registered.
pub const ERROR_SERVICE_EXISTS: i32 = 1073;

/// Windows error raised when starting a service that is already running.
pub const ERROR_SERVICE_ALREADY_RUNNING: i32 = 1056;

/// Windows error raised when the process was not launched by the SCM.
pub const ERROR_FAILED_SERVICE_CONTROLLER_CONNECT: i32 = 1063;

/// Seconds without failures after which the failure count is reset: a day.
pub const FAILURE_RESET_SECONDS: u64 = 86_400;

/// Seconds that a removal waits for the service to stop.
pub const STOP_TIMEOUT_SECONDS: u64 = 20;

/// Milliseconds between two looks at a service that is stopping.
pub const STOP_POLL_MS: u64 = 250;

/// The seconds after which a crashed service is restarted, for the first failure,
/// the second, and every further one.
pub fn restart_delays() -> (delays: Vec<u64>)
    ensures
        delays@ == seq![5u64, 10, 30],
{
    let mut delays: Vec<u64> = Vec::new();
    delays.push(5);
    delays.push(10);
    delays.push(30);
    assert(delays@ =~= seq![5u64, 10, 30]);
    delays
}

/// How a step ended: done, or failed, with the Win32 error code where there is one.
#[derive(Debug, Clone, Copy, PartialEq, Eq)]
pub enum StepEnd {
    Done,
    Failed { code: Option<i32> },
}

/// True when a failure has the given Win32 error code.
pub fn is_win32_error(code: Option<i32>, wanted: i32) -> (same: bool)
    ensures
        same == (code == Some(wanted)),
{
    match code {
        Some(code) => code == wanted,
        None => false,
    }
}

/// True when the service dispatcher failed because the process was launched from a
/// console rather than by the SCM.
pub fn is_not_started_by_service_manager(code: Option<i32>) -> (console: bool)
    ensures
        console == (code == Some(ERROR_FAILED_SERVICE_CONTROLLER_CONNECT)),
{
    is_win32_error(code, ERROR_FAILED_SERVICE_CONTROLLER_CONNECT)
}

// ---------------------------------------------------------------------------
// Installation
// ---------------------------------------------------------------------------

/// Which step of an installation is awaited.
#[derive(Debug, Clone, Copy, PartialEq, Eq)]
pub enum InstallStage {
    OpenManager,
    Create,
    OpenExisting,
    Reconfigure,
    SetDescription,
    SetRecovery,
    Start,
    Over,
}

/// One thing to do for an installation.
#[derive(Debug, Clone, Copy, PartialEq, Eq)]
pub enum InstallAction {
    /// Take the step, and report how it ended.
    Attempt { stage: InstallStage },
    /// Report that Windows will not restart the service automatically.
    ReportNoRecovery,
    /// The service is installed and running.
    Succeed,
    /// The installation failed at this step.
    Fail { stage: InstallStage },
}

/// What follows the end of a step.
pub open spec fn install_actions(stage: InstallStage, end: StepEnd) -> Seq<InstallAction> {
    match (stage, end) {
        (InstallStage::OpenManager, StepEnd::Done) => seq![
            InstallAction::Attempt { stage: InstallStage::Create },
        ],
        (InstallStage::Create, StepEnd::Done) => seq![
            InstallAction::Attempt { stage: InstallStage::SetDescription },
        ],
        (InstallStage::Create, StepEnd::Failed { code }) => if code == Some(ERROR_SERVICE_EXISTS) {
            seq![InstallAction::Attempt { stage: InstallStage::OpenExisting }]
        } else {
            seq![InstallAction::Fail { stage }]
        },
        (InstallStage::OpenExisting, StepEnd::Done) => seq![
            InstallAction::Attempt { stage: InstallStage::Reconfigure },
        ],
        (InstallStage::Reconfigure, StepEnd::Done) => seq![
            InstallAction::Attempt { stage: InstallStage::SetDescription },
        ],
        (InstallStage::SetDescription, _) => seq![
            InstallAction::Attempt { stage: InstallStage::SetRecovery },
        ],
        (InstallStage::SetRecovery, StepEnd::Done) => seq![
            InstallAction::Attempt { stage: InstallStage::Start },
        ],
        (InstallStage::SetRecovery, StepEnd::Failed { .. }) => seq![
            InstallAction::ReportNoRecovery,
            InstallAction::Attempt { stage: InstallStage::Start },
        ],
        (InstallStage::Start, StepEnd::Done) => seq![InstallAction::Succeed],
        (InstallStage::Start, StepEnd::Failed { code }) => if code == Some(
            ERROR_SERVICE_ALREADY_RUNNING,
        ) {
            seq![InstallAction::Succeed]
        } else {
            seq![InstallAction::Fail { stage }]
        },
        (InstallStage::Over, _) => seq![],
        (_, StepEnd::Failed { .. }) => seq![InstallAction::Fail { stage }],
    }
}

/// The step that is awaited next: the one that is attempted.
pub open spec fn awaited_install(actions: Seq<InstallAction>) -> InstallStage {
    if actions.len() > 0 && actions.last() is Attempt {
        actions.last()->Attempt_stage
    } else {
        InstallStage::Over
    }
}

/// An installation in progress.
#[derive(Debug, Clone, Copy, PartialEq, Eq)]
pub struct Install {
    pub stage: InstallStage,
}

impl Install {
    /// An installation at its first step.
    pub fn new() -> (install: Install)
        ensures
            install.stage is OpenManager,
    {
        Install { stage: InstallStage::OpenManager }
    }

    /// Go on from the end of the awaited step.
    ///
    /// A service that is already registered is reconfigured: that is the upgrade
    /// path. One that already runs is fine.
    pub fn on_end(&mut self, end: StepEnd) -> (actions: Vec<InstallAction>)
        ensures
            actions@ == install_actions(old(self).stage, end),
            final(self).stage == awaited_install(actions@),
    {
        let mut actions: Vec<InstallAction> = Vec::new();
        let stage = self.stage;
        let done = matches!(end, StepEnd::Done);
        let code = match end {
            StepEnd::Done => None,
            StepEnd::Failed { code } => code,
        };
        let following: Option<InstallStage> = match stage {
            InstallStage::OpenManager => if done {
                Some(InstallStage::Create)
            } else {
                None
            },
            InstallStage::Create => if done {
                Some(InstallStage::SetDescription)
            } else if is_win32_error(code, ERROR_SERVICE_EXISTS) {
                Some(InstallStage::OpenExisting)
            } else {
                None
            },
            InstallStage::OpenExisting => if done {
                Some(InstallStage::Reconfigure)
            } else {
                None
            },
            InstallStage::Reconfigure => if done {
                Some(InstallStage::SetDescription)
            } else {
                None
            },
            InstallStage::SetDescription => Some(InstallStage::SetRecovery),
            InstallStage::SetRecovery => {
                if !done {
                    actions.push(InstallAction::ReportNoRecovery);
                }
                Some(InstallStage::Start)
            },
            InstallStage::Start => {
                self.stage = InstallStage::Over;
                if done || is_win32_error(code, ERROR_SERVICE_ALREADY_RUNNING) {
                    actions.push(InstallAction::Succeed);
                } else {
                    actions.push(InstallAction::Fail { stage });
                }
                assert(actions@ =~= install_actions(stage, end));
                return actions;
            },
            InstallStage::Over => {
                assert(actions@ =~= install_actions(stage, end));
                return actions;
            },
        };
        match following {
            Some(next) => {
                self.stage = next;
                actions.push(InstallAction::Attempt { stage: next });
            },
            None => {
                self.stage = InstallStage::Over;
                actions.push(InstallAction::Fail { stage });
            },
        }
        assert(actions@ =~= install_actions(stage, end));
        actions
    }
}

/// The steps whose failure fails an installation.
pub open spec fn is_fatal(stage: InstallStage) -> bool {
    stage is OpenManager || stage is Create || stage is OpenExisting || stage is Reconfigure || stage
        is Start
}

/// What stands before the error of a failed step, and behind it.
pub open spec fn install_failure_frame(stage: InstallStage) -> (Seq<char>, Seq<char>) {
    match stage {
        InstallStage::OpenManager => (
            "could not open the service manager ("@,
            "). Installing a service requires an elevated (Administrator) prompt."@,
        ),
        InstallStage::Create => ("could not create the service: "@, ""@),
        InstallStage::OpenExisting => ("could not open the existing service: "@, ""@),
        InstallStage::Reconfigure => ("could not update the service configuration: "@, ""@),
        _ => ("could not start the service: "@, ""@),
    }
}

/// Why a step of an installation failed.
pub fn install_failure(stage: InstallStage, error: &str) -> (text: String)
    requires
        is_fatal(stage),
    ensures
        text@ == install_failure_frame(stage).0 + error@ + install_failure_frame(stage).1,
{
    let (before, after) = match stage {
        InstallStage::OpenManager => (
            "could not open the service manager (",
            "). Installing a service requires an elevated (Administrator) prompt.",
        ),
        InstallStage::Create => ("could not create the service: ", ""),
        InstallStage::OpenExisting => ("could not open the existing service: ", ""),
        InstallStage::Reconfigure => ("could not update the service configuration: ", ""),
        _ => ("could not start the service: ", ""),
    };
    let mut text = before.to_owned();
    text.append(error);
    text.append(after);
    text
}

// ---------------------------------------------------------------------------
// Removal
// ---------------------------------------------------------------------------

/// Which step of a removal is awaited.
#[derive(Debug, Clone, Copy, PartialEq, Eq)]
pub enum UninstallStage {
    OpenManager,
    Open,
    Query,
    Stop,
    AwaitStopped,
    Delete,
    Over,
}

/// How a step of a removal ended.
#[derive(Debug, Clone, Copy, PartialEq, Eq)]
pub enum UninstallEnd {
    Done,
    /// The service was queried.
    Queried { stopped: bool },
    /// The step failed, with this Win32 error code where there is one.
    Failed { code: Option<i32> },
}

/// One thing to do for a removal.
#[derive(Debug, Clone, Copy, PartialEq, Eq)]
pub enum UninstallAction {
    /// Take the step, and report how it ended.
    Attempt { stage: UninstallStage },
    /// Report that there is nothing to remove.
    ReportNotInstalled,
    /// Report that the service could not be stopped.
    ReportStopFailed,
    /// Report that the service did not say that it stopped.
    ReportNotStopped,
    /// Report that the service is removed.
    ReportRemoved,
    /// The service is not installed.
    Succeed,
    /// The removal failed at this step.
    Fail { stage: UninstallStage },
}

/// What follows the end of a step. A stop failure does not block the removal, and a
/// service that cannot be opened counts as removed only if there is none.
pub open spec fn uninstall_actions(stage: UninstallStage, end: UninstallEnd) -> Seq<
    UninstallAction,
> {
    let delete = UninstallAction::Attempt { stage: UninstallStage::Delete };
    match stage {
        UninstallStage::OpenManager => if end is Failed {
            seq![UninstallAction::Fail { stage }]
        } else {
            seq![UninstallAction::Attempt { stage: UninstallStage::Open }]
        },
        UninstallStage::Open => if end == (UninstallEnd::Failed {
            code: Some(ERROR_SERVICE_DOES_NOT_EXIST),
        }) {
            seq![UninstallAction::ReportNotInstalled, UninstallAction::Succeed]
        } else if end is Failed {
            seq![UninstallAction::Fail { stage }]
        } else {
            seq![UninstallAction::Attempt { stage: UninstallStage::Query }]
        },
        UninstallStage::Query => if end == (UninstallEnd::Queried { stopped: false }) {
            seq![UninstallAction::Attempt { stage: UninstallStage::Stop }]
        } else {
            seq![delete]
        },
        UninstallStage::Stop => if end is Failed {
            seq![UninstallAction::ReportStopFailed, delete]
        } else {
            seq![UninstallAction::Attempt { stage: UninstallStage::AwaitStopped }]
        },
        UninstallStage::AwaitStopped => if end is Failed {
            seq![UninstallAction::ReportNotStopped, delete]
        } else {
            seq![delete]
        },
        UninstallStage::Delete => if end is Failed {
            seq![UninstallAction::Fail { stage }]
        } else {
            seq![UninstallAction::ReportRemoved, UninstallAction::Succeed]
        },
        UninstallStage::Over => seq![],
    }
}

/// The step that is awaited next: the one that is attempted.
pub open spec fn awaited_uninstall(actions: Seq<UninstallAction>) -> UninstallStage {
    if actions.len() > 0 && actions.last() is Attempt {
        actions.last()->Attempt_stage
    } else {
        UninstallStage::Over
    }
}

/// A removal in progress.
#[derive(Debug, Clone, Copy, PartialEq, Eq)]
pub struct Uninstall {
    pub stage: UninstallStage,
}

impl Uninstall {
    /// A removal at its first step.
    pub fn new() -> (uninstall: Uninstall)
        ensures
            uninstall.stage is OpenManager,
    {
        Uninstall { stage: UninstallStage::OpenManager }
    }

    /// Go on from the end of the awaited step. A service that is not there is
    /// nothing to do.
    pub fn on_end(&mut self, end: UninstallEnd) -> (actions: Vec<UninstallAction>)
        ensures
            actions@ == uninstall_actions(old(self).stage, end),
            final(self).stage == awaited_uninstall(actions@),
    {
        let mut actions: Vec<UninstallAction> = Vec::new();
        let stage = self.stage;
        let (failed, code) = match end {
            UninstallEnd::Failed { code } => (true, code),
            _ => (false, None),
        };
        let mut next = UninstallStage::Over;
        match stage {
            UninstallStage::OpenManager => {
                if failed {
                    actions.push(UninstallAction::Fail { stage });
                } else {
                    next = UninstallStage::Open;
                }
            },
            UninstallStage::Open => {
                if failed && is_win32_error(code, ERROR_SERVICE_DOES_NOT_EXIST) {
                    actions.push(UninstallAction::ReportNotInstalled);
                    actions.push(UninstallAction::Succeed);
                } else if failed {
                    actions.push(UninstallAction::Fail { stage });
                } else {
                    next = UninstallStage::Query;
                }
            },
            UninstallStage::Query => {
                next = match end {
                    UninstallEnd::Queried { stopped: false } => UninstallStage::Stop,
                    _ => UninstallStage::Delete,
                };
            },
            UninstallStage::Stop => {
                if failed {
                    actions.push(UninstallAction::ReportStopFailed);
                    next = UninstallStage::Delete;
                } else {
                    next = UninstallStage::AwaitStopped;
                }
            },
            UninstallStage::AwaitStopped => {
                if failed {
                    actions.push(UninstallAction::ReportNotStopped);
                }
                next = UninstallStage::Delete;
            },
            UninstallStage::Delete => {
                if failed {
                    actions.push(UninstallAction::Fail { stage });
                } else {
                    actions.push(UninstallAction::ReportRemoved);
                    actions.push(UninstallAction::Succeed);
                }
            },
            UninstallStage::Over => {},
        }
        self.stage = next;
        if !matches!(next, UninstallStage::Over) {
            actions.push(UninstallAction::Attempt { stage: next });
        }
        assert(actions@ =~= uninstall_actions(stage, end));
        actions
    }
}

/// Why a removal failed.
pub fn uninstall_failure(stage: UninstallStage, error: &str) -> (text: String)
    requires
        stage is OpenManager || stage is Open || stage is Delete,
    ensures
        text@ == if stage is OpenManager {
            "could not open the service manager ("@ + error@
                + "). Removing a service requires an elevated (Administrator) prompt."@
        } else if stage is Open {
            "could not open the service: "@ + error@
        } else {
            "could not delete the service: "@ + error@
        },
{
    match stage {
        UninstallStage::OpenManager => {
            let mut text = "could not open the service manager (".to_owned();
            text.append(error);
            text.append("). Removing a service requires an elevated (Administrator) prompt.");
            text
        },
        UninstallStage::Open => {
            let mut text = "could not open the service: ".to_owned();
            text.append(error);
            text
        },
        _ => {
            let mut text = "could not delete the service: ".to_owned();
            text.append(error);
            text
        },
    }
}

/// What a look at a stopping service showed.
#[derive(Debug, Clone, Copy, PartialEq, Eq)]
pub enum StopLook {
    Stopped,
    NotStopped,
    Failed,
}

/// What to do about a stopping service.
#[derive(Debug, Clone, Copy, PartialEq, Eq)]
pub enum StopStep {
    /// Look at it.
    Look,
    /// Sleep for this many milliseconds.
    Sleep { ms: u64 },
    /// It stopped.
    Stopped,
    /// It cannot be looked at.
    Failed,
    /// It took too long.
    TimedOut,
}

/// What to do about a service that was asked to stop, this long ago.
pub open spec fn step_before_look(elapsed_ms: int) -> StopStep {
    if elapsed_ms < STOP_TIMEOUT_SECONDS * 1000 {
        StopStep::Look
    } else {
        StopStep::TimedOut
    }
}

/// What to do once it was looked at.
pub open spec fn step_after_look(look: StopLook) -> StopStep {
    match look {
        StopLook::Stopped => StopStep::Stopped,
        StopLook::NotStopped => StopStep::Sleep { ms: STOP_POLL_MS },
        StopLook::Failed => StopStep::Failed,
    }
}

/// Whether there is time for another look, this many milliseconds into the wait.
pub fn before_look(elapsed_ms: u64) -> (step: StopStep)
    ensures
        step == step_before_look(elapsed_ms as int),
        step == if elapsed_ms < STOP_TIMEOUT_SECONDS * 1000 {
            StopStep::Look
        } else {
            StopStep::TimedOut
        },
{
    if elapsed_ms < STOP_TIMEOUT_SECONDS * 1000 {
        StopStep::Look
    } else {
        StopStep::TimedOut
    }
}

/// What to do after a look.
pub fn after_look(look: StopLook) -> (step: StopStep)
    ensures
        step == step_after_look(look),
        step == match look {
            StopLook::Stopped => StopStep::Stopped,
            StopLook::NotStopped => StopStep::Sleep { ms: STOP_POLL_MS },
            StopLook::Failed => StopStep::Failed,
        },
{
    match look {
        StopLook::Stopped => StopStep::Stopped,
        StopLook::NotStopped => StopStep::Sleep { ms: STOP_POLL_MS },
        StopLook::Failed => StopStep::Failed,
    }
}

// ---------------------------------------------------------------------------
// Status
// ---------------------------------------------------------------------------

/// What is known of the service.
pub enum ServiceFacts {
    /// The service manager cannot be opened.
    NoManager { error: String },
    /// There is no such service.
    NotInstalled,
    /// The service is there, or may be, and cannot be opened.
    NotOpened { error: String },
    /// The service is installed. How it starts, and what state it is in, where
    /// that can be asked.
    Installed { start_type: Option<String>, state: Result<(String, bool), String> },
}

impl ServiceFacts {
    /// What is known of a service that could not be opened: it is not installed only
    /// if the error says so.
    pub fn opening_failed(code: Option<i32>, error: String) -> (facts: ServiceFacts)
        ensures
            facts == if code == Some(ERROR_SERVICE_DOES_NOT_EXIST) {
                ServiceFacts::NotInstalled
            } else {
                ServiceFacts::NotOpened { error }
            },
    {
        if is_win32_error(code, ERROR_SERVICE_DOES_NOT_EXIST) {
            ServiceFacts::NotInstalled
        } else {
            ServiceFacts::NotOpened { error }
        }
    }
}

/// The status report, and whether the service runs.
pub open spec fn status_text(facts: ServiceFacts) -> (Seq<char>, bool) {
    let head = "GBOS agent service status\n  service:    "@ + SERVICE_NAME@ + "\n"@;
    match facts {
        ServiceFacts::NoManager { error } => (
            head + "  installed:  unknown (could not open the service manager: "@ + error@ + ")\n"@,
            false,
        ),
        ServiceFacts::NotInstalled => (
            head
                + "  installed:  no\n\nThe service is not registered. Install it from an elevated prompt with:\n  GBOS-Agent.exe --install-service\n"@,
            false,
        ),
        ServiceFacts::NotOpened { error } => (
            head + "  installed:  unknown (could not open the service: "@ + error@ + ")\n"@,
            false,
        ),
        ServiceFacts::Installed { start_type, state } => {
            let start = match start_type {
                Some(start) => "  start:      "@ + start@ + "\n"@,
                None => ""@,
            };
            match state {
                Ok((state, running)) => (
                    head + "  installed:  yes\n"@ + start + "  state:      "@ + state@ + "\n"@
                        + if running {
                        ""@
                    } else {
                        "\nThe service is registered but not running. Check the GBOS agent log for why it exited.\n"@
                    },
                    running,
                ),
                Err(error) => (
                    head + "  installed:  yes\n"@ + start + "  state:      unknown ("@ + error@
                        + ")\n"@,
                    false,
                ),
            }
        },
    }
}

/// Report whether the service is installed, how it starts, and whether it runs.
pub fn status(facts: ServiceFacts) -> (report: Outcome)
    ensures
        (report.message@, report.success) == status_text(facts),
{
    let ghost wanted = status_text(facts);
    let mut message = "GBOS agent service status\n  service:    ".to_owned();
    message.append(SERVICE_NAME);
    message.append("\n");
    let mut success = false;
    match facts {
        ServiceFacts::NoManager { error } => {
            message.append("  installed:  unknown (could not open the service manager: ");
            message.append(error.as_str());
            message.append(")\n");
        },
        ServiceFacts::NotInstalled => {
            message.append(
                "  installed:  no\n\nThe service is not registered. Install it from an elevated prompt with:\n  GBOS-Agent.exe --install-service\n",
            );
        },
        ServiceFacts::NotOpened { error } => {
            message.append("  installed:  unknown (could not open the service: ");
            message.append(error.as_str());
            message.append(")\n");
        },
        ServiceFacts::Installed { start_type, state } => {
            proof {
                reveal_strlit("");
            }
            message.append("  installed:  yes\n");
            if let Some(start) = start_type {
                message.append("  start:      ");
                message.append(start.as_str());
                message.append("\n");
            }
            match state {
                Ok((state, running)) => {
                    message.append("  state:      ");
                    message.append(state.as_str());
                    message.append("\n");
                    success = running;
                    if !running {
                        message.append(
                            "\nThe service is registered but not running. Check the GBOS agent log for why it exited.\n",
                        );
                    }
                },
                Err(error) => {
                    message.append("  state:      unknown (");
                    message.append(error.as_str());
                    message.append(")\n");
                },
            }
        },
    }
    assert(message@ =~= wanted.0);
    Outcome { message, success }
}

// ---------------------------------------------------------------------------
// Control
// ---------------------------------------------------------------------------

/// What the service manager asks of a running service.
#[derive(Debug, Clone, Copy, PartialEq, Eq)]
pub enum ServiceControl {
    Stop,
    Shutdown,
    Interrogate,
    Other,
}

/// What the service manager is answered.
#[derive(Debug, Clone, Copy, PartialEq, Eq)]
pub enum ControlReply {
    NoError,
    NotImplemented,
}

/// The answer to a control, and whether the agent is to stop.
pub open spec fn control_answer(control: ServiceControl) -> (ControlReply, bool) {
    match control {
        ServiceControl::Stop => (ControlReply::NoError, true),
        ServiceControl::Shutdown => (ControlReply::NoError, true),
        ServiceControl::Interrogate => (ControlReply::NoError, false),
        ServiceControl::Other => (ControlReply::NotImplemented, false),
    }
}

/// Answer the service manager, and say whether the agent is to shut down.
pub fn on_control(control: ServiceControl) -> (answer: (ControlReply, bool))
    ensures
        answer == control_answer(control),
        answer.0 == if control is Other {
            ControlReply::NotImplemented
        } else {
            ControlReply::NoError
        },
        answer.1 == (control is Stop || control is Shutdown),
{
    match control {
        ServiceControl::Stop => (ControlReply::NoError, true),
        ServiceControl::Shutdown => (ControlReply::NoError, true),
        ServiceControl::Interrogate => (ControlReply::NoError, false),
        ServiceControl::Other => (ControlReply::NotImplemented, false),
    }
}

// ---------------------------------------------------------------------------
// Laws
// ---------------------------------------------------------------------------

/// A reinstallation is an upgrade: a service that is registered already, and one
/// that runs already, do not fail it.
pub proof fn installing_again_is_an_upgrade()
    ensures
        install_actions(
            InstallStage::Create,
            StepEnd::Failed { code: Some(ERROR_SERVICE_EXISTS) },
        ) == seq![InstallAction::Attempt { stage: InstallStage::OpenExisting }],
        install_actions(
            InstallStage::Start,
            StepEnd::Failed { code: Some(ERROR_SERVICE_ALREADY_RUNNING) },
        ) == seq![InstallAction::Succeed],
{
}

/// An installation fails at a fatal step, and at no other.
pub proof fn installations_fail_at_fatal_steps(
    stage: InstallStage,
    end: StepEnd,
    at: InstallStage,
)
    requires
        install_actions(stage, end).contains(InstallAction::Fail { stage: at }),
    ensures
        at == stage,
        is_fatal(at),
        end is Failed,
{
}

/// Every installation ends: whatever the ends of its steps, the next step is
/// further along, or there is none.
pub proof fn installations_end(stage: InstallStage, end: StepEnd)
    ensures
        !(stage is Over) ==> install_rank(awaited_install(install_actions(stage, end)))
            < install_rank(stage),
        stage is Over ==> install_actions(stage, end).len() == 0,
{
}

/// How many steps may still come.
pub open spec fn install_rank(stage: InstallStage) -> nat {
    match stage {
        InstallStage::OpenManager => 7,
        InstallStage::Create => 6,
        InstallStage::OpenExisting => 5,
        InstallStage::Reconfigure => 4,
        InstallStage::SetDescription => 3,
        InstallStage::SetRecovery => 2,
        InstallStage::Start => 1,
        InstallStage::Over => 0,
    }
}

/// A removal succeeds only when the service is gone: there was none to open, or it
/// was deleted.
pub proof fn removals_succeed_when_the_service_is_gone(stage: UninstallStage, end: UninstallEnd)
    ensures
        uninstall_actions(stage, end).contains(UninstallAction::Succeed) <==> {
            ||| stage is Open && end == (UninstallEnd::Failed {
                code: Some(ERROR_SERVICE_DOES_NOT_EXIST),
            })
            ||| stage is Delete && !(end is Failed)
        },
{
    let actions = uninstall_actions(stage, end);
    if stage is Open && end == (UninstallEnd::Failed { code: Some(ERROR_SERVICE_DOES_NOT_EXIST) })
        || stage is Delete && !(end is Failed) {
        assert(actions[1] == UninstallAction::Succeed);
    }
}

/// A removal fails only where the service manager or a service that exists cannot be
/// opened, or the service cannot be deleted. So a stop that failed does not prevent
/// the deletion.
pub proof fn removals_fail_only_at_an_opening_or_the_deletion(
    stage: UninstallStage,
    end: UninstallEnd,
    at: UninstallStage,
)
    ensures
        uninstall_actions(stage, end).contains(UninstallAction::Fail { stage: at }) <==> {
            &&& at == stage
            &&& end is Failed
            &&& stage is OpenManager || stage is Delete || (stage is Open && end
                != (UninstallEnd::Failed { code: Some(ERROR_SERVICE_DOES_NOT_EXIST) }))
        },
{
    let actions = uninstall_actions(stage, end);
    if at == stage && end is Failed && (stage is OpenManager || stage is Delete || (stage is Open
        && end != (UninstallEnd::Failed { code: Some(ERROR_SERVICE_DOES_NOT_EXIST) }))) {
        assert(actions[0] == (UninstallAction::Fail { stage: at }));
    }
}

/// Every removal ends: whatever the ends of its steps, the next step is further
/// along, or there is none.
pub proof fn removals_end(stage: UninstallStage, end: UninstallEnd)
    ensures
        !(stage is Over) ==> uninstall_rank(awaited_uninstall(uninstall_actions(stage, end)))
            < uninstall_rank(stage),
        stage is Over ==> uninstall_actions(stage, end).len() == 0,
{
}

/// How many steps may still come.
pub open spec fn uninstall_rank(stage: UninstallStage) -> nat {
    match stage {
        UninstallStage::OpenManager => 6,
        UninstallStage::Open => 5,
        UninstallStage::Query => 4,
        UninstallStage::Stop => 3,
        UninstallStage::AwaitStopped => 2,
        UninstallStage::Delete => 1,
        UninstallStage::Over => 0,
    }
}

/// An installation leads on from each step that is done to the next one: the manager, the
/// service, its description, its recovery and its start.
pub proof fn installations_go_step_by_step(stage: InstallStage, end: StepEnd)
    ensures
        ({
            let actions = install_actions(stage, end);
            let next = awaited_install(actions);
            let failed = end is Failed;
            let code = end->code;
            &&& actions.contains(InstallAction::Succeed) <==> stage is Start && (end is Done
                || failed && code == Some(1056i32))
            &&& actions.contains(InstallAction::Fail { stage }) <==> failed && (stage is OpenManager
                || stage is OpenExisting || stage is Reconfigure || stage is Create && code != Some(
                1073i32,
            ) || stage is Start && code != Some(1056i32))
            &&& actions.contains(InstallAction::ReportNoRecovery) <==> stage is SetRecovery
                && failed
            &&& next is Create <==> stage is OpenManager && end is Done
            &&& next is OpenExisting <==> stage is Create && failed && code == Some(1073i32)
            &&& next is Reconfigure <==> stage is OpenExisting && end is Done
            &&& next is SetDescription <==> (stage is Create || stage is Reconfigure) && end is Done
            &&& next is SetRecovery <==> stage is SetDescription
            &&& next is Start <==> stage is SetRecovery
            &&& !(next is OpenManager)
        }),
{
    let actions = install_actions(stage, end);
    if actions.len() > 0 {
        assert(actions[0] == actions[0]);
    }
}

/// A removal stops a service that runs, waits for it, and deletes it whatever became of
/// that.
pub proof fn removals_go_step_by_step(stage: UninstallStage, end: UninstallEnd)
    ensures
        ({
            let actions = uninstall_actions(stage, end);
            let next = awaited_uninstall(actions);
            let failed = end is Failed;
            &&& next is Open <==> stage is OpenManager && !failed
            &&& next is Query <==> stage is Open && !failed
            &&& next is Stop <==> stage is Query && end == (UninstallEnd::Queried {
                stopped: false,
            })
            &&& next is AwaitStopped <==> stage is Stop && !failed
            &&& next is Delete <==> {
                ||| stage is Query && end != (UninstallEnd::Queried { stopped: false })
                ||| stage is Stop && failed
                ||| stage is AwaitStopped
            }
            &&& !(next is OpenManager)
            &&& actions.contains(UninstallAction::ReportNotInstalled) <==> stage is Open && end == (
            UninstallEnd::Failed { code: Some(1060) })
            &&& actions.contains(UninstallAction::ReportStopFailed) <==> stage is Stop && failed
            &&& actions.contains(UninstallAction::ReportNotStopped) <==> stage is AwaitStopped
                && failed
            &&& actions.contains(UninstallAction::ReportRemoved) <==> stage is Delete && !failed
            &&& actions.contains(UninstallAction::Succeed) <==> stage is Delete && !failed || stage
                is Open && end == (UninstallEnd::Failed { code: Some(1060) })
            &&& actions.contains(UninstallAction::Fail { stage }) <==> failed && (stage
                is OpenManager || stage is Delete || stage is Open && end != (UninstallEnd::Failed {
                code: Some(1060),
            }))
        }),
{
    let actions = uninstall_actions(stage, end);
    if actions.len() > 0 {
        assert(actions[0] == actions[0]);
    }
    if actions.len() > 1 {
        assert(actions[1] == actions[1]);
    }
}

/// A status is a success if and only if the service is installed and runs, and says what
/// is known: the state, or the error that kept it from being known.
pub proof fn a_running_service_is_a_success(facts: ServiceFacts)
    ensures
        status_text(facts).1 <==> (facts matches ServiceFacts::Installed {
            state: Ok((_, running)),
            ..
        } && running),
        facts matches ServiceFacts::NoManager { error } ==> holds(status_text(facts).0, error@),
        facts matches ServiceFacts::NotOpened { error } ==> holds(status_text(facts).0, error@),
        facts matches ServiceFacts::Installed { start_type: Some(start), .. } ==> holds(
            status_text(facts).0,
            start@,
        ),
        facts matches ServiceFacts::Installed { state: Err(error), .. } ==> holds(
            status_text(facts).0,
            error@,
        ),
        facts matches ServiceFacts::Installed { state: Ok((state, _)), .. } ==> holds(
            status_text(facts).0,
            state@,
        ),
{
    let head = "GBOS agent service status\n  service:    "@ + SERVICE_NAME@ + "\n"@;
    let text = status_text(facts).0;
    match facts {
        ServiceFacts::NoManager { error } => {
            let ahead = head + "  installed:  unknown (could not open the service manager: "@;
            assert(is_held(text, error@, ahead, ")\n"@));
        },
        ServiceFacts::NotInstalled => {},
        ServiceFacts::NotOpened { error } => {
            let ahead = head + "  installed:  unknown (could not open the service: "@;
            assert(is_held(text, error@, ahead, ")\n"@));
        },
        ServiceFacts::Installed { start_type, state } => {
            let installed = head + "  installed:  yes\n"@;
            let start = match start_type {
                Some(start) => "  start:      "@ + start@ + "\n"@,
                None => ""@,
            };
            match state {
                Ok((state, running)) => {
                    let rest = if running {
                        ""@
                    } else {
                        "\nThe service is registered but not running. Check the GBOS agent log for why it exited.\n"@
                    };
                    let behind = "\n"@ + rest;
                    let ahead = installed + start + "  state:      "@;
                    assert(text =~= ahead + state@ + behind);
                    assert(is_held(text, state@, ahead, behind));
                    if start_type is Some {
                        let word = start_type->0@;
                        let tail = "\n"@ + "  state:      "@ + state@ + behind;
                        assert(text =~= installed + "  start:      "@ + word + tail);
                        assert(is_held(text, word, installed + "  start:      "@, tail));
                    }
                },
                Err(error) => {
                    let ahead = installed + start + "  state:      unknown ("@;
                    assert(is_held(text, error@, ahead, ")\n"@));
                    if start_type is Some {
                        let word = start_type->0@;
                        let tail = "\n"@ + "  state:      unknown ("@ + error@ + ")\n"@;
                        assert(text =~= installed + "  start:      "@ + word + tail);
                        assert(is_held(text, word, installed + "  start:      "@, tail));
                    }
                },
            }
        },
    }
}

/// A service that was asked to stop is looked at for twenty seconds and no longer, a
/// quarter of a second apart, until it stopped or cannot be looked at.
pub proof fn stopping_is_waited_for(elapsed_ms: int, look: StopLook)
    ensures
        step_before_look(elapsed_ms) is Look <==> elapsed_ms < 20_000,
        step_before_look(elapsed_ms) is TimedOut <==> elapsed_ms >= 20_000,
        step_after_look(look) is Stopped <==> look is Stopped,
        step_after_look(look) is Failed <==> look is Failed,
        look is NotStopped ==> step_after_look(look) == (StopStep::Sleep { ms: 250 }),
{
}

/// The agent stops when it is asked to or the machine goes down, and for no other control.
/// What it does not know it says that it does not know.
pub proof fn the_service_stops_when_it_is_asked_to(control: ServiceControl)
    ensures
        control_answer(control).1 <==> control is Stop || control is Shutdown,
        control_answer(control).0 is NotImplemented <==> control is Other,
{
}

} // verus!
