//! Background-service lifecycle: install, uninstall, and status.
//!
//! The agent installs itself as the platform-native service: a launchd
//! LaunchDaemon on macOS, an SCM service on Windows. The same binary that runs in
//! the foreground also registers and controls its own service.

use vstd::prelude::*;

use crate::platform::Platform;
use crate::text::same_text;

pub mod macos;
pub mod windows;

verus! {

/// A command-line request that should be handled before the agent runs.
#[derive(Debug, Clone, Copy, PartialEq, Eq)]
pub enum Command {
    /// Register the background service and start it.
    InstallService,
    /// Stop and deregister the background service, removing its files.
    UninstallService,
    /// Report whether the service is installed and running.
    ServiceStatus,
    /// Windows only: run as the per-session helper inside a user's session.
    SessionHelper,
}

/// The command that an argument stands for.
pub open spec fn command_named(argument: Seq<char>) -> Option<Command> {
    if argument == "--install-service"@ {
        Some(Command::InstallService)
    } else if argument == "--uninstall-service"@ {
        Some(Command::UninstallService)
    } else if argument == "--status"@ {
        Some(Command::ServiceStatus)
    } else if argument == "--session-helper"@ {
        Some(Command::SessionHelper)
    } else {
        None
    }
}

/// The command that the first argument from `from` on that stands for one stands for.
pub open spec fn first_command(arguments: Seq<String>, from: int) -> Option<Command>
    decreases arguments.len() - from,
{
    if from >= arguments.len() {
        None
    } else if command_named(arguments[from]@) is Some {
        command_named(arguments[from]@)
    } else {
        first_command(arguments, from + 1)
    }
}

/// Parse the mode from the process arguments, the first of which is the program
/// itself.
pub fn command_from_args(arguments: &Vec<String>) -> (command: Option<Command>)
    ensures
        command == first_command(arguments@, 1),
{
    let mut i: usize = 1;
    while i < arguments.len()
        invariant
            1 <= i,
            first_command(arguments@, i as int) == first_command(arguments@, 1),
        decreases arguments@.len() - i,
    {
        let argument: &str = arguments[i].as_str();
        if same_text(argument, "--install-service") {
            return Some(Command::InstallService);
        }
        if same_text(argument, "--uninstall-service") {
            return Some(Command::UninstallService);
        }
        if same_text(argument, "--status") {
            return Some(Command::ServiceStatus);
        }
        if same_text(argument, "--session-helper") {
            return Some(Command::SessionHelper);
        }
        i = i + 1;
    }
    None
}

/// How a service command ended: what is said, and whether it succeeded.
pub struct Outcome {
    pub message: String,
    pub success: bool,
}

/// What is said of an installation or a removal.
pub fn report(result: Result<(), String>, past_tense: &str) -> (outcome: Outcome)
    ensures
        outcome.success == (result is Ok),
        outcome.message@ == (match result {
            Ok(_) => "GBOS agent service "@ + past_tense@,
            Err(error) => "GBOS agent service could not be "@ + past_tense@ + ": "@ + error@,
        }),
{
    match result {
        Ok(_) => {
            let mut message = "GBOS agent service ".to_owned();
            message.append(past_tense);
            Outcome { message, success: true }
        },
        Err(error) => {
            let mut message = "GBOS agent service could not be ".to_owned();
            message.append(past_tense);
            message.append(": ");
            message.append(error.as_str());
            Outcome { message, success: false }
        },
    }
}

/// What is said on platforms the agent does not manage as a service. There it
/// still runs in the foreground, but it has no service manager to register with.
pub const UNSUPPORTED_MESSAGE: &'static str =
    "This platform has no supported background-service integration; run the agent in the foreground instead.";

/// What is said to `--session-helper` where there is no helper.
pub const HELPER_UNSUPPORTED_MESSAGE: &'static str =
    "--session-helper is only supported on Windows; this build cannot capture the screen or location from a background session";

/// Who handles a service command.
pub enum Dispatch {
    /// The per-session helper.
    RunHelper,
    /// The platform's installation.
    Install,
    /// The platform's removal.
    Uninstall,
    /// The platform's status report.
    Status,
    /// Nobody: this is how it ended.
    Finished { outcome: Outcome },
}

/// A dispatch, with what is said as its characters.
pub enum DispatchView {
    RunHelper,
    Install,
    Uninstall,
    Status,
    Finished { message: Seq<char>, success: bool },
}

impl View for Dispatch {
    type V = DispatchView;

    open spec fn view(&self) -> DispatchView {
        match *self {
            Dispatch::RunHelper => DispatchView::RunHelper,
            Dispatch::Install => DispatchView::Install,
            Dispatch::Uninstall => DispatchView::Uninstall,
            Dispatch::Status => DispatchView::Status,
            Dispatch::Finished { outcome } => DispatchView::Finished {
                message: outcome.message@,
                success: outcome.success,
            },
        }
    }
}

/// Who handles a service command on a platform.
pub open spec fn dispatch_of(command: Command, platform: Platform) -> DispatchView {
    match command {
        Command::SessionHelper => if platform is Windows {
            DispatchView::RunHelper
        } else {
            DispatchView::Finished { message: HELPER_UNSUPPORTED_MESSAGE@, success: false }
        },
        Command::InstallService => if platform is Other {
            DispatchView::Finished {
                message: "GBOS agent service could not be "@ + "installed"@ + ": "@
                    + UNSUPPORTED_MESSAGE@,
                success: false,
            }
        } else {
            DispatchView::Install
        },
        Command::UninstallService => if platform is Other {
            DispatchView::Finished {
                message: "GBOS agent service could not be "@ + "uninstalled"@ + ": "@
                    + UNSUPPORTED_MESSAGE@,
                success: false,
            }
        } else {
            DispatchView::Uninstall
        },
        Command::ServiceStatus => if platform is Other {
            DispatchView::Finished { message: UNSUPPORTED_MESSAGE@, success: false }
        } else {
            DispatchView::Status
        },
    }
}

/// Hand a service command to whoever handles it.
///
/// Where a platform cannot do what is asked, that is reported rather than
/// silently ignored.
pub fn run(command: Command, platform: Platform) -> (dispatch: Dispatch)
    ensures
        dispatch@ == dispatch_of(command, platform),
{
    let other = matches!(platform, Platform::Other);
    match command {
        Command::SessionHelper => {
            if matches!(platform, Platform::Windows) {
                Dispatch::RunHelper
            } else {
                Dispatch::Finished {
                    outcome: Outcome {
                        message: HELPER_UNSUPPORTED_MESSAGE.to_owned(),
                        success: false,
                    },
                }
            }
        },
        Command::InstallService => {
            if other {
                Dispatch::Finished {
                    outcome: report(Err(UNSUPPORTED_MESSAGE.to_owned()), "installed"),
                }
            } else {
                Dispatch::Install
            }
        },
        Command::UninstallService => {
            if other {
                Dispatch::Finished {
                    outcome: report(Err(UNSUPPORTED_MESSAGE.to_owned()), "uninstalled"),
                }
            } else {
                Dispatch::Uninstall
            }
        },
        Command::ServiceStatus => {
            if other {
                Dispatch::Finished {
                    outcome: Outcome { message: UNSUPPORTED_MESSAGE.to_owned(), success: false },
                }
            } else {
                Dispatch::Status
            }
        },
    }
}

/// The commands that are known, and nothing else is one.
pub proof fn commands_have_their_names(argument: Seq<char>)
    ensures
        command_named(argument) == Some(Command::InstallService) <==> argument
            == "--install-service"@,
        command_named(argument) == Some(Command::UninstallService) <==> argument
            == "--uninstall-service"@,
        command_named(argument) == Some(Command::ServiceStatus) <==> argument == "--status"@,
        command_named(argument) == Some(Command::SessionHelper) <==> argument
            == "--session-helper"@,
{
    reveal_strlit("--install-service");
    reveal_strlit("--uninstall-service");
    reveal_strlit("--status");
    reveal_strlit("--session-helper");
    assert("--install-service"@.len() == 17);
    assert("--uninstall-service"@.len() == 19);
    assert("--status"@.len() == 8);
    assert("--session-helper"@.len() == 16);
}

/// The first argument that is a command counts, wherever it stands.
pub proof fn the_first_command_counts(arguments: Seq<String>, from: int, at: int)
    requires
        0 <= from <= at < arguments.len(),
        command_named(arguments[at]@) is Some,
        forall|i: int| from <= i < at ==> command_named((#[trigger] arguments[i])@) is None,
    ensures
        first_command(arguments, from) == command_named(arguments[at]@),
    decreases at - from,
{
    if from < at {
        assert(command_named(arguments[from]@) is None);
        the_first_command_counts(arguments, from + 1, at);
    }
}

/// Without a command among the arguments the agent runs as it is.
pub proof fn no_argument_no_command(arguments: Seq<String>, from: int)
    requires
        0 <= from,
        forall|i: int|
            from <= i < arguments.len() ==> command_named((#[trigger] arguments[i])@) is None,
    ensures
        first_command(arguments, from) is None,
    decreases arguments.len() - from,
{
    if from < arguments.len() {
        assert(command_named(arguments[from]@) is None);
        no_argument_no_command(arguments, from + 1);
    }
}

/// A command goes to what handles it, wherever there is a service to handle; a helper runs
/// on Windows alone. What nobody handles is no success.
pub proof fn commands_go_where_they_are_handled(command: Command, platform: Platform)
    ensures
        ({
            let dispatch = dispatch_of(command, platform);
            let native = platform is Windows || platform is Macos;
            &&& dispatch is RunHelper <==> command is SessionHelper && platform is Windows
            &&& dispatch is Install <==> command is InstallService && native
            &&& dispatch is Uninstall <==> command is UninstallService && native
            &&& dispatch is Status <==> command is ServiceStatus && native
            &&& dispatch is Finished ==> !dispatch->success
        }),
{
}

} // verus!
