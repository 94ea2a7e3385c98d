//! Launching a helper into a user's session.

use vstd::prelude::*;

use crate::text::{hex, push_hex};

verus! {

// ---------------------------------------------------------------------------
// Names
// ---------------------------------------------------------------------------

/// A value that differs between helper launches within one boot, from the clock
/// and the process id.
///
/// Not a secret: the session check is what gates the pipe. It keeps a superseded
/// helper from attaching to its successor's pipe.
pub fn nonce(nanos: u64, process_id: u32) -> (value: u64)
    ensures
        value == nanos ^ ((process_id as u64) << 32),
{
    nanos ^ ((process_id as u64) << 32)
}

/// The pipe of the launch with this nonce.
pub open spec fn pipe_name_of(nonce: u64) -> Seq<char> {
    "\\\\.\\pipe\\gbos-agent-session-"@ + hex(nonce as nat, 16)
}

/// The name of the pipe for a launch.
pub fn pipe_name(nonce: u64) -> (name: String)
    ensures
        name@ == pipe_name_of(nonce),
{
    let mut name = "\\\\.\\pipe\\gbos-agent-session-".to_owned();
    push_hex(&mut name, nonce, 16);
    name
}

/// The command line of the helper: this binary with a flag, so there is no second
/// artefact to install, ship, or keep in step with the service.
pub fn helper_command_line(executable: &str, pipe_name: &str) -> (line: String)
    ensures
        line@ == "\""@ + executable@ + "\" --session-helper --pipe "@ + pipe_name@,
{
    let mut line = "\"".to_owned();
    line.append(executable);
    line.append("\" --session-helper --pipe ");
    line.append(pipe_name);
    line
}

// ---------------------------------------------------------------------------
// Steps
// ---------------------------------------------------------------------------

/// Which step's outcome is awaited.
#[derive(Debug, Clone, Copy, PartialEq, Eq)]
pub enum LaunchStage {
    /// The user's token is asked for.
    QueryToken,
    /// The token is duplicated with the rights that starting a process needs.
    DuplicateToken,
    /// The user's environment is built.
    BuildEnvironment,
    /// The process is started as the user.
    CreateAsUser,
    /// The process is started with the token, which needs other privileges.
    CreateWithToken,
    /// Nothing is awaited.
    Over,
}

/// A launch in progress.
#[derive(Debug, Clone, Copy, PartialEq, Eq)]
pub struct Launch {
    pub stage: LaunchStage,
    /// The user's environment was built.
    pub environment: bool,
}

/// Why a launch failed.
#[derive(Debug, Clone, Copy, PartialEq, Eq)]
pub enum LaunchFailure {
    NoExecutable,
    NoToken,
    NoPrimaryToken,
    NoProcess,
}

/// One thing to do for a launch.
#[derive(Debug, Clone, Copy, PartialEq, Eq)]
pub enum LaunchAction {
    /// Take the step, and report its outcome.
    Attempt { stage: LaunchStage },
    /// Report that the helper will inherit the service's environment.
    ReportNoEnvironment,
    /// Report that the process is started in another way.
    ReportFallback,
    /// Report that the other way failed too.
    ReportFallbackFailed,
    /// Free the environment.
    DestroyEnvironment,
    /// Close the process's first thread, which nobody needs.
    CloseThread,
    /// Close the duplicated token.
    ClosePrimaryToken,
    /// Close the user's token.
    CloseUserToken,
    /// The helper runs.
    Succeed,
    /// The helper does not run.
    Fail { cause: LaunchFailure },
}

/// What a launch frees once the process was started or could not be.
pub open spec fn release_actions(environment: bool, started: bool) -> Seq<LaunchAction> {
    (if environment {
        seq![LaunchAction::DestroyEnvironment]
    } else {
        seq![]
    }) + (if started {
        seq![LaunchAction::CloseThread]
    } else {
        seq![]
    }) + seq![LaunchAction::ClosePrimaryToken, LaunchAction::CloseUserToken]
}

/// What follows the outcome of a step.
pub open spec fn launch_actions(launch: Launch, done: bool) -> Seq<LaunchAction> {
    match (launch.stage, done) {
        (LaunchStage::QueryToken, true) => seq![
            LaunchAction::Attempt { stage: LaunchStage::DuplicateToken },
        ],
        (LaunchStage::QueryToken, false) => seq![
            LaunchAction::Fail { cause: LaunchFailure::NoToken },
        ],
        (LaunchStage::DuplicateToken, true) => seq![
            LaunchAction::Attempt { stage: LaunchStage::BuildEnvironment },
        ],
        (LaunchStage::DuplicateToken, false) => seq![
            LaunchAction::CloseUserToken,
            LaunchAction::Fail { cause: LaunchFailure::NoPrimaryToken },
        ],
        (LaunchStage::BuildEnvironment, true) => seq![
            LaunchAction::Attempt { stage: LaunchStage::CreateAsUser },
        ],
        (LaunchStage::BuildEnvironment, false) => seq![
            LaunchAction::ReportNoEnvironment,
            LaunchAction::Attempt { stage: LaunchStage::CreateAsUser },
        ],
        (LaunchStage::CreateAsUser, true) => release_actions(launch.environment, true).push(
            LaunchAction::Succeed,
        ),
        (LaunchStage::CreateAsUser, false) => seq![
            LaunchAction::ReportFallback,
            LaunchAction::Attempt { stage: LaunchStage::CreateWithToken },
        ],
        (LaunchStage::CreateWithToken, true) => release_actions(launch.environment, true).push(
            LaunchAction::Succeed,
        ),
        (LaunchStage::CreateWithToken, false) => seq![LaunchAction::ReportFallbackFailed]
            + release_actions(launch.environment, false).push(
            LaunchAction::Fail { cause: LaunchFailure::NoProcess },
        ),
        (LaunchStage::Over, _) => seq![],
    }
}

/// The launch after the outcome of a step.
pub open spec fn launch_state(launch: Launch, done: bool) -> Launch {
    match (launch.stage, done) {
        (LaunchStage::QueryToken, true) => Launch { stage: LaunchStage::DuplicateToken, ..launch },
        (LaunchStage::DuplicateToken, true) => Launch {
            stage: LaunchStage::BuildEnvironment,
            ..launch
        },
        (LaunchStage::BuildEnvironment, _) => Launch {
            stage: LaunchStage::CreateAsUser,
            environment: done,
        },
        (LaunchStage::CreateAsUser, false) => Launch {
            stage: LaunchStage::CreateWithToken,
            ..launch
        },
        _ => Launch { stage: LaunchStage::Over, environment: false },
    }
}

/// Append what a launch frees.
fn push_release(actions: &mut Vec<LaunchAction>, environment: bool, started: bool)
    ensures
        final(actions)@ == old(actions)@ + release_actions(environment, started),
{
    if environment {
        actions.push(LaunchAction::DestroyEnvironment);
    }
    if started {
        actions.push(LaunchAction::CloseThread);
    }
    actions.push(LaunchAction::ClosePrimaryToken);
    actions.push(LaunchAction::CloseUserToken);
    assert(actions@ =~= old(actions)@ + release_actions(environment, started));
}

impl Launch {
    /// An environment is held only while a process is being started.
    pub open spec fn well_formed(self) -> bool {
        self.environment ==> self.stage is CreateAsUser || self.stage is CreateWithToken
    }

    /// A launch at its first step.
    pub fn new() -> (launch: Launch)
        ensures
            launch == (Launch { stage: LaunchStage::QueryToken, environment: false }),
            launch.well_formed(),
    {
        Launch { stage: LaunchStage::QueryToken, environment: false }
    }

    /// Go on from the outcome of the awaited step.
    pub fn on_outcome(&mut self, done: bool) -> (actions: Vec<LaunchAction>)
        requires
            old(self).well_formed(),
        ensures
            final(self).well_formed(),
            *final(self) == launch_state(*old(self), done),
            actions@ == launch_actions(*old(self), done),
    {
        let mut actions: Vec<LaunchAction> = Vec::new();
        let environment = self.environment;
        match self.stage {
            LaunchStage::QueryToken => {
                if done {
                    self.stage = LaunchStage::DuplicateToken;
                    actions.push(LaunchAction::Attempt { stage: LaunchStage::DuplicateToken });
                } else {
                    self.stage = LaunchStage::Over;
                    actions.push(LaunchAction::Fail { cause: LaunchFailure::NoToken });
                }
            },
            LaunchStage::DuplicateToken => {
                if done {
                    self.stage = LaunchStage::BuildEnvironment;
                    actions.push(LaunchAction::Attempt { stage: LaunchStage::BuildEnvironment });
                } else {
                    self.stage = LaunchStage::Over;
                    actions.push(LaunchAction::CloseUserToken);
                    actions.push(LaunchAction::Fail { cause: LaunchFailure::NoPrimaryToken });
                }
            },
            LaunchStage::BuildEnvironment => {
                // Not fatal: without a block the helper inherits the service's
                // environment, which is enough for it to run.
                if !done {
                    actions.push(LaunchAction::ReportNoEnvironment);
                }
                self.environment = done;
                self.stage = LaunchStage::CreateAsUser;
                actions.push(LaunchAction::Attempt { stage: LaunchStage::CreateAsUser });
            },
            LaunchStage::CreateAsUser => {
                if done {
                    self.stage = LaunchStage::Over;
                    self.environment = false;
                    push_release(&mut actions, environment, true);
                    actions.push(LaunchAction::Succeed);
                } else {
                    self.stage = LaunchStage::CreateWithToken;
                    actions.push(LaunchAction::ReportFallback);
                    actions.push(LaunchAction::Attempt { stage: LaunchStage::CreateWithToken });
                }
            },
            LaunchStage::CreateWithToken => {
                self.stage = LaunchStage::Over;
                self.environment = false;
                if done {
                    push_release(&mut actions, environment, true);
                    actions.push(LaunchAction::Succeed);
                } else {
                    actions.push(LaunchAction::ReportFallbackFailed);
                    push_release(&mut actions, environment, false);
                    actions.push(LaunchAction::Fail { cause: LaunchFailure::NoProcess });
                }
            },
            LaunchStage::Over => {},
        }
        assert(actions@ =~= launch_actions(*old(self), done));
        actions
    }
}

/// A failure in words, with the error that caused it.
pub fn failure_text(cause: LaunchFailure, error: &str) -> (text: String)
    ensures
        text@ == (match cause {
            LaunchFailure::NoExecutable => "could not locate this executable: "@,
            LaunchFailure::NoToken => "WTSQueryUserToken failed: "@,
            LaunchFailure::NoPrimaryToken => "DuplicateTokenEx failed: "@,
            LaunchFailure::NoProcess => "could not start the session helper: "@,
        }) + error@,
{
    let mut text = (match cause {
        LaunchFailure::NoExecutable => "could not locate this executable: ",
        LaunchFailure::NoToken => "WTSQueryUserToken failed: ",
        LaunchFailure::NoPrimaryToken => "DuplicateTokenEx failed: ",
        LaunchFailure::NoProcess => "could not start the session helper: ",
    }).to_owned();
    text.append(error);
    text
}

// ---------------------------------------------------------------------------
// Laws
// ---------------------------------------------------------------------------

/// What a launch can hold.
pub enum Resource {
    UserToken,
    PrimaryToken,
    Environment,
}

/// What a launch holds while it awaits an outcome.
pub open spec fn holds(launch: Launch, resource: Resource) -> bool {
    match resource {
        Resource::UserToken => !(launch.stage is QueryToken || launch.stage is Over),
        Resource::PrimaryToken => launch.stage is BuildEnvironment || launch.stage is CreateAsUser
            || launch.stage is CreateWithToken,
        Resource::Environment => launch.environment,
    }
}

/// The awaited step, done, yields the resource.
pub open spec fn takes(launch: Launch, done: bool, resource: Resource) -> bool {
    done && match resource {
        Resource::UserToken => launch.stage is QueryToken,
        Resource::PrimaryToken => launch.stage is DuplicateToken,
        Resource::Environment => launch.stage is BuildEnvironment,
    }
}

/// The action that gives the resource back.
pub open spec fn giving_back(resource: Resource) -> LaunchAction {
    match resource {
        Resource::UserToken => LaunchAction::CloseUserToken,
        Resource::PrimaryToken => LaunchAction::ClosePrimaryToken,
        Resource::Environment => LaunchAction::DestroyEnvironment,
    }
}

/// How often an action occurs.
pub open spec fn occurrences(actions: Seq<LaunchAction>, action: LaunchAction) -> nat
    decreases actions.len(),
{
    if actions.len() == 0 {
        0
    } else {
        occurrences(actions.drop_last(), action) + if actions.last() == action {
            1nat
        } else {
            0nat
        }
    }
}

/// Whatever fails, a launch gives back exactly once what it took: what it held or
/// was just given, it either goes on holding or gives back now. Once it is over
/// it holds nothing.
pub proof fn a_launch_gives_back_what_it_took(launch: Launch, done: bool, resource: Resource)
    requires
        launch.well_formed(),
        !(launch.stage is Over),
    ensures
        ({
            let before = holds(launch, resource) || takes(launch, done, resource);
            let after = holds(launch_state(launch, done), resource);
            let given = occurrences(launch_actions(launch, done), giving_back(resource));
            &&& before && after ==> given == 0
            &&& before && !after ==> given == 1
            &&& !before ==> !after && given == 0
        }),
        launch_state(launch, done).stage is Over ==> !holds(launch_state(launch, done), resource),
{
    let actions = launch_actions(launch, done);
    reveal_with_fuel(occurrences, 8);
    assert(actions.len() <= 6);
    if actions.len() > 0 {
        let a = actions.drop_last();
        if a.len() > 0 {
            let b = a.drop_last();
            if b.len() > 0 {
                let c = b.drop_last();
                if c.len() > 0 {
                    let d = c.drop_last();
                    if d.len() > 0 {
                        let e = d.drop_last();
                        assert(e.len() <= 1);
                    }
                }
            }
        }
    }
}

/// Two launches of one process at different times have different pipes, so that a
/// helper of the earlier one cannot attach to the later one's pipe.
pub proof fn launches_have_different_pipes(a: u64, b: u64, process_id: u32)
    requires
        a != b,
    ensures
        pipe_name_of(a ^ ((process_id as u64) << 32)) != pipe_name_of(
            b ^ ((process_id as u64) << 32),
        ),
{
    let m = (process_id as u64) << 32;
    let x = a ^ m;
    let y = b ^ m;
    assert(a != b ==> a ^ m != b ^ m) by (bit_vector);
    let prefix = "\\\\.\\pipe\\gbos-agent-session-"@;
    if pipe_name_of(x) == pipe_name_of(y) {
        let n = prefix.len() as int;
        hex_length(x as nat, 16);
        hex_length(y as nat, 16);
        assert(pipe_name_of(x).skip(n) =~= hex(x as nat, 16));
        assert(pipe_name_of(y).skip(n) =~= hex(y as nat, 16));
        hex_is_unambiguous(x as nat, y as nat, 16);
        vstd::arithmetic::power2::lemma2_to64();
        assert(0x1_0000_0000_0000_0000 == vstd::arithmetic::power2::pow2(64));
        assert(x as nat % vstd::arithmetic::power2::pow2(64) == x);
        assert(y as nat % vstd::arithmetic::power2::pow2(64) == y);
        assert(false);
    }
}

/// Hexadecimal digits are as many as asked for.
proof fn hex_length(n: nat, width: nat)
    ensures
        hex(n, width).len() == width,
    decreases width,
{
    if width > 0 {
        hex_length(n / 16, (width - 1) as nat);
    }
}

/// Numbers with the same low digits are equal modulo the power of sixteen.
proof fn hex_is_unambiguous(a: nat, b: nat, width: nat)
    requires
        hex(a, width) == hex(b, width),
    ensures
        a % vstd::arithmetic::power2::pow2(4 * width) == b % vstd::arithmetic::power2::pow2(
            4 * width,
        ),
    decreases width,
{
    vstd::arithmetic::power2::lemma2_to64();
    if width > 0 {
        let w = (width - 1) as nat;
        let (ha, hb) = (hex(a / 16, w), hex(b / 16, w));
        assert(hex(a, width).drop_last() =~= ha);
        assert(hex(b, width).drop_last() =~= hb);
        assert(hex(a, width).last() == crate::text::digit((a % 16) as int));
        assert(hex(b, width).last() == crate::text::digit((b % 16) as int));
        same_digit((a % 16) as int, (b % 16) as int);
        hex_is_unambiguous(a / 16, b / 16, w);
        let p = vstd::arithmetic::power2::pow2(4 * w);
        vstd::arithmetic::power2::lemma_pow2_adds(4 * w, 4);
        vstd::arithmetic::power2::lemma_pow2_pos(4 * w);
        assert(vstd::arithmetic::power2::pow2(4 * width) == 16 * p);
        split_modulus(a, p);
        split_modulus(b, p);
    }
}

/// Different digits are different characters.
proof fn same_digit(x: int, y: int)
    requires
        0 <= x < 16,
        0 <= y < 16,
        crate::text::digit(x) == crate::text::digit(y),
    ensures
        x == y,
{
    assert(crate::text::digit(x) as u32 == if x < 10 {
        48 + x
    } else {
        87 + x
    });
    assert(crate::text::digit(y) as u32 == if y < 10 {
        48 + y
    } else {
        87 + y
    });
}

/// A remainder modulo `16 * p` is the last digit and a remainder modulo `p`.
proof fn split_modulus(a: nat, p: nat)
    requires
        p > 0,
    ensures
        a % (16 * p) == 16 * ((a / 16) % p) + a % 16,
{
    vstd::arithmetic::div_mod::lemma_mod_breakdown(a as int, 16, p as int);
}

/// A launch tries every way before it gives up, and it succeeds if and only if a
/// process was started: every other step leads to the next one or to the failure that it
/// stands for.
pub proof fn a_launch_tries_every_way(launch: Launch, done: bool)
    requires
        launch.well_formed(),
        !(launch.stage is Over),
    ensures
        ({
            let actions = launch_actions(launch, done);
            let after = launch_state(launch, done);
            let starts = launch.stage is CreateAsUser || launch.stage is CreateWithToken;
            &&& actions.len() > 0
            &&& actions.contains(LaunchAction::Succeed) <==> starts && done
            &&& actions.last() is Succeed <==> starts && done
            &&& actions.last() matches LaunchAction::Attempt { stage } ==> after.stage == stage
            &&& after.stage is Over <==> (actions.last() is Succeed || actions.last() is Fail)
            &&& actions.last() is Fail <==> !done && (launch.stage is QueryToken || launch.stage
                is DuplicateToken || launch.stage is CreateWithToken)
            &&& actions.last() matches LaunchAction::Fail { cause } ==> match cause {
                LaunchFailure::NoExecutable => false,
                LaunchFailure::NoToken => launch.stage is QueryToken,
                LaunchFailure::NoPrimaryToken => launch.stage is DuplicateToken,
                LaunchFailure::NoProcess => launch.stage is CreateWithToken,
            }
            &&& launch.stage is QueryToken && done ==> after.stage is DuplicateToken
            &&& launch.stage is DuplicateToken && done ==> after.stage is BuildEnvironment
            &&& launch.stage is BuildEnvironment ==> after.stage is CreateAsUser
                && after.environment == done
            &&& launch.stage is CreateAsUser && !done ==> after.stage is CreateWithToken
                && after.environment == launch.environment
        }),
{
    let actions = launch_actions(launch, done);
    if (launch.stage is CreateAsUser || launch.stage is CreateWithToken) && done {
        assert(actions[actions.len() - 1] is Succeed);
    }
}

/// What went wrong on the way is reported: a missing environment, the other way, and
/// that it failed too.
pub proof fn a_launch_reports_what_went_wrong(launch: Launch, done: bool)
    ensures
        ({
            let actions = launch_actions(launch, done);
            &&& actions.contains(LaunchAction::ReportNoEnvironment) <==> launch.stage
                is BuildEnvironment && !done
            &&& actions.contains(LaunchAction::ReportFallback) <==> launch.stage is CreateAsUser
                && !done
            &&& actions.contains(LaunchAction::ReportFallbackFailed) <==> launch.stage
                is CreateWithToken && !done
            &&& actions.contains(LaunchAction::CloseThread) <==> done && (launch.stage
                is CreateAsUser || launch.stage is CreateWithToken)
        }),
{
    let actions = launch_actions(launch, done);
    if !done && (launch.stage is BuildEnvironment || launch.stage is CreateAsUser || launch.stage
        is CreateWithToken) {
        assert(actions[0] == actions[0]);
    }
    if done && (launch.stage is CreateAsUser || launch.stage is CreateWithToken) {
        assert(actions[if launch.environment { 1int } else { 0int }] == LaunchAction::CloseThread);
    }
}

/// A pipe is named by the sixteen hexadecimal digits of its nonce.
pub proof fn pipes_are_named_by_their_nonce(nonce: u64)
    ensures
        ({
            let name = pipe_name_of(nonce);
            let n = "\\\\.\\pipe\\gbos-agent-session-"@.len() as int;
            &&& name.len() == n + 16
            &&& name.take(n) == "\\\\.\\pipe\\gbos-agent-session-"@
            &&& crate::text::hex_value(name.skip(n)) == nonce
        }),
{
    let prefix = "\\\\.\\pipe\\gbos-agent-session-"@;
    let digits = hex(nonce as nat, 16);
    crate::text::hex_reads_back(nonce as nat, 16);
    assert(pipe_name_of(nonce).take(prefix.len() as int) =~= prefix);
    assert(pipe_name_of(nonce).skip(prefix.len() as int) =~= digits);
    crate::text::small_numbers_keep_their_digits(nonce);
}

/// What a launch gives back goes in order: the environment, the thread of the process, and
/// then the tokens, the user's last.
pub proof fn launches_give_back_in_order(environment: bool, started: bool)
    ensures
        ({
            let actions = release_actions(environment, started);
            &&& actions.len() >= 2
            &&& actions.last() == LaunchAction::CloseUserToken
            &&& actions[actions.len() - 2] == LaunchAction::ClosePrimaryToken
            &&& environment ==> actions[0] == LaunchAction::DestroyEnvironment
            &&& started ==> actions[actions.len() - 3] == LaunchAction::CloseThread
            &&& actions.len() == 2 + (if environment { 1int } else { 0 }) + (if started {
                1int
            } else {
                0
            })
        }),
{
}

} // verus!
