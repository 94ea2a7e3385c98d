//! macOS launchd LaunchDaemon installation.
//!
//! The agent installs as a system daemon, so it starts at boot and keeps running
//! across logout and across user sessions. A root daemon has no GUI session, so
//! Screen Recording and Core Location are unavailable to it. Because nothing needs
//! bundle identity, the daemon runs a bare binary.

use vstd::prelude::*;

use crate::logging::UNIX_LOG_PATH;
use crate::service::Outcome;
use crate::text::{
    chars_of, has_prefix, holds, is_held, line_chars, lines, lossy_text, same_text, split_lines,
    strip_prefix, text_of, trim, trimmed, utf8_lossy,
};

verus! {

/// launchd job label, matching the bundle identifier used elsewhere.
pub const LABEL: &'static str = "com.gbaja.gbos.agent";

/// The job as `launchctl` names it.
pub const TARGET: &'static str = "system/com.gbaja.gbos.agent";

/// Where the daemon binary is installed. `libexec` is the conventional home for a
/// helper binary that users are not meant to run directly.
pub const INSTALL_PATH: &'static str = "/usr/local/libexec/gbos-agent";

/// The directory of the daemon binary.
pub const INSTALL_DIRECTORY: &'static str = "/usr/local/libexec";

pub const PLIST_PATH: &'static str = "/Library/LaunchDaemons/com.gbaja.gbos.agent.plist";

pub const ERROR_LOG_PATH: &'static str = "/var/log/gbos-agent.err.log";

/// What stands behind a failure that root would not have had.
pub const ROOT_HINT: &'static str =
    "\nInstalling a system daemon requires root — re-run with sudo.";

// ---------------------------------------------------------------------------
// The daemon's description
// ---------------------------------------------------------------------------

pub const PLIST_HEAD: &'static str = "<?xml version=\"1.0\" encoding=\"UTF-8\"?>
<!DOCTYPE plist PUBLIC \"-//Apple//DTD PLIST 1.0//EN\" \"http://www.apple.com/DTDs/PropertyList-1.0.dtd\">
<plist version=\"1.0\">
<dict>
    <key>Label</key>
    <string>";

pub const PLIST_PROGRAM: &'static str = "</string>

    <key>ProgramArguments</key>
    <array>
        <string>";

pub const PLIST_POLICY: &'static str = "</string>
    </array>

    <key>RunAtLoad</key>
    <true/>

    <!-- Restart on an unclean exit, but honour a deliberate stop. A plain
         `true` would fight `launchctl bootout`. -->
    <key>KeepAlive</key>
    <dict>
        <key>SuccessfulExit</key>
        <false/>
    </dict>

    <!-- Cap restart storms if the backend is unreachable for a long time. -->
    <key>ThrottleInterval</key>
    <integer>10</integer>

    <key>ProcessType</key>
    <string>Background</string>

    <key>EnvironmentVariables</key>
    <dict>
        <key>GBOS_API_URL</key>
        <string>";

pub const PLIST_OUTPUT: &'static str = "</string>
    </dict>

    <key>StandardOutPath</key>
    <string>";

pub const PLIST_ERRORS: &'static str = "</string>

    <key>StandardErrorPath</key>
    <string>";

pub const PLIST_TAIL: &'static str = "</string>
</dict>
</plist>
";

/// The launchd plist of a daemon that talks to the backend at `api_url`.
pub open spec fn plist_text(api_url: Seq<char>) -> Seq<char> {
    PLIST_HEAD@ + LABEL@ + PLIST_PROGRAM@ + INSTALL_PATH@ + PLIST_POLICY@ + api_url + PLIST_OUTPUT@
        + UNIX_LOG_PATH@ + PLIST_ERRORS@ + ERROR_LOG_PATH@ + PLIST_TAIL@
}

/// The launchd plist that describes the daemon.
///
/// The API URL is baked in so a build pointed at a non-production backend keeps
/// pointing there once it is running as a service: launchd starts the daemon with
/// a near-empty environment.
pub fn plist_contents(api_url: &str) -> (plist: String)
    ensures
        plist@ == plist_text(api_url@),
{
    let mut plist = PLIST_HEAD.to_owned();
    plist.append(LABEL);
    plist.append(PLIST_PROGRAM);
    plist.append(INSTALL_PATH);
    plist.append(PLIST_POLICY);
    plist.append(api_url);
    plist.append(PLIST_OUTPUT);
    plist.append(UNIX_LOG_PATH);
    plist.append(PLIST_ERRORS);
    plist.append(ERROR_LOG_PATH);
    plist.append(PLIST_TAIL);
    plist
}

// ---------------------------------------------------------------------------
// Paths
// ---------------------------------------------------------------------------

/// Where the name that begins at `from` ends: at the next slash, or at the end.
pub open spec fn name_end(path: Seq<char>, from: int) -> int
    decreases path.len() - from,
{
    if from >= path.len() {
        path.len() as int
    } else if path[from] == '/' {
        from
    } else {
        name_end(path, from + 1)
    }
}

/// A name does not end before it begins.
pub proof fn name_end_is_ahead(path: Seq<char>, from: int)
    requires
        from <= path.len(),
    ensures
        from <= name_end(path, from) <= path.len(),
    decreases path.len() - from,
{
    if from < path.len() && path[from] != '/' {
        name_end_is_ahead(path, from + 1);
    }
}

/// The names in `path` from position `from` on: what stands between slashes, but for
/// nothing at all and for a single dot.
pub open spec fn names_from(path: Seq<char>, from: int) -> Seq<Seq<char>>
    decreases path.len() + 1 - from,
{
    if from >= path.len() {
        seq![]
    } else {
        proof {
            name_end_is_ahead(path, from);
        }
        let end = name_end(path, from);
        let name = path.subrange(from, end);
        (if name.len() == 0 || name == seq!['.'] {
            seq![]
        } else {
            seq![name]
        }) + names_from(path, end + 1)
    }
}

/// Two absolute paths are the same: they go by the same names.
pub open spec fn same_absolute_path(a: Seq<char>, b: Seq<char>) -> bool {
    &&& a.len() > 0 && a[0] == '/'
    &&& b.len() > 0 && b[0] == '/'
    &&& names_from(a, 0) == names_from(b, 0)
}

/// The names in `path`.
fn path_names<'a>(path: &'a [char]) -> (found: Vec<&'a [char]>)
    ensures
        line_chars(found@) == names_from(path@, 0),
{
    let mut found: Vec<&'a [char]> = Vec::new();
    let mut from: usize = 0;
    assert(line_chars(found@) + names_from(path@, 0) =~= names_from(path@, 0));
    while from < path.len()
        invariant
            from <= path@.len(),
            line_chars(found@) + names_from(path@, from as int) == names_from(path@, 0),
        decreases path@.len() - from,
    {
        let mut end: usize = from;
        while end < path.len() && path[end] != '/'
            invariant
                from <= end <= path@.len(),
                name_end(path@, end as int) == name_end(path@, from as int),
            decreases path@.len() - end,
        {
            end = end + 1;
        }
        let ghost before = line_chars(found@);
        let name: &'a [char] = vstd::slice::slice_subrange(path, from, end);
        if !(name.len() == 0 || (name.len() == 1 && name[0] == '.')) {
            found.push(name);
            assert(line_chars(found@) =~= before.push(name@));
            assert(name@ != seq!['.']);
        } else if name.len() == 1 {
            assert(name@ =~= seq!['.']);
        }
        assert(before + names_from(path@, from as int) =~= line_chars(found@) + names_from(
            path@,
            end + 1,
        ));
        if end < path.len() {
            from = end + 1;
        } else {
            assert(names_from(path@, end + 1) =~= names_from(path@, end as int));
            from = end;
        }
    }
    assert(line_chars(found@) =~= line_chars(found@) + names_from(path@, from as int));
    found
}

/// Whether two lists hold the same names.
fn same_names(a: &Vec<&[char]>, b: &Vec<&[char]>) -> (same: bool)
    ensures
        same == (line_chars(a@) == line_chars(b@)),
{
    if a.len() != b.len() {
        assert(line_chars(a@).len() != line_chars(b@).len());
        return false;
    }
    let mut i: usize = 0;
    while i < a.len()
        invariant
            i <= a@.len() == b@.len(),
            forall|k: int| 0 <= k < i ==> (#[trigger] a@[k])@ == b@[k]@,
        decreases a@.len() - i,
    {
        if !same_text(text_of(a[i]).as_str(), text_of(b[i]).as_str()) {
            assert(line_chars(a@)[i as int] != line_chars(b@)[i as int]);
            return false;
        }
        i = i + 1;
    }
    assert(line_chars(a@) =~= line_chars(b@));
    true
}

/// Whether a binary at `source` is already where the daemon's binary is installed.
fn is_in_place(source: &str) -> (in_place: bool)
    ensures
        in_place == same_absolute_path(source@, INSTALL_PATH@),
{
    proof {
        reveal_strlit("/usr/local/libexec/gbos-agent");
    }
    let path = chars_of(source);
    let target = chars_of(INSTALL_PATH);
    let absolute = path.len() > 0 && path[0] == '/';
    absolute && same_names(&path_names(path.as_slice()), &path_names(target.as_slice()))
}

// ---------------------------------------------------------------------------
// Steps
// ---------------------------------------------------------------------------

/// What `launchctl` is asked to do.
#[derive(Debug, Clone, Copy, PartialEq, Eq)]
pub enum Verb {
    Bootout,
    Bootstrap,
    Enable,
    Kickstart,
    Print,
}

/// One step of an installation or a removal.
#[derive(Debug, Clone, Copy, PartialEq, Eq)]
pub enum MacStep {
    /// Create the directory of the binary.
    MakeDirectory,
    /// Copy the running binary into place.
    CopyBinary,
    /// Make the binary executable.
    SetBinaryMode,
    /// Remove a plist that may be left from before.
    ClearPlist,
    /// Write the plist.
    WritePlist,
    /// Make the plist readable.
    SetPlistMode,
    /// Give the plist to root, as launchd requires.
    ChangePlistOwner,
    /// Run `launchctl`.
    Launchctl { verb: Verb },
    /// Remove the plist, if it is there.
    RemovePlist,
    /// Remove the binary, if it is there.
    RemoveBinary,
}

/// The steps of an installation. A binary that already runs from where it is
/// installed is not copied. An existing job is booted out first, so that running
/// this again is how an upgrade is applied.
pub open spec fn install_plan(source: Seq<char>) -> Seq<MacStep> {
    (if same_absolute_path(source, INSTALL_PATH@) {
        seq![]
    } else {
        seq![MacStep::MakeDirectory, MacStep::CopyBinary, MacStep::SetBinaryMode]
    }) + seq![
        MacStep::ClearPlist,
        MacStep::WritePlist,
        MacStep::SetPlistMode,
        MacStep::ChangePlistOwner,
        MacStep::Launchctl { verb: Verb::Bootout },
        MacStep::Launchctl { verb: Verb::Bootstrap },
        MacStep::Launchctl { verb: Verb::Enable },
        MacStep::Launchctl { verb: Verb::Kickstart },
    ]
}

/// Install (or upgrade) the daemon and start it.
pub fn install(source: &str) -> (steps: Vec<MacStep>)
    ensures
        steps@ == install_plan(source@),
{
    let mut steps: Vec<MacStep> = Vec::new();
    if !is_in_place(source) {
        steps.push(MacStep::MakeDirectory);
        steps.push(MacStep::CopyBinary);
        steps.push(MacStep::SetBinaryMode);
    }
    steps.push(MacStep::ClearPlist);
    steps.push(MacStep::WritePlist);
    steps.push(MacStep::SetPlistMode);
    steps.push(MacStep::ChangePlistOwner);
    steps.push(MacStep::Launchctl { verb: Verb::Bootout });
    steps.push(MacStep::Launchctl { verb: Verb::Bootstrap });
    steps.push(MacStep::Launchctl { verb: Verb::Enable });
    steps.push(MacStep::Launchctl { verb: Verb::Kickstart });
    assert(steps@ =~= install_plan(source@));
    steps
}

/// The steps of a removal.
pub open spec fn uninstall_plan() -> Seq<MacStep> {
    seq![
        MacStep::Launchctl { verb: Verb::Bootout },
        MacStep::RemovePlist,
        MacStep::RemoveBinary,
    ]
}

/// Stop the daemon and remove everything an installation created.
pub fn uninstall() -> (steps: Vec<MacStep>)
    ensures
        steps@ == uninstall_plan(),
{
    let mut steps: Vec<MacStep> = Vec::new();
    steps.push(MacStep::Launchctl { verb: Verb::Bootout });
    steps.push(MacStep::RemovePlist);
    steps.push(MacStep::RemoveBinary);
    assert(steps@ =~= uninstall_plan());
    steps
}

/// The steps whose failure does not matter: they clear away what may not be there.
pub open spec fn may_fail(step: MacStep) -> bool {
    step is ClearPlist || step is ChangePlistOwner || step == (MacStep::Launchctl {
        verb: Verb::Bootout,
    })
}

/// How a step ended: it was done, or it failed, and then whether because a file was
/// missing.
#[derive(Debug, Clone, Copy, PartialEq, Eq)]
pub struct StepOutcome {
    pub done: bool,
    pub missing: bool,
}

/// An installation or a removal goes on from a step that ended so. A file that is to be
/// removed may be missing.
pub open spec fn passes(step: MacStep, outcome: StepOutcome) -> bool {
    outcome.done || may_fail(step) || (outcome.missing && (step is RemovePlist || step
        is RemoveBinary))
}

/// Whether an installation or a removal goes on from a step, given how it ended.
pub fn goes_on(step: MacStep, done: bool, missing: bool) -> (on: bool)
    ensures
        on == passes(step, (StepOutcome { done, missing })),
        on == (done || may_fail(step) || (missing && (step is RemovePlist || step
            is RemoveBinary))),
{
    if done {
        return true;
    }
    match step {
        MacStep::ClearPlist => true,
        MacStep::ChangePlistOwner => true,
        MacStep::Launchctl { verb: Verb::Bootout } => true,
        MacStep::RemovePlist => missing,
        MacStep::RemoveBinary => missing,
        _ => false,
    }
}

/// How far an installation or a removal has come.
#[derive(Debug, Clone, Copy, PartialEq, Eq)]
pub enum PlanProgress {
    /// This step is next.
    Next { step: MacStep },
    /// It failed at this step.
    Failed { step: MacStep },
    /// Every step is behind it.
    Succeeded,
}

/// The first `k` steps of a plan all passed.
pub open spec fn all_pass(plan: Seq<MacStep>, outcomes: Seq<StepOutcome>, k: int) -> bool {
    forall|i: int| 0 <= i < k ==> passes(#[trigger] plan[i], outcomes[i])
}

/// The step at which a plan whose steps ended so has failed, if any: the first that did
/// not pass.
pub open spec fn failed_at(plan: Seq<MacStep>, outcomes: Seq<StepOutcome>, k: int) -> Option<int>
    decreases plan.len() - k,
{
    if k < 0 || k >= plan.len() || k >= outcomes.len() {
        None
    } else if !passes(plan[k], outcomes[k]) {
        Some(k)
    } else {
        failed_at(plan, outcomes, k + 1)
    }
}

/// How far a plan has come whose steps, as many as were taken, ended so.
pub open spec fn progress_of(plan: Seq<MacStep>, outcomes: Seq<StepOutcome>) -> PlanProgress {
    match failed_at(plan, outcomes, 0) {
        Some(k) => PlanProgress::Failed { step: plan[k] },
        None => if outcomes.len() < plan.len() {
            PlanProgress::Next { step: plan[outcomes.len() as int] }
        } else {
            PlanProgress::Succeeded
        },
    }
}

/// How far an installation or a removal has come, by how its steps ended so far.
pub fn progress(plan: &Vec<MacStep>, outcomes: &Vec<StepOutcome>) -> (progress: PlanProgress)
    ensures
        progress == progress_of(plan@, outcomes@),
{
    let mut k: usize = 0;
    while k < plan.len() && k < outcomes.len()
        invariant
            k <= plan@.len(),
            k <= outcomes@.len(),
            failed_at(plan@, outcomes@, 0) == failed_at(plan@, outcomes@, k as int),
        decreases plan@.len() - k,
    {
        let outcome = outcomes[k];
        if !goes_on(plan[k], outcome.done, outcome.missing) {
            return PlanProgress::Failed { step: plan[k] };
        }
        k = k + 1;
    }
    if outcomes.len() < plan.len() {
        PlanProgress::Next { step: plan[outcomes.len()] }
    } else {
        PlanProgress::Succeeded
    }
}

/// A plan fails at the first step that does not pass, and where there is none it has
/// not failed.
proof fn the_first_failure_counts(plan: Seq<MacStep>, outcomes: Seq<StepOutcome>, k: int)
    requires
        0 <= k,
        all_pass(plan, outcomes, k),
    ensures
        failed_at(plan, outcomes, k) matches Some(at) ==> {
            &&& k <= at < plan.len()
            &&& at < outcomes.len()
            &&& !passes(plan[at], outcomes[at])
            &&& all_pass(plan, outcomes, at)
        },
        failed_at(plan, outcomes, k) is None ==> forall|i: int|
            0 <= i < plan.len() && i < outcomes.len() ==> passes(#[trigger] plan[i], outcomes[i]),
    decreases plan.len() - k,
{
    if k < plan.len() && k < outcomes.len() && passes(plan[k], outcomes[k]) {
        the_first_failure_counts(plan, outcomes, k + 1);
    }
}

/// No step is taken behind one that did not pass; a plan succeeds if and only if every
/// one of its steps passed, and fails at the first that did not.
pub proof fn plans_end_at_their_first_failure(plan: Seq<MacStep>, outcomes: Seq<StepOutcome>)
    requires
        outcomes.len() <= plan.len(),
    ensures
        progress_of(plan, outcomes) is Next <==> outcomes.len() < plan.len() && all_pass(
            plan,
            outcomes,
            outcomes.len() as int,
        ),
        progress_of(plan, outcomes) is Succeeded <==> outcomes.len() == plan.len() && all_pass(
            plan,
            outcomes,
            plan.len() as int,
        ),
        progress_of(plan, outcomes) matches PlanProgress::Failed { step } ==> exists|k: int|
            0 <= k < outcomes.len() && #[trigger] plan[k] == step && !passes(step, outcomes[k])
                && all_pass(plan, outcomes, k),
{
    the_first_failure_counts(plan, outcomes, 0);
    if let Some(k) = failed_at(plan, outcomes, 0) {
        assert(plan[k] == progress_of(plan, outcomes)->Failed_step);
        assert(!all_pass(plan, outcomes, outcomes.len() as int));
    }
}

/// Why an installation or a removal ended at a step. A failed `launchctl` explains
/// itself.
pub open spec fn step_failure(step: MacStep, source: Seq<char>, error: Seq<char>) -> Seq<char> {
    match step {
        MacStep::MakeDirectory => "could not create "@ + INSTALL_DIRECTORY@ + ": "@ + error,
        MacStep::CopyBinary => "could not install "@ + source + " to "@ + INSTALL_PATH@ + ": "@
            + error + ROOT_HINT@,
        MacStep::SetBinaryMode => "could not set mode 755 on "@ + INSTALL_PATH@ + ": "@ + error,
        MacStep::WritePlist => "could not write "@ + PLIST_PATH@ + ": "@ + error + ROOT_HINT@,
        MacStep::SetPlistMode => "could not set mode 644 on "@ + PLIST_PATH@ + ": "@ + error,
        MacStep::RemovePlist => "could not remove "@ + PLIST_PATH@ + ": "@ + error,
        MacStep::RemoveBinary => "could not remove "@ + INSTALL_PATH@ + ": "@ + error,
        _ => error,
    }
}

/// `before` + `path` + ": " + `error` + `after`
fn path_failure(before: &str, path: &str, error: &str, after: &str) -> (text: String)
    ensures
        text@ == before@ + path@ + ": "@ + error@ + after@,
{
    let mut text = before.to_owned();
    text.append(path);
    text.append(": ");
    text.append(error);
    text.append(after);
    text
}

/// Why an installation or a removal ended at a step.
pub fn failure_text(step: MacStep, source: &str, error: &str) -> (text: String)
    ensures
        text@ == step_failure(step, source@, error@),
{
    proof {
        reveal_strlit("");
    }
    let text = match step {
        MacStep::MakeDirectory => path_failure("could not create ", INSTALL_DIRECTORY, error, ""),
        MacStep::CopyBinary => {
            let mut before = "could not install ".to_owned();
            before.append(source);
            before.append(" to ");
            path_failure(before.as_str(), INSTALL_PATH, error, ROOT_HINT)
        },
        MacStep::SetBinaryMode => path_failure(
            "could not set mode 755 on ",
            INSTALL_PATH,
            error,
            "",
        ),
        MacStep::WritePlist => path_failure("could not write ", PLIST_PATH, error, ROOT_HINT),
        MacStep::SetPlistMode => path_failure("could not set mode 644 on ", PLIST_PATH, error, ""),
        MacStep::RemovePlist => path_failure("could not remove ", PLIST_PATH, error, ""),
        MacStep::RemoveBinary => path_failure("could not remove ", INSTALL_PATH, error, ""),
        _ => error.to_owned(),
    };
    assert(text@ =~= step_failure(step, source@, error@));
    text
}

// ---------------------------------------------------------------------------
// launchctl
// ---------------------------------------------------------------------------

/// The arguments of `launchctl`.
pub open spec fn launchctl_words(verb: Verb) -> Seq<Seq<char>> {
    match verb {
        Verb::Bootout => seq!["bootout"@, "system"@, PLIST_PATH@],
        Verb::Bootstrap => seq!["bootstrap"@, "system"@, PLIST_PATH@],
        Verb::Enable => seq!["enable"@, TARGET@],
        Verb::Kickstart => seq!["kickstart"@, "-k"@, TARGET@],
        Verb::Print => seq!["print"@, TARGET@],
    }
}

/// `words`, joined by spaces.
pub open spec fn joined(words: Seq<Seq<char>>) -> Seq<char>
    decreases words.len(),
{
    if words.len() == 0 {
        seq![]
    } else if words.len() == 1 {
        words[0]
    } else {
        joined(words.drop_last()) + " "@ + words.last()
    }
}

/// The characters of each argument.
pub open spec fn argument_chars(arguments: Seq<&'static str>) -> Seq<Seq<char>> {
    arguments.map_values(|argument: &'static str| argument@)
}

/// The arguments of `launchctl`.
pub fn launchctl_args(verb: Verb) -> (arguments: Vec<&'static str>)
    ensures
        argument_chars(arguments@) == launchctl_words(verb),
{
    let mut arguments: Vec<&'static str> = Vec::new();
    match verb {
        Verb::Bootout => {
            arguments.push("bootout");
            arguments.push("system");
            arguments.push(PLIST_PATH);
        },
        Verb::Bootstrap => {
            arguments.push("bootstrap");
            arguments.push("system");
            arguments.push(PLIST_PATH);
        },
        Verb::Enable => {
            arguments.push("enable");
            arguments.push(TARGET);
        },
        Verb::Kickstart => {
            arguments.push("kickstart");
            arguments.push("-k");
            arguments.push(TARGET);
        },
        Verb::Print => {
            arguments.push("print");
            arguments.push(TARGET);
        },
    }
    assert(argument_chars(arguments@) =~= launchctl_words(verb));
    arguments
}

/// The arguments of `launchctl`, joined by spaces.
fn launchctl_text(verb: Verb) -> (text: String)
    ensures
        text@ == joined(launchctl_words(verb)),
{
    let arguments = launchctl_args(verb);
    let ghost words = launchctl_words(verb);
    let mut text = String::new();
    let mut i: usize = 0;
    assert(words.take(0) =~= seq![]);
    while i < arguments.len()
        invariant
            i <= arguments@.len(),
            words == argument_chars(arguments@),
            text@ == joined(words.take(i as int)),
        decreases arguments@.len() - i,
    {
        if i > 0 {
            text.append(" ");
        }
        text.append(arguments[i]);
        assert(words.take(i + 1).drop_last() =~= words.take(i as int));
        assert(text@ =~= joined(words.take(i + 1)));
        i = i + 1;
    }
    assert(words.take(words.len() as int) =~= words);
    text
}

/// What is said where `launchctl` cannot be run.
pub fn launchctl_missing(verb: Verb, error: &str) -> (text: String)
    ensures
        text@ == "could not run launchctl "@ + joined(launchctl_words(verb)) + ": "@ + error@,
{
    let mut text = "could not run launchctl ".to_owned();
    text.append(launchctl_text(verb).as_str());
    text.append(": ");
    text.append(error);
    text
}

/// What `launchctl` said when it failed: its errors, or its output where there are
/// none.
pub open spec fn failure_detail(stdout: Seq<char>, stderr: Seq<char>) -> Seq<char> {
    if trimmed(stderr).len() == 0 {
        trimmed(stdout)
    } else {
        trimmed(stderr)
    }
}

/// What is said where `launchctl` failed.
pub fn launchctl_failed(verb: Verb, status: &str, stdout: &[u8], stderr: &[u8]) -> (text: String)
    ensures
        text@ == "launchctl "@ + joined(launchctl_words(verb)) + " failed ("@ + status@ + "): "@
            + failure_detail(lossy_text(stdout@), lossy_text(stderr@)),
{
    let errors = chars_of(utf8_lossy(stderr).as_str());
    let output = chars_of(utf8_lossy(stdout).as_str());
    let mut detail: &[char] = trim(errors.as_slice());
    if detail.len() == 0 {
        detail = trim(output.as_slice());
    }
    let mut text = "launchctl ".to_owned();
    text.append(launchctl_text(verb).as_str());
    text.append(" failed (");
    text.append(status);
    text.append("): ");
    crate::text::push_chars(&mut text, detail);
    text
}

// ---------------------------------------------------------------------------
// Status
// ---------------------------------------------------------------------------

/// `present` or `missing`.
pub open spec fn presence(exists: bool) -> Seq<char> {
    if exists {
        "present"@
    } else {
        "missing"@
    }
}

/// The first part of the status report: what is installed.
pub fn status_header(plist_exists: bool, binary_exists: bool) -> (text: String)
    ensures
        text@ == "GBOS agent service status\n  label:      "@ + LABEL@ + "\n  plist:      "@
            + PLIST_PATH@ + " ("@ + presence(plist_exists) + ")\n  binary:     "@ + INSTALL_PATH@
            + " ("@ + presence(binary_exists) + ")\n  log:        "@ + UNIX_LOG_PATH@ + "\n"@,
{
    let mut text = "GBOS agent service status\n  label:      ".to_owned();
    text.append(LABEL);
    text.append("\n  plist:      ");
    text.append(PLIST_PATH);
    text.append(" (");
    text.append(if plist_exists { "present" } else { "missing" });
    text.append(")\n  binary:     ");
    text.append(INSTALL_PATH);
    text.append(" (");
    text.append(if binary_exists { "present" } else { "missing" });
    text.append(")\n  log:        ");
    text.append(UNIX_LOG_PATH);
    text.append("\n");
    text
}

/// What `launchctl print` came to.
pub enum PrintOutcome {
    /// It printed the job.
    Printed { stdout: Vec<u8> },
    /// There is no such job.
    NotLoaded,
    /// It could not be run.
    Failed { error: String },
}

/// The state on the first line from `from` on that gives one.
pub open spec fn state_on_lines(lines: Seq<Seq<char>>, from: int) -> Seq<char>
    decreases lines.len() - from,
{
    if from >= lines.len() {
        "unknown"@
    } else if has_prefix(trimmed(lines[from]), "state = "@) {
        trimmed(lines[from]).skip("state = "@.len() as int)
    } else {
        state_on_lines(lines, from + 1)
    }
}

/// The job's state in what `launchctl print` printed.
pub open spec fn launchd_state(printed: Seq<char>) -> Seq<char> {
    state_on_lines(lines(printed), 0)
}

/// The job's state in what `launchctl print` printed. It prints `state = running`
/// among many other fields.
pub fn read_state(printed: &str) -> (state: String)
    ensures
        state@ == launchd_state(printed@),
{
    let chars = chars_of(printed);
    let found = split_lines(chars.as_slice());
    let ghost all = lines(printed@);
    let mut i: usize = 0;
    while i < found.len()
        invariant
            i <= found@.len(),
            all == lines(printed@),
            line_chars(found@) == all,
            state_on_lines(all, i as int) == state_on_lines(all, 0),
        decreases found@.len() - i,
    {
        assert(all[i as int] == found@[i as int]@);
        if let Some(rest) = strip_prefix(trim(found[i]), "state = ") {
            return text_of(rest);
        }
        i = i + 1;
    }
    "unknown".to_owned()
}

/// The second part of the status report for a job in this state. A loaded job that
/// does not run is the confusing case worth flagging.
pub open spec fn loaded_text(state: Seq<char>) -> Seq<char> {
    "  loaded:     yes\n  state:      "@ + state + "\n"@ + (if state == "running"@ {
        seq![]
    } else {
        "\nThe daemon is loaded but not running. Check "@ + ERROR_LOG_PATH@
            + " for why it exited.\n"@
    })
}

/// The second part of the status report for a job in this state.
pub fn loaded_status(state: &str) -> (outcome: Outcome)
    ensures
        outcome.success == (state@ == "running"@),
        outcome.message@ == loaded_text(state@),
{
    let mut message = "  loaded:     yes\n  state:      ".to_owned();
    message.append(state);
    message.append("\n");
    let success = same_text(state, "running");
    if !success {
        message.append("\nThe daemon is loaded but not running. Check ");
        message.append(ERROR_LOG_PATH);
        message.append(" for why it exited.\n");
    }
    assert(message@ =~= loaded_text(state@));
    Outcome { message, success }
}

/// The second part of the status report: whether the daemon runs.
pub fn status(outcome: PrintOutcome) -> (report: Outcome)
    ensures
        match outcome {
            PrintOutcome::Printed { stdout } => {
                &&& report.success == (launchd_state(lossy_text(stdout@)) == "running"@)
                &&& report.message@ == loaded_text(launchd_state(lossy_text(stdout@)))
            },
            PrintOutcome::NotLoaded => {
                &&& !report.success
                &&& report.message@
                    == "  loaded:     no\n\nThe daemon is not registered. Install it with:\n  sudo "@
                    + INSTALL_PATH@ + " --install-service\n"@
            },
            PrintOutcome::Failed { error } => {
                &&& !report.success
                &&& report.message@ == "  loaded:     unknown (launchctl failed: "@ + error@ + ")\n"@
            },
        },
{
    match outcome {
        PrintOutcome::Printed { stdout } => {
            let printed = utf8_lossy(stdout.as_slice());
            loaded_status(read_state(printed.as_str()).as_str())
        },
        PrintOutcome::NotLoaded => {
            let mut message =
                "  loaded:     no\n\nThe daemon is not registered. Install it with:\n  sudo ".to_owned();
            message.append(INSTALL_PATH);
            message.append(" --install-service\n");
            Outcome { message, success: false }
        },
        PrintOutcome::Failed { error } => {
            let mut message = "  loaded:     unknown (launchctl failed: ".to_owned();
            message.append(error.as_str());
            message.append(")\n");
            Outcome { message, success: false }
        },
    }
}

// ---------------------------------------------------------------------------
// Laws
// ---------------------------------------------------------------------------

/// A removal undoes an installation: it boots the job out, and it removes every
/// file that an installation writes.
pub proof fn a_removal_undoes_an_installation(source: Seq<char>)
    ensures
        install_plan(source).contains(MacStep::WritePlist) ==> uninstall_plan().contains(
            MacStep::RemovePlist,
        ),
        install_plan(source).contains(MacStep::CopyBinary) ==> uninstall_plan().contains(
            MacStep::RemoveBinary,
        ),
        uninstall_plan()[0] == (MacStep::Launchctl { verb: Verb::Bootout }),
{
    assert(uninstall_plan()[1] == MacStep::RemovePlist);
    assert(uninstall_plan()[2] == MacStep::RemoveBinary);
}

/// An installation never loads a job over one that is loaded: a bootstrap comes
/// right behind a bootout, which may fail.
pub proof fn an_existing_job_is_booted_out_first(source: Seq<char>, i: int)
    requires
        0 <= i < install_plan(source).len(),
        install_plan(source)[i] == (MacStep::Launchctl { verb: Verb::Bootstrap }),
    ensures
        i > 0,
        install_plan(source)[i - 1] == (MacStep::Launchctl { verb: Verb::Bootout }),
        may_fail(install_plan(source)[i - 1]),
{
}

/// Only the backend's URL differs between two plists; it stands there as it is.
pub proof fn plists_differ_in_the_url_alone(url: Seq<char>, other: Seq<char>)
    ensures
        exists|ahead: Seq<char>, behind: Seq<char>|
            #![trigger is_held(plist_text(url), url, ahead, behind)]
            is_held(plist_text(url), url, ahead, behind) && is_held(
                plist_text(other),
                other,
                ahead,
                behind,
            ) && holds(ahead, "com.gbaja.gbos.agent"@) && holds(
                ahead,
                "/usr/local/libexec/gbos-agent"@,
            ) && holds(behind, "/var/log/gbos-agent.log"@) && holds(
                behind,
                "/var/log/gbos-agent.err.log"@,
            ),
{
    let ahead = PLIST_HEAD@ + LABEL@ + PLIST_PROGRAM@ + INSTALL_PATH@ + PLIST_POLICY@;
    let behind = PLIST_OUTPUT@ + UNIX_LOG_PATH@ + PLIST_ERRORS@ + ERROR_LOG_PATH@ + PLIST_TAIL@;
    assert(plist_text(url) =~= ahead + url + behind);
    assert(plist_text(other) =~= ahead + other + behind);
    assert(is_held(plist_text(url), url, ahead, behind));
    let rest = PLIST_PROGRAM@ + INSTALL_PATH@ + PLIST_POLICY@;
    assert(ahead =~= PLIST_HEAD@ + LABEL@ + rest);
    assert(is_held(ahead, LABEL@, PLIST_HEAD@, rest));
    assert(is_held(ahead, INSTALL_PATH@, PLIST_HEAD@ + LABEL@ + PLIST_PROGRAM@, PLIST_POLICY@));
    let tail = PLIST_ERRORS@ + ERROR_LOG_PATH@ + PLIST_TAIL@;
    assert(behind =~= PLIST_OUTPUT@ + UNIX_LOG_PATH@ + tail);
    assert(is_held(behind, UNIX_LOG_PATH@, PLIST_OUTPUT@, tail));
    assert(is_held(
        behind,
        ERROR_LOG_PATH@,
        PLIST_OUTPUT@ + UNIX_LOG_PATH@ + PLIST_ERRORS@,
        PLIST_TAIL@,
    ));
}

/// The place of a step in an installation.
pub open spec fn place(step: MacStep) -> int {
    match step {
        MacStep::MakeDirectory => 1,
        MacStep::CopyBinary => 2,
        MacStep::SetBinaryMode => 3,
        MacStep::ClearPlist => 4,
        MacStep::WritePlist => 5,
        MacStep::SetPlistMode => 6,
        MacStep::ChangePlistOwner => 7,
        MacStep::Launchctl { verb: Verb::Bootout } => 8,
        MacStep::Launchctl { verb: Verb::Bootstrap } => 9,
        MacStep::Launchctl { verb: Verb::Enable } => 10,
        MacStep::Launchctl { verb: Verb::Kickstart } => 11,
        _ => 0,
    }
}

/// An installation takes every step, each once and in its place: the binary is put there
/// first, where it is not the one that runs, then the plist, and then the job is started.
pub proof fn installations_take_every_step(source: Seq<char>, step: MacStep)
    ensures
        ({
            let plan = install_plan(source);
            let copies = !same_absolute_path(source, "/usr/local/libexec/gbos-agent"@);
            &&& forall|i: int, j: int|
                0 <= i < j < plan.len() ==> place(#[trigger] plan[i]) < place(#[trigger] plan[j])
            &&& place(step) > 3 ==> plan.contains(step)
            &&& 0 < place(step) <= 3 ==> (plan.contains(step) <==> copies)
            &&& place(step) == 0 ==> !plan.contains(step)
        }),
{
    let plan = install_plan(source);
    let n: int = if same_absolute_path(source, INSTALL_PATH@) {
        0
    } else {
        3
    };
    assert(plan.len() == n + 8);
    assert(plan[n] == MacStep::ClearPlist);
    assert(plan[n + 1] == MacStep::WritePlist);
    assert(plan[n + 2] == MacStep::SetPlistMode);
    assert(plan[n + 3] == MacStep::ChangePlistOwner);
    assert(plan[n + 4] == (MacStep::Launchctl { verb: Verb::Bootout }));
    assert(plan[n + 5] == (MacStep::Launchctl { verb: Verb::Bootstrap }));
    assert(plan[n + 6] == (MacStep::Launchctl { verb: Verb::Enable }));
    assert(plan[n + 7] == (MacStep::Launchctl { verb: Verb::Kickstart }));
    if n == 3 {
        assert(plan[0] == MacStep::MakeDirectory);
        assert(plan[1] == MacStep::CopyBinary);
        assert(plan[2] == MacStep::SetBinaryMode);
    }
    assert forall|i: int| 0 <= i < plan.len() implies place(#[trigger] plan[i]) == i + 4 - n by {
        let k = i - n;
        assert(k < 0 || k == 0 || k == 1 || k == 2 || k == 3 || k == 4 || k == 5 || k == 6 || k
            == 7);
    }
}

/// A removal stops the job, and then removes the plist and the binary.
pub proof fn removals_take_every_step(step: MacStep)
    ensures
        uninstall_plan().len() == 3,
        uninstall_plan().contains(step) <==> step is RemovePlist || step is RemoveBinary || step
            == (MacStep::Launchctl { verb: Verb::Bootout }),
        uninstall_plan()[0] is Launchctl,
{
    let plan = uninstall_plan();
    assert(plan[0] == (MacStep::Launchctl { verb: Verb::Bootout }));
    assert(plan[1] == MacStep::RemovePlist);
    assert(plan[2] == MacStep::RemoveBinary);
}

/// A plan goes on past a step that was done, past those that only tidy up, and past the
/// removal of what is not there. Nothing else is passed over.
pub proof fn steps_must_be_done(step: MacStep, outcome: StepOutcome)
    ensures
        outcome.done ==> passes(step, outcome),
        !outcome.done ==> (passes(step, outcome) <==> {
            ||| step is ClearPlist
            ||| step is ChangePlistOwner
            ||| step == (MacStep::Launchctl { verb: Verb::Bootout })
            ||| outcome.missing && (step is RemovePlist || step is RemoveBinary)
        }),
{
}

/// The step that is next is the first one without an outcome.
pub proof fn plans_go_step_by_step(plan: Seq<MacStep>, outcomes: Seq<StepOutcome>)
    requires
        outcomes.len() <= plan.len(),
    ensures
        progress_of(plan, outcomes) matches PlanProgress::Next { step } ==> outcomes.len()
            < plan.len() && step == plan[outcomes.len() as int],
{
    plans_end_at_their_first_failure(plan, outcomes);
}

/// Every failure tells the error that it ended with, and a failed copy what was copied.
pub proof fn failures_tell_their_error(step: MacStep, source: Seq<char>, error: Seq<char>)
    ensures
        holds(step_failure(step, source, error), error),
        step is CopyBinary ==> holds(step_failure(step, source, error), source),
{
    let text = step_failure(step, source, error);
    let none = Seq::<char>::empty();
    match step {
        MacStep::MakeDirectory => {
            assert(text =~= "could not create "@ + INSTALL_DIRECTORY@ + ": "@ + error + none);
            assert(is_held(text, error, "could not create "@ + INSTALL_DIRECTORY@ + ": "@, none));
        },
        MacStep::CopyBinary => {
            let ahead = "could not install "@ + source + " to "@ + INSTALL_PATH@ + ": "@;
            assert(is_held(text, error, ahead, ROOT_HINT@));
            let behind = " to "@ + INSTALL_PATH@ + ": "@ + error + ROOT_HINT@;
            assert(text =~= "could not install "@ + source + behind);
            assert(is_held(text, source, "could not install "@, behind));
        },
        MacStep::SetBinaryMode => {
            let ahead = "could not set mode 755 on "@ + INSTALL_PATH@ + ": "@;
            assert(text =~= ahead + error + none);
            assert(is_held(text, error, ahead, none));
        },
        MacStep::WritePlist => {
            assert(is_held(text, error, "could not write "@ + PLIST_PATH@ + ": "@, ROOT_HINT@));
        },
        MacStep::SetPlistMode => {
            let ahead = "could not set mode 644 on "@ + PLIST_PATH@ + ": "@;
            assert(text =~= ahead + error + none);
            assert(is_held(text, error, ahead, none));
        },
        MacStep::RemovePlist => {
            let ahead = "could not remove "@ + PLIST_PATH@ + ": "@;
            assert(text =~= ahead + error + none);
            assert(is_held(text, error, ahead, none));
        },
        MacStep::RemoveBinary => {
            let ahead = "could not remove "@ + INSTALL_PATH@ + ": "@;
            assert(text =~= ahead + error + none);
            assert(is_held(text, error, ahead, none));
        },
        _ => {
            assert(text =~= none + error + none);
            assert(is_held(text, error, none, none));
        },
    }
}

/// `launchctl` is told what to do first, and what to do it to last: the plist where a job
/// is loaded or unloaded, and the job itself elsewhere.
pub proof fn launchctl_is_told_what_to_do(verb: Verb)
    ensures
        ({
            let words = launchctl_words(verb);
            &&& words[0] == (match verb {
                Verb::Bootout => "bootout"@,
                Verb::Bootstrap => "bootstrap"@,
                Verb::Enable => "enable"@,
                Verb::Kickstart => "kickstart"@,
                Verb::Print => "print"@,
            })
            &&& verb is Bootout || verb is Bootstrap ==> words.len() == 3 && words[1] == "system"@
                && words[2] == "/Library/LaunchDaemons/com.gbaja.gbos.agent.plist"@
            &&& verb is Kickstart ==> words.len() == 3 && words[1] == "-k"@
            &&& verb is Enable || verb is Print ==> words.len() == 2
            &&& !(verb is Bootout) && !(verb is Bootstrap) ==> words.last()
                == "system/com.gbaja.gbos.agent"@
        }),
{
}

/// Words are joined by single spaces, each word whole.
pub proof fn words_are_joined_by_spaces(words: Seq<Seq<char>>, word: Seq<char>)
    ensures
        joined(seq![word]) == word,
        words.len() > 0 ==> joined(words.push(word)) == joined(words) + seq![' '] + word,
{
    reveal_strlit(" ");
    if words.len() > 0 {
        assert(words.push(word).drop_last() =~= words);
        assert(" "@ =~= seq![' ']);
    }
}

/// What a failed command wrote to its error output is told, and where that is nothing but
/// white space, what it wrote to its output.
pub proof fn errors_are_told_ahead_of_output(stdout: Seq<char>, stderr: Seq<char>)
    ensures
        (exists|i: int| 0 <= i < stderr.len() && !crate::text::is_white_space(#[trigger] stderr[i]))
            ==> failure_detail(stdout, stderr) == trimmed(stderr),
        (forall|i: int| 0 <= i < stderr.len() ==> crate::text::is_white_space(#[trigger] stderr[i]))
            ==> failure_detail(stdout, stderr) == trimmed(stdout),
{
    crate::text::trimming_takes_the_white_space(stderr);
    let (from, to) = choose|from: int, to: int| #[trigger] crate::text::is_trim(stderr, from, to);
    assert(crate::text::is_trim(stderr, from, to));
    if trimmed(stderr).len() > 0 {
        assert(trimmed(stderr)[0] == stderr[from]);
    }
}

/// The state of a job is what stands behind `state = ` on the first line that has it.
pub proof fn the_first_state_counts(
    found: Seq<Seq<char>>,
    from: int,
    at: int,
    state: Seq<char>,
)
    requires
        0 <= from <= at < found.len(),
        trimmed(found[at]) == "state = "@ + state,
        forall|i: int|
            from <= i < at ==> !has_prefix(trimmed(#[trigger] found[i]), "state = "@),
    ensures
        state_on_lines(found, from) == state,
    decreases at - from,
{
    if from < at {
        assert(!has_prefix(trimmed(found[from]), "state = "@));
        the_first_state_counts(found, from + 1, at, state);
    } else {
        crate::text::prefixes_stand_ahead("state = "@, trimmed(found[at]), state);
    }
}

/// A job that no line tells the state of is in an unknown one.
pub proof fn untold_states_are_unknown(found: Seq<Seq<char>>, from: int)
    requires
        0 <= from,
        forall|i: int|
            from <= i < found.len() ==> !has_prefix(trimmed(#[trigger] found[i]), "state = "@),
    ensures
        state_on_lines(found, from) == "unknown"@,
    decreases found.len() - from,
{
    if from < found.len() {
        assert(!has_prefix(trimmed(found[from]), "state = "@));
        untold_states_are_unknown(found, from + 1);
    }
}

/// A status tells the state of the job, and of one that does not run where to look.
pub proof fn statuses_tell_the_state(state: Seq<char>)
    ensures
        holds(loaded_text(state), state),
        state != "running"@ ==> holds(loaded_text(state), "/var/log/gbos-agent.err.log"@),
{
    let ahead = "  loaded:     yes\n  state:      "@;
    let hint = "\nThe daemon is loaded but not running. Check "@ + ERROR_LOG_PATH@
        + " for why it exited.\n"@;
    let rest = if state == "running"@ {
        seq![]
    } else {
        hint
    };
    let text = loaded_text(state);
    assert(text =~= ahead + state + ("\n"@ + rest));
    assert(is_held(text, state, ahead, "\n"@ + rest));
    if state != "running"@ {
        let before = ahead + state + "\n"@ + "\nThe daemon is loaded but not running. Check "@;
        assert(text =~= before + ERROR_LOG_PATH@ + " for why it exited.\n"@);
        assert(is_held(text, ERROR_LOG_PATH@, before, " for why it exited.\n"@));
    }
}

/// A path names what it names one part after the other: ahead of a slash and behind it.
/// A part that is empty or a dot names nothing, and any other names itself.
pub proof fn paths_are_named_part_by_part(a: Seq<char>, b: Seq<char>)
    ensures
        names_from(a + seq!['/'] + b, 0) == names_from(a, 0) + names_from(b, 0),
        (forall|i: int| 0 <= i < a.len() ==> #[trigger] a[i] != '/') ==> names_from(a, 0) == (
        if a.len() == 0 || a == seq!['.'] {
            Seq::<Seq<char>>::empty()
        } else {
            seq![a]
        }),
{
    names_of_both(a, b, 0);
    if forall|i: int| 0 <= i < a.len() ==> #[trigger] a[i] != '/' {
        name_ends_at(a, 0, a.len() as int);
        if a.len() > 0 {
            assert(a.subrange(0, a.len() as int) =~= a);
            assert(names_from(a, a.len() as int + 1).len() == 0);
        }
    }
}

proof fn name_ends_at(path: Seq<char>, from: int, at: int)
    requires
        0 <= from <= at <= path.len(),
        forall|i: int| from <= i < at ==> #[trigger] path[i] != '/',
        at < path.len() ==> path[at] == '/',
    ensures
        name_end(path, from) == at,
    decreases at - from,
{
    if from < at {
        assert(path[from] != '/');
        name_ends_at(path, from + 1, at);
    }
}

proof fn name_stops(path: Seq<char>, from: int)
    requires
        0 <= from <= path.len(),
    ensures
        from <= name_end(path, from) <= path.len(),
        forall|i: int| from <= i < name_end(path, from) ==> #[trigger] path[i] != '/',
        name_end(path, from) < path.len() ==> path[name_end(path, from)] == '/',
    decreases path.len() - from,
{
    if from < path.len() && path[from] != '/' {
        name_stops(path, from + 1);
    }
}

proof fn names_of_both(a: Seq<char>, b: Seq<char>, from: int)
    requires
        0 <= from <= a.len(),
    ensures
        names_from(a + seq!['/'] + b, from) == names_from(a, from) + names_from(b, 0),
    decreases a.len() - from,
{
    let whole = a + seq!['/'] + b;
    let n = a.len() as int;
    assert(whole[n] == '/');
    assert(whole.skip(n + 1) =~= b);
    names_behind(whole, n + 1, n + 1);
    if from == n {
        assert(name_end(whole, n) == n);
        assert(whole.subrange(n, n).len() == 0);
        assert(names_from(a, n) =~= Seq::<Seq<char>>::empty());
        assert(names_from(whole, n) =~= names_from(whole, n + 1));
        assert(names_from(whole, from) =~= names_from(a, from) + names_from(b, 0));
    } else {
        name_stops(a, from);
        let end = name_end(a, from);
        assert forall|i: int| from <= i < end implies #[trigger] whole[i] != '/' by {
            assert(whole[i] == a[i]);
        }
        assert(end < n ==> whole[end] == a[end]);
        name_ends_at(whole, from, end);
        assert(whole.subrange(from, end) =~= a.subrange(from, end));
        if end < n {
            names_of_both(a, b, end + 1);
        } else {
            assert(names_from(a, end + 1) =~= Seq::<Seq<char>>::empty());
        }
        assert(names_from(whole, from) =~= names_from(a, from) + names_from(b, 0));
    }
}

/// The names behind a place do not depend on what stands ahead of it.
proof fn names_behind(path: Seq<char>, n: int, from: int)
    requires
        0 <= n <= from,
        n <= path.len(),
    ensures
        names_from(path, from) == names_from(path.skip(n), from - n),
    decreases path.len() + 1 - from,
{
    if from < path.len() {
        name_stops(path, from);
        let end = name_end(path, from);
        assert forall|i: int| from - n <= i < end - n implies #[trigger] path.skip(n)[i] != '/' by {
            assert(path.skip(n)[i] == path[i + n]);
        }
        assert(end < path.len() ==> path.skip(n)[end - n] == path[end]);
        name_ends_at(path.skip(n), from - n, end - n);
        assert(path.subrange(from, end) =~= path.skip(n).subrange(from - n, end - n));
        names_behind(path, n, end + 1);
    }
}

/// Two paths to the same place are the same, however many slashes and dots are in them; a
/// path that is not absolute is the same as none.
pub proof fn slashes_and_dots_do_not_matter(a: Seq<char>, b: Seq<char>)
    requires
        a.len() > 0,
        a[0] == '/',
    ensures
        same_absolute_path(a + seq!['/'] + b, a + seq!['/', '/'] + b),
        same_absolute_path(a + seq!['/'] + b, a + seq!['/', '.', '/'] + b),
        same_absolute_path(a, a + seq!['/']),
        b.len() == 0 || b[0] != '/' ==> !same_absolute_path(a, b) && !same_absolute_path(b, a),
{
    let none = Seq::<char>::empty();
    paths_are_named_part_by_part(a, b);
    paths_are_named_part_by_part(none, b);
    paths_are_named_part_by_part(a, none + seq!['/'] + b);
    assert(a + seq!['/'] + (none + seq!['/'] + b) =~= a + seq!['/', '/'] + b);
    paths_are_named_part_by_part(seq!['.'], b);
    paths_are_named_part_by_part(a, seq!['.'] + seq!['/'] + b);
    assert(a + seq!['/'] + (seq!['.'] + seq!['/'] + b) =~= a + seq!['/', '.', '/'] + b);
    paths_are_named_part_by_part(a, none);
    assert(a + seq!['/'] + none =~= a + seq!['/']);
    assert(names_from(none, 0) =~= Seq::<Seq<char>>::empty());
    assert(names_from(none, 0) + names_from(b, 0) =~= names_from(b, 0));
    assert(names_from(seq!['.'], 0) + names_from(b, 0) =~= names_from(b, 0));
    assert(names_from(a, 0) + names_from(none, 0) =~= names_from(a, 0));
}

/// Two names in one directory are two places.
pub proof fn different_names_are_different_places(
    directory: Seq<char>,
    x: Seq<char>,
    y: Seq<char>,
)
    requires
        forall|i: int| 0 <= i < x.len() ==> #[trigger] x[i] != '/',
        forall|i: int| 0 <= i < y.len() ==> #[trigger] y[i] != '/',
        x.len() > 0 && x != seq!['.'],
        x != y,
    ensures
        !same_absolute_path(directory + seq!['/'] + x, directory + seq!['/'] + y),
{
    paths_are_named_part_by_part(directory, x);
    paths_are_named_part_by_part(directory, y);
    paths_are_named_part_by_part(x, y);
    paths_are_named_part_by_part(y, x);
    let ahead = names_from(directory, 0);
    if ahead + names_from(x, 0) == ahead + names_from(y, 0) {
        let n = ahead.len() as int;
        assert((ahead + names_from(x, 0)).skip(n) =~= names_from(x, 0));
        assert((ahead + names_from(y, 0)).skip(n) =~= names_from(y, 0));
        assert(names_from(x, 0)[0] == x);
    }
}

} // verus!
