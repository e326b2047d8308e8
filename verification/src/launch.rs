//! Launch preparation: the steps that guarantee the worker executable and
//! its directories exist before a spawn, and the command line the worker
//! is started with.
//!
//! The filesystem probes, the fetch and the spawn are performed outside
//! this crate; the machine here decides which step comes next from the
//! reported outcome of the previous one. The decision to fetch is taken
//! exactly when the executable's existence check fails; a failed fetch or
//! directory creation ends the preparation with a reportable failure
//! instead of aborting anything.

use vstd::prelude::*;
use crate::config::Config;
use crate::text::dec_of;
use crate::text::dec_u64;

verus! {

/// Where launch preparation stands.
#[derive(Debug, Clone, PartialEq, Eq)]
pub enum PrepState {
    /// Ask whether the configured executable exists.
    CheckExecutable,
    /// The executable is missing: ask whether its parent directory exists.
    EnsureParentDir,
    /// The parent directory is missing: ask to create it.
    CreateParentDir,
    /// Ask to fetch the executable from the well-known URL.
    FetchExecutable,
    /// Ask whether the per-worker log directory exists.
    CheckLogDir,
    /// The log directory is missing: ask to create it.
    CreateLogDir,
    /// Everything is in place: the worker can be spawned.
    Ready,
    /// The fetch failed; `error` is the reported reason.
    FetchFailed { error: String },
    /// A directory could not be created; `error` is the reported reason.
    DirFailed { error: String },
}

/// The outcome of one outside step, reported back to the machine.
#[derive(Debug, Clone, PartialEq, Eq)]
pub enum PrepEvent {
    /// Whether the configured executable exists.
    ExecutableChecked { present: bool },
    /// Whether the executable's parent directory exists.
    ParentDirChecked { present: bool },
    /// The attempt to create the parent directory; `None` is success.
    ParentDirCreated { error: Option<String> },
    /// The fetch attempt; `None` is success.
    Fetched { error: Option<String> },
    /// Whether the per-worker log directory exists.
    LogDirChecked { present: bool },
    /// The attempt to create the log directory; `None` is success.
    LogDirCreated { error: Option<String> },
}

/// What the surrounding program is asked to do next.
#[derive(Debug, Clone, PartialEq, Eq)]
pub enum PrepAction {
    /// Test whether the configured executable exists.
    ProbeExecutable,
    /// Test whether the executable's parent directory exists.
    ProbeParentDir,
    /// Create the executable's parent directory.
    MakeParentDir,
    /// Fetch the executable to its configured location.
    FetchBinary,
    /// Test whether the per-worker log directory exists.
    ProbeLogDir,
    /// Create the per-worker log directory.
    MakeLogDir,
    /// Spawn the worker.
    Spawn,
    /// Give the start request up and report `message`.
    Abort { message: String },
}

/// The preparation machine's transition: from a state and the reported
/// outcome of its step to the next state. An event that does not answer
/// the current state's question changes nothing.
pub open spec fn step_spec(s: PrepState, e: PrepEvent) -> PrepState {
    match (s, e) {
        (PrepState::CheckExecutable, PrepEvent::ExecutableChecked { present }) => if present {
            PrepState::CheckLogDir
        } else {
            PrepState::EnsureParentDir
        },
        (PrepState::EnsureParentDir, PrepEvent::ParentDirChecked { present }) => if present {
            PrepState::FetchExecutable
        } else {
            PrepState::CreateParentDir
        },
        (PrepState::CreateParentDir, PrepEvent::ParentDirCreated { error }) => match error {
            Option::None => PrepState::FetchExecutable,
            Option::Some(error) => PrepState::DirFailed { error },
        },
        (PrepState::FetchExecutable, PrepEvent::Fetched { error }) => match error {
            Option::None => PrepState::CheckLogDir,
            Option::Some(error) => PrepState::FetchFailed { error },
        },
        (PrepState::CheckLogDir, PrepEvent::LogDirChecked { present }) => if present {
            PrepState::Ready
        } else {
            PrepState::CreateLogDir
        },
        (PrepState::CreateLogDir, PrepEvent::LogDirCreated { error }) => match error {
            Option::None => PrepState::Ready,
            Option::Some(error) => PrepState::DirFailed { error },
        },
        (other, _) => other,
    }
}

/// Advances the preparation machine by one reported outcome.
pub fn prep_step(s: PrepState, e: PrepEvent) -> (r: PrepState)
    ensures
        r == step_spec(s, e),
{
    match (s, e) {
        (PrepState::CheckExecutable, PrepEvent::ExecutableChecked { present }) => if present {
            PrepState::CheckLogDir
        } else {
            PrepState::EnsureParentDir
        },
        (PrepState::EnsureParentDir, PrepEvent::ParentDirChecked { present }) => if present {
            PrepState::FetchExecutable
        } else {
            PrepState::CreateParentDir
        },
        (PrepState::CreateParentDir, PrepEvent::ParentDirCreated { error }) => match error {
            Option::None => PrepState::FetchExecutable,
            Option::Some(error) => PrepState::DirFailed { error },
        },
        (PrepState::FetchExecutable, PrepEvent::Fetched { error }) => match error {
            Option::None => PrepState::CheckLogDir,
            Option::Some(error) => PrepState::FetchFailed { error },
        },
        (PrepState::CheckLogDir, PrepEvent::LogDirChecked { present }) => if present {
            PrepState::Ready
        } else {
            PrepState::CreateLogDir
        },
        (PrepState::CreateLogDir, PrepEvent::LogDirCreated { error }) => match error {
            Option::None => PrepState::Ready,
            Option::Some(error) => PrepState::DirFailed { error },
        },
        (other, _) => other,
    }
}

/// Failure text when the executable could not be fetched.
pub open spec fn fetch_failed_text(error: Seq<char>) -> Seq<char> {
    "There was an error downloading the client: "@ + error
}

/// Failure text when a directory could not be created.
pub open spec fn dir_failed_text(error: Seq<char>) -> Seq<char> {
    "Failed to create directory. Please check that you have the necessary permissions: "@ + error
}

/// What the surrounding program must do in each state of the machine.
/// Only the [`PrepState::FetchExecutable`] state asks for a fetch.
pub fn prep_action(s: &PrepState) -> (a: PrepAction)
    ensures
        match s {
            PrepState::CheckExecutable => a == PrepAction::ProbeExecutable,
            PrepState::EnsureParentDir => a == PrepAction::ProbeParentDir,
            PrepState::CreateParentDir => a == PrepAction::MakeParentDir,
            PrepState::FetchExecutable => a == PrepAction::FetchBinary,
            PrepState::CheckLogDir => a == PrepAction::ProbeLogDir,
            PrepState::CreateLogDir => a == PrepAction::MakeLogDir,
            PrepState::Ready => a == PrepAction::Spawn,
            PrepState::FetchFailed { error } => a matches PrepAction::Abort { message }
                && message@ == fetch_failed_text(error@),
            PrepState::DirFailed { error } => a matches PrepAction::Abort { message }
                && message@ == dir_failed_text(error@),
        },
{
    match s {
        PrepState::CheckExecutable => PrepAction::ProbeExecutable,
        PrepState::EnsureParentDir => PrepAction::ProbeParentDir,
        PrepState::CreateParentDir => PrepAction::MakeParentDir,
        PrepState::FetchExecutable => PrepAction::FetchBinary,
        PrepState::CheckLogDir => PrepAction::ProbeLogDir,
        PrepState::CreateLogDir => PrepAction::MakeLogDir,
        PrepState::Ready => PrepAction::Spawn,
        PrepState::FetchFailed { error } => {
            let mut message = String::from_str(
                "There was an error downloading the client: ",
            );
            message.append(error.as_str());
            PrepAction::Abort { message }
        },
        PrepState::DirFailed { error } => {
            let mut message = String::from_str(
                "Failed to create directory. Please check that you have the necessary permissions: ",
            );
            message.append(error.as_str());
            PrepAction::Abort { message }
        },
    }
}

/// The machine run from `s` through a sequence of reported outcomes.
pub open spec fn run_steps(s: PrepState, events: Seq<PrepEvent>) -> PrepState
    decreases events.len(),
{
    if events.len() == 0 {
        s
    } else {
        run_steps(step_spec(s, events[0]), events.drop_first())
    }
}

/// The states in which the decision not to fetch has already been taken:
/// from any of them, no sequence of events leads back to a fetch.
pub open spec fn past_fetch_decision(s: PrepState) -> bool {
    s is CheckLogDir || s is CreateLogDir || s is Ready || s is FetchFailed || s is DirFailed
}

/// One step cannot leave the no-fetch region.
proof fn lemma_region_closed(s: PrepState, e: PrepEvent)
    requires
        past_fetch_decision(s),
    ensures
        past_fetch_decision(step_spec(s, e)),
{
}

/// No run from the no-fetch region ever reaches the fetch state.
proof fn lemma_region_stable(s: PrepState, events: Seq<PrepEvent>)
    requires
        past_fetch_decision(s),
    ensures
        past_fetch_decision(run_steps(s, events)),
        !(run_steps(s, events) is FetchExecutable),
    decreases events.len(),
{
    if events.len() > 0 {
        lemma_region_closed(s, events[0]);
        lemma_region_stable(step_spec(s, events[0]), events.drop_first());
    }
}

/// Launch preparation fetches the executable if and only if the existence
/// check fails. When the check reports the executable present, every later
/// state of the machine, under every sequence of reported outcomes, stays
/// clear of [`PrepState::FetchExecutable`], the one state whose action is
/// a fetch; when it reports the executable missing, the machine heads for
/// the fetch and reaches it as soon as the parent directory is in place.
pub proof fn lemma_fetch_iff_executable_missing(events: Seq<PrepEvent>)
    ensures
        step_spec(
            PrepState::CheckExecutable,
            PrepEvent::ExecutableChecked { present: true },
        ) == PrepState::CheckLogDir,
        forall|k: int|
            0 <= k <= events.len() ==> !(#[trigger] run_steps(
                PrepState::CheckLogDir,
                events.take(k),
            ) is FetchExecutable),
        step_spec(
            PrepState::CheckExecutable,
            PrepEvent::ExecutableChecked { present: false },
        ) == PrepState::EnsureParentDir,
        step_spec(
            PrepState::EnsureParentDir,
            PrepEvent::ParentDirChecked { present: true },
        ) == PrepState::FetchExecutable,
        forall|error: Option<String>|
            #[trigger] step_spec(
                PrepState::CreateParentDir,
                PrepEvent::ParentDirCreated { error },
            ) == (match error {
                Option::None => PrepState::FetchExecutable,
                Option::Some(error) => PrepState::DirFailed { error },
            }),
{
    assert forall|k: int| 0 <= k <= events.len() implies !(#[trigger] run_steps(
        PrepState::CheckLogDir,
        events.take(k),
    ) is FetchExecutable) by {
        lemma_region_stable(PrepState::CheckLogDir, events.take(k));
    }
}

/// The fixed URL the worker executable is fetched from when absent.
pub fn fetch_url() -> (r: &'static str)
    ensures
        r@ == "https://www.sheepit-renderfarm.com/media/applet/client-latest.php"@,
{
    "https://www.sheepit-renderfarm.com/media/applet/client-latest.php"
}

/// The per-worker cache directory: the configured cache directory with
/// the worker's name appended.
pub open spec fn cache_dir_text(c: Config, name: Seq<char>) -> Seq<char> {
    c.paths.sheepit_cache_dir@ + "/"@ + name
}

/// The per-worker log directory: the configured log directory with the
/// worker's name appended.
pub open spec fn log_dir_text(c: Config, name: Seq<char>) -> Seq<char> {
    c.paths.log_dir@ + "/"@ + name
}

/// The worker's hostname: the configured client name and the worker's
/// name, joined by a dash.
pub open spec fn hostname_text(c: Config, name: Seq<char>) -> Seq<char> {
    c.general.client_name@ + "-"@ + name
}

/// The memory limit argument: the configured amount with a `G` suffix.
pub open spec fn memory_text(c: Config) -> Seq<char> {
    dec_of(c.defaults.ram as nat) + "G"@
}

/// Every argument the worker executable is spawned with, in order. No
/// argument is optional; all come from the configuration and the worker's
/// name.
pub open spec fn launch_args_text(c: Config, name: Seq<char>) -> Seq<Seq<char>> {
    seq![
        "-jar"@,
        c.paths.sheepit_client_location@,
        "-ui"@,
        "text"@,
        "-login"@,
        c.general.username@,
        "-password"@,
        c.general.renderkey@,
        "-cores"@,
        dec_of(c.defaults.cores as nat),
        "-memory"@,
        memory_text(c),
        "-server"@,
        c.general.server@,
        "-cache-dir"@,
        cache_dir_text(c, name),
        "-hostname"@,
        hostname_text(c, name),
        "-logdir"@,
        log_dir_text(c, name),
    ]
}

/// A ready-to-exec command line for one worker.
pub struct LaunchSpec {
    /// The program to execute.
    pub program: String,
    /// Its arguments, in order; see [`launch_args_text`].
    pub args: Vec<String>,
}

/// The per-worker log directory as a value; see [`log_dir_text`].
pub fn log_dir_for(c: &Config, name: &str) -> (r: String)
    ensures
        r@ == log_dir_text(*c, name@),
{
    let mut r = c.paths.log_dir.clone();
    r.append("/");
    r.append(name);
    r
}

/// Assembles the command line a worker is spawned with.
#[verifier::rlimit(50)]
pub fn build_launch_spec(c: &Config, name: &str) -> (s: LaunchSpec)
    ensures
        s.program@ == "java"@,
        s.args.deep_view() == launch_args_text(*c, name@),
{
    let mut args: Vec<String> = Vec::new();
    args.push(String::from_str("-jar"));
    args.push(c.paths.sheepit_client_location.clone());
    args.push(String::from_str("-ui"));
    args.push(String::from_str("text"));
    args.push(String::from_str("-login"));
    args.push(c.general.username.clone());
    args.push(String::from_str("-password"));
    args.push(c.general.renderkey.clone());
    args.push(String::from_str("-cores"));
    args.push(dec_u64(c.defaults.cores as u64));
    args.push(String::from_str("-memory"));
    let mut memory = dec_u64(c.defaults.ram as u64);
    memory.append("G");
    args.push(memory);
    args.push(String::from_str("-server"));
    args.push(c.general.server.clone());
    args.push(String::from_str("-cache-dir"));
    let mut cache_dir = c.paths.sheepit_cache_dir.clone();
    cache_dir.append("/");
    cache_dir.append(name);
    args.push(cache_dir);
    args.push(String::from_str("-hostname"));
    let mut hostname = c.general.client_name.clone();
    hostname.append("-");
    hostname.append(name);
    args.push(hostname);
    args.push(String::from_str("-logdir"));
    args.push(log_dir_for(c, name));
    proof {
        assert(args.deep_view() =~= launch_args_text(*c, name@));
    }
    LaunchSpec { program: String::from_str("java"), args }
}

} // verus!
