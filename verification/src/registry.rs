//! The process registry: the authoritative mapping from worker name to the
//! handle of its running process.
//!
//! A name is present in the registry if and only if a start attempt for it
//! has succeeded and no cleanup has removed it; absence means "not
//! running". The registry decides every lifecycle step and hands the
//! outside runtime a plan (spawn this, write these bytes there); the
//! runtime reports each outcome back as a plain value.

use vstd::prelude::*;
use vstd::seq_lib::seq_to_set_is_finite;
use crate::command::Command;
use crate::command::label_of;
use crate::command::wire_of;

verus! {

broadcast use vstd::set::group_set_axioms, vstd::map::group_map_axioms;

/// Identity of one running worker process, as reported by the runtime
/// that spawned it.
#[derive(Clone, Copy, Debug, PartialEq, Eq, Structural)]
pub struct WorkerHandle {
    /// The token under which the runtime knows the spawned process.
    pub handle_id: u64,
    /// Whether a writable standard-input end was captured at spawn time.
    pub has_input: bool,
}

struct RegEntry {
    name: String,
    handle: WorkerHandle,
}

/// The mapping from worker name to running-process handle.
///
/// Its view is a `Map<Seq<char>, WorkerHandle>`; the well-formedness
/// condition [`Registry::wf`] states that no two entries share a name.
pub struct Registry {
    entries: Vec<RegEntry>,
}

/// The decision for a start request: either refuse because the name is
/// taken, or go ahead with launch preparation and a spawn.
pub enum StartGate {
    /// The name is already registered; `message` reports it.
    AlreadyRunning { message: String },
    /// The name is free: prepare the launch and spawn the worker.
    Proceed,
}

/// The decision for a send request.
#[derive(Clone, Copy, Debug, PartialEq, Eq, Structural)]
pub enum SendPlan {
    /// The name is not registered: nothing is written, nothing changes.
    NotRunning,
    /// The name is registered, but no writable input end exists.
    NoInputHandle,
    /// Write the command's wire bytes to this process's standard input.
    Deliver { handle_id: u64 },
}

/// What the runtime reports after acting on [`SendPlan::Deliver`].
pub enum WriteOutcome {
    /// Both the write and the flush succeeded.
    Delivered,
    /// The write failed; `error` is the I/O error's text.
    WriteFailed { error: String },
    /// The write succeeded but the flush failed.
    FlushFailed { error: String },
}

/// Result text for a start refused because the name is registered.
pub open spec fn already_running_text(name: Seq<char>) -> Seq<char> {
    "Cannot start \""@ + name + "\" because it's already running."@
}

/// Result text for a successful start.
pub open spec fn started_text(name: Seq<char>) -> Seq<char> {
    "Client \""@ + name + "\" started."@
}

/// Result text for a send to an unregistered name.
pub open spec fn not_running_text(name: Seq<char>) -> Seq<char> {
    "Client '"@ + name + "' is not running."@
}

/// Result text for a send to a worker without an input handle.
pub open spec fn no_input_text(name: Seq<char>) -> Seq<char> {
    "Client '"@ + name + "' has no stdin handle"@
}

/// Result text for a delivered command.
pub open spec fn sent_text(label: Seq<char>, name: Seq<char>) -> Seq<char> {
    "Sent command '"@ + label + "' to client '"@ + name + "'"@
}

/// Result text for a failed pipe write.
pub open spec fn write_failed_text(label: Seq<char>, name: Seq<char>, error: Seq<char>) -> Seq<
    char,
> {
    "Failed to send command '"@ + label + "' to client '"@ + name + "': "@ + error
}

/// Result text for a failed pipe flush.
pub open spec fn flush_failed_text(label: Seq<char>, name: Seq<char>, error: Seq<char>) -> Seq<
    char,
> {
    "Failed to flush command '"@ + label + "' to client '"@ + name + "': "@ + error
}

impl View for Registry {
    type V = Map<Seq<char>, WorkerHandle>;

    closed spec fn view(&self) -> Map<Seq<char>, WorkerHandle> {
        Map::new(
            |n: Seq<char>|
                exists|i: int| 0 <= i < self.entries@.len() && self.entries@[i].name@ == n,
            |n: Seq<char>|
                {
                    let i = choose|i: int|
                        0 <= i < self.entries@.len() && self.entries@[i].name@ == n;
                    self.entries@[i].handle
                },
        )
    }
}

impl Registry {
    /// No two entries share a worker name.
    pub closed spec fn wf(&self) -> bool {
        forall|i: int, j: int|
            #![trigger self.entries@[i].name@, self.entries@[j].name@]
            0 <= i < j < self.entries@.len() ==> self.entries@[i].name@ != self.entries@[j].name@
    }

    /// An empty registry: no worker is running.
    pub fn new() -> (r: Registry)
        ensures
            r.wf(),
            r@ == Map::<Seq<char>, WorkerHandle>::empty(),
    {
        let r = Registry { entries: Vec::new() };
        proof {
            assert(r@ =~= Map::<Seq<char>, WorkerHandle>::empty());
        }
        r
    }

    /// The index of the entry for `name`, if one exists.
    fn find(&self, name: &str) -> (r: Option<usize>)
        requires
            self.wf(),
        ensures
            match r {
                Some(i) => {
                    &&& i < self.entries@.len()
                    &&& self.entries@[i as int].name@ == name@
                    &&& self@.contains_key(name@)
                    &&& self@[name@] == self.entries@[i as int].handle
                },
                None => !self@.contains_key(name@),
            },
    {
        let n = self.entries.len();
        let mut k: usize = 0;
        while k < n
            invariant
                self.wf(),
                k <= n,
                n == self.entries@.len(),
                forall|j: int|
                    0 <= j < k ==> #[trigger] self.entries@[j].name@ != name@,
            decreases n - k,
        {
            if crate::text::str_eq(self.entries[k].name.as_str(), name) {
                proof {
                    assert(self@.contains_key(name@));
                    let i0 = choose|i: int|
                        0 <= i < self.entries@.len() && self.entries@[i].name@ == name@;
                    if i0 < k as int {
                        assert(self.entries@[i0].name@ != self.entries@[k as int].name@);
                    } else if (k as int) < i0 {
                        assert(self.entries@[k as int].name@ != self.entries@[i0].name@);
                    }
                    assert(self@[name@] == self.entries@[k as int].handle);
                }
                return Some(k);
            }
            k = k + 1;
        }
        proof {
            assert(!self@.contains_key(name@));
        }
        None
    }

    /// Liveness report: whether `name` is registered as running. Takes the
    /// registry immutably, so it has no side effect.
    pub fn status(&self, name: &str) -> (r: bool)
        requires
            self.wf(),
        ensures
            r == self@.contains_key(name@),
    {
        self.find(name).is_some()
    }

    /// The number of registered workers.
    pub fn len(&self) -> (n: usize)
        requires
            self.wf(),
        ensures
            n == self@.dom().len(),
            self@.dom().finite(),
    {
        proof {
            self.lemma_dom_len();
        }
        self.entries.len()
    }

    /// The registry's domain is the set of entry names; with `wf` these
    /// are distinct, so the domain's size is the number of entries.
    proof fn lemma_dom_len(&self)
        requires
            self.wf(),
        ensures
            self@.dom().finite(),
            self@.dom().len() == self.entries@.len(),
    {
        broadcast use seq_to_set_is_finite;

        let names = self.entries@.map_values(|e: RegEntry| e.name@);
        assert(names.no_duplicates()) by {
            assert(forall|i: int, j: int|
                0 <= i < names.len() && 0 <= j < names.len() && i != j
                    ==> #[trigger] names[i] != #[trigger] names[j]) by {
                assert forall|i: int, j: int|
                    0 <= i < names.len() && 0 <= j < names.len() && i != j
                    implies #[trigger] names[i] != #[trigger] names[j] by {
                    if i < j {
                        assert(self.entries@[i].name@ != self.entries@[j].name@);
                    } else {
                        assert(self.entries@[j].name@ != self.entries@[i].name@);
                    }
                }
            }
        }
        assert(self@.dom() =~= names.to_set()) by {
            assert forall|n: Seq<char>| self@.dom().contains(n) implies names.to_set().contains(
                n,
            ) by {
                let i = choose|i: int|
                    0 <= i < self.entries@.len() && self.entries@[i].name@ == n;
                assert(names[i] == n);
            }
            assert forall|n: Seq<char>| names.to_set().contains(n) implies self@.dom().contains(
                n,
            ) by {
                let i = choose|i: int| 0 <= i < names.len() && names[i] == n;
                assert(self.entries@[i].name@ == n);
            }
        }
        names.unique_seq_to_set();
    }

    /// First step of `start`: fail fast when `name` is already registered.
    /// Decides only; the registry is untouched.
    pub fn start_gate(&self, name: &str) -> (g: StartGate)
        requires
            self.wf(),
        ensures
            self@.contains_key(name@) ==> (g matches StartGate::AlreadyRunning { message }
                && message@ == already_running_text(name@)),
            !self@.contains_key(name@) ==> g == StartGate::Proceed,
    {
        match self.find(name) {
            Some(_) => StartGate::AlreadyRunning { message: already_running_message(name) },
            None => StartGate::Proceed,
        }
    }

    /// Final step of a successful `start`: record the handle of the newly
    /// spawned process under `name`. If the name was registered meanwhile,
    /// nothing changes and the start is refused; otherwise exactly the one
    /// new entry appears.
    pub fn register(&mut self, name: &str, handle: WorkerHandle) -> (r: Result<String, String>)
        requires
            old(self).wf(),
        ensures
            final(self).wf(),
            !old(self)@.contains_key(name@) ==> {
                &&& final(self)@ == old(self)@.insert(name@, handle)
                &&& r matches Ok(m) && m@ == started_text(name@)
            },
            old(self)@.contains_key(name@) ==> {
                &&& final(self)@ == old(self)@
                &&& r matches Err(m) && m@ == already_running_text(name@)
            },
    {
        match self.find(name) {
            Some(_) => Err(already_running_message(name)),
            None => {
                let entry = RegEntry { name: String::from_str(name), handle };
                self.entries.push(entry);
                proof {
                    let pre = old(self).entries@;
                    let post = self.entries@;
                    assert(post == pre.push(entry));
                    assert(forall|j: int|
                        0 <= j < pre.len() ==> #[trigger] pre[j].name@ != name@);
                    assert forall|i: int, j: int|
                        0 <= i < j < post.len() implies #[trigger] post[i].name@
                        != #[trigger] post[j].name@ by {
                        if j < post.len() - 1 {
                            assert(pre[i].name@ != pre[j].name@);
                        } else {
                            assert(post[j].name@ == name@);
                            assert(pre[i].name@ != name@);
                        }
                    }
                    assert(self@ =~= old(self)@.insert(name@, handle)) by {
                        assert forall|n: Seq<char>| self@.contains_key(n) implies old(
                            self,
                        )@.insert(name@, handle).contains_key(n) by {
                            let i = choose|i: int|
                                0 <= i < post.len() && post[i].name@ == n;
                            if i < post.len() - 1 {
                                assert(pre[i].name@ == n);
                            }
                        }
                        assert forall|n: Seq<char>|
                            old(self)@.insert(name@, handle).contains_key(n) implies self@
                            .contains_key(n) by {
                            if n == name@ {
                                assert(post[post.len() - 1].name@ == n);
                            } else {
                                let i = choose|i: int|
                                    0 <= i < pre.len() && pre[i].name@ == n;
                                assert(post[i].name@ == n);
                            }
                        }
                        assert forall|n: Seq<char>| self@.contains_key(n) implies self@[n] == old(
                            self,
                        )@.insert(name@, handle)[n] by {
                            let i = choose|i: int|
                                0 <= i < post.len() && post[i].name@ == n;
                            if n == name@ {
                                assert(i == post.len() - 1) by {
                                    if i < post.len() - 1 {
                                        assert(pre[i].name@ != name@);
                                    }
                                }
                                assert(self@[n] == handle);
                            } else {
                                assert(i < post.len() - 1);
                                assert(pre[i].name@ == n);
                                assert(old(self)@.contains_key(n));
                                let i1 = choose|k: int|
                                    0 <= k < pre.len() && pre[k].name@ == n;
                                if i1 < i {
                                    assert(post[i1].name@ != post[i].name@);
                                } else if i < i1 {
                                    assert(post[i].name@ != post[i1].name@);
                                }
                                assert(self@[n] == post[i].handle);
                                assert(old(self)@[n] == pre[i1].handle);
                            }
                        }
                    }
                }
                Ok(started_message(name))
            },
        }
    }

    /// Decide how a send to `name` proceeds. Takes the registry immutably:
    /// planning a send never alters it, and an absent name leads to a
    /// refusal, never to process creation.
    pub fn plan_send(&self, name: &str) -> (p: SendPlan)
        requires
            self.wf(),
        ensures
            (p == SendPlan::NotRunning) <==> !self@.contains_key(name@),
            (p == SendPlan::NoInputHandle) <==> (self@.contains_key(name@)
                && !self@[name@].has_input),
            (p matches SendPlan::Deliver { handle_id }) <==> (self@.contains_key(name@)
                && self@[name@].has_input),
            (p matches SendPlan::Deliver { handle_id }) ==> p == (SendPlan::Deliver {
                handle_id: self@[name@].handle_id,
            }),
    {
        match self.find(name) {
            None => SendPlan::NotRunning,
            Some(i) => {
                let h = &self.entries[i].handle;
                if h.has_input {
                    SendPlan::Deliver { handle_id: h.handle_id }
                } else {
                    SendPlan::NoInputHandle
                }
            },
        }
    }

    /// `pause(name)`: `send` with the fixed `pause\n` payload.
    pub fn pause(&self, name: &str) -> (r: (SendPlan, Vec<u8>))
        requires
            self.wf(),
        ensures
            r.0 == self.plan_send_spec(name@),
            r.1@ == wire_of(Command::Pause),
    {
        (self.plan_send(name), Command::Pause.wire_bytes())
    }

    /// `stop(name)`: `send` with the fixed `stop\n` payload.
    pub fn stop(&self, name: &str) -> (r: (SendPlan, Vec<u8>))
        requires
            self.wf(),
        ensures
            r.0 == self.plan_send_spec(name@),
            r.1@ == wire_of(Command::Stop),
    {
        (self.plan_send(name), Command::Stop.wire_bytes())
    }

    /// `stop_now(name)`: `send` with the fixed `quit\n` payload.
    pub fn stop_now(&self, name: &str) -> (r: (SendPlan, Vec<u8>))
        requires
            self.wf(),
        ensures
            r.0 == self.plan_send_spec(name@),
            r.1@ == wire_of(Command::StopNow),
    {
        (self.plan_send(name), Command::StopNow.wire_bytes())
    }

    /// What `plan_send` decides, as a function of the registry state.
    pub open spec fn plan_send_spec(&self, name: Seq<char>) -> SendPlan {
        if !self@.contains_key(name) {
            SendPlan::NotRunning
        } else if !self@[name].has_input {
            SendPlan::NoInputHandle
        } else {
            SendPlan::Deliver { handle_id: self@[name].handle_id }
        }
    }
}

/// Builds [`already_running_text`].
pub fn already_running_message(name: &str) -> (m: String)
    ensures
        m@ == already_running_text(name@),
{
    let mut m = String::from_str("Cannot start \"");
    m.append(name);
    m.append("\" because it's already running.");
    m
}

/// Builds [`started_text`].
pub fn started_message(name: &str) -> (m: String)
    ensures
        m@ == started_text(name@),
{
    let mut m = String::from_str("Client \"");
    m.append(name);
    m.append("\" started.");
    m
}

/// Builds [`not_running_text`].
pub fn not_running_message(name: &str) -> (m: String)
    ensures
        m@ == not_running_text(name@),
{
    let mut m = String::from_str("Client '");
    m.append(name);
    m.append("' is not running.");
    m
}

/// Builds [`no_input_text`].
pub fn no_input_message(name: &str) -> (m: String)
    ensures
        m@ == no_input_text(name@),
{
    let mut m = String::from_str("Client '");
    m.append(name);
    m.append("' has no stdin handle");
    m
}

/// The result text for a delivery attempt, by its outcome.
pub fn delivery_report(name: &str, c: &Command, outcome: &WriteOutcome) -> (m: String)
    ensures
        match outcome {
            WriteOutcome::Delivered => m@ == sent_text(label_of(*c), name@),
            WriteOutcome::WriteFailed { error } => m@ == write_failed_text(
                label_of(*c),
                name@,
                error@,
            ),
            WriteOutcome::FlushFailed { error } => m@ == flush_failed_text(
                label_of(*c),
                name@,
                error@,
            ),
        },
{
    match outcome {
        WriteOutcome::Delivered => {
            let mut m = String::from_str("Sent command '");
            m.append(c.label());
            m.append("' to client '");
            m.append(name);
            m.append("'");
            m
        },
        WriteOutcome::WriteFailed { error } => {
            let mut m = String::from_str("Failed to send command '");
            m.append(c.label());
            m.append("' to client '");
            m.append(name);
            m.append("': ");
            m.append(error.as_str());
            m
        },
        WriteOutcome::FlushFailed { error } => {
            let mut m = String::from_str("Failed to flush command '");
            m.append(c.label());
            m.append("' to client '");
            m.append(name);
            m.append("': ");
            m.append(error.as_str());
            m
        },
    }
}

/// For a name that is not registered, a successful start registers exactly
/// one process, and an immediately following start for the same name finds
/// the name present, so `start_gate` refuses it as already running.
pub proof fn lemma_second_start_refused(
    m: Map<Seq<char>, WorkerHandle>,
    name: Seq<char>,
    h: WorkerHandle,
)
    requires
        !m.contains_key(name),
        m.dom().finite(),
    ensures
        m.insert(name, h).contains_key(name),
        m.insert(name, h).dom().len() == m.dom().len() + 1,
{
    assert(m.insert(name, h).dom() =~= m.dom().insert(name));
}

} // verus!
