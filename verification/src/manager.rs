//! The supervisor's state machine: one record tracking a single child
//! process, the transitions driven by the host's calls and by the events of
//! the background monitor loop, and the classification of the HTTP replies
//! used by the health check and the prompt forwarder.
//!
//! The host performs every spawn, kill and network request itself and feeds
//! each outcome back into these functions; the functions decide every state
//! change and every message.

use vstd::prelude::*;
use vstd::string::StringExecFns;
use crate::digits::dec_text;
use crate::digits::dec_string;
use crate::digits::int_text;
use crate::digits::int_string;
use crate::http::HttpReply;
use crate::http::health_message;
use crate::http::health_message_text;
use crate::http::opt_text;
use crate::http::spec_status_success;
use crate::http::status_is_success;
use crate::json::json_accepts;
use crate::json::json_as_str;
use crate::json::json_error_string;
use crate::json::json_get;
use crate::json::json_parse;

verus! {

/// The record tracking the one child process the supervisor may own.
#[derive(Debug, Clone)]
pub struct SidecarManager {
    /// True from a successful spawn until an exit, error or stop is observed.
    pub running: bool,
    /// The platform process id of the child; `None` when not running.
    pub child_id: Option<u32>,
    /// The most recent failure description; cleared when a start begins,
    /// kept across a stop.
    pub last_error: Option<String>,
}

/// What the host must do after asking to start the sidecar.
#[derive(Debug)]
pub enum StartAction {
    /// A child is already running: report success, spawn nothing.
    AlreadyRunning,
    /// Launch this program with this argument, then report the outcome
    /// through `start_sidecar`.
    Spawn { program: String, arg: String },
}

/// The outcome of the host's attempt to launch the child.
#[derive(Debug)]
pub enum SpawnOutcome {
    /// The child was spawned and has this process id.
    Spawned(u32),
    /// The packaged executable could not be resolved.
    CommandFailed(String),
    /// The spawn call itself failed.
    SpawnFailed(String),
}

/// One event from the child's output/termination stream.
#[derive(Debug)]
pub enum ChildEvent {
    /// A chunk of the child's standard output.
    Stdout(Vec<u8>),
    /// A chunk of the child's standard error.
    Stderr(Vec<u8>),
    /// A runtime error reported for the child, with its description.
    Error(String),
    /// The child terminated, with its exit code when one is known.
    Terminated(Option<i32>),
    /// Any other kind of event.
    Other,
}

/// What the monitor loop must do with the event it just handled.
#[derive(Debug)]
pub enum MonitorAction {
    /// Forward this output chunk to the host's logging sink, tagged with
    /// the stream it came from.
    Forward { stderr: bool, data: Vec<u8> },
    /// The child is gone: leave the loop.
    Stop,
    /// Nothing to do: keep draining events.
    Ignore,
}

/// What the host must do after asking to stop the sidecar.
#[derive(Debug)]
pub enum StopAction {
    /// No child is running: report success, kill nothing.
    AlreadyStopped,
    /// Kill the process with this id, then report the outcome through
    /// `stop_sidecar`.
    Kill { pid: u32 },
    /// The state says running but holds no process id: report this error,
    /// kill nothing.
    MissingPid { error: String },
}

impl SidecarManager {
    /// The record's invariant: a process id is held exactly while a child
    /// counts as running.
    pub open spec fn wf(self) -> bool {
        self.running <==> self.child_id is Some
    }

    /// A fresh supervisor: nothing running, nothing recorded.
    pub fn new() -> (m: SidecarManager)
        ensures
            m.wf(),
            !m.running,
            m.child_id is None,
            m.last_error is None,
    {
        SidecarManager { running: false, child_id: None, last_error: None }
    }

    /// Whether a child currently counts as running.
    pub fn is_running(&self) -> (r: bool)
        ensures
            r == self.running,
    {
        self.running
    }

    /// A copy of the most recent failure description, if any.
    pub fn get_error(&self) -> (r: Option<String>)
        ensures
            r is Some <==> self.last_error is Some,
            (r matches Some(m) ==> (self.last_error matches Some(e) && m@ == e@)),
    {
        match &self.last_error {
            Some(e) => Some(e.clone()),
            None => None,
        }
    }

    /// Decides how a start request proceeds.  While a child is running a
    /// second start is a no-op success and nothing is spawned; otherwise the
    /// previous error is cleared and the host is told to launch the packaged
    /// sidecar executable in HTTP mode.
    pub fn prepare_start(&mut self) -> (a: StartAction)
        requires
            old(self).wf(),
        ensures
            final(self).wf(),
            old(self).running ==> a is AlreadyRunning && *final(self) == *old(self),
            !old(self).running ==> {
                &&& (a matches StartAction::Spawn { program, arg } && program@ == "opencode"@
                    && arg@ == "--http-mode"@)
                &&& !final(self).running
                &&& final(self).child_id == old(self).child_id
                &&& final(self).last_error is None
            },
    {
        if self.running {
            StartAction::AlreadyRunning
        } else {
            self.last_error = None;
            StartAction::Spawn { program: "opencode".to_owned(), arg: "--http-mode".to_owned() }
        }
    }

    /// Records the outcome of the spawn requested by `prepare_start`.  On a
    /// successful spawn the child is tracked and the caller gets a plain
    /// success; on either launch failure the state stays not-running, the
    /// failure is recorded and the same message is returned.
    pub fn start_sidecar(&mut self, outcome: SpawnOutcome) -> (r: Result<(), String>)
        requires
            old(self).wf(),
            !old(self).running,
        ensures
            final(self).wf(),
            (outcome matches SpawnOutcome::Spawned(pid) ==> {
                &&& final(self).running
                &&& final(self).child_id == Some(pid)
                &&& final(self).last_error == old(self).last_error
                &&& r is Ok
            }),
            (outcome matches SpawnOutcome::CommandFailed(e) ==> {
                &&& !final(self).running
                &&& final(self).child_id == old(self).child_id
                &&& (final(self).last_error matches Some(m)
                    && m@ == "Failed to create sidecar command: "@ + e@)
                &&& (r matches Err(m) && m@ == "Failed to create sidecar command: "@ + e@)
            }),
            (outcome matches SpawnOutcome::SpawnFailed(e) ==> {
                &&& !final(self).running
                &&& final(self).child_id == old(self).child_id
                &&& (final(self).last_error matches Some(m)
                    && m@ == "Failed to spawn sidecar: "@ + e@)
                &&& (r matches Err(m) && m@ == "Failed to spawn sidecar: "@ + e@)
            }),
    {
        match outcome {
            SpawnOutcome::Spawned(pid) => {
                self.child_id = Some(pid);
                self.running = true;
                Ok(())
            },
            SpawnOutcome::CommandFailed(e) => {
                let msg = "Failed to create sidecar command: ".to_owned().concat(e.as_str());
                self.last_error = Some(msg.clone());
                Err(msg)
            },
            SpawnOutcome::SpawnFailed(e) => {
                let msg = "Failed to spawn sidecar: ".to_owned().concat(e.as_str());
                self.last_error = Some(msg.clone());
                Err(msg)
            },
        }
    }

    /// Drives the monitor loop one event forward.  Output is forwarded
    /// unchanged and changes nothing; a runtime error or a termination stops
    /// the loop and clears the tracked child; only an abnormal or unknown
    /// exit code records an error, a zero exit leaves the recorded error
    /// untouched.
    pub fn handle_event(&mut self, event: ChildEvent) -> (a: MonitorAction)
        requires
            old(self).wf(),
        ensures
            final(self).wf(),
            (match event {
                ChildEvent::Stdout(data) => *final(self) == *old(self) && a == (MonitorAction::Forward { stderr: false, data }),
                ChildEvent::Stderr(data) => *final(self) == *old(self) && a == (MonitorAction::Forward { stderr: true, data }),
                ChildEvent::Error(e) => {
                    &&& !final(self).running
                    &&& final(self).child_id is None
                    &&& (final(self).last_error matches Some(m) && m@ == "Process error: "@ + e@)
                    &&& a is Stop
                },
                ChildEvent::Terminated(code) => {
                    &&& !final(self).running
                    &&& final(self).child_id is None
                    &&& (code == Some(0i32) ==> final(self).last_error == old(self).last_error)
                    &&& (code != Some(0i32) ==> (final(self).last_error matches Some(m)
                        && m@ == "Process terminated with code: "@ + exit_code_text(code)))
                    &&& a is Stop
                },
                ChildEvent::Other => *final(self) == *old(self) && a is Ignore,
            }),
    {
        match event {
            ChildEvent::Stdout(data) => MonitorAction::Forward { stderr: false, data },
            ChildEvent::Stderr(data) => MonitorAction::Forward { stderr: true, data },
            ChildEvent::Error(e) => {
                let msg = "Process error: ".to_owned().concat(e.as_str());
                self.last_error = Some(msg);
                self.running = false;
                self.child_id = None;
                MonitorAction::Stop
            },
            ChildEvent::Terminated(code) => {
                self.running = false;
                self.child_id = None;
                let zero = match code {
                    Some(c) => c == 0,
                    None => false,
                };
                if !zero {
                    let msg = "Process terminated with code: ".to_owned().concat(
                        exit_code_string(code).as_str(),
                    );
                    self.last_error = Some(msg);
                }
                MonitorAction::Stop
            },
            ChildEvent::Other => MonitorAction::Ignore,
        }
    }

    /// Decides how a stop request proceeds.  With nothing running it is a
    /// no-op success; with a tracked process id the host is told to kill
    /// that process; a running state without a process id is reported as a
    /// distinct error and nothing is killed.
    pub fn prepare_stop(&self) -> (a: StopAction)
        ensures
            !self.running ==> a is AlreadyStopped,
            (match self.child_id {
                Some(pid) => self.running ==> a == (StopAction::Kill { pid }),
                None => self.running ==> (a matches StopAction::MissingPid { error }
                    && error@ == "No process ID available"@),
            }),
    {
        if !self.running {
            StopAction::AlreadyStopped
        } else {
            match self.child_id {
                Some(pid) => StopAction::Kill { pid },
                None => StopAction::MissingPid { error: "No process ID available".to_owned() },
            }
        }
    }

    /// Records the outcome of the kill requested by `prepare_stop`.  When
    /// the kill succeeded the child is no longer tracked; when the kill
    /// command itself failed the state is unchanged apart from recording the
    /// failure, and the same message is returned.
    pub fn stop_sidecar(&mut self, kill: Result<(), String>) -> (r: Result<(), String>)
        requires
            old(self).wf(),
            old(self).running,
        ensures
            final(self).wf(),
            (kill is Ok ==> {
                &&& !final(self).running
                &&& final(self).child_id is None
                &&& final(self).last_error == old(self).last_error
                &&& r is Ok
            }),
            (kill matches Err(e) ==> {
                &&& final(self).running == old(self).running
                &&& final(self).child_id == old(self).child_id
                &&& (final(self).last_error matches Some(m)
                    && m@ == "Failed to kill process: "@ + e@)
                &&& (r matches Err(m) && m@ == "Failed to kill process: "@ + e@)
            }),
    {
        match kill {
            Ok(()) => {
                self.running = false;
                self.child_id = None;
                Ok(())
            },
            Err(e) => {
                let msg = "Failed to kill process: ".to_owned().concat(e.as_str());
                self.last_error = Some(msg.clone());
                Err(msg)
            },
        }
    }

    /// The guard shared by the health check and the prompt forwarder: both
    /// require a running child and fail with this message, before any
    /// network request is made, when there is none.
    pub fn guard_running(&self) -> (r: Result<(), String>)
        ensures
            r is Ok <==> self.running,
            (r matches Err(m) ==> m@ == "Sidecar is not running"@),
    {
        if self.running {
            Ok(())
        } else {
            Err("Sidecar is not running".to_owned())
        }
    }

    /// Classifies the reply of a GET to the child's health endpoint.  A
    /// success status with a body that parses as JSON yields a success
    /// message (echoing the body's `status` field when it is a string);
    /// every failure — transport, status, body read, parse — yields its own
    /// message.
    pub fn health_check(&self, reply: HttpReply) -> (r: Result<String, String>)
        requires
            self.running,
        ensures
            (match reply {
                HttpReply::Failed(e) => (r matches Err(m)
                    && m@ == "Health check request failed: "@ + e@),
                HttpReply::Response { status, body } => if !spec_status_success(status) {
                    r matches Err(m)
                        && m@ == "Health check failed with status: "@ + dec_text(status as nat)
                } else {
                    match body {
                        Err(e) => (r matches Err(m)
                            && m@ == "Failed to parse response: "@ + e@),
                        Ok(t) => if !json_accepts(t@) {
                            r matches Err(m)
                                && (exists|e: Seq<char>| m@ == "Failed to parse response: "@ + e)
                        } else {
                            r matches Ok(m)
                                && (exists|f: Option<Seq<char>>| m@ == health_message_text(f))
                        },
                    }
                },
            }),
    {
        match reply {
            HttpReply::Failed(e) => Err("Health check request failed: ".to_owned().concat(e.as_str())),
            HttpReply::Response { status, body } => {
                if !status_is_success(status) {
                    Err("Health check failed with status: ".to_owned().concat(
                        dec_string(status as u64).as_str(),
                    ))
                } else {
                    match body {
                        Err(e) => Err("Failed to parse response: ".to_owned().concat(e.as_str())),
                        Ok(t) => match json_parse(t.as_str()) {
                            Err(pe) => {
                                let detail = json_error_string(&pe);
                                Err("Failed to parse response: ".to_owned().concat(detail.as_str()))
                            },
                            Ok(doc) => {
                                let field = match json_get(&doc, "status") {
                                    Some(v) => json_as_str(v),
                                    None => None,
                                };
                                Ok(health_message(field))
                            },
                        },
                    }
                }
            },
        }
    }

    /// Classifies the reply of a POST of a prompt payload to the child's
    /// prompt endpoint.  On a success status the body text is handed back
    /// unchanged; every failure — transport, status, body read — yields its
    /// own message.
    pub fn send_prompt(&self, reply: HttpReply) -> (r: Result<String, String>)
        requires
            self.running,
        ensures
            (match reply {
                HttpReply::Failed(e) => (r matches Err(m)
                    && m@ == "Request failed: "@ + e@),
                HttpReply::Response { status, body } => if !spec_status_success(status) {
                    r matches Err(m)
                        && m@ == "Request failed with status: "@ + dec_text(status as nat)
                } else {
                    match body {
                        Ok(t) => (r matches Ok(m) && m@ == t@),
                        Err(e) => (r matches Err(m)
                            && m@ == "Failed to read response: "@ + e@),
                    }
                },
            }),
    {
        match reply {
            HttpReply::Failed(e) => Err("Request failed: ".to_owned().concat(e.as_str())),
            HttpReply::Response { status, body } => {
                if !status_is_success(status) {
                    Err("Request failed with status: ".to_owned().concat(
                        dec_string(status as u64).as_str(),
                    ))
                } else {
                    match body {
                        Ok(t) => Ok(t),
                        Err(e) => Err("Failed to read response: ".to_owned().concat(e.as_str())),
                    }
                }
            },
        }
    }
}

/// How an exit code appears in the abnormal-termination message: the code
/// when one is known, the word `None` when the platform reported none.
pub open spec fn exit_code_text(code: Option<i32>) -> Seq<char> {
    match code {
        Some(n) => "Some("@ + int_text(n as int) + ")"@,
        None => "None"@,
    }
}

/// Renders an optional exit code for the abnormal-termination message.
pub fn exit_code_string(code: Option<i32>) -> (r: String)
    ensures
        r@ == exit_code_text(code),
{
    match code {
        Some(n) => {
            let s = "Some(".to_owned().concat(int_string(n).as_str()).concat(")");
            proof {
                assert(s@ =~= exit_code_text(code));
            }
            s
        },
        None => "None".to_owned(),
    }
}

} // verus!
