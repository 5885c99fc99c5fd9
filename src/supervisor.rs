//! The process supervisor: sole owner of the supervised node's state. It
//! takes one command at a time and answers each exactly once. Work that only
//! the host can do (spawning, terminating, forwarding a call to the node) is
//! handed out as a step; its outcome comes back through `complete`.
//!
//! Policy on logs: the log holds the output of the most recent run only. It
//! is emptied when a new child is spawned and kept after the child stops.

use vstd::prelude::*;

use crate::env::{pairs_view, parse_env, parse_env_spec};
use crate::types::NodeStatus;

verus! {

/// Failures of the supervisor's operations.
#[derive(Debug)]
pub enum ProcessError {
    AlreadyRunning,
    EnvParseError,
    NotRunning,
    /// Spawning or terminating the child failed; holds the fault's text.
    SubprocessError(String),
    /// Reading or writing the child's files failed; holds the fault's text.
    IO(String),
    /// Forwarding a call to the node failed in transport; holds the fault's text.
    CodeChainRPC(String),
}

/// What the supervisor knows of its node, as a mathematical value.
pub ghost struct SupervisorState {
    pub status: NodeStatus,
    /// Process id of the live child, where there is one.
    pub child: Option<u64>,
    /// Listening port that the child reported; 0 while unknown.
    pub port: u16,
    pub log: Seq<char>,
}

/// The supervisor's state. Its fields are reached only through its methods.
pub struct Supervisor {
    status: NodeStatus,
    child: Option<u64>,
    port: u16,
    log: String,
}

/// A command, as sent to the supervisor.
pub enum Command {
    Run { env: String, args: String },
    Stop,
    GetLog,
    GetStatus,
    CallRPC { method: String, arguments: Vec<serde_json::Value> },
}

/// The answer to a command.
pub enum Reply {
    /// To `Run` and `Stop`.
    Done(Result<(), ProcessError>),
    /// To `GetLog`.
    Log(String),
    /// To `GetStatus`: the status and the reported port.
    Status(NodeStatus, u16),
    /// To `CallRPC`: the node's answer.
    Rpc(Result<serde_json::Value, ProcessError>),
}

/// What the host does after the supervisor took a command: answer at once,
/// or do one piece of outside work and report its outcome.
pub enum Step {
    Answer(Reply),
    Spawn { args: String, env: Vec<(String, String)> },
    Terminate { pid: u64 },
    Forward { method: String, arguments: Vec<serde_json::Value> },
}

/// Outcome of the outside work of a step.
pub enum Outcome {
    /// The child's process id, or the spawn fault's text.
    Spawned(Result<u64, String>),
    /// The child exited, or the termination fault's text.
    Terminated(Result<(), String>),
    /// The node's answer, or the transport fault's text.
    Forwarded(Result<serde_json::Value, String>),
}

/// A child is alive: a node runs.
pub open spec fn is_running(s: SupervisorState) -> bool {
    s.child is Some
}

/// The supervisor's invariant: a child lives exactly while the
/// status says `Run`.
pub open spec fn state_wf(s: SupervisorState) -> bool {
    (s.child is Some) <==> (s.status == NodeStatus::Run)
}

/// State after a child with process id `pid` was spawned.
pub open spec fn spawned_state(s: SupervisorState, pid: u64) -> SupervisorState {
    SupervisorState { status: NodeStatus::Run, child: Some(pid), port: 0, log: Seq::empty() }
}

/// State after the supervisor gave up on its child (failed start or stop, or
/// a crash): no child, status `Error`, log kept.
pub open spec fn failed_state(s: SupervisorState) -> SupervisorState {
    SupervisorState { status: NodeStatus::Error, child: None, port: 0, ..s }
}

/// State after the child stopped on request.
pub open spec fn stopped_state(s: SupervisorState) -> SupervisorState {
    SupervisorState { status: NodeStatus::Stop, child: None, port: 0, ..s }
}

/// State after the child wrote `t`: appended to the log while a child runs.
pub open spec fn with_output(s: SupervisorState, t: Seq<char>) -> SupervisorState {
    if is_running(s) {
        SupervisorState { log: s.log + t, ..s }
    } else {
        s
    }
}

/// State after the child wrote each of `outputs` in turn.
pub open spec fn with_outputs(s: SupervisorState, outputs: Seq<Seq<char>>) -> SupervisorState
    decreases outputs.len(),
{
    if outputs.len() == 0 {
        s
    } else {
        with_output(with_outputs(s, outputs.drop_last()), outputs.last())
    }
}

/// All of `outputs`, joined in order.
pub open spec fn joined(outputs: Seq<Seq<char>>) -> Seq<char>
    decreases outputs.len(),
{
    if outputs.len() == 0 {
        Seq::empty()
    } else {
        joined(outputs.drop_last()) + outputs.last()
    }
}

/// Whether a reply is the one that answers `cmd`.
pub open spec fn reply_fits(cmd: Command, r: Reply) -> bool {
    match cmd {
        Command::Run { .. } | Command::Stop => r is Done,
        Command::GetLog => r is Log,
        Command::GetStatus => r is Status,
        Command::CallRPC { .. } => r is Rpc,
    }
}

impl View for Supervisor {
    type V = SupervisorState;

    closed spec fn view(&self) -> SupervisorState {
        SupervisorState { status: self.status, child: self.child, port: self.port, log: self.log@ }
    }
}

impl Supervisor {
    /// The supervisor's invariant holds.
    pub open spec fn wf(&self) -> bool {
        state_wf(self@)
    }

    /// A supervisor that has never run a node: status `Stop`, empty log.
    pub fn new() -> (r: Supervisor)
        ensures
            r.wf(),
            r@ == (SupervisorState {
                status: NodeStatus::Stop,
                child: None,
                port: 0,
                log: Seq::empty(),
            }),
    {
        Supervisor { status: NodeStatus::Stop, child: None, port: 0, log: String::new() }
    }

    /// First half of `Run`: refuses while a node runs, parses `env`, and on
    /// success gives back what to spawn. An unparseable `env` puts the
    /// supervisor in `Error`, and nothing is to be spawned.
    pub fn begin_run(&mut self, env: &str, args: &str) -> (r: Result<
        (String, Vec<(String, String)>),
        ProcessError,
    >)
        requires
            old(self).wf(),
        ensures
            final(self).wf(),
            is_running(old(self)@) ==> (r matches Err(ProcessError::AlreadyRunning)
                && final(self)@ == old(self)@),
            !is_running(old(self)@) && parse_env_spec(env@) is None ==> (r matches Err(
                ProcessError::EnvParseError,
            ) && final(self)@ == failed_state(old(self)@)),
            !is_running(old(self)@) && parse_env_spec(env@) is Some ==> (r matches Ok((a, e))
                && a@ == args@ && parse_env_spec(env@) == Some(pairs_view(e@)) && final(self)@
                == old(self)@),
    {
        if self.child.is_some() {
            return Err(ProcessError::AlreadyRunning);
        }
        match parse_env(env) {
            None => {
                self.give_up();
                Err(ProcessError::EnvParseError)
            },
            Some(e) => Ok((String::from_str(args), e)),
        }
    }

    /// Second half of `Run`: applies the spawn's outcome.
    pub fn finish_run(&mut self, outcome: Result<u64, String>) -> (r: Result<(), ProcessError>)
        requires
            old(self).wf(),
            !is_running(old(self)@),
        ensures
            final(self).wf(),
            match outcome {
                Ok(pid) => r is Ok && final(self)@ == spawned_state(old(self)@, pid),
                Err(d) => r matches Err(ProcessError::SubprocessError(e)) && e@ == d@
                    && final(self)@ == failed_state(old(self)@),
            },
    {
        match outcome {
            Ok(pid) => {
                self.status = NodeStatus::Run;
                self.child = Some(pid);
                self.port = 0;
                self.log = String::new();
                Ok(())
            },
            Err(d) => {
                self.give_up();
                Err(ProcessError::SubprocessError(d))
            },
        }
    }

    /// First half of `Stop`: the process id of the child to terminate, or
    /// `NotRunning` where there is none. Changes nothing.
    pub fn begin_stop(&self) -> (r: Result<u64, ProcessError>)
        requires
            self.wf(),
        ensures
            match self@.child {
                Some(pid) => r == Ok::<u64, ProcessError>(pid),
                None => r matches Err(ProcessError::NotRunning),
            },
    {
        match self.child {
            Some(pid) => Ok(pid),
            None => Err(ProcessError::NotRunning),
        }
    }

    /// Second half of `Stop`: applies the termination's outcome. The child's
    /// handle is released either way.
    pub fn finish_stop(&mut self, outcome: Result<(), String>) -> (r: Result<(), ProcessError>)
        requires
            old(self).wf(),
            is_running(old(self)@),
        ensures
            final(self).wf(),
            match outcome {
                Ok(()) => r is Ok && final(self)@ == stopped_state(old(self)@),
                Err(d) => r matches Err(ProcessError::SubprocessError(e)) && e@ == d@
                    && final(self)@ == failed_state(old(self)@),
            },
    {
        match outcome {
            Ok(()) => {
                self.status = NodeStatus::Stop;
                self.child = None;
                self.port = 0;
                Ok(())
            },
            Err(d) => {
                self.give_up();
                Err(ProcessError::SubprocessError(d))
            },
        }
    }

    /// First half of `CallRPC`: `NotRunning` unless a node runs. Changes nothing.
    pub fn begin_call_rpc(&self) -> (r: Result<(), ProcessError>)
        requires
            self.wf(),
        ensures
            is_running(self@) <==> r is Ok,
            !is_running(self@) ==> r matches Err(ProcessError::NotRunning),
    {
        if self.child.is_some() {
            Ok(())
        } else {
            Err(ProcessError::NotRunning)
        }
    }

    /// Second half of `CallRPC`: the node's answer, or `CodeChainRPC` where the
    /// transport failed.
    pub fn finish_call_rpc(outcome: Result<serde_json::Value, String>) -> (r: Result<
        serde_json::Value,
        ProcessError,
    >)
        ensures
            match outcome {
                Ok(v) => r == Ok::<serde_json::Value, ProcessError>(v),
                Err(d) => r matches Err(ProcessError::CodeChainRPC(e)) && e@ == d@,
            },
    {
        match outcome {
            Ok(v) => Ok(v),
            Err(d) => Err(ProcessError::CodeChainRPC(d)),
        }
    }

    /// `GetLog`: the output of the most recent run, as it stands now.
    pub fn get_log(&self) -> (r: String)
        ensures
            r@ == self@.log,
    {
        self.log.clone()
    }

    /// `GetStatus`: the status and the port that the child reported (0 while unknown).
    /// The status never reads `Run` without a live child, nor the reverse.
    pub fn get_status(&self) -> (r: (NodeStatus, u16))
        requires
            self.wf(),
        ensures
            r == (self@.status, self@.port),
            (r.0 == NodeStatus::Run) <==> is_running(self@),
    {
        (self.status, self.port)
    }

    /// Output of the running child, appended to the log; ignored where no
    /// child runs.
    pub fn append_log(&mut self, text: &str)
        requires
            old(self).wf(),
        ensures
            final(self).wf(),
            final(self)@ == with_output(old(self)@, text@),
    {
        if self.child.is_some() {
            self.log.append(text);
        }
    }

    /// The running child reported the port it listens on; ignored where no
    /// child runs.
    pub fn report_port(&mut self, port: u16)
        requires
            old(self).wf(),
        ensures
            final(self).wf(),
            is_running(old(self)@) ==> final(self)@ == (SupervisorState { port, ..old(self)@ }),
            !is_running(old(self)@) ==> final(self)@ == old(self)@,
    {
        if self.child.is_some() {
            self.port = port;
        }
    }

    /// The child with process id `pid` exited without being asked to: the
    /// supervisor moves to `Error`. A notice about another process changes
    /// nothing.
    pub fn child_exited(&mut self, pid: u64)
        requires
            old(self).wf(),
        ensures
            final(self).wf(),
            old(self)@.child == Some(pid) ==> final(self)@ == failed_state(old(self)@),
            old(self)@.child != Some(pid) ==> final(self)@ == old(self)@,
    {
        if self.child == Some(pid) {
            self.give_up();
        }
    }

    /// Takes one command. Commands that need no outside work are answered at
    /// once; for the others the step names the work, and `complete` answers
    /// once its outcome is known. A spawn is asked for only while no child
    /// lives, so there is never more than one.
    pub fn accept(&mut self, cmd: Command) -> (st: Step)
        requires
            old(self).wf(),
        ensures
            final(self).wf(),
            st matches Step::Answer(r) ==> reply_fits(cmd, r),
            st is Spawn ==> !is_running(old(self)@),
            match cmd {
                Command::Run { env, args } => if is_running(old(self)@) {
                    st matches Step::Answer(Reply::Done(Err(ProcessError::AlreadyRunning)))
                        && final(self)@ == old(self)@
                } else if parse_env_spec(env@) is None {
                    st matches Step::Answer(Reply::Done(Err(ProcessError::EnvParseError)))
                        && final(self)@ == failed_state(old(self)@)
                } else {
                    st matches Step::Spawn { args: a, env: e } && a@ == args@ && parse_env_spec(
                        env@,
                    ) == Some(pairs_view(e@)) && final(self)@ == old(self)@
                },
                Command::Stop => final(self)@ == old(self)@ && match old(self)@.child {
                    Some(pid) => st == Step::Terminate { pid },
                    None => st matches Step::Answer(Reply::Done(Err(ProcessError::NotRunning))),
                },
                Command::GetLog => final(self)@ == old(self)@ && (st matches Step::Answer(
                    Reply::Log(l),
                ) && l@ == old(self)@.log),
                Command::GetStatus => final(self)@ == old(self)@ && (st matches Step::Answer(
                    Reply::Status(status, port),
                ) && status == old(self)@.status && port == old(self)@.port),
                Command::CallRPC { method, arguments } => final(self)@ == old(self)@ && if is_running(
                    old(self)@,
                ) {
                    st == Step::Forward { method, arguments }
                } else {
                    st matches Step::Answer(Reply::Rpc(Err(ProcessError::NotRunning)))
                },
            },
    {
        match cmd {
            Command::Run { env, args } => match self.begin_run(env.as_str(), args.as_str()) {
                Ok((a, e)) => Step::Spawn { args: a, env: e },
                Err(err) => Step::Answer(Reply::Done(Err(err))),
            },
            Command::Stop => match self.begin_stop() {
                Ok(pid) => Step::Terminate { pid },
                Err(err) => Step::Answer(Reply::Done(Err(err))),
            },
            Command::GetLog => Step::Answer(Reply::Log(self.get_log())),
            Command::GetStatus => {
                let (status, port) = self.get_status();
                Step::Answer(Reply::Status(status, port))
            },
            Command::CallRPC { method, arguments } => match self.begin_call_rpc() {
                Ok(()) => Step::Forward { method, arguments },
                Err(err) => Step::Answer(Reply::Rpc(Err(err))),
            },
        }
    }

    /// Answers the command whose step asked for outside work, given that
    /// work's outcome: a spawn right after a `Run` step, a termination right
    /// after a `Stop` step, a forwarded call after a `CallRPC` step.
    pub fn complete(&mut self, o: Outcome) -> (r: Reply)
        requires
            old(self).wf(),
            o is Spawned ==> !is_running(old(self)@),
            o is Terminated ==> is_running(old(self)@),
        ensures
            final(self).wf(),
            match o {
                Outcome::Spawned(Ok(pid)) => r matches Reply::Done(Ok(()))
                    && final(self)@ == spawned_state(old(self)@, pid),
                Outcome::Terminated(Ok(())) => r matches Reply::Done(Ok(()))
                    && final(self)@ == stopped_state(old(self)@),
                Outcome::Spawned(Err(d)) | Outcome::Terminated(Err(d)) => r matches Reply::Done(
                    Err(ProcessError::SubprocessError(e)),
                ) && e@ == d@ && final(self)@ == failed_state(old(self)@),
                Outcome::Forwarded(Ok(v)) => r == Reply::Rpc(Ok(v)) && final(self)@ == old(self)@,
                Outcome::Forwarded(Err(d)) => r matches Reply::Rpc(
                    Err(ProcessError::CodeChainRPC(e)),
                ) && e@ == d@ && final(self)@ == old(self)@,
            },
    {
        match o {
            Outcome::Spawned(res) => Reply::Done(self.finish_run(res)),
            Outcome::Terminated(res) => Reply::Done(self.finish_stop(res)),
            Outcome::Forwarded(res) => Reply::Rpc(Self::finish_call_rpc(res)),
        }
    }

    fn give_up(&mut self)
        ensures
            final(self)@ == failed_state(old(self)@),
    {
        self.status = NodeStatus::Error;
        self.child = None;
        self.port = 0;
    }
}

/// After a new child is spawned, the log holds exactly what that child wrote
/// since, in order: nothing of an earlier run remains.
pub proof fn lemma_log_of_current_run(s: SupervisorState, pid: u64, outputs: Seq<Seq<char>>)
    ensures
        with_outputs(spawned_state(s, pid), outputs).log == joined(outputs),
        with_outputs(spawned_state(s, pid), outputs).child == Some(pid),
    decreases outputs.len(),
{
    if outputs.len() > 0 {
        lemma_log_of_current_run(s, pid, outputs.drop_last());
    } else {
        assert(joined(outputs) =~= Seq::<char>::empty());
    }
}

} // verus!
