use codechain_agent::api::{call_rpc_response, done_response, ping};
use codechain_agent::error::ERR_NETWORK_ERROR;
use codechain_agent::supervisor::{Command, Outcome, ProcessError, Reply, Step, Supervisor};
use codechain_agent::types::NodeStatus;
use jsonrpc_core::types::ErrorCode;
use serde_json::Value;

fn run(env: &str, args: &str) -> Command {
    Command::Run { env: env.to_string(), args: args.to_string() }
}

fn started(pid: u64) -> Supervisor {
    let mut s = Supervisor::new();
    match s.accept(run("A=1", "--port 3485")) {
        Step::Spawn { args, env } => {
            assert_eq!(args, "--port 3485");
            assert_eq!(env, vec![("A".to_string(), "1".to_string())]);
        }
        _ => panic!("expected a spawn"),
    }
    assert!(matches!(s.complete(Outcome::Spawned(Ok(pid))), Reply::Done(Ok(()))));
    s
}

#[test]
fn new_supervisor_is_stopped() {
    let s = Supervisor::new();
    assert_eq!(s.get_status(), (NodeStatus::Stop, 0));
    assert_eq!(s.get_log(), "");
}

#[test]
fn run_then_status_is_run() {
    let s = started(42);
    assert_eq!(s.get_status(), (NodeStatus::Run, 0));
    assert_eq!(s.begin_stop().ok(), Some(42));
}

#[test]
fn stop_while_not_running_fails_without_change() {
    let mut s = Supervisor::new();
    let st = s.accept(Command::Stop);
    assert!(matches!(st, Step::Answer(Reply::Done(Err(ProcessError::NotRunning)))));
    assert_eq!(s.get_status(), (NodeStatus::Stop, 0));
    assert_eq!(s.get_log(), "");
}

#[test]
fn run_while_running_fails_and_keeps_child() {
    let mut s = started(7);
    s.report_port(9000);
    let st = s.accept(run("B=2", "x"));
    assert!(matches!(st, Step::Answer(Reply::Done(Err(ProcessError::AlreadyRunning)))));
    assert_eq!(s.begin_stop().ok(), Some(7));
    assert_eq!(s.get_status(), (NodeStatus::Run, 9000));
}

#[test]
fn run_with_bad_env_goes_to_error_without_spawn() {
    let mut s = Supervisor::new();
    let st = s.accept(run("BAD", "x"));
    assert!(matches!(st, Step::Answer(Reply::Done(Err(ProcessError::EnvParseError)))));
    assert_eq!(s.get_status(), (NodeStatus::Error, 0));
    assert!(s.begin_stop().is_err());
}

#[test]
fn run_after_error_can_succeed() {
    let mut s = Supervisor::new();
    let _ = s.accept(run("BAD", "x"));
    assert!(matches!(s.accept(run("", "x")), Step::Spawn { .. }));
    assert!(matches!(s.complete(Outcome::Spawned(Ok(5))), Reply::Done(Ok(()))));
    assert_eq!(s.get_status(), (NodeStatus::Run, 0));
}

#[test]
fn failed_spawn_goes_to_error() {
    let mut s = Supervisor::new();
    assert!(matches!(s.accept(run("", "x")), Step::Spawn { .. }));
    match s.complete(Outcome::Spawned(Err("no such file".to_string()))) {
        Reply::Done(Err(ProcessError::SubprocessError(d))) => assert_eq!(d, "no such file"),
        _ => panic!("expected a subprocess error"),
    }
    assert_eq!(s.get_status(), (NodeStatus::Error, 0));
}

#[test]
fn stop_terminates_the_child() {
    let mut s = started(11);
    assert!(matches!(s.accept(Command::Stop), Step::Terminate { pid: 11 }));
    assert!(matches!(s.complete(Outcome::Terminated(Ok(()))), Reply::Done(Ok(()))));
    assert_eq!(s.get_status(), (NodeStatus::Stop, 0));
    assert!(matches!(
        s.accept(Command::Stop),
        Step::Answer(Reply::Done(Err(ProcessError::NotRunning)))
    ));
}

#[test]
fn log_keeps_last_run_and_resets_on_new_run() {
    let mut s = started(1);
    s.append_log("first ");
    s.append_log("run\n");
    assert!(matches!(s.accept(Command::Stop), Step::Terminate { .. }));
    let _ = s.complete(Outcome::Terminated(Ok(())));
    s.append_log("late output");
    match s.accept(Command::GetLog) {
        Step::Answer(Reply::Log(l)) => assert_eq!(l, "first run\n"),
        _ => panic!("expected a log"),
    }
    assert!(matches!(s.accept(run("", "x")), Step::Spawn { .. }));
    let _ = s.complete(Outcome::Spawned(Ok(2)));
    assert_eq!(s.get_log(), "");
    s.append_log("second");
    assert_eq!(s.get_log(), "second");
}

#[test]
fn crash_moves_to_error_and_keeps_log() {
    let mut s = started(3);
    s.append_log("boom");
    s.child_exited(99);
    assert_eq!(s.get_status().0, NodeStatus::Run);
    s.child_exited(3);
    assert_eq!(s.get_status(), (NodeStatus::Error, 0));
    assert_eq!(s.get_log(), "boom");
}

#[test]
fn call_rpc_while_not_running_does_not_forward() {
    let mut s = Supervisor::new();
    let st = s.accept(Command::CallRPC { method: "ping".to_string(), arguments: vec![] });
    assert!(matches!(st, Step::Answer(Reply::Rpc(Err(ProcessError::NotRunning)))));
}

#[test]
fn call_rpc_forwards_and_returns_answer() {
    let mut s = started(4);
    let args = vec![Value::from(1)];
    match s.accept(Command::CallRPC { method: "chain_getBestBlockNumber".to_string(), arguments: args }) {
        Step::Forward { method, arguments } => {
            assert_eq!(method, "chain_getBestBlockNumber");
            assert_eq!(arguments, vec![Value::from(1)]);
        }
        _ => panic!("expected a forward"),
    }
    match s.complete(Outcome::Forwarded(Ok(Value::from(17)))) {
        Reply::Rpc(Ok(v)) => assert_eq!(v, Value::from(17)),
        _ => panic!("expected an answer"),
    }
}

#[test]
fn transport_fault_gives_network_error_code() {
    let mut s = started(4);
    let _ = s.accept(Command::CallRPC { method: "m".to_string(), arguments: vec![] });
    let reply = match s.complete(Outcome::Forwarded(Err("connection refused".to_string()))) {
        Reply::Rpc(r) => r,
        _ => panic!("expected an rpc reply"),
    };
    let err = call_rpc_response(reply).err().expect("an error");
    let e = err.to_jsonrpc_error();
    assert_eq!(e.code, ErrorCode::ServerError(ERR_NETWORK_ERROR));
    assert_eq!(e.code, ErrorCode::ServerError(-10001));
    assert_ne!(e.code, ErrorCode::InternalError);
    assert_eq!(e.message, "Network Error");
    assert_eq!(e.data, None);
}

#[test]
fn ping_is_pong_in_every_state() {
    assert_eq!(ping().ok(), Some(Some("pong".to_string())));
    let _s = started(1);
    assert_eq!(ping().ok(), Some(Some("pong".to_string())));
}

#[test]
fn status_is_always_a_defined_value_around_run() {
    let mut s = Supervisor::new();
    let mut seen = vec![];
    seen.push(s.get_status().0);
    let st = s.accept(run("A=1", "x"));
    seen.push(s.get_status().0);
    assert!(matches!(st, Step::Spawn { .. }));
    let _ = s.complete(Outcome::Spawned(Ok(8)));
    seen.push(s.get_status().0);
    assert_eq!(seen, vec![NodeStatus::Stop, NodeStatus::Stop, NodeStatus::Run]);
}

#[test]
fn done_response_maps_both_ways() {
    assert_eq!(done_response(Ok(())).ok(), Some(Some(())));
    let e = done_response(Err(ProcessError::NotRunning)).err().expect("an error");
    assert_eq!(e.to_jsonrpc_error().code, ErrorCode::ServerError(0));
}
