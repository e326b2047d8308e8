use sheepit_manager::command::Command;
use sheepit_manager::registry::Registry;
use sheepit_manager::registry::SendPlan;
use sheepit_manager::registry::StartGate;
use sheepit_manager::registry::WorkerHandle;
use sheepit_manager::registry::WriteOutcome;
use sheepit_manager::registry::delivery_report;
use sheepit_manager::registry::no_input_message;
use sheepit_manager::registry::not_running_message;

fn handle(id: u64) -> WorkerHandle {
    WorkerHandle { handle_id: id, has_input: true }
}

#[test]
fn empty_registry_has_no_workers() {
    let reg = Registry::new();
    assert_eq!(reg.len(), 0);
    assert!(!reg.status("w1"));
}

#[test]
fn register_then_status_reports_running() {
    let mut reg = Registry::new();
    let message = reg.register("w1", handle(7)).unwrap();
    assert_eq!(message, "Client \"w1\" started.");
    assert!(reg.status("w1"));
    assert!(!reg.status("w2"));
    assert_eq!(reg.len(), 1);
}

#[test]
fn second_start_is_refused_and_registers_nothing() {
    // A start for a fresh name succeeds; an immediately following start
    // for the same name is refused as already running, and exactly one
    // entry exists.
    let mut reg = Registry::new();
    match reg.start_gate("w1") {
        StartGate::Proceed => {}
        StartGate::AlreadyRunning { .. } => panic!("fresh name refused"),
    }
    reg.register("w1", handle(1)).unwrap();
    match reg.start_gate("w1") {
        StartGate::AlreadyRunning { message } => {
            assert_eq!(message, "Cannot start \"w1\" because it's already running.");
        }
        StartGate::Proceed => panic!("second start not refused"),
    }
    let err = reg.register("w1", handle(2)).unwrap_err();
    assert_eq!(err, "Cannot start \"w1\" because it's already running.");
    assert_eq!(reg.len(), 1);
}

#[test]
fn send_to_absent_name_is_refused_without_side_effects() {
    // A send for an absent name is a no-op that reports "not running".
    let reg = Registry::new();
    assert_eq!(reg.plan_send("w1"), SendPlan::NotRunning);
    assert_eq!(not_running_message("w1"), "Client 'w1' is not running.");
    assert_eq!(reg.len(), 0);
}

#[test]
fn send_without_input_handle_is_refused() {
    let mut reg = Registry::new();
    reg.register("w1", WorkerHandle { handle_id: 3, has_input: false }).unwrap();
    assert_eq!(reg.plan_send("w1"), SendPlan::NoInputHandle);
    assert_eq!(no_input_message("w1"), "Client 'w1' has no stdin handle");
}

#[test]
fn send_to_running_worker_delivers_to_its_handle() {
    let mut reg = Registry::new();
    reg.register("w1", handle(11)).unwrap();
    reg.register("w2", handle(22)).unwrap();
    assert_eq!(reg.plan_send("w1"), SendPlan::Deliver { handle_id: 11 });
    assert_eq!(reg.plan_send("w2"), SendPlan::Deliver { handle_id: 22 });
    assert_eq!(reg.len(), 2);
}

#[test]
fn fixed_command_sends_carry_the_right_payload() {
    let mut reg = Registry::new();
    reg.register("w1", handle(5)).unwrap();
    let (plan, bytes) = reg.pause("w1");
    assert_eq!(plan, SendPlan::Deliver { handle_id: 5 });
    assert_eq!(bytes, b"pause\n".to_vec());
    let (_, bytes) = reg.stop("w1");
    assert_eq!(bytes, b"stop\n".to_vec());
    let (_, bytes) = reg.stop_now("w1");
    assert_eq!(bytes, b"quit\n".to_vec());
}

#[test]
fn names_are_compared_by_content_not_by_length_or_prefix() {
    let mut reg = Registry::new();
    reg.register("w1", handle(1)).unwrap();
    assert!(!reg.status("w"));
    assert!(!reg.status("w10"));
    assert!(!reg.status("W1"));
}

#[test]
fn unusual_names_work_like_any_other() {
    let mut reg = Registry::new();
    reg.register("", handle(1)).unwrap();
    reg.register("wörker \"eins\"", handle(2)).unwrap();
    assert!(reg.status(""));
    assert!(reg.status("wörker \"eins\""));
    assert_eq!(reg.len(), 2);
    let err = reg.register("", handle(3)).unwrap_err();
    assert_eq!(err, "Cannot start \"\" because it's already running.");
    assert_eq!(
        reg.plan_send("wörker \"eins\""),
        SendPlan::Deliver { handle_id: 2 }
    );
}

#[test]
fn delivery_reports_name_the_command_and_the_error() {
    assert_eq!(
        delivery_report("w1", &Command::Pause, &WriteOutcome::Delivered),
        "Sent command 'pause' to client 'w1'"
    );
    assert_eq!(
        delivery_report(
            "w1",
            &Command::Stop,
            &WriteOutcome::WriteFailed { error: String::from("broken pipe") }
        ),
        "Failed to send command 'stop' to client 'w1': broken pipe"
    );
    assert_eq!(
        delivery_report(
            "w1",
            &Command::StopNow,
            &WriteOutcome::FlushFailed { error: String::from("broken pipe") }
        ),
        "Failed to flush command 'quit' to client 'w1': broken pipe"
    );
}
