//! The end-to-end control flow, driven as the daemon drives it: an
//! instruction string and a target name arrive, the instruction is
//! parsed, and the registry decides; the runtime's spawn and pipe writes
//! are stubbed with plain outcomes.

use sheepit_manager::launch::PrepAction;
use sheepit_manager::launch::PrepEvent;
use sheepit_manager::launch::PrepState;
use sheepit_manager::launch::prep_action;
use sheepit_manager::launch::prep_step;
use sheepit_manager::protocol::Instruction;
use sheepit_manager::protocol::parse_instruction;
use sheepit_manager::protocol::unknown_instruction_message;
use sheepit_manager::registry::Registry;
use sheepit_manager::registry::SendPlan;
use sheepit_manager::registry::StartGate;
use sheepit_manager::registry::WorkerHandle;

/// Handles one request as the daemon's endpoint would, with the outside
/// world stubbed: the executable is present, the log directory exists,
/// spawning always succeeds, and pipe writes always succeed.
fn handle_request(reg: &mut Registry, instruction: &str, client: &str) -> String {
    match parse_instruction(instruction) {
        Instruction::Start => {
            match reg.start_gate(client) {
                StartGate::AlreadyRunning { message } => message,
                StartGate::Proceed => {
                    let mut state = PrepState::CheckExecutable;
                    loop {
                        match prep_action(&state) {
                            PrepAction::ProbeExecutable => {
                                state = prep_step(state, PrepEvent::ExecutableChecked {
                                    present: true,
                                });
                            }
                            PrepAction::ProbeLogDir => {
                                state = prep_step(state, PrepEvent::LogDirChecked {
                                    present: true,
                                });
                            }
                            PrepAction::Spawn => break,
                            PrepAction::Abort { message } => return message,
                            other => panic!("unexpected step with a present executable: {:?}", other),
                        }
                    }
                    let handle = WorkerHandle { handle_id: 1, has_input: true };
                    match reg.register(client, handle) {
                        Ok(message) => message,
                        Err(message) => message,
                    }
                }
            }
        }
        Instruction::Pause => report_send(reg.pause(client), client),
        Instruction::Stop => report_send(reg.stop(client), client),
        Instruction::StopNow => report_send(reg.stop_now(client), client),
        Instruction::Status => sheepit_manager::protocol::status_message(client),
        Instruction::Unknown => unknown_instruction_message(),
    }
}

fn report_send((plan, _bytes): (SendPlan, Vec<u8>), client: &str) -> String {
    match plan {
        SendPlan::NotRunning => sheepit_manager::registry::not_running_message(client),
        SendPlan::NoInputHandle => sheepit_manager::registry::no_input_message(client),
        SendPlan::Deliver { .. } => {
            // The stubbed pipe write succeeds.
            sheepit_manager::registry::delivery_report(
                client,
                &sheepit_manager::command::Command::Stop,
                &sheepit_manager::registry::WriteOutcome::Delivered,
            )
        }
    }
}

#[test]
fn start_stop_start_against_an_empty_registry() {
    let mut reg = Registry::new();

    // start_client for w1 against an empty registry succeeds and leaves
    // exactly one entry keyed "w1".
    let reply = handle_request(&mut reg, "start_client", "w1");
    assert_eq!(reply, "Client \"w1\" started.");
    assert_eq!(reg.len(), 1);
    assert!(reg.status("w1"));

    // stop_client succeeds and leaves the entry present: stop is
    // advisory, not a removal.
    let reply = handle_request(&mut reg, "stop_client", "w1");
    assert_eq!(reply, "Sent command 'stop' to client 'w1'");
    assert_eq!(reg.len(), 1);
    assert!(reg.status("w1"));

    // A second start_client for w1 is now refused as already running.
    let reply = handle_request(&mut reg, "start_client", "w1");
    assert_eq!(reply, "Cannot start \"w1\" because it's already running.");
    assert_eq!(reg.len(), 1);
}

#[test]
fn unknown_instruction_reaches_no_worker() {
    let mut reg = Registry::new();
    let reply = handle_request(&mut reg, "reboot_client", "w1");
    assert_eq!(
        reply,
        "Unknown instruction, are you sure the client and server versions match?"
    );
    assert_eq!(reg.len(), 0);
    assert!(!reg.status("w1"));
}
