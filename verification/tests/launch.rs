use sheepit_manager::config::Config;
use sheepit_manager::config::Cpu;
use sheepit_manager::config::Defaults;
use sheepit_manager::config::General;
use sheepit_manager::config::Paths;
use sheepit_manager::launch::PrepAction;
use sheepit_manager::launch::PrepEvent;
use sheepit_manager::launch::PrepState;
use sheepit_manager::launch::build_launch_spec;
use sheepit_manager::launch::fetch_url;
use sheepit_manager::launch::log_dir_for;
use sheepit_manager::launch::prep_action;
use sheepit_manager::launch::prep_step;

fn sample_config() -> Config {
    Config {
        general: General {
            client_name: String::from("farm"),
            shared_zip: false,
            username: String::from("alice"),
            renderkey: String::from("SECRET-REDACTED"),
            headless: true,
            server: String::from("https://sheepit-renderfarm.com"),
            debug: false,
        },
        paths: Paths {
            sheepit_cache_dir: String::from("/tmp/sheepitm/cache"),
            shared_zip_dir: String::new(),
            sheepit_client_location: String::from("/tmp/sheepitm/client.jar"),
            log_dir: String::from("/tmp/sheepitm/logs"),
        },
        defaults: Defaults { ram: 4, cores: 2 },
        cpu: Cpu { ram: 0, cores: 0, enabled: false },
        gpu: Vec::new(),
    }
}

/// Drives the machine with a stubbed filesystem and fails the test if a
/// fetch is ever requested while the executable is reported present.
#[test]
fn present_executable_never_triggers_a_fetch() {
    let mut state = PrepState::CheckExecutable;
    let events = [
        PrepEvent::ExecutableChecked { present: true },
        PrepEvent::LogDirChecked { present: false },
        PrepEvent::LogDirCreated { error: None },
    ];
    for e in events {
        assert_ne!(prep_action(&state), PrepAction::FetchBinary, "fetch despite present executable");
        state = prep_step(state, e);
    }
    assert_eq!(state, PrepState::Ready);
    assert_eq!(prep_action(&state), PrepAction::Spawn);
}

#[test]
fn missing_executable_is_fetched_before_spawn() {
    let mut state = PrepState::CheckExecutable;
    state = prep_step(state, PrepEvent::ExecutableChecked { present: false });
    assert_eq!(state, PrepState::EnsureParentDir);
    assert_eq!(prep_action(&state), PrepAction::ProbeParentDir);
    state = prep_step(state, PrepEvent::ParentDirChecked { present: false });
    assert_eq!(state, PrepState::CreateParentDir);
    state = prep_step(state, PrepEvent::ParentDirCreated { error: None });
    assert_eq!(state, PrepState::FetchExecutable);
    assert_eq!(prep_action(&state), PrepAction::FetchBinary);
    state = prep_step(state, PrepEvent::Fetched { error: None });
    state = prep_step(state, PrepEvent::LogDirChecked { present: true });
    assert_eq!(state, PrepState::Ready);
}

#[test]
fn failed_fetch_aborts_with_a_report() {
    let state = prep_step(
        PrepState::FetchExecutable,
        PrepEvent::Fetched { error: Some(String::from("connection reset")) },
    );
    match prep_action(&state) {
        PrepAction::Abort { message } => {
            assert_eq!(message, "There was an error downloading the client: connection reset");
        }
        other => panic!("expected an abort, got {:?}", other),
    }
}

#[test]
fn failed_directory_creation_aborts_with_a_report() {
    let state = prep_step(
        PrepState::CreateLogDir,
        PrepEvent::LogDirCreated { error: Some(String::from("permission denied")) },
    );
    match prep_action(&state) {
        PrepAction::Abort { message } => {
            assert_eq!(
                message,
                "Failed to create directory. Please check that you have the necessary permissions: permission denied"
            );
        }
        other => panic!("expected an abort, got {:?}", other),
    }
}

#[test]
fn launch_spec_assembles_every_argument_in_order() {
    let config = sample_config();
    let spec = build_launch_spec(&config, "w1");
    assert_eq!(spec.program, "java");
    let expected = [
        "-jar",
        "/tmp/sheepitm/client.jar",
        "-ui",
        "text",
        "-login",
        "alice",
        "-password",
        "SECRET-REDACTED",
        "-cores",
        "2",
        "-memory",
        "4G",
        "-server",
        "https://sheepit-renderfarm.com",
        "-cache-dir",
        "/tmp/sheepitm/cache/w1",
        "-hostname",
        "farm-w1",
        "-logdir",
        "/tmp/sheepitm/logs/w1",
    ];
    let args: Vec<&str> = spec.args.iter().map(|s| s.as_str()).collect();
    assert_eq!(args, expected);
}

#[test]
fn per_worker_log_directory_appends_the_name() {
    let config = sample_config();
    assert_eq!(log_dir_for(&config, "w1"), "/tmp/sheepitm/logs/w1");
}

#[test]
fn fetch_url_is_the_well_known_one() {
    assert_eq!(
        fetch_url(),
        "https://www.sheepit-renderfarm.com/media/applet/client-latest.php"
    );
}
