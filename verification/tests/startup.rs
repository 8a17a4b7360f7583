use climate::process::frame_line;
use climate::process::server_args;
use climate::process::spawn_outcome;
use climate::process::SpawnError;
use climate::registry::Admission;
use climate::registry::SessionRegistry;
use climate::registry::SharingPolicy;
use climate::startup::banner;
use climate::startup::bind_failure;
use climate::startup::local_base;

#[test]
fn local_base_is_an_http_url() {
    assert_eq!(local_base("127.0.0.1", 4500), "http://127.0.0.1:4500");
    assert_eq!(local_base("0.0.0.0", 1), "http://0.0.0.0:1");
}

#[test]
fn banner_shows_the_overlay_address_when_known() {
    assert_eq!(
        banner("http://127.0.0.1:4500", Some("http://100.64.0.7:4500".to_string()), 4500),
        vec![
            "CliMate is up.",
            "- local http: http://127.0.0.1:4500",
            "- iOS base URL: http://100.64.0.7:4500",
            "Press Ctrl+C to stop.",
        ]
    );
}

#[test]
fn banner_shows_a_pattern_when_the_overlay_address_is_unknown() {
    assert_eq!(
        banner("http://127.0.0.1:8080", None, 8080),
        vec![
            "CliMate is up.",
            "- local http: http://127.0.0.1:8080",
            "- iOS base URL: http://100.x.y.z:8080",
            "Press Ctrl+C to stop.",
        ]
    );
}

#[test]
fn bind_failure_names_the_listener() {
    assert_eq!(bind_failure("http://127.0.0.1:4500"), "failed to bind http://127.0.0.1:4500");
}

#[test]
fn subprocess_is_started_in_server_mode() {
    assert_eq!(server_args(), vec!["app-server"]);
}

#[test]
fn line_is_framed_with_one_line_feed() {
    assert_eq!(frame_line(r#"{"id":"1","method":"ping"}"#), "{\"id\":\"1\",\"method\":\"ping\"}\n");
    assert_eq!(frame_line(""), "\n");
    assert_eq!(frame_line("a\n"), "a\n\n");
}

#[test]
fn spawn_needs_a_running_process_and_both_pipes() {
    assert_eq!(spawn_outcome(true, true, true), Ok(()));
    assert_eq!(spawn_outcome(false, true, true), Err(SpawnError::Start));
    assert_eq!(spawn_outcome(false, false, false), Err(SpawnError::Start));
    assert_eq!(spawn_outcome(true, false, true), Err(SpawnError::StdinUnavailable));
    assert_eq!(spawn_outcome(true, false, false), Err(SpawnError::StdinUnavailable));
    assert_eq!(spawn_outcome(true, true, false), Err(SpawnError::StdoutUnavailable));
}

#[test]
fn spawn_failures_have_their_messages() {
    assert_eq!(SpawnError::Start.message("codex"), "failed to start `codex` app-server");
    assert_eq!(SpawnError::StdinUnavailable.message("codex"), "codex app-server stdin unavailable");
    assert_eq!(
        SpawnError::StdoutUnavailable.message("/opt/codex"),
        "codex app-server stdout unavailable"
    );
}

#[test]
fn shared_registry_creates_once_and_reuses_afterwards() {
    let mut registry: SessionRegistry<&str> = SessionRegistry::new(SharingPolicy::SharedSingleton);
    assert_eq!(registry.admission(), Admission::Create);
    assert_eq!(registry.current(), None);

    assert_eq!(registry.install("first"), None);
    assert_eq!(registry.admission(), Admission::Reuse);
    assert_eq!(registry.current(), Some(&"first"));

    assert_eq!(registry.install("second"), Some("second"));
    assert_eq!(registry.current(), Some(&"first"));
}

#[test]
fn per_connection_registry_always_creates_and_keeps_nothing() {
    let mut registry: SessionRegistry<u32> = SessionRegistry::new(SharingPolicy::PerConnection);
    assert_eq!(registry.admission(), Admission::Create);
    assert_eq!(registry.install(1), Some(1));
    assert_eq!(registry.admission(), Admission::Create);
    assert_eq!(registry.current(), None);
    assert_eq!(registry.install(2), Some(2));
    assert_eq!(registry.retire(), None);
}

#[test]
fn retired_session_makes_room_for_a_new_one() {
    let mut registry: SessionRegistry<String> = SessionRegistry::new(SharingPolicy::SharedSingleton);
    assert_eq!(registry.install("old".to_string()), None);
    assert_eq!(registry.retire(), Some("old".to_string()));
    assert_eq!(registry.retire(), None);
    assert_eq!(registry.admission(), Admission::Create);
    assert_eq!(registry.install("new".to_string()), None);
    assert_eq!(registry.current(), Some(&"new".to_string()));
}
