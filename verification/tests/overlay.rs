use climate::tailscale::connect_hint;
use climate::tailscale::run_failure;
use climate::tailscale::serve_tcp_args;
use climate::tailscale::serve_tcp_off_args;
use climate::tailscale::serve_tcp_off_outcome;
use climate::tailscale::serve_tcp_outcome;
use climate::tailscale::status_args;
use climate::tailscale::NodeStatus;
use climate::text::decimal_string;
use climate::text::has_prefix;
use climate::text::joined;
use climate::text::strip_trailing;
use climate::text::url;

fn status(dns_name: Option<&str>, ips: Option<&[&str]>) -> NodeStatus {
    NodeStatus {
        dns_name: dns_name.map(|name| name.to_string()),
        tailscale_ips: ips.map(|list| list.iter().map(|ip| ip.to_string()).collect()),
    }
}

#[test]
fn serve_arguments_name_the_port_and_the_local_target() {
    assert_eq!(
        serve_tcp_args(4500, "127.0.0.1", 4500),
        vec!["serve", "--bg", "--yes", "--tcp", "4500", "tcp://127.0.0.1:4500"]
    );
    assert_eq!(
        serve_tcp_args(443, "::1", 8080),
        vec!["serve", "--bg", "--yes", "--tcp", "443", "tcp://::1:8080"]
    );
}

#[test]
fn serve_off_arguments_name_the_port() {
    assert_eq!(serve_tcp_off_args(4500), vec!["serve", "--yes", "--tcp", "4500", "off"]);
    assert_eq!(serve_tcp_off_args(0), vec!["serve", "--yes", "--tcp", "0", "off"]);
}

#[test]
fn status_arguments_ask_for_json() {
    assert_eq!(status_args(), vec!["status", "--json"]);
}

#[test]
fn serve_failure_quotes_the_error_stream() {
    assert_eq!(serve_tcp_outcome(true, "ignored"), Ok(()));
    assert_eq!(
        serve_tcp_outcome(false, "not logged in\n"),
        Err("tailscale serve failed: not logged in\n".to_string())
    );
    assert_eq!(serve_tcp_outcome(false, ""), Err("tailscale serve failed: ".to_string()));
}

#[test]
fn serve_off_never_fails() {
    assert_eq!(serve_tcp_off_outcome(true), Ok(()));
    assert_eq!(serve_tcp_off_outcome(false), Ok(()));
}

#[test]
fn run_failure_names_the_program() {
    assert_eq!(run_failure("/usr/bin/tailscale"), "failed to run `/usr/bin/tailscale`");
}

#[test]
fn hint_prefers_the_first_overlay_address() {
    let node = status(
        Some("host.tail.ts.net."),
        Some(&["fd7a:115c:a1e0::1", "100.64.0.7", "100.99.1.2"]),
    );
    assert_eq!(connect_hint(node, 4500), Some("http://100.64.0.7:4500".to_string()));
}

#[test]
fn hint_falls_back_to_the_dns_name_without_its_trailing_dot() {
    let node = status(Some("host.tail.ts.net."), Some(&["fd7a:115c:a1e0::1", "10.0.0.1"]));
    assert_eq!(connect_hint(node, 80), Some("http://host.tail.ts.net:80".to_string()));

    let node = status(Some("host.tail.ts.net"), None);
    assert_eq!(connect_hint(node, 80), Some("http://host.tail.ts.net:80".to_string()));

    let node = status(Some("host.."), Some(&[]));
    assert_eq!(connect_hint(node, 1), Some("http://host.:1".to_string()));

    let node = status(Some(""), None);
    assert_eq!(connect_hint(node, 1), Some("http://:1".to_string()));
}

#[test]
fn hint_is_absent_without_address_and_name() {
    assert_eq!(connect_hint(status(None, None), 4500), None);
    assert_eq!(connect_hint(status(None, Some(&[])), 4500), None);
    assert_eq!(connect_hint(status(None, Some(&["192.168.1.1", "1100.1.1.1"])), 4500), None);
}

#[test]
fn overlay_addresses_begin_with_one_hundred_and_a_dot() {
    assert!(has_prefix("100.64.0.1", "100."));
    assert!(has_prefix("100.", "100."));
    assert!(!has_prefix("100", "100."));
    assert!(!has_prefix("10.100.0.1", "100."));
    assert!(!has_prefix("", "100."));
    assert!(has_prefix("anything", ""));
    assert!(has_prefix("", ""));
    assert!(has_prefix("żółw", "żó"));
    assert!(!has_prefix("żółw", "zó"));
}

#[test]
fn decimal_text_has_no_padding() {
    assert_eq!(decimal_string(0), "0");
    assert_eq!(decimal_string(7), "7");
    assert_eq!(decimal_string(10), "10");
    assert_eq!(decimal_string(4500), "4500");
    assert_eq!(decimal_string(9999), "9999");
    assert_eq!(decimal_string(10000), "10000");
    assert_eq!(decimal_string(65535), "65535");
}

#[test]
fn decimal_text_agrees_with_the_standard_library() {
    for n in 0..=u16::MAX {
        assert_eq!(decimal_string(n), n.to_string());
    }
}

#[test]
fn one_trailing_character_is_stripped() {
    assert_eq!(strip_trailing("name.".to_string(), '.'), "name");
    assert_eq!(strip_trailing("name..".to_string(), '.'), "name.");
    assert_eq!(strip_trailing("name".to_string(), '.'), "name");
    assert_eq!(strip_trailing(".".to_string(), '.'), "");
    assert_eq!(strip_trailing(String::new(), '.'), "");
    assert_eq!(strip_trailing("żółw.".to_string(), '.'), "żółw");
}

#[test]
fn url_joins_scheme_host_and_port() {
    assert_eq!(url("http", "localhost", 80), "http://localhost:80");
    assert_eq!(url("tcp", "10.0.0.2", 65535), "tcp://10.0.0.2:65535");
    assert_eq!(url("", "", 0), "://:0");
    assert_eq!(joined("a", "b"), "ab");
    assert_eq!(joined("", ""), "");
}
