use ssedge::logging::get_log_file_path;
use ssedge::ssh::{
    connect_failure_message, connection_target, success_message, test_failure_message,
    HostKeyPolicy, SshConfig,
};

fn empty_config() -> SshConfig {
    SshConfig { username: None, port: None, strict_host_key_checking: None, connect_timeout: None }
}

#[test]
fn omitted_port_resolves_to_22() {
    let r = empty_config().resolve();
    assert_eq!(r.port, 22);
}

#[test]
fn omitted_host_key_policy_resolves_to_strict() {
    let r = empty_config().resolve();
    assert_eq!(r.host_key_policy, HostKeyPolicy::Strict);
}

#[test]
fn omitted_username_and_timeout_resolve_to_defaults() {
    let r = empty_config().resolve();
    assert_eq!(r.username, "user");
    assert_eq!(r.connect_timeout_secs, 30);
}

#[test]
fn strict_false_resolves_to_accept() {
    let mut c = empty_config();
    c.strict_host_key_checking = Some(false);
    let r = c.resolve();
    assert_eq!(r.host_key_policy, HostKeyPolicy::Accept);
}

#[test]
fn strict_true_resolves_to_strict() {
    let mut c = empty_config();
    c.strict_host_key_checking = Some(true);
    let r = c.resolve();
    assert_eq!(r.host_key_policy, HostKeyPolicy::Strict);
}

#[test]
fn explicit_fields_survive_resolution() {
    let c = SshConfig {
        username: Some("admin".to_string()),
        port: Some(2222),
        strict_host_key_checking: Some(true),
        connect_timeout: Some(5),
    };
    let r = c.resolve();
    assert_eq!(r.username, "admin");
    assert_eq!(r.port, 2222);
    assert_eq!(r.host_key_policy, HostKeyPolicy::Strict);
    assert_eq!(r.connect_timeout_secs, 5);
}

#[test]
fn default_config_spells_out_the_defaults() {
    let c = SshConfig::default();
    assert_eq!(c.username, None);
    assert_eq!(c.port, Some(22));
    assert_eq!(c.strict_host_key_checking, Some(true));
    assert_eq!(c.connect_timeout, Some(30));
}

#[test]
fn connection_target_omits_default_port() {
    assert_eq!(connection_target("user", "10.0.0.1", 22), "user@10.0.0.1");
}

#[test]
fn connection_target_names_non_default_port() {
    assert_eq!(connection_target("admin", "10.0.0.1", 2222), "admin@10.0.0.1:2222");
}

#[test]
fn connection_target_handles_extreme_ports() {
    assert_eq!(connection_target("u", "h", 65535), "u@h:65535");
    assert_eq!(connection_target("u", "h", 1), "u@h:1");
}

#[test]
fn success_message_always_names_the_port() {
    assert_eq!(
        success_message("user", "10.0.0.1", 22),
        "Successfully connected to user@10.0.0.1:22"
    );
}

#[test]
fn failure_messages_carry_the_detail() {
    assert_eq!(connect_failure_message("timed out"), "Failed to connect: timed out");
    assert_eq!(test_failure_message("refused"), "Connection test failed: refused");
}

#[test]
fn log_file_path_sits_under_home() {
    assert_eq!(get_log_file_path("/home/op"), "/home/op/.ssedge/app.log");
}
