//! What an SSH tunnel is opened with.
use dbgate::connection::ConnectionDefinition;
use dbgate::ssh_tunnel::{
    apply_auth, forward_error, local_endpoint, open_error, tunnel_plan, LOCAL_HOST,
};

fn ssh_def(use_tunnel: bool) -> ConnectionDefinition {
    ConnectionDefinition { use_ssh_tunnel: Some(use_tunnel), ..Default::default() }
}

#[test]
fn open_without_tunnel_returns_none() {
    assert!(tunnel_plan(&ssh_def(false)).unwrap().is_none());
}

#[test]
fn open_requires_ssh_host() {
    match tunnel_plan(&ssh_def(true)) {
        Err(err) => assert!(err.message.contains("requires a host")),
        Ok(_) => panic!("expected an SSH host error"),
    }
}

#[test]
fn user_password_mode_is_rejected() {
    let mut def = ssh_def(false);
    def.ssh_mode = Some("userPassword".to_string());
    let err = apply_auth(&def).unwrap_err();
    assert!(err.message.contains("username/password"));
}

#[test]
fn missing_mode_defaults_to_user_password() {
    let mut def = ssh_def(false);
    def.ssh_mode = None;
    let err = apply_auth(&def).unwrap_err();
    assert!(err.message.contains("username/password"));
}

#[test]
fn keyfile_mode_requires_keyfile() {
    let mut def = ssh_def(false);
    def.ssh_mode = Some("keyFile".to_string());
    def.ssh_keyfile = None;
    let err = apply_auth(&def).unwrap_err();
    assert!(err.message.contains("requires a private key"));
}

#[test]
fn keyfile_passphrase_is_rejected() {
    let mut def = ssh_def(false);
    def.ssh_mode = Some("keyFile".to_string());
    def.ssh_keyfile = Some("~/.ssh/id_rsa".to_string());
    def.ssh_keyfile_password = Some("s3cret".to_string());
    let err = apply_auth(&def).unwrap_err();
    assert!(err.message.contains("passphrase"));
}

#[test]
fn agent_mode_is_accepted() {
    let mut def = ssh_def(false);
    def.ssh_mode = Some("agent".to_string());
    assert!(apply_auth(&def).is_ok());
}

#[test]
fn unknown_mode_is_rejected() {
    let mut def = ssh_def(false);
    def.ssh_mode = Some("gssapi".to_string());
    let err = apply_auth(&def).unwrap_err();
    assert!(err.message.contains("Unknown SSH authentication mode"));
}

#[test]
fn key_files_are_handed_on() {
    let mut def = ssh_def(true);
    def.ssh_host = Some("jump".to_string());
    def.ssh_mode = Some("keyFile".to_string());
    def.ssh_keyfile = Some("/keys/id".to_string());
    assert_eq!(apply_auth(&def).unwrap().as_deref(), Some("/keys/id"));
    match tunnel_plan(&def) {
        Ok(Some(plan)) => {
            assert_eq!(plan.host, "jump");
            assert_eq!(plan.keyfile.as_deref(), Some("/keys/id"));
        }
        _ => panic!("expected a plan"),
    }
}

#[test]
fn tunnels_end_at_the_local_host() {
    assert_eq!(local_endpoint(5000), (LOCAL_HOST.to_string(), 5000));
    assert!(open_error("jump", "refused".to_string()).to_string().contains("jump"));
    let err = forward_error(5000, "db", 5432, "jump", "refused".to_string());
    assert!(err.message.contains("5000"));
    assert!(err.message.contains("db:5432"));
}
