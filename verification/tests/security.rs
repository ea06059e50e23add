//! Stored secrets and their placeholders.
use std::collections::HashMap;
use std::sync::Mutex;

use dbgate::security::{
    is_placeholder, resolve_password, resolved_record, resolved_secret, secret_kept,
    secret_to_keep, secrets_to_find, secrets_to_keep, vault_user, vaulted_record, CredentialStore, CredentialVault,
    Secrets, VaultError, KEYRING_SERVICE,
};
use dbgate::value::Value;

struct MemVault {
    secrets: Mutex<HashMap<String, String>>,
    fail: bool,
}

impl MemVault {
    fn ok() -> Self {
        Self { secrets: Mutex::new(HashMap::new()), fail: false }
    }

    fn failing() -> Self {
        Self { secrets: Mutex::new(HashMap::new()), fail: true }
    }
}

impl CredentialStore for MemVault {
    fn set_password(&self, user: &str, password: &str) -> Result<(), VaultError> {
        if self.fail {
            return Err(VaultError::NoEntry);
        }
        self.secrets.lock().unwrap().insert(user.to_string(), password.to_string());
        Ok(())
    }

    fn get_password(&self, user: &str) -> Result<String, VaultError> {
        if self.fail {
            return Err(VaultError::NoEntry);
        }
        self.secrets.lock().unwrap().get(user).cloned().ok_or(VaultError::NoEntry)
    }

    fn delete_password(&self, user: &str) -> Result<(), VaultError> {
        if self.fail {
            return Err(VaultError::NoEntry);
        }
        self.secrets.lock().unwrap().remove(user);
        Ok(())
    }
}

#[test]
fn placeholder_detection() {
    assert!(is_placeholder("keyring:abc"));
    assert!(is_placeholder("keyring:abc:sshPassword"));
    assert!(!is_placeholder("plain-secret"));
    assert!(!is_placeholder("keyringx:abc"));
    assert!(!is_placeholder(""));
}

#[test]
fn resolve_round_trips_placeholder_via_fake_store() {
    let vault = MemVault::ok();
    vault.set_password("conid", "hunter2").unwrap();
    assert_eq!(resolve_password(&vault, "keyring:conid"), "hunter2");
}

#[test]
fn resolve_keeps_plaintext_unchanged() {
    let vault = MemVault::ok();
    assert_eq!(resolve_password(&vault, "plain-secret"), "plain-secret");
}

#[test]
fn resolve_falls_back_to_stored_on_keyring_error() {
    let vault = MemVault::failing();
    assert_eq!(resolve_password(&vault, "keyring:conid"), "keyring:conid");
}

#[test]
fn delete_password_removes_entry() {
    let vault = MemVault::ok();
    vault.set_password("conid", "hunter2").unwrap();
    vault.delete_password("conid").unwrap();
    match vault.get_password("conid") {
        Err(VaultError::NoEntry) => {}
        other => panic!("expected NoEntry, got {other:?}"),
    }
}

#[test]
fn placeholders_name_their_user() {
    assert_eq!(vault_user("keyring:abc:sshPassword").as_deref(), Some("abc:sshPassword"));
    assert_eq!(vault_user("plain"), None);
    assert_eq!(resolved_secret("keyring:a", Some("s".to_string())), "s");
    assert_eq!(resolved_secret("keyring:a", None), "keyring:a");
    assert_eq!(CredentialVault::new().service, KEYRING_SERVICE);
}

fn text(s: &str) -> Value {
    Value::Str(s.to_string())
}

fn object(members: Vec<(&str, Value)>) -> Value {
    Value::Object(members.into_iter().map(|(k, v)| (k.to_string(), v)).collect())
}

fn record() -> Value {
    object(vec![
        ("_id", text("c")),
        ("password", text("p")),
        ("extra", object(vec![("sshPassword", text("s")), ("port", Value::Int(22))])),
    ])
}

#[test]
fn secrets_are_kept_under_the_connection_id() {
    assert_eq!(secret_to_keep(&record()).as_deref(), Some("p"));
    let kept = secrets_to_keep(&record(), "c");
    let kept: Vec<(&str, &str)> = kept.iter().map(|(u, s)| (u.as_str(), s.as_str())).collect();
    assert_eq!(kept, vec![("c", "p"), ("c:sshPassword", "s")]);
    let placeholder = object(vec![("password", text("keyring:c"))]);
    assert_eq!(secret_to_keep(&placeholder), None);
    assert!(secrets_to_keep(&placeholder, "c").is_empty());
    assert_eq!(secret_to_keep(&Value::Null), None);
}

#[test]
fn kept_secrets_are_stored_as_placeholders_and_found_again() {
    let stored = vaulted_record(record(), "c", true);
    assert_eq!(
        stored,
        object(vec![
            ("_id", text("c")),
            ("password", text("keyring:c")),
            (
                "extra",
                object(vec![
                    ("sshPassword", text("keyring:c:sshPassword")),
                    ("port", Value::Int(22))
                ])
            ),
        ])
    );
    let users = secrets_to_find(&stored);
    assert_eq!(users.password.as_deref(), Some("c"));
    assert_eq!(users.ssh_password.as_deref(), Some("c:sshPassword"));
    assert_eq!(users.ssh_passphrase, None);
    let answers = Secrets {
        password: Some("p".to_string()),
        ssh_password: Some("s".to_string()),
        ssh_passphrase: None,
    };
    assert_eq!(resolved_record(stored, answers), record());
}

#[test]
fn secrets_that_were_not_kept_stay_as_they_are() {
    assert_eq!(vaulted_record(record(), "c", false), record());
    let none = Secrets { password: None, ssh_password: None, ssh_passphrase: None };
    assert_eq!(resolved_record(record(), none), record());
    let lost = Secrets { password: None, ssh_password: None, ssh_passphrase: None };
    let stored = vaulted_record(record(), "c", true);
    assert_eq!(resolved_record(stored.clone(), lost), stored);
    assert_eq!(vaulted_record(Value::Null, "c", true), Value::Null);
}

#[test]
fn a_secret_is_kept_where_it_is_read_back() {
    assert!(secret_kept(&Ok("pw".to_string()), "pw"));
    assert!(!secret_kept(&Ok("other".to_string()), "pw"));
    assert!(!secret_kept(&Err(VaultError::NoEntry), "pw"));
    assert!(!secret_kept(&Err(VaultError::Failed("down".to_string())), ""));
}
