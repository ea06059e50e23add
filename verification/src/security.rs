//! Credential vault for connection secrets.
//!
//! Secrets (the connection `password` and any `sshPassword`/`sshPassphrase` inside
//! `extra`) are kept in the credential store of the operating system, keyed by
//! the connection id. The connection file holds a `keyring:<user>` placeholder
//! instead of the secret. When the store is unavailable the plaintext stays in
//! the file and reading it back is a no-op, so the file stays valid everywhere.
use vstd::prelude::*;

use crate::text::{concat2, concat3, same, starts_with, strip_prefix};
use crate::value::{clone_value, object_value, put_entry, Json, Value};

verus! {

/// The service under which secrets are stored.
pub const KEYRING_SERVICE: &'static str = "dbgate";

/// Prefix of the placeholder written in place of a vaulted secret. The text
/// after the prefix is the user key in the store.
pub const SECRET_PLACEHOLDER_PREFIX: &'static str = "keyring:";

/// The credential store of the operating system, addressed by a fixed service
/// and a per-connection user key.
pub struct CredentialVault {
    pub service: &'static str,
}

impl CredentialVault {
    pub fn new() -> (r: Self)
        ensures
            r.service@ == KEYRING_SERVICE@,
    {
        CredentialVault { service: KEYRING_SERVICE }
    }
}

impl Default for CredentialVault {
    fn default() -> (r: Self)
        ensures
            r.service@ == KEYRING_SERVICE@,
    {
        CredentialVault::new()
    }
}

/// Why a credential store did not serve a request.
#[derive(Debug, Clone)]
pub enum VaultError {
    NoEntry,
    Failed(String),
}

/// A credential store. What it answers depends on what is kept outside.
pub trait CredentialStore {
    fn set_password(&self, user: &str, password: &str) -> (r: Result<(), VaultError>);

    fn get_password(&self, user: &str) -> (r: Result<String, VaultError>);

    fn delete_password(&self, user: &str) -> (r: Result<(), VaultError>);
}

/// Whether a stored text is a placeholder.
pub open spec fn is_vaulted(s: Seq<char>) -> bool {
    crate::text::has_prefix(s, SECRET_PLACEHOLDER_PREFIX@)
}

/// The user key of a placeholder.
pub open spec fn user_key(s: Seq<char>) -> Seq<char> {
    s.skip(SECRET_PLACEHOLDER_PREFIX@.len() as int)
}

/// The placeholder with the given user key.
pub open spec fn placeholder_for(user: Seq<char>) -> Seq<char> {
    SECRET_PLACEHOLDER_PREFIX@ + user
}

/// A placeholder is one, and its user key can be read back.
pub proof fn law_placeholder(user: Seq<char>)
    ensures
        is_vaulted(placeholder_for(user)),
        user_key(placeholder_for(user)) == user,
{
    let s = placeholder_for(user);
    let n = SECRET_PLACEHOLDER_PREFIX@.len() as int;
    assert(s.subrange(0, n) =~= SECRET_PLACEHOLDER_PREFIX@);
    assert(s.skip(n) =~= user);
}

/// True when `s` is a stored `keyring:` placeholder rather than a secret.
pub fn is_placeholder(s: &str) -> (r: bool)
    ensures
        r == is_vaulted(s@),
{
    starts_with(s, SECRET_PLACEHOLDER_PREFIX)
}

/// The secret behind a stored text, given what the store answers for its user
/// key: plaintext stands for itself, and so does a placeholder for which the
/// store has no answer.
pub open spec fn secret_behind(stored: Seq<char>, answer: Option<Seq<char>>) -> Seq<char> {
    match answer {
        Some(secret) if is_vaulted(stored) => secret,
        _ => stored,
    }
}

/// The user key that a stored text refers to.
pub fn vault_user(stored: &str) -> (r: Option<String>)
    ensures
        r.deep_view() == if is_vaulted(stored@) {
            Some(user_key(stored@))
        } else {
            None
        },
{
    strip_prefix(stored, SECRET_PLACEHOLDER_PREFIX)
}

/// The secret behind a stored text, given what the store answers for its user
/// key.
pub fn resolved_secret(stored: &str, answer: Option<String>) -> (r: String)
    ensures
        r@ == secret_behind(stored@, answer.deep_view()),
{
    if let Some(secret) = answer {
        if is_placeholder(stored) {
            return secret;
        }
    }
    stored.to_owned()
}

/// What an answer of a store gives.
pub open spec fn answered(answer: Result<String, VaultError>) -> Option<Seq<char>> {
    match answer {
        Ok(secret) => Some(secret@),
        Err(_) => None,
    }
}

/// Resolves a stored secret: a placeholder is looked up in the vault; on any
/// error of the store, and for plaintext input, the stored value is returned
/// unchanged (plaintext fallback).
pub fn resolve_password<V: CredentialStore>(vault: &V, stored: &str) -> (r: String)
    ensures
        !is_vaulted(stored@) ==> r@ == stored@,
        is_vaulted(stored@) ==> exists|user: &str, answer: Result<String, VaultError>|
            user@ == user_key(stored@) && #[trigger] call_ensures(
                V::get_password,
                (vault, user),
                answer,
            ) && r@ == secret_behind(stored@, answered(answer)),
{
    match vault_user(stored) {
        Some(user) => {
            let answer = vault.get_password(user.as_str());
            match answer {
                Ok(secret) => resolved_secret(stored, Some(secret)),
                Err(_) => resolved_secret(stored, None),
            }
        },
        None => stored.to_owned(),
    }
}

// ---------------------------------------------------------------------------
// The secrets of a connection record
// ---------------------------------------------------------------------------

/// The secret under `key`: a text that is no placeholder.
pub open spec fn secret_under(holder: Json, key: Seq<char>) -> Option<Seq<char>> {
    match holder.text(key) {
        Some(s) => if is_vaulted(s) {
            None
        } else {
            Some(s)
        },
        None => None,
    }
}

/// The password of a record, where it is kept in plaintext.
pub open spec fn secret_in(record: Json) -> Option<Seq<char>> {
    secret_under(record, "password"@)
}

/// The extra fields of a record, null where it has none.
pub open spec fn extra_of(record: Json) -> Json {
    match record.get("extra"@) {
        Some(e) => e,
        None => Json::Null,
    }
}

/// The user key of a secret among the extra fields of a connection.
pub open spec fn extra_user(id: Seq<char>, key: Seq<char>) -> Seq<char> {
    id + ":"@ + key
}

/// The given user key and secret, where there is one.
pub open spec fn kept_under(user: Seq<char>, secret: Option<Seq<char>>) -> Seq<
    (Seq<char>, Seq<char>),
> {
    match secret {
        Some(s) => seq![(user, s)],
        None => Seq::empty(),
    }
}

/// The plaintext secrets of a record, each with its user key.
pub open spec fn kept_secrets(record: Json, id: Seq<char>) -> Seq<(Seq<char>, Seq<char>)> {
    kept_under(id, secret_in(record)) + kept_under(
        extra_user(id, "sshPassword"@),
        secret_under(extra_of(record), "sshPassword"@),
    ) + kept_under(
        extra_user(id, "sshPassphrase"@),
        secret_under(extra_of(record), "sshPassphrase"@),
    )
}

/// An object with `key` bound to a value; anything else as it is.
pub open spec fn with_member(holder: Json, key: Seq<char>, val: Json) -> Json {
    match holder {
        Json::Object(members) => Json::Object(crate::value::put_key(members, key, val)),
        _ => holder,
    }
}

/// An object with a placeholder in place of the secret under `key`.
pub open spec fn hidden(holder: Json, key: Seq<char>, user: Seq<char>) -> Json {
    if secret_under(holder, key) is Some {
        with_member(holder, key, Json::Str(placeholder_for(user)))
    } else {
        holder
    }
}

/// A record with its extra fields replaced, where it has any.
pub open spec fn with_extra(record: Json, extra: Json) -> Json {
    if record.get("extra"@) is Some {
        with_member(record, "extra"@, extra)
    } else {
        record
    }
}

/// A record as it is stored under an id: with placeholders in place of its
/// secrets where the credential store has kept them, else as it is.
pub open spec fn vaulted(record: Json, id: Seq<char>, kept: bool) -> Json {
    if kept {
        with_extra(
            hidden(record, "password"@, id),
            hidden(
                hidden(
                    extra_of(record),
                    "sshPassword"@,
                    extra_user(id, "sshPassword"@),
                ),
                "sshPassphrase"@,
                extra_user(id, "sshPassphrase"@),
            ),
        )
    } else {
        record
    }
}

/// One text for each secret of a connection.
pub struct Secrets {
    pub password: Option<String>,
    pub ssh_password: Option<String>,
    pub ssh_passphrase: Option<String>,
}

/// What [`Secrets`] hold.
pub struct SecretsView {
    pub password: Option<Seq<char>>,
    pub ssh_password: Option<Seq<char>>,
    pub ssh_passphrase: Option<Seq<char>>,
}

impl DeepView for Secrets {
    type V = SecretsView;

    open spec fn deep_view(&self) -> SecretsView {
        SecretsView {
            password: self.password.deep_view(),
            ssh_password: self.ssh_password.deep_view(),
            ssh_passphrase: self.ssh_passphrase.deep_view(),
        }
    }
}

/// The user key of the placeholder under `key`.
pub open spec fn user_under(holder: Json, key: Seq<char>) -> Option<Seq<char>> {
    match holder.text(key) {
        Some(s) => if is_vaulted(s) {
            Some(user_key(s))
        } else {
            None
        },
        None => None,
    }
}

/// The user keys that the placeholders of a record refer to.
pub open spec fn users_in(record: Json) -> SecretsView {
    SecretsView {
        password: user_under(record, "password"@),
        ssh_password: user_under(extra_of(record), "sshPassword"@),
        ssh_passphrase: user_under(extra_of(record), "sshPassphrase"@),
    }
}

/// An object with the secret in place of the text under `key`, given what the
/// store answers for its user key.
pub open spec fn shown(holder: Json, key: Seq<char>, answer: Option<Seq<char>>) -> Json {
    match holder.text(key) {
        Some(s) => with_member(holder, key, Json::Str(secret_behind(s, answer))),
        None => holder,
    }
}

/// A record with its secrets, given what the store answers for their user keys.
pub open spec fn resolved(record: Json, answers: SecretsView) -> Json {
    with_extra(
        shown(record, "password"@, answers.password),
        shown(
            shown(extra_of(record), "sshPassword"@, answers.ssh_password),
            "sshPassphrase"@,
            answers.ssh_passphrase,
        ),
    )
}

fn plain_secret(holder: &Value, key: &str) -> (r: Option<String>)
    ensures
        r.deep_view() == secret_under(holder@, key@),
{
    match holder.text(key) {
        Some(s) => if is_placeholder(s) {
            None
        } else {
            Some(s.to_owned())
        },
        None => None,
    }
}

/// The password of a record that the credential store is to keep: none where it
/// is absent or a placeholder.
pub fn secret_to_keep(record: &Value) -> (r: Option<String>)
    ensures
        r.deep_view() == secret_in(record@),
{
    plain_secret(record, "password")
}

fn extra_value(record: &Value) -> (r: Value)
    ensures
        r@ == extra_of(record@),
{
    match record.get("extra") {
        Some(e) => clone_value(e),
        None => Value::Null,
    }
}

/// Whether the credential store keeps a secret, given what it read back after it was
/// handed the secret: exactly where that is the secret itself.
pub fn secret_kept(read_back: &Result<String, VaultError>, secret: &str) -> (r: bool)
    ensures
        r == match read_back {
            Ok(kept) => kept@ == secret@,
            Err(_) => false,
        },
{
    match read_back {
        Ok(kept) => same(kept.as_str(), secret),
        Err(_) => false,
    }
}

/// Texts in pairs, as they read.
pub open spec fn pair_texts(pairs: Seq<(String, String)>) -> Seq<(Seq<char>, Seq<char>)> {
    Seq::new(pairs.len(), |i: int| (pairs[i].0@, pairs[i].1@))
}

fn push_secret(out: &mut Vec<(String, String)>, user: String, secret: Option<String>)
    ensures
        pair_texts(final(out)@) == pair_texts(old(out)@) + kept_under(user@, secret.deep_view()),
{
    match secret {
        Some(s) => {
            out.push((user, s));
        },
        None => {},
    }
    assert(pair_texts(out@) =~= pair_texts(old(out)@) + kept_under(user@, secret.deep_view()));
}

/// The secrets of a record that the credential store is to keep, each with the
/// user key to keep it under.
pub fn secrets_to_keep(record: &Value, id: &str) -> (r: Vec<(String, String)>)
    ensures
        pair_texts(r@) == kept_secrets(record@, id@),
{
    let extra = extra_value(record);
    let mut out: Vec<(String, String)> = Vec::new();
    assert(pair_texts(out@) =~= Seq::empty());
    push_secret(&mut out, id.to_owned(), secret_to_keep(record));
    push_secret(
        &mut out,
        concat3(id, ":", "sshPassword"),
        plain_secret(&extra, "sshPassword"),
    );
    push_secret(
        &mut out,
        concat3(id, ":", "sshPassphrase"),
        plain_secret(&extra, "sshPassphrase"),
    );
    assert(pair_texts(out@) =~= kept_secrets(record@, id@));
    out
}

fn put_member(holder: Value, key: &str, val: Value) -> (r: Value)
    ensures
        r@ == with_member(holder@, key@, val@),
{
    proof {
        crate::value::lemma_compound_views(holder);
    }
    match holder {
        Value::Object(mut members) => {
            put_entry(&mut members, key.to_owned(), val);
            object_value(members)
        },
        other => other,
    }
}

fn hide_secret(holder: Value, key: &str, user: &str) -> (r: Value)
    ensures
        r@ == hidden(holder@, key@, user@),
{
    if plain_secret(&holder, key).is_some() {
        let placeholder = concat2(SECRET_PLACEHOLDER_PREFIX, user);
        put_member(holder, key, Value::Str(placeholder))
    } else {
        holder
    }
}

fn put_extra(record: Value, extra: Value) -> (r: Value)
    ensures
        r@ == with_extra(record@, extra@),
{
    if record.get("extra").is_some() {
        put_member(record, "extra", extra)
    } else {
        record
    }
}

/// A record as it is stored under an id: with placeholders in place of its
/// secrets where the credential store has `kept` them, else as it is.
pub fn vaulted_record(record: Value, id: &str, kept: bool) -> (r: Value)
    ensures
        r@ == vaulted(record@, id@, kept),
{
    if !kept {
        return record;
    }
    let extra = extra_value(&record);
    let extra = hide_secret(extra, "sshPassword", concat3(id, ":", "sshPassword").as_str());
    let extra = hide_secret(extra, "sshPassphrase", concat3(id, ":", "sshPassphrase").as_str());
    put_extra(hide_secret(record, "password", id), extra)
}

fn placeholder_user(holder: &Value, key: &str) -> (r: Option<String>)
    ensures
        r.deep_view() == user_under(holder@, key@),
{
    match holder.text(key) {
        Some(s) => vault_user(s),
        None => None,
    }
}

/// The user keys to look up for a stored record.
pub fn secrets_to_find(record: &Value) -> (r: Secrets)
    ensures
        r.deep_view() == users_in(record@),
{
    let extra = extra_value(record);
    Secrets {
        password: placeholder_user(record, "password"),
        ssh_password: placeholder_user(&extra, "sshPassword"),
        ssh_passphrase: placeholder_user(&extra, "sshPassphrase"),
    }
}

fn show_secret(holder: Value, key: &str, answer: Option<String>) -> (r: Value)
    ensures
        r@ == shown(holder@, key@, answer.deep_view()),
{
    let secret = match holder.text(key) {
        Some(s) => Some(resolved_secret(s, answer)),
        None => None,
    };
    match secret {
        Some(s) => put_member(holder, key, Value::Str(s)),
        None => holder,
    }
}

/// A stored record with its secrets, given what the store answers for the user
/// keys of its placeholders.
pub fn resolved_record(record: Value, answers: Secrets) -> (r: Value)
    ensures
        r@ == resolved(record@, answers.deep_view()),
{
    let extra = extra_value(&record);
    let extra = show_secret(extra, "sshPassword", answers.ssh_password);
    let extra = show_secret(extra, "sshPassphrase", answers.ssh_passphrase);
    put_extra(show_secret(record, "password", answers.password), extra)
}

proof fn lemma_secret_keys()
    ensures
        "password"@ != "extra"@,
        "password"@ != "_id"@,
        "extra"@ != "_id"@,
        "sshPassword"@ != "sshPassphrase"@,
{
    reveal_strlit("password");
    reveal_strlit("extra");
    reveal_strlit("_id");
    reveal_strlit("sshPassword");
    reveal_strlit("sshPassphrase");
    assert("password"@.len() == 8 && "extra"@.len() == 5 && "_id"@.len() == 3);
    assert("sshPassword"@.len() == 11 && "sshPassphrase"@.len() == 13);
}

proof fn lemma_with_member(holder: Json, key: Seq<char>, val: Json, other: Seq<char>)
    ensures
        holder is Object ==> with_member(holder, key, val).get(key) == Some(val),
        other != key ==> with_member(holder, key, val).get(other) == holder.get(other),
{
    match holder {
        Json::Object(members) => {
            crate::value::law_put_then_find(members, key, val, other);
        },
        _ => {},
    }
}

/// A secret that is hidden behind a placeholder is found again: the placeholder
/// has its user key, and with the secret as answer it reads as before.
pub proof fn law_hidden(holder: Json, key: Seq<char>, user: Seq<char>)
    requires
        secret_under(holder, key) is Some,
    ensures
        hidden(holder, key, user).text(key) == Some(placeholder_for(user)),
        user_under(hidden(holder, key, user), key) == Some(user),
        shown(hidden(holder, key, user), key, secret_under(holder, key)).text(key)
            == holder.text(key),
        hidden(holder, key, user).text(key) != holder.text(key),
{
    let h = hidden(holder, key, user);
    lemma_with_member(holder, key, Json::Str(placeholder_for(user)), key);
    law_placeholder(user);
    lemma_with_member(
        h,
        key,
        Json::Str(secret_behind(placeholder_for(user), secret_under(holder, key))),
        key,
    );
}

/// Storing a record changes nothing but its secrets: the id reads as before.
pub proof fn law_vaulted_keeps_id(record: Json, id: Seq<char>, kept: bool)
    ensures
        vaulted(record, id, kept).text("_id"@) == record.text("_id"@),
{
    lemma_secret_keys();
    let r = hidden(record, "password"@, id);
    lemma_with_member(record, "password"@, Json::Str(placeholder_for(id)), "_id"@);
    let extra = hidden(
        hidden(extra_of(record), "sshPassword"@, extra_user(id, "sshPassword"@)),
        "sshPassphrase"@,
        extra_user(id, "sshPassphrase"@),
    );
    lemma_with_member(r, "extra"@, extra, "_id"@);
}

/// A password that the store has kept is stored as the placeholder with the
/// connection id as user key, and with the password as answer it reads as before.
pub proof fn law_kept_password(record: Json, id: Seq<char>, answers: SecretsView)
    requires
        secret_in(record) is Some,
        answers.password == secret_in(record),
    ensures
        vaulted(record, id, true).text("password"@) == Some(placeholder_for(id)),
        users_in(vaulted(record, id, true)).password == Some(id),
        resolved(vaulted(record, id, true), answers).text("password"@) == record.text(
            "password"@,
        ),
{
    lemma_secret_keys();
    law_hidden(record, "password"@, id);
    let r = hidden(record, "password"@, id);
    let v = vaulted(record, id, true);
    let extra = hidden(
        hidden(extra_of(record), "sshPassword"@, extra_user(id, "sshPassword"@)),
        "sshPassphrase"@,
        extra_user(id, "sshPassphrase"@),
    );
    lemma_with_member(r, "extra"@, extra, "password"@);
    law_placeholder(id);
    let p = Json::Str(secret_behind(placeholder_for(id), answers.password));
    lemma_with_member(v, "password"@, p, "password"@);
    let shown_extra = shown(
        shown(extra_of(v), "sshPassword"@, answers.ssh_password),
        "sshPassphrase"@,
        answers.ssh_passphrase,
    );
    lemma_with_member(shown(v, "password"@, answers.password), "extra"@, shown_extra, "password"@);
}

/// The secrets among the extra fields, likewise.
pub proof fn law_kept_extra(record: Json, id: Seq<char>, answers: SecretsView)
    requires
        answers.ssh_password == secret_under(extra_of(record), "sshPassword"@),
        answers.ssh_passphrase == secret_under(extra_of(record), "sshPassphrase"@),
    ensures
        ({
            let v = vaulted(record, id, true);
            let back = resolved(v, answers);
            let user = extra_user(id, "sshPassword"@);
            let phrase_user = extra_user(id, "sshPassphrase"@);
            &&& answers.ssh_password is Some ==> {
                &&& extra_of(v).text("sshPassword"@) == Some(placeholder_for(user))
                &&& users_in(v).ssh_password == Some(user)
                &&& extra_of(back).text("sshPassword"@) == answers.ssh_password
            }
            &&& answers.ssh_passphrase is Some ==> {
                &&& extra_of(v).text("sshPassphrase"@) == Some(placeholder_for(phrase_user))
                &&& users_in(v).ssh_passphrase == Some(phrase_user)
                &&& extra_of(back).text("sshPassphrase"@) == answers.ssh_passphrase
            }
        }),
{
    lemma_secret_keys();
    let a = "sshPassword"@;
    let b = "sshPassphrase"@;
    let ua = extra_user(id, a);
    let ub = extra_user(id, b);
    let e = extra_of(record);
    let e1 = hidden(e, a, ua);
    let e2 = hidden(e1, b, ub);
    let r = hidden(record, "password"@, id);
    let v = vaulted(record, id, true);
    let back = resolved(v, answers);
    law_placeholder(ua);
    law_placeholder(ub);
    lemma_with_member(record, "password"@, Json::Str(placeholder_for(id)), "extra"@);
    lemma_with_member(r, "extra"@, e2, "extra"@);
    lemma_with_member(e, a, Json::Str(placeholder_for(ua)), b);
    lemma_with_member(e1, b, Json::Str(placeholder_for(ub)), a);
    let s1 = shown(e2, a, answers.ssh_password);
    let s2 = shown(s1, b, answers.ssh_passphrase);
    let w = shown(v, "password"@, answers.password);
    if answers.ssh_password is Some || answers.ssh_passphrase is Some {
        assert(record.get("extra"@) is Some);
        assert(extra_of(v) == e2);
        match v.text("password"@) {
            Some(p) => {
                lemma_with_member(
                    v,
                    "password"@,
                    Json::Str(secret_behind(p, answers.password)),
                    "extra"@,
                );
            },
            None => {},
        }
        lemma_with_member(w, "extra"@, s2, "extra"@);
        match e2.text(a) {
            Some(p) => {
                lemma_with_member(e2, a, Json::Str(secret_behind(p, answers.ssh_password)), b);
            },
            None => {},
        }
        match s1.text(b) {
            Some(p) => {
                lemma_with_member(s1, b, Json::Str(secret_behind(p, answers.ssh_passphrase)), a);
            },
            None => {},
        }
    }
}

/// What the store has not kept stays in plaintext, and reads as it is.
pub proof fn law_plaintext(record: Json, id: Seq<char>, answer: Option<Seq<char>>)
    requires
        secret_in(record) is Some,
    ensures
        vaulted(record, id, false) == record,
        users_in(record).password is None,
        secret_behind(secret_in(record)->0, answer) == secret_in(record)->0,
{
}

// ---------------------------------------------------------------------------
// Laws
// ---------------------------------------------------------------------------

/// A stored text is a placeholder exactly where it begins with `keyring:`, and the user key is
/// what follows.
pub proof fn law_prefix(user: Seq<char>, stored: Seq<char>)
    ensures
        placeholder_for(user) == seq!['k', 'e', 'y', 'r', 'i', 'n', 'g', ':'] + user,
        stored.len() >= 8 && stored.take(8) == seq!['k', 'e', 'y', 'r', 'i', 'n', 'g', ':']
            ==> is_vaulted(stored) && user_key(stored) == stored.skip(8),
        stored.len() < 8 ==> !is_vaulted(stored),
        stored.len() >= 8 && stored.take(8) != seq!['k', 'e', 'y', 'r', 'i', 'n', 'g', ':']
            ==> !is_vaulted(stored),
{
    reveal_strlit("keyring:");
    assert(SECRET_PLACEHOLDER_PREFIX@ =~= seq!['k', 'e', 'y', 'r', 'i', 'n', 'g', ':']);
    if stored.len() >= 8 {
        assert(stored.take(8) =~= stored.subrange(0, 8));
    }
}

/// The store answers for a placeholder only; without an answer the placeholder itself stays.
pub proof fn law_answers(user: Seq<char>, plain: Seq<char>, secret: Seq<char>)
    ensures
        secret_behind(placeholder_for(user), Some(secret)) == secret,
        secret_behind(placeholder_for(user), None) == placeholder_for(user),
        !is_vaulted(plain) ==> secret_behind(plain, Some(secret)) == plain,
        !is_vaulted(plain) ==> secret_behind(plain, None) == plain,
{
    law_placeholder(user);
}

/// The secrets of a record are its password and, among its further settings, the password and the
/// passphrase of the tunnel, each where it is there in plain text; they are kept under the id of
/// the record, those of the tunnel under the id and their name.
pub proof fn law_secrets_kept(record: Json, id: Seq<char>, secret: Seq<char>)
    requires
        !is_vaulted(secret),
    ensures
        record.text("password"@) == Some(secret) && record.get("extra"@) is None ==> kept_secrets(
            record,
            id,
        ) == seq![(id, secret)],
        record.text("password"@) is None && record.get("extra"@) is None ==> kept_secrets(
            record,
            id,
        ).len() == 0,
        record.text("password"@) is None && (record.get("extra"@) matches Some(extra) && extra.text(
            "sshPassword"@,
        ) == Some(secret) && extra.text("sshPassphrase"@) is None) ==> kept_secrets(record, id)
            == seq![(id + ":sshPassword"@, secret)],
        record.text("password"@) is None && (record.get("extra"@) matches Some(extra) && extra.text(
            "sshPassphrase"@,
        ) == Some(secret) && extra.text("sshPassword"@) is None) ==> kept_secrets(record, id)
            == seq![(id + ":sshPassphrase"@, secret)],
        record.text("password"@) == Some(secret) ==> kept_secrets(record, id).len() >= 1
            && kept_secrets(record, id)[0] == (id, secret),
        record.text("password"@) matches Some(p) ==> is_vaulted(p) && record.get("extra"@) is None
            ==> kept_secrets(record, id).len() == 0,
{
    reveal_strlit(":");
    reveal_strlit("sshPassword");
    reveal_strlit("sshPassphrase");
    reveal_strlit(":sshPassword");
    reveal_strlit(":sshPassphrase");
    assert(extra_user(id, "sshPassword"@) =~= id + ":sshPassword"@);
    assert(extra_user(id, "sshPassphrase"@) =~= id + ":sshPassphrase"@);
    assert(Json::Null.text("sshPassword"@) is None);
    let all = kept_secrets(record, id);
    if record.text("password"@) == Some(secret) && record.get("extra"@) is None {
        assert(all =~= seq![(id, secret)]);
    }
    if record.text("password"@) is None && record.get("extra"@) is Some {
        let extra = record.get("extra"@)->0;
        if extra.text("sshPassword"@) == Some(secret) && extra.text("sshPassphrase"@) is None {
            assert(all =~= seq![(id + ":sshPassword"@, secret)]);
        }
        if extra.text("sshPassphrase"@) == Some(secret) && extra.text("sshPassword"@) is None {
            assert(all =~= seq![(id + ":sshPassphrase"@, secret)]);
        }
    }
}

} // verus!
