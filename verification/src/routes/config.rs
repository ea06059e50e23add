//! The startup configuration and the settings.
use vstd::prelude::*;

use crate::routes::ok_value;
use crate::text::concat2;
use crate::value::{
    add_member, merge_entries, no_members, object_value, text_value, Json, Value,
};

verus! {

/// The startup configuration.
pub open spec fn config_json() -> Json {
    Json::Object(
        seq![
            ("isElectron"@, Json::Bool(true)),
            ("isTauri"@, Json::Bool(true)),
            ("singleConnection"@, Json::Null),
            ("settingsValue"@, Json::Object(Seq::empty())),
            ("skipAllAuth"@, Json::Bool(true)),
        ],
    )
}

/// `config_get`: startup configuration for the UI. The shell is always considered
/// available and logged-in.
pub fn get() -> (r: Value)
    ensures
        r@ == config_json(),
{
    let mut o = no_members();
    add_member(&mut o, "isElectron", Value::Bool(true));
    add_member(&mut o, "isTauri", Value::Bool(true));
    add_member(&mut o, "singleConnection", Value::Null);
    add_member(&mut o, "settingsValue", object_value(no_members()));
    add_member(&mut o, "skipAllAuth", Value::Bool(true));
    assert(crate::value::entries(o@) =~= config_json()->Object_0);
    object_value(o)
}

/// The settings that a file holds: an empty object where it is missing or cannot
/// be parsed.
pub open spec fn settings_of(file: Option<Json>) -> Json {
    match file {
        Some(v) => v,
        None => Json::Object(Seq::empty()),
    }
}

/// `config_get_settings`: the raw settings, given what the file parses to.
pub fn get_settings(file: Option<Value>) -> (r: Value)
    ensures
        r@ == settings_of(
            match file {
                Some(v) => Some(v@),
                None => None,
            },
        ),
{
    match file {
        Some(v) => v,
        None => object_value(no_members()),
    }
}

/// The settings in the arguments: those under `settings` where that is an object,
/// else the arguments themselves.
pub open spec fn settings_in(args: Json) -> Json {
    match args.get("settings"@) {
        Some(Json::Object(o)) => Json::Object(o),
        _ => args,
    }
}

/// The settings after an update: where both are objects, the members of the new
/// ones are put over the current ones.
pub open spec fn settings_after(current: Json, args: Json) -> Json {
    match (current, settings_in(args)) {
        (Json::Object(cur), Json::Object(src)) => Json::Object(
            crate::value::merge_keys(cur, src),
        ),
        _ => current,
    }
}

/// `config_update_settings`: puts new keys over the current settings. The
/// frontend sends a flat object; a `{ "settings": {...} }` wrapper is also
/// accepted.
pub fn update_settings(current: Value, args: &Value) -> (r: Value)
    ensures
        r@ == settings_after(current@, args@),
{
    let mut values: &Value = args;
    if let Some(v) = args.get("settings") {
        proof {
            crate::value::lemma_compound_views(*v);
        }
        if v.is_object() {
            values = v;
        }
    }
    assert(values@ == settings_in(args@));
    proof {
        crate::value::lemma_compound_views(current);
        crate::value::lemma_compound_views(*values);
    }
    match (current, values) {
        (Value::Object(mut cur), Value::Object(src)) => {
            merge_entries(&mut cur, src);
            object_value(cur)
        },
        (other, _) => other,
    }
}

/// The answer to an update of the settings.
pub fn updated() -> (r: Value)
    ensures
        r@ == crate::routes::ok_json(),
{
    ok_value()
}

/// An update, with or without the wrapper, binds every key that it names to the
/// value of its last entry, and every other key as before.
pub proof fn law_settings(
    current: Seq<(Seq<char>, Json)>,
    args: Json,
    changes: Seq<(Seq<char>, Json)>,
    key: Seq<char>,
)
    requires
        settings_in(args) == Json::Object(changes),
    ensures
        settings_after(Json::Object(current), args).get(key)
            == match crate::value::last_key(changes, key) {
            Some(v) => Some(v),
            None => crate::value::find_key(current, key),
        },
{
    crate::value::law_merge(current, changes, key);
}

/// The settings of an update are those in the wrapper, or the arguments
/// themselves where they hold no wrapper.
pub proof fn law_settings_in(members: Seq<(Seq<char>, Json)>)
    ensures
        match crate::value::find_key(members, "settings"@) {
            Some(Json::Object(o)) => settings_in(Json::Object(members)) == Json::Object(o),
            _ => settings_in(Json::Object(members)) == Json::Object(members),
        },
{
}

/// What is known of the machine.
pub struct Platform {
    pub is_windows: bool,
    pub is_mac: bool,
    pub is_linux: bool,
    /// The socket of the SSH agent.
    pub ssh_auth_sock: Option<String>,
    /// The home directory, empty where it is not known.
    pub home: String,
}

/// The platform flags.
pub open spec fn platform_json(p: Platform) -> Json {
    Json::Object(
        seq![
            ("isWindows"@, Json::Bool(p.is_windows)),
            ("isMac"@, Json::Bool(p.is_mac)),
            ("isLinux"@, Json::Bool(p.is_linux)),
            ("isElectron"@, Json::Bool(true)),
            ("isTauri"@, Json::Bool(true)),
            ("isDocker"@, Json::Bool(false)),
            ("allowShellConnection"@, Json::Bool(true)),
            ("allowShellScripting"@, Json::Bool(true)),
            ("sshAuthSock"@, crate::value::text_or_null(p.ssh_auth_sock.deep_view())),
            ("defaultKeyfile"@, Json::Str(p.home@ + "/.ssh/id_rsa"@)),
        ],
    )
}

/// `config_platform_info`: platform flags consumed by the connection form.
pub fn platform_info(p: Platform) -> (r: Value)
    ensures
        r@ == platform_json(p),
{
    let keyfile = concat2(p.home.as_str(), "/.ssh/id_rsa");
    let mut o = no_members();
    add_member(&mut o, "isWindows", Value::Bool(p.is_windows));
    add_member(&mut o, "isMac", Value::Bool(p.is_mac));
    add_member(&mut o, "isLinux", Value::Bool(p.is_linux));
    add_member(&mut o, "isElectron", Value::Bool(true));
    add_member(&mut o, "isTauri", Value::Bool(true));
    add_member(&mut o, "isDocker", Value::Bool(false));
    add_member(&mut o, "allowShellConnection", Value::Bool(true));
    add_member(&mut o, "allowShellScripting", Value::Bool(true));
    add_member(&mut o, "sshAuthSock", text_value(p.ssh_auth_sock));
    add_member(&mut o, "defaultKeyfile", Value::Str(keyfile));
    assert(crate::value::entries(o@) =~= platform_json(p)->Object_0);
    object_value(o)
}

// ---------------------------------------------------------------------------
// Laws
// ---------------------------------------------------------------------------

/// The configuration is that of a desktop application without a login.
pub proof fn law_config()
    ensures
        config_json().flag("isElectron"@) == Some(true),
        config_json().flag("isTauri"@) == Some(true),
        config_json().flag("skipAllAuth"@) == Some(true),
        config_json().get("singleConnection"@) == Some(Json::Null),
        config_json().get("settingsValue"@) == Some(Json::Object(Seq::empty())),
{
    reveal_with_fuel(crate::value::find_key, 6);
    reveal_strlit("isElectron");
    reveal_strlit("isTauri");
    reveal_strlit("singleConnection");
    reveal_strlit("settingsValue");
    reveal_strlit("skipAllAuth");
    assert("isElectron"@.len() == 10);
    assert("isTauri"@.len() == 7);
    assert("singleConnection"@.len() == 16);
    assert("settingsValue"@.len() == 13);
    assert("skipAllAuth"@.len() == 11);
}

/// What is known of the machine stands under its name.
pub proof fn law_platform(p: Platform)
    ensures
        platform_json(p).flag("isWindows"@) == Some(p.is_windows),
        platform_json(p).flag("isMac"@) == Some(p.is_mac),
        platform_json(p).flag("isLinux"@) == Some(p.is_linux),
        platform_json(p).flag("isElectron"@) == Some(true),
        platform_json(p).flag("isTauri"@) == Some(true),
        platform_json(p).flag("isDocker"@) == Some(false),
        platform_json(p).flag("allowShellConnection"@) == Some(true),
        platform_json(p).flag("allowShellScripting"@) == Some(true),
        p.ssh_auth_sock matches Some(sock) ==> platform_json(p).text("sshAuthSock"@) == Some(sock@),
        p.ssh_auth_sock is None ==> platform_json(p).get("sshAuthSock"@) == Some(Json::Null),
        platform_json(p).text("defaultKeyfile"@) == Some(p.home@ + "/.ssh/id_rsa"@),
{
    reveal_with_fuel(crate::value::find_key, 11);
    reveal_strlit("isWindows");
    reveal_strlit("isMac");
    reveal_strlit("isLinux");
    reveal_strlit("isElectron");
    reveal_strlit("isTauri");
    reveal_strlit("isDocker");
    reveal_strlit("allowShellConnection");
    reveal_strlit("allowShellScripting");
    reveal_strlit("sshAuthSock");
    reveal_strlit("defaultKeyfile");
    assert("isWindows"@.len() == 9);
    assert("isMac"@.len() == 5);
    assert("isLinux"@.len() == 7);
    assert("isElectron"@.len() == 10);
    assert("isTauri"@.len() == 7);
    assert("isDocker"@.len() == 8);
    assert("allowShellConnection"@.len() == 20);
    assert("allowShellScripting"@.len() == 19);
    assert("sshAuthSock"@.len() == 11);
    assert("defaultKeyfile"@.len() == 14);
    assert("isLinux"@[2] == 'L');
    assert("isTauri"@[2] == 'T');
}

/// The settings are those of the file, and empty where there is none.
pub proof fn law_settings_file(v: Json)
    ensures
        settings_of(Some(v)) == v,
        settings_of(None) == Json::Object(Seq::empty()),
{
}

} // verus!
