//! Connection definition model.
//!
//! An engine-independent description of how to reach a database server.
use vstd::prelude::*;

use crate::value::{Json, Value};

verus! {

/// A saved connection. Fields are a superset of what every driver needs;
/// each driver reads the subset it understands.
pub struct ConnectionDefinition {
    /// Dotted engine id, e.g. `mysql@dbgate-plugin-mysql`.
    pub engine: String,
    pub name: String,
    pub server: Option<String>,
    pub port: Option<u32>,
    pub user: Option<String>,
    pub password: Option<String>,
    pub database: Option<String>,
    /// SQLite / DuckDB: path to the database file.
    pub database_file: Option<String>,
    pub is_read_only: Option<bool>,
    /// Engine-specific auth type (e.g. `hostPort`, `socket`, `awsIam`).
    pub auth_type: Option<String>,
    pub use_ssh_tunnel: Option<bool>,
    pub ssh_host: Option<String>,
    pub ssh_port: Option<u32>,
    pub ssh_login: Option<String>,
    /// How to authenticate at the SSH server: `agent`, `keyFile`, `userPassword`.
    pub ssh_mode: Option<String>,
    pub ssh_keyfile: Option<String>,
    pub ssh_keyfile_password: Option<String>,
    pub ssh_bastion_host: Option<String>,
    /// Any engine-specific extra fields, an object keyed by field name.
    pub extra: Option<Value>,
}

/// What a [`ConnectionDefinition`] holds.
pub struct ConnectionDefinitionView {
    pub engine: Seq<char>,
    pub name: Seq<char>,
    pub server: Option<Seq<char>>,
    pub port: Option<u32>,
    pub user: Option<Seq<char>>,
    pub password: Option<Seq<char>>,
    pub database: Option<Seq<char>>,
    pub database_file: Option<Seq<char>>,
    pub is_read_only: Option<bool>,
    pub auth_type: Option<Seq<char>>,
    pub use_ssh_tunnel: Option<bool>,
    pub ssh_host: Option<Seq<char>>,
    pub ssh_port: Option<u32>,
    pub ssh_login: Option<Seq<char>>,
    pub ssh_mode: Option<Seq<char>>,
    pub ssh_keyfile: Option<Seq<char>>,
    pub ssh_keyfile_password: Option<Seq<char>>,
    pub ssh_bastion_host: Option<Seq<char>>,
    pub extra: Option<Json>,
}

impl DeepView for ConnectionDefinition {
    type V = ConnectionDefinitionView;

    open spec fn deep_view(&self) -> ConnectionDefinitionView {
        ConnectionDefinitionView {
            engine: self.engine@,
            name: self.name@,
            server: self.server.deep_view(),
            port: self.port,
            user: self.user.deep_view(),
            password: self.password.deep_view(),
            database: self.database.deep_view(),
            database_file: self.database_file.deep_view(),
            is_read_only: self.is_read_only,
            auth_type: self.auth_type.deep_view(),
            use_ssh_tunnel: self.use_ssh_tunnel,
            ssh_host: self.ssh_host.deep_view(),
            ssh_port: self.ssh_port,
            ssh_login: self.ssh_login.deep_view(),
            ssh_mode: self.ssh_mode.deep_view(),
            ssh_keyfile: self.ssh_keyfile.deep_view(),
            ssh_keyfile_password: self.ssh_keyfile_password.deep_view(),
            ssh_bastion_host: self.ssh_bastion_host.deep_view(),
            extra: self.extra.deep_view(),
        }
    }
}

/// A definition of which nothing is known.
pub open spec fn blank_definition() -> ConnectionDefinitionView {
    ConnectionDefinitionView {
        engine: Seq::empty(),
        name: Seq::empty(),
        server: None,
        port: None,
        user: None,
        password: None,
        database: None,
        database_file: None,
        is_read_only: None,
        auth_type: None,
        use_ssh_tunnel: None,
        ssh_host: None,
        ssh_port: None,
        ssh_login: None,
        ssh_mode: None,
        ssh_keyfile: None,
        ssh_keyfile_password: None,
        ssh_bastion_host: None,
        extra: None,
    }
}

impl ConnectionDefinitionView {
    /// The extra field `key`.
    pub open spec fn extra_field(self, key: Seq<char>) -> Option<Json> {
        match self.extra {
            Some(j) => j.get(key),
            None => None,
        }
    }
}

impl Default for ConnectionDefinition {
    fn default() -> (r: Self)
        ensures
            r.deep_view() == blank_definition(),
    {
        ConnectionDefinition {
            engine: String::new(),
            name: String::new(),
            server: None,
            port: None,
            user: None,
            password: None,
            database: None,
            database_file: None,
            is_read_only: None,
            auth_type: None,
            use_ssh_tunnel: None,
            ssh_host: None,
            ssh_port: None,
            ssh_login: None,
            ssh_mode: None,
            ssh_keyfile: None,
            ssh_keyfile_password: None,
            ssh_bastion_host: None,
            extra: None,
        }
    }
}

impl ConnectionDefinition {
    pub fn sqlite_default() -> (r: Self)
        ensures
            r.deep_view() == (ConnectionDefinitionView {
                engine: "sqlite@dbgate-plugin-sqlite"@,
                name: "sqlite"@,
                ..blank_definition()
            }),
    {
        let mut def = ConnectionDefinition::default();
        def.engine = "sqlite@dbgate-plugin-sqlite".to_owned();
        def.name = "sqlite".to_owned();
        def
    }

    /// The extra field `key`.
    pub fn extra_field(&self, key: &str) -> (r: Option<&Value>)
        ensures
            crate::value::opt_value(r) == self.deep_view().extra_field(key@),
    {
        match &self.extra {
            Some(v) => v.get(key),
            None => None,
        }
    }
}

// ---------------------------------------------------------------------------
// Laws
// ---------------------------------------------------------------------------

/// What a definition is said to hold is what its fields hold.
pub proof fn law_fields(def: ConnectionDefinition)
    ensures
        def.deep_view().engine == def.engine@,
        def.deep_view().name == def.name@,
        def.deep_view().port == def.port,
        def.deep_view().is_read_only == def.is_read_only,
        def.deep_view().use_ssh_tunnel == def.use_ssh_tunnel,
        def.deep_view().ssh_port == def.ssh_port,
        def.server matches Some(t) ==> def.deep_view().server == Some(t@),
        def.server is None ==> def.deep_view().server is None,
        def.user matches Some(t) ==> def.deep_view().user == Some(t@),
        def.user is None ==> def.deep_view().user is None,
        def.password matches Some(t) ==> def.deep_view().password == Some(t@),
        def.password is None ==> def.deep_view().password is None,
        def.database matches Some(t) ==> def.deep_view().database == Some(t@),
        def.database is None ==> def.deep_view().database is None,
        def.database_file matches Some(t) ==> def.deep_view().database_file == Some(t@),
        def.database_file is None ==> def.deep_view().database_file is None,
        def.auth_type matches Some(t) ==> def.deep_view().auth_type == Some(t@),
        def.auth_type is None ==> def.deep_view().auth_type is None,
        def.ssh_host matches Some(t) ==> def.deep_view().ssh_host == Some(t@),
        def.ssh_host is None ==> def.deep_view().ssh_host is None,
        def.ssh_login matches Some(t) ==> def.deep_view().ssh_login == Some(t@),
        def.ssh_login is None ==> def.deep_view().ssh_login is None,
        def.ssh_mode matches Some(t) ==> def.deep_view().ssh_mode == Some(t@),
        def.ssh_mode is None ==> def.deep_view().ssh_mode is None,
        def.ssh_keyfile matches Some(t) ==> def.deep_view().ssh_keyfile == Some(t@),
        def.ssh_keyfile is None ==> def.deep_view().ssh_keyfile is None,
        def.ssh_keyfile_password matches Some(t) ==> def.deep_view().ssh_keyfile_password == Some(t@),
        def.ssh_keyfile_password is None ==> def.deep_view().ssh_keyfile_password is None,
        def.ssh_bastion_host matches Some(t) ==> def.deep_view().ssh_bastion_host == Some(t@),
        def.ssh_bastion_host is None ==> def.deep_view().ssh_bastion_host is None,
        def.extra matches Some(v) ==> def.deep_view().extra == Some(v@),
        def.extra is None ==> def.deep_view().extra is None,
{
}

/// A further setting is the member of that name, where the definition has further settings.
pub proof fn law_extra_field(def: ConnectionDefinitionView, key: Seq<char>)
    ensures
        def.extra is None ==> def.extra_field(key) is None,
        def.extra matches Some(v) ==> def.extra_field(key) == v.get(key),
{
}

} // verus!
