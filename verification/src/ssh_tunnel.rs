//! SSH tunnels: which one a connection asks for, and how it authenticates.
//!
//! A tunnel is a local port forwarded to the database server through an SSH
//! gateway.
use vstd::prelude::*;

use crate::connection::{ConnectionDefinition, ConnectionDefinitionView};
use crate::error::{DbgmError, DbgmErrorView, DbgmResult};
use crate::numbers::decimal;
use crate::text::{concat2, concat3, concat4, same};

verus! {

/// The local bind host for tunnel forwards.
pub const LOCAL_HOST: &'static str = "127.0.0.1";

/// The tunnel that a connection asks for.
pub struct TunnelPlan {
    pub host: String,
    pub port: u16,
    pub login: Option<String>,
    /// The private key file; the agent is used where there is none.
    pub keyfile: Option<String>,
    /// The host to jump over.
    pub bastion: Option<String>,
}

/// What a [`TunnelPlan`] holds.
pub struct TunnelPlanView {
    pub host: Seq<char>,
    pub port: u16,
    pub login: Option<Seq<char>>,
    pub keyfile: Option<Seq<char>>,
    pub bastion: Option<Seq<char>>,
}

impl DeepView for TunnelPlan {
    type V = TunnelPlanView;

    open spec fn deep_view(&self) -> TunnelPlanView {
        TunnelPlanView {
            host: self.host@,
            port: self.port,
            login: self.login.deep_view(),
            keyfile: self.keyfile.deep_view(),
            bastion: self.bastion.deep_view(),
        }
    }
}

/// How a connection authenticates: with a key file, or with the agent; or why it
/// cannot.
pub open spec fn auth_of(def: ConnectionDefinitionView) -> Result<Option<Seq<char>>, Seq<char>> {
    match def.ssh_mode {
        None => Err(PASSWORD_UNSUPPORTED@),
        Some(mode) => if mode == "userPassword"@ {
            Err(PASSWORD_UNSUPPORTED@)
        } else if mode == "keyFile"@ {
            match def.ssh_keyfile {
                None => Err("SSH keyFile mode requires a private key path (sshKeyfile)"@),
                Some(keyfile) => match def.ssh_keyfile_password {
                    Some(p) if p.len() > 0 => Err(PASSPHRASE_UNSUPPORTED@),
                    _ => Ok(Some(keyfile)),
                },
            }
        } else if mode == "agent"@ {
            Ok(None)
        } else {
            Err("Unknown SSH authentication mode '"@ + mode + "'"@)
        },
    }
}

/// The answer to a connection that would authenticate with a password.
pub const PASSWORD_UNSUPPORTED: &'static str =
    "SSH username/password authentication is not yet supported by the Rust backend; use an SSH agent or a private key file";

/// The answer to a connection whose key file has a passphrase.
pub const PASSPHRASE_UNSUPPORTED: &'static str =
    "SSH private key passphrase is not yet supported by the Rust backend; use a key without a passphrase or an SSH agent";

/// The key file with which a connection authenticates according to `sshMode`, or
/// nothing where the agent does it.
pub fn apply_auth(def: &ConnectionDefinition) -> (r: DbgmResult<Option<String>>)
    ensures
        match r {
            Ok(keyfile) => auth_of(def.deep_view()) == Ok::<Option<Seq<char>>, Seq<char>>(
                keyfile.deep_view(),
            ),
            Err(e) => auth_of(def.deep_view()) is Err && e.deep_view()
                == crate::error::generic_error(auth_of(def.deep_view())->Err_0),
        },
{
    let mode = match &def.ssh_mode {
        None => return Err(DbgmError::new(PASSWORD_UNSUPPORTED.to_owned())),
        Some(mode) => mode,
    };
    if same(mode.as_str(), "userPassword") {
        return Err(DbgmError::new(PASSWORD_UNSUPPORTED.to_owned()));
    }
    if same(mode.as_str(), "keyFile") {
        let keyfile = match &def.ssh_keyfile {
            None => return Err(
                DbgmError::new(
                    "SSH keyFile mode requires a private key path (sshKeyfile)".to_owned(),
                ),
            ),
            Some(k) => k.clone(),
        };
        if let Some(p) = &def.ssh_keyfile_password {
            if !p.as_str().is_empty() {
                return Err(DbgmError::new(PASSPHRASE_UNSUPPORTED.to_owned()));
            }
        }
        return Ok(Some(keyfile));
    }
    if same(mode.as_str(), "agent") {
        return Ok(None);
    }
    Err(DbgmError::new(concat3("Unknown SSH authentication mode '", mode.as_str(), "'")))
}

/// The tunnel that a connection asks for: none, one, or one that cannot be had,
/// with the reason. Of the port the low 16 bits count.
pub open spec fn plan_of(def: ConnectionDefinitionView) -> Result<
    Option<TunnelPlanView>,
    Seq<char>,
> {
    if def.use_ssh_tunnel != Some(true) {
        Ok(None)
    } else {
        match (def.ssh_host, auth_of(def)) {
            (None, _) => Err("SSH tunnel requires a host (sshHost)"@),
            (Some(_), Err(message)) => Err(message),
            (Some(host), Ok(keyfile)) => Ok(
                Some(
                    TunnelPlanView {
                        host,
                        port: match def.ssh_port {
                            Some(p) => (p % 65536) as u16,
                            None => 22,
                        },
                        login: def.ssh_login,
                        keyfile,
                        bastion: def.ssh_bastion_host,
                    },
                ),
            ),
        }
    }
}

fn copied(t: &Option<String>) -> (r: Option<String>)
    ensures
        r.deep_view() == t.deep_view(),
{
    match t {
        Some(s) => Some(s.clone()),
        None => None,
    }
}

/// The tunnel that a connection asks for; nothing where it does not ask for one
/// (`useSshTunnel` absent or false).
pub fn tunnel_plan(def: &ConnectionDefinition) -> (r: DbgmResult<Option<TunnelPlan>>)
    ensures
        match r {
            Ok(plan) => plan_of(def.deep_view()) == Ok::<Option<TunnelPlanView>, Seq<char>>(
                plan.deep_view(),
            ),
            Err(e) => plan_of(def.deep_view()) is Err && e.deep_view()
                == crate::error::generic_error(plan_of(def.deep_view())->Err_0),
        },
{
    let wanted = match def.use_ssh_tunnel {
        Some(b) => b,
        None => false,
    };
    if !wanted {
        return Ok(None);
    }
    let host = match &def.ssh_host {
        None => return Err(DbgmError::new("SSH tunnel requires a host (sshHost)".to_owned())),
        Some(h) => h.clone(),
    };
    let keyfile = match apply_auth(def) {
        Ok(k) => k,
        Err(e) => return Err(e),
    };
    let port: u16 = match def.ssh_port {
        Some(p) => (p % 65536) as u16,
        None => 22,
    };
    Ok(
        Some(
            TunnelPlan {
                host,
                port,
                login: copied(&def.ssh_login),
                keyfile,
                bastion: copied(&def.ssh_bastion_host),
            },
        ),
    )
}

/// The error for a gateway that cannot be reached, with the cause.
pub fn open_error(ssh_host: &str, cause: String) -> (r: DbgmError)
    ensures
        r.deep_view() == (DbgmErrorView {
            code: crate::error::DBGM_GENERIC@,
            message: "Cannot open SSH tunnel to "@ + ssh_host@,
            source: Some(cause@),
        }),
{
    DbgmError::with_source(concat2("Cannot open SSH tunnel to ", ssh_host), cause)
}

/// The error for a port that cannot be forwarded, with the cause.
pub fn forward_error(
    local_port: u16,
    connect_host: &str,
    connect_port: u16,
    ssh_host: &str,
    cause: String,
) -> (r: DbgmError)
    ensures
        r.deep_view() == (DbgmErrorView {
            code: crate::error::DBGM_GENERIC@,
            message: "Cannot forward local port "@ + crate::numbers::dec(local_port as nat)
                + " to "@ + connect_host@ + ":"@ + crate::numbers::dec(connect_port as nat)
                + " via "@ + ssh_host@,
            source: Some(cause@),
        }),
{
    let mut message = concat4(
        "Cannot forward local port ",
        decimal(local_port as u64).as_str(),
        " to ",
        connect_host,
    );
    message.push_str(":");
    message.push_str(decimal(connect_port as u64).as_str());
    message.push_str(" via ");
    message.push_str(ssh_host);
    DbgmError::with_source(message, cause)
}

/// The endpoint that drivers connect to instead of the real server, where the
/// tunnel listens on the given port.
pub fn local_endpoint(local_port: u16) -> (r: (String, u16))
    ensures
        r.0@ == LOCAL_HOST@,
        r.1 == local_port,
{
    (LOCAL_HOST.to_owned(), local_port)
}

// ---------------------------------------------------------------------------
// Laws
// ---------------------------------------------------------------------------

/// A tunnel is planned exactly where the connection asks for one. It goes to the host of the
/// tunnel, at its port, 22 where it names none, with its login and over its bastion.
pub proof fn law_plan(def: ConnectionDefinitionView)
    ensures
        def.use_ssh_tunnel is None ==> plan_of(def) == Ok::<Option<TunnelPlanView>, Seq<char>>(None),
        def.use_ssh_tunnel == Some(false) ==> plan_of(def) == Ok::<
            Option<TunnelPlanView>,
            Seq<char>,
        >(None),
        def.use_ssh_tunnel == Some(true) && def.ssh_host is None ==> plan_of(def) is Err,
        def.use_ssh_tunnel == Some(true) && auth_of(def) is Err ==> plan_of(def) is Err,
        def.use_ssh_tunnel == Some(true) && def.ssh_host is Some && auth_of(def) is Ok ==> (plan_of(
            def,
        ) matches Ok(Some(plan)) && {
            &&& Some(plan.host) == def.ssh_host
            &&& def.ssh_port is None ==> plan.port == 22
            &&& def.ssh_port matches Some(p) ==> p < 65536 ==> plan.port == p
            &&& plan.login == def.ssh_login
            &&& plan.bastion == def.ssh_bastion_host
            &&& auth_of(def) == Ok::<Option<Seq<char>>, Seq<char>>(plan.keyfile)
        }),
{
}

/// A key file without a passphrase and an agent are ways to log in; a password is none, nor is a
/// way that has no name here.
pub proof fn law_auth(def: ConnectionDefinitionView)
    ensures
        def.ssh_mode is None ==> auth_of(def) is Err,
        def.ssh_mode == Some("userPassword"@) ==> auth_of(def) is Err,
        def.ssh_mode == Some("agent"@) ==> auth_of(def) == Ok::<Option<Seq<char>>, Seq<char>>(None),
        def.ssh_mode == Some("keyFile"@) ==> (auth_of(def) is Ok <==> def.ssh_keyfile is Some && (
        def.ssh_keyfile_password matches Some(p) ==> p.len() == 0)),
        def.ssh_mode == Some("keyFile"@) && auth_of(def) is Ok ==> auth_of(def)->Ok_0
            == def.ssh_keyfile,
        def.ssh_mode matches Some(mode) ==> mode != "agent"@ && mode != "keyFile"@ ==> auth_of(
            def,
        ) is Err,
        def.ssh_mode matches Some(mode) ==> mode != "agent"@ && mode != "keyFile"@ && mode
            != "userPassword"@ ==> auth_of(def)->Err_0 == "Unknown SSH authentication mode '"@
            + mode + "'"@,
{
    reveal_strlit("userPassword");
    reveal_strlit("agent");
    reveal_strlit("keyFile");
    assert("userPassword"@.len() == 12);
    assert("agent"@.len() == 5);
    assert("keyFile"@.len() == 7);
}

/// What is missing is named.
pub proof fn law_complaints(def: ConnectionDefinitionView)
    ensures
        def.use_ssh_tunnel == Some(true) && def.ssh_host is None ==> plan_of(def)->Err_0
            == "SSH tunnel requires a host (sshHost)"@,
        def.ssh_mode == Some("keyFile"@) && def.ssh_keyfile is None ==> auth_of(def)->Err_0
            == "SSH keyFile mode requires a private key path (sshKeyfile)"@,
{
    reveal_strlit("userPassword");
    reveal_strlit("keyFile");
    assert("userPassword"@.len() == 12);
    assert("keyFile"@.len() == 7);
}

/// A port beyond sixteen bits counts by what remains of it in them.
pub proof fn law_wide_port(def: ConnectionDefinitionView, p: u32, k: int)
    requires
        def.ssh_port == Some(p),
        0 <= p - k * 65536 < 65536,
    ensures
        plan_of(def) matches Ok(Some(plan)) ==> plan.port == p - k * 65536,
{
}

} // verus!
