//! The engines that are registered at startup.
use vstd::prelude::*;

use crate::driver::Capabilities;
use crate::drivers::clickhouse::{CLICKHOUSE_ENGINE, ClickHouseDriver};
use crate::drivers::firebird::{FIREBIRD_ENGINE, FirebirdDriver};
use crate::drivers::mssql::{MSSQL_ENGINE, MssqlDriver};
use crate::drivers::mysql::{MARIADB_ENGINE, MYSQL_ENGINE, MariaDbDriver, MySqlDriver};
use crate::drivers::oracle::{ORACLE_ENGINE, OracleDriver};
use crate::drivers::postgres::{POSTGRES_ENGINE, PostgresDriver};
use crate::drivers::sqlite::{SQLITE_ENGINE, SqliteDriver};
use crate::registry::{DriverRegistry, RegisteredDriver};

verus! {

/// A built-in engine.
#[derive(Debug, Clone, Copy, PartialEq, Eq, Structural)]
pub enum BuiltinEngine {
    Sqlite,
    Mssql,
    Postgres,
    MySql,
    MariaDb,
    ClickHouse,
    Oracle,
    Firebird,
}

/// The dotted id of an engine.
pub open spec fn id_of(engine: BuiltinEngine) -> Seq<char> {
    match engine {
        BuiltinEngine::Sqlite => SQLITE_ENGINE@,
        BuiltinEngine::Mssql => MSSQL_ENGINE@,
        BuiltinEngine::Postgres => POSTGRES_ENGINE@,
        BuiltinEngine::MySql => MYSQL_ENGINE@,
        BuiltinEngine::MariaDb => MARIADB_ENGINE@,
        BuiltinEngine::ClickHouse => CLICKHOUSE_ENGINE@,
        BuiltinEngine::Oracle => ORACLE_ENGINE@,
        BuiltinEngine::Firebird => FIREBIRD_ENGINE@,
    }
}

/// The title of an engine.
pub open spec fn title_of(engine: BuiltinEngine) -> Seq<char> {
    match engine {
        BuiltinEngine::Sqlite => "SQLite"@,
        BuiltinEngine::Mssql => "SQL Server"@,
        BuiltinEngine::Postgres => "PostgreSQL"@,
        BuiltinEngine::MySql => "MySQL"@,
        BuiltinEngine::MariaDb => "MariaDB"@,
        BuiltinEngine::ClickHouse => "ClickHouse"@,
        BuiltinEngine::Oracle => "OracleDB"@,
        BuiltinEngine::Firebird => "Firebird"@,
    }
}

/// What the driver of an engine is capable of.
pub open spec fn capabilities_of(engine: BuiltinEngine) -> Capabilities {
    match engine {
        BuiltinEngine::Sqlite => Capabilities {
            read_only_sessions: false,
            supports_transactions: true,
            supports_native_backup: false,
            supports_native_restore: false,
            supports_server_summary: false,
            default_port: None,
        },
        BuiltinEngine::Mssql => Capabilities {
            read_only_sessions: false,
            supports_transactions: true,
            supports_native_backup: false,
            supports_native_restore: false,
            supports_server_summary: false,
            default_port: Some(1433),
        },
        BuiltinEngine::Postgres => Capabilities {
            read_only_sessions: false,
            supports_transactions: true,
            supports_native_backup: true,
            supports_native_restore: true,
            supports_server_summary: true,
            default_port: Some(5432),
        },
        BuiltinEngine::MySql => Capabilities {
            read_only_sessions: true,
            supports_transactions: true,
            supports_native_backup: true,
            supports_native_restore: true,
            supports_server_summary: true,
            default_port: Some(3306),
        },
        BuiltinEngine::MariaDb => Capabilities {
            read_only_sessions: true,
            supports_transactions: true,
            supports_native_backup: true,
            supports_native_restore: true,
            supports_server_summary: true,
            default_port: Some(3306),
        },
        BuiltinEngine::ClickHouse => Capabilities {
            read_only_sessions: true,
            supports_transactions: false,
            supports_native_backup: false,
            supports_native_restore: false,
            supports_server_summary: false,
            default_port: Some(8123),
        },
        BuiltinEngine::Oracle => Capabilities {
            read_only_sessions: true,
            supports_transactions: true,
            supports_native_backup: false,
            supports_native_restore: false,
            supports_server_summary: true,
            default_port: Some(1521),
        },
        BuiltinEngine::Firebird => Capabilities {
            read_only_sessions: true,
            supports_transactions: true,
            supports_native_backup: false,
            supports_native_restore: false,
            supports_server_summary: true,
            default_port: Some(3050),
        },
    }
}

impl BuiltinEngine {
    /// The dotted id of the engine.
    pub fn engine(&self) -> (r: &'static str)
        ensures
            r@ == id_of(*self),
    {
        match self {
            BuiltinEngine::Sqlite => SqliteDriver::new().engine(),
            BuiltinEngine::Mssql => MssqlDriver::new().engine(),
            BuiltinEngine::Postgres => PostgresDriver::new().engine(),
            BuiltinEngine::MySql => MySqlDriver::new().engine(),
            BuiltinEngine::MariaDb => MariaDbDriver::new().engine(),
            BuiltinEngine::ClickHouse => ClickHouseDriver::new().engine(),
            BuiltinEngine::Oracle => OracleDriver::new().engine(),
            BuiltinEngine::Firebird => FirebirdDriver::new().engine(),
        }
    }

    /// The title of the engine.
    pub fn title(&self) -> (r: &'static str)
        ensures
            r@ == title_of(*self),
    {
        match self {
            BuiltinEngine::Sqlite => SqliteDriver::new().title(),
            BuiltinEngine::Mssql => MssqlDriver::new().title(),
            BuiltinEngine::Postgres => PostgresDriver::new().title(),
            BuiltinEngine::MySql => MySqlDriver::new().title(),
            BuiltinEngine::MariaDb => MariaDbDriver::new().title(),
            BuiltinEngine::ClickHouse => ClickHouseDriver::new().title(),
            BuiltinEngine::Oracle => OracleDriver::new().title(),
            BuiltinEngine::Firebird => FirebirdDriver::new().title(),
        }
    }

    /// What the engine's driver is capable of.
    pub fn capabilities(&self) -> (r: Capabilities)
        ensures
            r == capabilities_of(*self),
    {
        match self {
            BuiltinEngine::Sqlite => SqliteDriver::new().capabilities(),
            BuiltinEngine::Mssql => MssqlDriver::new().capabilities(),
            BuiltinEngine::Postgres => PostgresDriver::new().capabilities(),
            BuiltinEngine::MySql => MySqlDriver::new().capabilities(),
            BuiltinEngine::MariaDb => MariaDbDriver::new().capabilities(),
            BuiltinEngine::ClickHouse => ClickHouseDriver::new().capabilities(),
            BuiltinEngine::Oracle => OracleDriver::new().capabilities(),
            BuiltinEngine::Firebird => FirebirdDriver::new().capabilities(),
        }
    }
}

/// No two engines have one id.
pub proof fn law_ids_distinct(a: BuiltinEngine, b: BuiltinEngine)
    requires
        a != b,
    ensures
        id_of(a) != id_of(b),
{
    reveal_strlit("sqlite@dbgate-plugin-sqlite");
    reveal_strlit("mssql@dbgate-plugin-mssql");
    reveal_strlit("postgres@dbgate-plugin-postgres");
    reveal_strlit("mysql@dbgate-plugin-mysql");
    reveal_strlit("mariadb@dbgate-plugin-mysql");
    reveal_strlit("clickhouse@dbgate-plugin-clickhouse");
    reveal_strlit("oracle@dbgate-plugin-oracle");
    reveal_strlit("firebird@dbgate-plugin-firebird");
    assert(MSSQL_ENGINE@[1] == 's');
    assert(MYSQL_ENGINE@[1] == 'y');
    assert(MARIADB_ENGINE@[1] == 'a');
    assert(SQLITE_ENGINE@[0] == 's');
    assert(POSTGRES_ENGINE@[0] == 'p');
    assert(CLICKHOUSE_ENGINE@[0] == 'c');
    assert(ORACLE_ENGINE@[0] == 'o');
    assert(FIREBIRD_ENGINE@[0] == 'f');
    assert(MSSQL_ENGINE@[0] == 'm');
    assert(MYSQL_ENGINE@[0] == 'm');
    assert(MARIADB_ENGINE@[0] == 'm');
}

/// Whether an engine is registered with what it says of itself.
pub open spec fn is_registered(
    registry: Map<Seq<char>, RegisteredDriver<BuiltinEngine>>,
    engine: BuiltinEngine,
) -> bool {
    &&& registry.dom().contains(id_of(engine))
    &&& registry[id_of(engine)].driver == engine
    &&& registry[id_of(engine)].title@ == title_of(engine)
    &&& registry[id_of(engine)].default_port == capabilities_of(engine).default_port
}

fn add_engine(registry: &mut DriverRegistry<BuiltinEngine>, engine: BuiltinEngine)
    ensures
        is_registered(final(registry)@, engine),
        forall|e: BuiltinEngine|
            is_registered(old(registry)@, e) ==> #[trigger] is_registered(final(registry)@, e),
        forall|k: Seq<char>|
            #[trigger] final(registry)@.dom().contains(k) <==> old(registry)@.dom().contains(k)
                || k == id_of(engine),
{
    let ghost before = registry@;
    let driver = RegisteredDriver {
        title: engine.title().to_owned(),
        default_port: engine.capabilities().default_port,
        driver: engine,
    };
    registry.register(engine.engine().to_owned(), driver);
    proof {
        assert forall|e: BuiltinEngine| is_registered(before, e) implies #[trigger] is_registered(
            registry@,
            e,
        ) by {
            if e != engine {
                law_ids_distinct(e, engine);
            }
        }
    }
}

/// The registry with every built-in engine.
pub fn builtin_registry() -> (r: DriverRegistry<BuiltinEngine>)
    ensures
        forall|e: BuiltinEngine| #[trigger] is_registered(r@, e),
        forall|k: Seq<char>| #[trigger]
            r@.dom().contains(k) ==> exists|e: BuiltinEngine| k == #[trigger] id_of(e),
{
    let mut r: DriverRegistry<BuiltinEngine> = DriverRegistry::new();
    add_engine(&mut r, BuiltinEngine::Sqlite);
    add_engine(&mut r, BuiltinEngine::Mssql);
    add_engine(&mut r, BuiltinEngine::Postgres);
    add_engine(&mut r, BuiltinEngine::MySql);
    add_engine(&mut r, BuiltinEngine::MariaDb);
    add_engine(&mut r, BuiltinEngine::ClickHouse);
    add_engine(&mut r, BuiltinEngine::Oracle);
    add_engine(&mut r, BuiltinEngine::Firebird);
    proof {
        assert forall|e: BuiltinEngine| #[trigger] is_registered(r@, e) by {
            match e {
                BuiltinEngine::Sqlite => {},
                BuiltinEngine::Mssql => {},
                BuiltinEngine::Postgres => {},
                BuiltinEngine::MySql => {},
                BuiltinEngine::MariaDb => {},
                BuiltinEngine::ClickHouse => {},
                BuiltinEngine::Oracle => {},
                BuiltinEngine::Firebird => {},
            }
        }
        assert forall|k: Seq<char>| #[trigger] r@.dom().contains(k) implies exists|
            e: BuiltinEngine,
        | k == #[trigger] id_of(e) by {
            assert(id_of(BuiltinEngine::Sqlite) == SQLITE_ENGINE@);
            assert(id_of(BuiltinEngine::Mssql) == MSSQL_ENGINE@);
            assert(id_of(BuiltinEngine::Postgres) == POSTGRES_ENGINE@);
            assert(id_of(BuiltinEngine::MySql) == MYSQL_ENGINE@);
            assert(id_of(BuiltinEngine::MariaDb) == MARIADB_ENGINE@);
            assert(id_of(BuiltinEngine::ClickHouse) == CLICKHOUSE_ENGINE@);
            assert(id_of(BuiltinEngine::Oracle) == ORACLE_ENGINE@);
            assert(id_of(BuiltinEngine::Firebird) == FIREBIRD_ENGINE@);
        }
    }
    r
}

/// The ids of the engines.
pub proof fn law_ids()
    ensures
        id_of(BuiltinEngine::Sqlite) == "sqlite@dbgate-plugin-sqlite"@,
        id_of(BuiltinEngine::Mssql) == "mssql@dbgate-plugin-mssql"@,
        id_of(BuiltinEngine::Postgres) == "postgres@dbgate-plugin-postgres"@,
        id_of(BuiltinEngine::MySql) == "mysql@dbgate-plugin-mysql"@,
        id_of(BuiltinEngine::MariaDb) == "mariadb@dbgate-plugin-mysql"@,
        id_of(BuiltinEngine::ClickHouse) == "clickhouse@dbgate-plugin-clickhouse"@,
        id_of(BuiltinEngine::Oracle) == "oracle@dbgate-plugin-oracle"@,
        id_of(BuiltinEngine::Firebird) == "firebird@dbgate-plugin-firebird"@,
{
}

/// The ports on which the servers of the engines listen by default; SQLite has no server.
pub proof fn law_default_ports()
    ensures
        capabilities_of(BuiltinEngine::Sqlite).default_port is None,
        capabilities_of(BuiltinEngine::Mssql).default_port == Some(1433u32),
        capabilities_of(BuiltinEngine::Postgres).default_port == Some(5432u32),
        capabilities_of(BuiltinEngine::MySql).default_port == Some(3306u32),
        capabilities_of(BuiltinEngine::MariaDb).default_port == Some(3306u32),
        capabilities_of(BuiltinEngine::ClickHouse).default_port == Some(8123u32),
        capabilities_of(BuiltinEngine::Oracle).default_port == Some(1521u32),
        capabilities_of(BuiltinEngine::Firebird).default_port == Some(3050u32),
{
}

/// Every engine but ClickHouse has transactions; native backup goes with native restore,
/// and the engines that have it are PostgreSQL, MySQL and MariaDB.
pub proof fn law_capabilities(e: BuiltinEngine)
    ensures
        capabilities_of(e).supports_transactions <==> e != BuiltinEngine::ClickHouse,
        capabilities_of(e).supports_native_backup <==> capabilities_of(e).supports_native_restore,
        capabilities_of(e).supports_native_backup <==> e == BuiltinEngine::Postgres || e
            == BuiltinEngine::MySql || e == BuiltinEngine::MariaDb,
        capabilities_of(BuiltinEngine::MySql) == capabilities_of(BuiltinEngine::MariaDb),
{
}

/// The engines have their titles.
pub proof fn law_titles()
    ensures
        title_of(BuiltinEngine::Sqlite) == "SQLite"@,
        title_of(BuiltinEngine::Mssql) == "SQL Server"@,
        title_of(BuiltinEngine::Postgres) == "PostgreSQL"@,
        title_of(BuiltinEngine::MySql) == "MySQL"@,
        title_of(BuiltinEngine::MariaDb) == "MariaDB"@,
        title_of(BuiltinEngine::ClickHouse) == "ClickHouse"@,
        title_of(BuiltinEngine::Oracle) == "OracleDB"@,
        title_of(BuiltinEngine::Firebird) == "Firebird"@,
{
}

/// A registered engine is found under its id, with its title and its port.
pub proof fn law_registered(
    registry: Map<Seq<char>, RegisteredDriver<BuiltinEngine>>,
    engine: BuiltinEngine,
)
    requires
        is_registered(registry, engine),
    ensures
        registry.dom().contains(id_of(engine)),
        registry[id_of(engine)].driver == engine,
        registry[id_of(engine)].title@ == title_of(engine),
        registry[id_of(engine)].default_port == capabilities_of(engine).default_port,
{
}

/// Sessions can be read-only on all engines but three; a summary of the server is there on five.
pub proof fn law_session_capabilities(e: BuiltinEngine)
    ensures
        capabilities_of(e).read_only_sessions <==> e != BuiltinEngine::Sqlite && e
            != BuiltinEngine::Mssql && e != BuiltinEngine::Postgres,
        capabilities_of(e).supports_server_summary <==> e == BuiltinEngine::Postgres || e
            == BuiltinEngine::MySql || e == BuiltinEngine::MariaDb || e == BuiltinEngine::Oracle
            || e == BuiltinEngine::Firebird,
{
}

} // verus!
