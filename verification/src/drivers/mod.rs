//! The engine drivers: how each engine's metadata rows and cells become the
//! common model.
pub mod cassandra;
pub mod cassandra_queries;
pub mod cassandra_write;
pub mod clickhouse;
pub mod clickhouse_queries;
pub mod common;
pub mod firebird;
pub mod firebird_queries;
pub mod mssql;
pub mod mssql_queries;
pub mod mysql;
pub mod mysql_queries;
pub mod oracle;
pub mod oracle_queries;
pub mod postgres;
pub mod postgres_queries;
pub mod sqlite;
