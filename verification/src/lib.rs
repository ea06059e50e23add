pub mod connection;
pub mod datetime;
pub mod dbinfo;
pub mod driver;
pub mod drivers;
pub mod encoding;
pub mod engines;
pub mod error;
pub mod events;
pub mod jsl;
pub mod keyed;
pub mod numbers;
pub mod query;
pub mod query_splitter;
pub mod registry;
pub mod routes;
pub mod rows;
pub mod script;
pub mod security;
pub mod ssh_tunnel;
pub mod text;
pub mod value;
