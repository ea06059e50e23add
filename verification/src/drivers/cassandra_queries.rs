//! Catalog query templates of the Cassandra driver.
use vstd::prelude::*;

verus! {

pub const SQL_TABLES: &'static str = r#"
SELECT table_name as "pureName"
FROM system_schema.tables
WHERE keyspace_name='#DATABASE#'
"#;

pub const SQL_COLUMNS: &'static str = r#"
SELECT
  table_name as "pureName",
  column_name as "columnName",
  type as "dataType",
  kind as "kind"
FROM system_schema.columns
WHERE keyspace_name = '#DATABASE#'
"#;

} // verus!
