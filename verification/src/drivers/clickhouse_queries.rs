//! Catalog query templates of the ClickHouse driver.
use vstd::prelude::*;

verus! {

pub const SQL_TABLES: &'static str = "\
select name as \"pureName\", metadata_modification_time as \"contentHash\",
total_rows as \"tableRowCount\", uuid as \"objectId\", comment as \"objectComment\",
engine as \"tableEngine\", primary_key as \"primaryKeyColumns\",
sorting_key as \"sortingKeyColumns\"
from system.tables
where database='#DATABASE#' and uuid =OBJECT_ID_CONDITION and engine != 'View'";

pub const SQL_COLUMNS: &'static str = "\
select
    columns.table as \"pureName\",
    tables.uuid as \"objectId\",
    columns.name as \"columnName\",
    columns.type as \"dataType\",
    columns.comment as \"columnComment\",
    columns.default_expression as \"defaultValue\"
from system.columns
inner join system.tables on columns.table = tables.name and columns.database = tables.database
where columns.database='#DATABASE#' and tables.uuid =OBJECT_ID_CONDITION
order by toInt32(columns.position)";

pub const SQL_VIEWS: &'static str = "\
select
    tables.name as \"pureName\",
    tables.uuid as \"objectId\",
    views.view_definition as \"viewDefinition\",
    tables.metadata_modification_time as \"contentHash\"
from information_schema.views
inner join system.tables on views.table_name = tables.name and views.table_schema = tables.database
where views.table_schema='#DATABASE#' and tables.uuid =OBJECT_ID_CONDITION";

pub const SQL_VIEW_TEXTS: &'static str = "\
select
    tables.name as \"pureName\",
    tables.uuid as \"objectId\",
    tables.metadata_modification_time as \"contentHash\"
from system.tables
where tables.database='#DATABASE#' and tables.uuid =OBJECT_ID_CONDITION and tables.engine = 'View'";

} // verus!
