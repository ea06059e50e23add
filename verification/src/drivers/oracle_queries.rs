//! Catalog query templates of the Oracle driver.
use vstd::prelude::*;

verus! {

pub const SQL_TABLES: &'static str = "
select
    table_name as \"pure_name\",
    num_rows * avg_row_len as \"size_bytes\",
    num_rows as \"table_row_count\"
  from
    all_tables
  where OWNER='$owner' AND 'tables:' || TABLE_NAME =OBJECT_ID_CONDITION
";

pub const SQL_COLUMNS: &'static str = "
select
  table_name as \"pure_name\",
  column_name as \"column_name\",
  nullable as \"is_nullable\",
  data_type as \"data_type\",
  data_length as \"char_max_length\",
  data_precision as \"numeric_precision\",
  data_scale as \"numeric_scale\",
  data_default as \"default_value\"
  FROM all_tab_columns av
  where OWNER='$owner' AND 'tables:' || TABLE_NAME =OBJECT_ID_CONDITION
order by column_id
";

pub const SQL_PRIMARY_KEYS: &'static str = "
select
  pk.constraint_name as \"constraint_name\",
  pk.table_name as \"pure_name\",
  basecol.column_name as \"column_name\"
from all_cons_columns basecol,
 all_constraints pk
where constraint_type = 'P'
and basecol.owner = pk.owner
and basecol.constraint_name = pk.constraint_name
and basecol.table_name = pk.table_name
and 'tables:' || basecol.table_name =OBJECT_ID_CONDITION
and pk.owner = '$owner'
order by basecol.position
;

-- Oracle stores a constraint's column positions in ALL_CONS_COLUMNS.POSITION.
";

pub const SQL_FOREIGN_KEYS: &'static str = "
select  fk.constraint_name as \"constraint_name\",
  fk.table_name as \"pure_name\",
  fk.delete_rule as \"update_action\",
  fk.delete_rule as \"delete_action\",
  ref.table_name as \"ref_table_name\",
  basecol.column_name as \"column_name\",
  refcol.column_name as \"ref_column_name\"
from all_cons_columns refcol, all_cons_columns basecol, all_constraints ref, all_constraints fk
where fk.OWNER = '$owner' AND fk.constraint_type = 'R'
and ref.owner = fk.r_owner
and ref.constraint_name = fk.r_constraint_name
and basecol.owner = fk.owner
and basecol.constraint_name = fk.constraint_name
and basecol.table_name = fk.table_name
and refcol.owner = ref.owner
and refcol.constraint_name = ref.constraint_name
and refcol.table_name = ref.table_name
AND 'tables:' || fk.table_name =OBJECT_ID_CONDITION
order by basecol.position
";

pub const SQL_INDEXES: &'static str = "
select  i.table_name as \"tableName\",
        i.index_name as \"constraintName\",
        i.index_type as \"indexType\",
        i.uniqueness as \"Unique\",
        ic.column_name as \"columnName\",
        ic.descend as \"descending\"
from all_ind_columns ic, all_indexes i
where INDEX_OWNER = '$owner' AND ic.index_owner = i.owner
and ic.index_name = i.index_name
and 'tables:' || i.table_name =OBJECT_ID_CONDITION
order by i.table_owner,
         i.table_name,
         i.index_name,
         ic.column_position
";

pub const SQL_VIEWS: &'static str = "
select
  view_name as \"pure_name\",
  text as \"create_sql\"
  from all_views av
  where owner = '$owner' and text is not null
";

pub const SQL_ROUTINES: &'static str = "
SELECT
  name as \"pure_name\",
  type as \"object_type\",
  LISTAGG(text, '') WITHIN GROUP (ORDER BY line) AS \"source_code\",
  ora_hash(LISTAGG(text, '') WITHIN GROUP (ORDER BY line)) AS \"hash_code\"
FROM all_source
WHERE type in ('FUNCTION', 'PROCEDURE') AND OWNER = '$owner'
GROUP BY name, type
";

pub const SQL_PARAMETERS: &'static str = "
SELECT
    o.OBJECT_NAME AS \"pure_name\",
    a.ARGUMENT_NAME AS \"parameter_name\",
    a.POSITION AS \"ordinal_position\",
    a.DATA_TYPE AS \"data_type\",
    a.CHAR_LENGTH AS \"char_max_length\",
    a.DATA_PRECISION AS \"numeric_precision\",
    a.DATA_SCALE AS \"numeric_scale\",
    a.IN_OUT AS \"parameter_mode\"
FROM
    all_objects o
LEFT JOIN
    all_arguments a
    ON o.object_id = a.object_id
WHERE
    o.object_type IN ('FUNCTION', 'PROCEDURE')
    AND o.OWNER = '$owner'
ORDER BY
    a.POSITION
";

pub const SQL_TRIGGERS: &'static str = "
SELECT
    TRIGGER_TYPE AS \"trigger_timing\",
    TRIGGERING_EVENT AS \"event_type\",
    TRIGGER_BODY AS \"definition\",
    TRIGGER_NAME AS \"trigger_name\",
    TABLE_NAME AS \"table_name\"
FROM
    all_triggers
WHERE
    OWNER='$owner'
    AND 'tables:' || TABLE_NAME =OBJECT_ID_CONDITION
";

pub const SQL_UNIQUE_NAMES: &'static str = "
select constraint_name as \"constraintName\"
from all_constraints
where owner='$owner' and constraint_type = 'U'
  and 'tables:' || table_name =OBJECT_ID_CONDITION
";

} // verus!
