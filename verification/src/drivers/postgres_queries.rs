//! Catalog query templates of the PostgreSQL driver.
use vstd::prelude::*;

verus! {

pub const SQL_TABLES: &'static str = "
SELECT
    n.nspname AS \"schema_name\",
    c.relname AS \"pure_name\",
    pg_relation_size(c.oid) AS \"size_bytes\",
    MD5(
        COALESCE(
            (SELECT string_agg(
                a.attname || ':' || pg_catalog.format_type(a.atttypid, a.atttypmod) || ':' || a.attnotnull::text
                , ',' ORDER BY a.attnum
            )
            FROM pg_catalog.pg_attribute a
            WHERE a.attrelid = c.oid AND a.attnum > 0 AND NOT a.attisdropped),
            ''
        )
    ) AS \"hash_code_columns\",
    MD5(
        COALESCE(
            (SELECT string_agg(
                con.conname || ':' || con.contype::text
                , ',' ORDER BY con.conname
            )
            FROM pg_catalog.pg_constraint con
            WHERE con.conrelid = c.oid),
            ''
        )
    ) AS \"hash_code_constraints\"
FROM pg_catalog.pg_class c
JOIN pg_catalog.pg_namespace n ON n.oid = c.relnamespace
WHERE c.relkind IN ('r', 'p', 'f')
    AND ('tables:' || n.nspname || '.' || c.relname) =OBJECT_ID_CONDITION
    AND n.nspname <> 'pg_internal'
    AND n.nspname !~ '^_timescaledb_'
    AND n.nspname =SCHEMA_NAME_CONDITION
";

pub const SQL_COLUMNS: &'static str = "
SELECT
    n.nspname AS \"schema_name\",
    c.relname AS \"pure_name\",
    c.oid AS \"postgres_table_id\",
    a.attname AS \"column_name\",
    a.attnum AS \"postgres_column_id\",
    CASE WHEN a.attnotnull THEN 'NO' ELSE 'YES' END AS \"is_nullable\",
    format_type(a.atttypid, NULL) AS \"data_type\",
    CASE
        WHEN a.atttypmod > 0 AND t.typname IN ('varchar', 'bpchar', 'char') THEN a.atttypmod - 4
        WHEN a.atttypmod > 0 AND t.typname IN ('bit', 'varbit') THEN a.atttypmod
        ELSE NULL
    END AS \"char_max_length\",
    CASE
        WHEN a.atttypmod > 0 AND t.typname = 'numeric' THEN ((a.atttypmod - 4) >> 16) & 65535
        ELSE NULL
    END AS \"numeric_precision\",
    CASE
        WHEN a.atttypmod > 0 AND t.typname = 'numeric' THEN (a.atttypmod - 4) & 65535
        ELSE NULL
    END AS \"numeric_scale\",
    pg_get_expr(d.adbin, d.adrelid) AS \"default_value\"
FROM pg_catalog.pg_attribute a
JOIN pg_catalog.pg_class c ON c.oid = a.attrelid
JOIN pg_catalog.pg_namespace n ON n.oid = c.relnamespace
JOIN pg_catalog.pg_type t ON t.oid = a.atttypid
LEFT JOIN pg_catalog.pg_attrdef d ON d.adrelid = a.attrelid AND d.adnum = a.attnum
WHERE a.attnum > 0
    AND NOT a.attisdropped
    AND c.relkind IN ('r', 'v', 'p', 'f')
    AND n.nspname !~ '^_timescaledb_'
    AND (
        ('tables:' || n.nspname || '.' || c.relname) =OBJECT_ID_CONDITION
        OR
        ('views:' || n.nspname || '.' || c.relname) =OBJECT_ID_CONDITION
    )
    AND n.nspname =SCHEMA_NAME_CONDITION
ORDER BY a.attnum
";

pub const SQL_PRIMARY_KEYS: &'static str = "
SELECT
    n.nspname        AS \"constraint_schema\",
    c.conname        AS \"constraint_name\",
    n.nspname        AS \"schema_name\",
    t.relname        AS \"pure_name\",
    a.attname        AS \"column_name\"
FROM pg_catalog.pg_constraint AS c
JOIN pg_catalog.pg_class AS t
  ON t.oid = c.conrelid
JOIN pg_catalog.pg_namespace AS n
  ON n.oid = t.relnamespace
JOIN LATERAL unnest(c.conkey) WITH ORDINALITY AS cols(attnum, ordinal_position)
  ON TRUE
JOIN pg_catalog.pg_attribute AS a
  ON a.attrelid = t.oid
 AND a.attnum   = cols.attnum
WHERE
    c.contype = 'p'
    AND n.nspname !~ '^_timescaledb_'
    AND ('tables:' || n.nspname || '.' || t.relname) =OBJECT_ID_CONDITION
    AND n.nspname =SCHEMA_NAME_CONDITION
ORDER BY cols.ordinal_position
";

pub const SQL_FOREIGN_KEYS: &'static str = "
SELECT
    nsp.nspname AS \"table_schema\",
    rel.relname AS \"table_name\",
    con.conname AS \"constraint_name\",
    nsp2.nspname AS \"ref_table_schema\",
    rel2.relname AS \"ref_table_name\",
    att.attname AS \"column_name\",
    att2.attname AS \"ref_column_name\",
    CASE con.confupdtype
        WHEN 'a' THEN 'NO ACTION'
        WHEN 'r' THEN 'RESTRICT'
        WHEN 'c' THEN 'CASCADE'
        WHEN 'n' THEN 'SET NULL'
        WHEN 'd' THEN 'SET DEFAULT'
        ELSE con.confupdtype::text
    END AS \"update_action\",
    CASE con.confdeltype
        WHEN 'a' THEN 'NO ACTION'
        WHEN 'r' THEN 'RESTRICT'
        WHEN 'c' THEN 'CASCADE'
        WHEN 'n' THEN 'SET NULL'
        WHEN 'd' THEN 'SET DEFAULT'
        ELSE con.confdeltype::text
    END AS \"delete_action\"
FROM pg_constraint con
JOIN pg_class rel ON rel.oid = con.conrelid
JOIN pg_namespace nsp ON nsp.oid = rel.relnamespace
JOIN pg_class rel2 ON rel2.oid = con.confrelid
JOIN pg_namespace nsp2 ON nsp2.oid = rel2.relnamespace
JOIN LATERAL unnest(con.conkey, con.confkey) WITH ORDINALITY AS cols(attnum, ref_attnum, ordinal_position) ON TRUE
JOIN pg_attribute att ON att.attrelid = con.conrelid AND att.attnum = cols.attnum
JOIN pg_attribute att2 ON att2.attrelid = con.confrelid AND att2.attnum = cols.ref_attnum
WHERE con.contype = 'f'
    AND ('tables:' || nsp.nspname || '.' || rel.relname) =OBJECT_ID_CONDITION
    AND nsp.nspname =SCHEMA_NAME_CONDITION
ORDER BY con.conname, cols.ordinal_position
";

pub const SQL_UNIQUE_NAMES: &'static str = "
    select cnt.conname as \"constraint_name\" from pg_constraint cnt
    inner join pg_namespace c on c.oid = cnt.connamespace
     where cnt.contype = 'u' and c.nspname =SCHEMA_NAME_CONDITION
";

pub const SQL_INDEXES: &'static str = "
    select
        t.relname as \"table_name\",
        c.nspname as \"schema_name\",
        i.relname as \"index_name\",
        ix.indisprimary as \"is_primary\",
        ix.indisunique as \"is_unique\",
        ix.indkey as \"indkey\",
        ix.indoption as \"indoption\",
        t.oid as \"oid\"
    from
        pg_class t,
        pg_class i,
        pg_index ix,
        pg_namespace c
    where
        t.oid = ix.indrelid
        and i.oid = ix.indexrelid
        and t.relkind = 'r'
        and ix.indisprimary = false
        and t.relnamespace = c.oid
        and c.nspname != 'pg_catalog'
        and ('tables:' || c.nspname || '.' ||  t.relname) =OBJECT_ID_CONDITION
        and c.nspname =SCHEMA_NAME_CONDITION
    order by
        t.relname
";

pub const SQL_INDEXCOLS: &'static str = "
    select
        a.attname as \"column_name\",
        a.attnum as \"attnum\",
        a.attrelid as \"oid\"
    from
        pg_class t,
        pg_class i,
        pg_attribute a,
        pg_index ix,
        pg_namespace c
    where
        t.oid = ix.indrelid
        and a.attnum = ANY(ix.indkey)
        and a.attrelid = t.oid
        and i.oid = ix.indexrelid
        and t.relkind = 'r'
        and ix.indisprimary = false
        and t.relnamespace = c.oid
        and c.nspname != 'pg_catalog'
        and ('tables:' || c.nspname || '.' ||  t.relname) =OBJECT_ID_CONDITION
        and c.nspname =SCHEMA_NAME_CONDITION
    order by
        t.relname
";

pub const SQL_VIEWS: &'static str = "
WITH view_defs AS (
  SELECT
    c.relname AS pure_name,
    n.nspname AS schema_name,
    pg_get_viewdef(c.oid, true) AS viewdef
  FROM pg_catalog.pg_class c
  JOIN pg_catalog.pg_namespace n ON n.oid = c.relnamespace
  WHERE c.relkind = 'v'
    AND n.nspname !~ '^_timescaledb_'
    AND n.nspname =SCHEMA_NAME_CONDITION
    AND ('views:' || n.nspname || '.' || c.relname) =OBJECT_ID_CONDITION
)
SELECT
  pure_name AS \"pure_name\",
  schema_name AS \"schema_name\",
  viewdef AS \"create_sql\",
  MD5(viewdef) AS \"hash_code\"
FROM view_defs
";

pub const SQL_MATVIEWS: &'static str = "
select
  matviewname as \"pure_name\",
  schemaname as \"schema_name\",
  definition as \"definition\",
  MD5(definition) as \"hash_code\"
from
  pg_catalog.pg_matviews WHERE schemaname NOT LIKE 'pg_%'
  and ('matviews:' || schemaname || '.' ||  matviewname) =OBJECT_ID_CONDITION
  and schemaname =SCHEMA_NAME_CONDITION
";

pub const SQL_MATVIEW_COLUMNS: &'static str = "
SELECT pg_namespace.nspname AS \"schema_name\"
    , pg_class.relname AS \"pure_name\"
    , pg_class.oid AS \"postgres_table_id\"
    , pg_attribute.attname AS \"column_name\"
    , pg_attribute.attnum AS \"postgres_column_id\"
    , pg_catalog.format_type(pg_attribute.atttypid, pg_attribute.atttypmod) AS \"data_type\"
FROM pg_catalog.pg_class
    INNER JOIN pg_catalog.pg_namespace
        ON pg_class.relnamespace = pg_namespace.oid
    INNER JOIN pg_catalog.pg_attribute
        ON pg_class.oid = pg_attribute.attrelid
WHERE pg_class.relkind = 'm'
    AND pg_attribute.attnum >= 1
    AND ('matviews:' || pg_namespace.nspname || '.' || pg_class.relname) =OBJECT_ID_CONDITION
    AND pg_namespace.nspname =SCHEMA_NAME_CONDITION
ORDER BY pg_attribute.attnum
";

pub const SQL_ROUTINES: &'static str = "
SELECT
    p.proname AS \"pure_name\",
    n.nspname AS \"schema_name\",
    max(p.prosrc) AS \"definition\",
    max(MD5(p.prosrc)) AS \"hash_code\",
    CASE max(p.prokind) WHEN 'p' THEN 'PROCEDURE' ELSE 'FUNCTION' END AS \"object_type\",
    string_agg(pg_catalog.format_type(p.prorettype, NULL), '|') AS \"data_type\",
    max(l.lanname) AS \"language\"
FROM pg_catalog.pg_proc p
JOIN pg_catalog.pg_namespace n ON n.oid = p.pronamespace
JOIN pg_catalog.pg_language l ON l.oid = p.prolang
WHERE p.prokind IN ('f', 'p')
    AND n.nspname !~ '^_timescaledb_'
    AND n.nspname NOT IN ('pg_catalog', 'information_schema')
    AND n.nspname =SCHEMA_NAME_CONDITION
    AND (
        (p.prokind = 'p' AND ('procedures:' || n.nspname || '.' || p.proname) =OBJECT_ID_CONDITION)
        OR
        (p.prokind != 'p' AND ('functions:' || n.nspname || '.' || p.proname) =OBJECT_ID_CONDITION)
    )
GROUP BY p.proname, n.nspname, p.prokind
";

pub const SQL_PROCEDURES_PARAMETERS: &'static str = "
SELECT
    n.nspname AS \"schema_name\",
    p.proname AS \"pure_name\",
    CASE p.prokind WHEN 'p' THEN 'PROCEDURE' ELSE 'FUNCTION' END AS \"routine_type\",
    a.parameter_name AS \"parameter_name\",
    CASE (p.proargmodes::text[])[a.ordinal_position]
        WHEN 'o' THEN 'OUT'
        WHEN 'b' THEN 'INOUT'
        WHEN 'v' THEN 'VARIADIC'
        WHEN 't' THEN 'TABLE'
        ELSE 'IN'
    END AS \"parameter_mode\",
    pg_catalog.format_type(a.parameter_type, NULL) AS \"data_type\",
    a.ordinal_position AS \"parameter_index\"
FROM pg_catalog.pg_proc p
JOIN pg_catalog.pg_namespace n ON n.oid = p.pronamespace
CROSS JOIN LATERAL unnest(
    COALESCE(p.proallargtypes, p.proargtypes::oid[]),
    p.proargnames
) WITH ORDINALITY AS a(parameter_type, parameter_name, ordinal_position)
WHERE p.prokind IN ('f', 'p')
    AND p.proargnames IS NOT NULL
    AND a.parameter_name IS NOT NULL
    AND n.nspname !~ '^_timescaledb_'
    AND n.nspname NOT IN ('pg_catalog', 'information_schema')
    AND n.nspname =SCHEMA_NAME_CONDITION
    AND (
        (p.prokind = 'p' AND ('procedures:' || n.nspname || '.' || p.proname) =OBJECT_ID_CONDITION)
        OR
        (p.prokind != 'p' AND ('functions:' || n.nspname || '.' || p.proname) =OBJECT_ID_CONDITION)
    )
ORDER BY n.nspname, a.ordinal_position
";

pub const SQL_TRIGGERS: &'static str = "
SELECT
    t.oid AS \"trigger_id\",
    t.tgname AS \"trigger_name\",
    n.nspname AS \"schema_name\",
    c.relname AS \"table_name\",
    p.proname AS \"function_name\",
    t.tgtype AS \"original_tgtype\",
    CASE
        WHEN t.tgtype & 1 = 1 THEN 'ROW'
        ELSE 'STATEMENT'
    END AS \"trigger_level\",
    COALESCE(
    CASE WHEN (tgtype::int::bit(7) & b'0000010')::int = 0 THEN NULL ELSE 'BEFORE' END,
    CASE WHEN (tgtype::int::bit(7) & b'0000010')::int = 0 THEN 'AFTER' ELSE NULL END,
    CASE WHEN (tgtype::int::bit(7) & b'1000000')::int = 0 THEN NULL ELSE 'INSTEAD OF' END,
    ''
  )::text as \"trigger_timing\",
    (CASE WHEN (tgtype::int::bit(7) & b'0000100')::int = 0 THEN '' ELSE 'INSERT' END) ||
    (CASE WHEN (tgtype::int::bit(7) & b'0001000')::int = 0 THEN '' ELSE 'DELETE' END) ||
    (CASE WHEN (tgtype::int::bit(7) & b'0010000')::int = 0 THEN '' ELSE 'UPDATE' END) ||
    (CASE WHEN (tgtype::int::bit(7) & b'0100000')::int = 0 THEN '' ELSE 'TRUNCATE' END)
  as \"event_type\",
    pg_get_triggerdef(t.oid) AS \"definition\"
FROM
    pg_trigger t
JOIN
    pg_class c ON c.oid = t.tgrelid
JOIN
    pg_namespace n ON n.oid = c.relnamespace
JOIN
    pg_proc p ON p.oid = t.tgfoid
WHERE
    NOT t.tgisinternal AND n.nspname =SCHEMA_NAME_CONDITION
";

pub const SQL_GEOMETRY_COLUMNS: &'static str = "
select
	f_table_schema as \"schema_name\",
	f_table_name as \"pure_name\",
	f_geometry_column as \"column_name\"
from public.geometry_columns
where ('tables:' || f_table_schema || '.' || f_table_name) =OBJECT_ID_CONDITION and f_table_schema =SCHEMA_NAME_CONDITION
";

pub const SQL_GEOGRAPHY_COLUMNS: &'static str = "
select
	f_table_schema as \"schema_name\",
	f_table_name as \"pure_name\",
	f_geography_column as \"column_name\"
from public.geography_columns
where ('tables:' || f_table_schema || '.' || f_table_name) =OBJECT_ID_CONDITION and f_table_schema =SCHEMA_NAME_CONDITION
";

} // verus!
