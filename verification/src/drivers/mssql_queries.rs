//! Catalog query templates of the SQL Server driver.
use vstd::prelude::*;

verus! {

pub const VERSION_QUERY: &'static str = "
SELECT
  @@VERSION AS version,
  SERVERPROPERTY('productversion') as productVersion,
  CONVERT(INT, SERVERPROPERTY('EngineEdition')) as engineEdition,
  CASE
  WHEN CONVERT(VARCHAR(128), SERVERPROPERTY('productversion')) like '8%' THEN 'SQL Server 2000'
  WHEN CONVERT(VARCHAR(128), SERVERPROPERTY('productversion')) like '9%' THEN 'SQL Server 2005'
  WHEN CONVERT(VARCHAR(128), SERVERPROPERTY('productversion')) like '10.0%' THEN 'SQL Server 2008'
  WHEN CONVERT(VARCHAR(128), SERVERPROPERTY('productversion')) like '10.5%' THEN 'SQL Server 2008 R2'
  WHEN CONVERT(VARCHAR(128), SERVERPROPERTY('productversion')) like '11%' THEN 'SQL Server 2012'
  WHEN CONVERT(VARCHAR(128), SERVERPROPERTY('productversion')) like '12%' THEN 'SQL Server 2014'
  WHEN CONVERT(VARCHAR(128), SERVERPROPERTY('productversion')) like '13%' THEN 'SQL Server 2016'
  WHEN CONVERT(VARCHAR(128), SERVERPROPERTY('productversion')) like '14%' THEN 'SQL Server 2017'
  WHEN CONVERT(VARCHAR(128), SERVERPROPERTY('productversion')) like '15%' THEN 'SQL Server 2019'
  ELSE 'Unknown'
  END AS versionText
";

pub const SQL_TABLES: &'static str = "
select
	o.name as pureName,
	s.name as schemaName,
	o.object_id as objectId,
	o.create_date as createDate,
	o.modify_date as modifyDate,
	ep.value as objectComment
from sys.tables o
inner join sys.schemas s on o.schema_id = s.schema_id
left join sys.extended_properties ep on ep.major_id = o.object_id
	and ep.minor_id = 0
	and ep.name = 'MS_Description'
  and ep.class = 1
where o.object_id =OBJECT_ID_CONDITION and s.name =SCHEMA_NAME_CONDITION
";

pub const SQL_COLUMNS: &'static str = "
select c.name as columnName, t.name as dataType, c.object_id as objectId, c.is_identity as isIdentity,
    c.max_length as maxLength, c.precision, c.scale, c.is_nullable as isNullable,
    col.CHARACTER_MAXIMUM_LENGTH as charMaxLength,
    d.definition as defaultValue, d.name as defaultConstraint,
    m.definition as computedExpression, m.is_persisted as isPersisted, c.column_id as columnId,
    col.NUMERIC_PRECISION as numericPrecision,
    col.NUMERIC_SCALE as numericScale,
    c.is_sparse as isSparse,
    ep.value as columnComment
from sys.columns c
inner join sys.types t on c.system_type_id = t.system_type_id and c.user_type_id = t.user_type_id
inner join sys.objects o on c.object_id = o.object_id
INNER JOIN sys.schemas u ON u.schema_id=o.schema_id
INNER JOIN INFORMATION_SCHEMA.COLUMNS col ON col.TABLE_NAME = o.name AND col.TABLE_SCHEMA = u.name and col.COLUMN_NAME = c.name
left join sys.default_constraints d on c.default_object_id = d.object_id
left join sys.computed_columns m on m.object_id = c.object_id and m.column_id = c.column_id
left join sys.extended_properties ep on ep.major_id = c.object_id
    and ep.minor_id = c.column_id
    and ep.name = 'MS_Description'
    and ep.class = 1
where o.type = 'U' and o.object_id =OBJECT_ID_CONDITION and u.name =SCHEMA_NAME_CONDITION
order by c.column_id
";

pub const SQL_PRIMARY_KEYS: &'static str = "
SELECT
    i.object_id AS objectId,
    o.name AS pureName,
    s.name AS schemaName,
    c.name AS columnName,
    i.name AS constraintName
FROM
    sys.indexes i
INNER JOIN
    sys.index_columns ic ON i.object_id = ic.object_id AND i.index_id = ic.index_id
INNER JOIN
    sys.columns c ON ic.object_id = c.object_id AND ic.column_id = c.column_id
INNER JOIN
    sys.objects o ON i.object_id = o.object_id
INNER JOIN
    sys.schemas s ON o.schema_id = s.schema_id
WHERE
    i.is_primary_key = 1
	and o.object_id =OBJECT_ID_CONDITION
    and s.name =SCHEMA_NAME_CONDITION
ORDER BY
    ic.key_ordinal
";

pub const SQL_FOREIGN_KEYS: &'static str = "
SELECT
    schemaName = FK.TABLE_SCHEMA,
    pureName = FK.TABLE_NAME,
    columnName = CU.COLUMN_NAME,

    refSchemaName = PK.TABLE_SCHEMA,
    refTableName = PK.TABLE_NAME,
    refColumnName = RCU.COLUMN_NAME,

    constraintName = C.CONSTRAINT_NAME,
    updateAction = rc.UPDATE_RULE,
    deleteAction = rc.DELETE_RULE,

    objectId = o.object_id
FROM INFORMATION_SCHEMA.REFERENTIAL_CONSTRAINTS C
INNER JOIN INFORMATION_SCHEMA.TABLE_CONSTRAINTS FK
    ON C.CONSTRAINT_NAME = FK.CONSTRAINT_NAME
    AND C.CONSTRAINT_SCHEMA = FK.CONSTRAINT_SCHEMA

LEFT JOIN INFORMATION_SCHEMA.TABLE_CONSTRAINTS PK
    ON C.UNIQUE_CONSTRAINT_NAME = PK.CONSTRAINT_NAME
    AND C.UNIQUE_CONSTRAINT_SCHEMA = PK.CONSTRAINT_SCHEMA

LEFT JOIN INFORMATION_SCHEMA.KEY_COLUMN_USAGE CU
    ON C.CONSTRAINT_NAME = CU.CONSTRAINT_NAME
    AND C.CONSTRAINT_SCHEMA = CU.CONSTRAINT_SCHEMA

LEFT JOIN INFORMATION_SCHEMA.KEY_COLUMN_USAGE RCU
    ON C.UNIQUE_CONSTRAINT_NAME = RCU.CONSTRAINT_NAME
    AND C.UNIQUE_CONSTRAINT_SCHEMA = RCU.CONSTRAINT_SCHEMA
    AND CU.ORDINAL_POSITION = RCU.ORDINAL_POSITION

INNER JOIN INFORMATION_SCHEMA.REFERENTIAL_CONSTRAINTS rc
    ON FK.CONSTRAINT_NAME = rc.CONSTRAINT_NAME
    AND FK.CONSTRAINT_SCHEMA = rc.CONSTRAINT_SCHEMA

INNER JOIN sys.objects o
    ON o.name = FK.TABLE_NAME
    AND SCHEMA_NAME(o.schema_id) = FK.TABLE_SCHEMA

INNER JOIN sys.schemas s
    ON o.schema_id = s.schema_id
    AND s.name = FK.TABLE_SCHEMA

where o.object_id =OBJECT_ID_CONDITION and s.name =SCHEMA_NAME_CONDITION
ORDER BY CU.ORDINAL_POSITION
";

pub const SQL_INDEXES: &'static str = "
select i.object_id, i.name as constraintName, i.type_desc as indexType, i.is_unique as isUnique,i.index_id, i.is_unique_constraint, i.filter_definition AS filterDefinition
from sys.indexes i
inner join sys.objects o on i.object_id = o.object_id
INNER JOIN sys.schemas u ON u.schema_id=o.schema_id
where i.is_primary_key=0
and i.is_hypothetical=0 and indexproperty(i.object_id, i.name, 'IsStatistics') = 0
and objectproperty(i.object_id, 'IsUserTable') = 1
and i.index_id between 1 and 254
 and i.object_id =OBJECT_ID_CONDITION and u.name =SCHEMA_NAME_CONDITION
";

pub const SQL_INDEXCOLS: &'static str = "
select
    c.object_id, c.index_id, c.column_id,
    col.name as columnName,
    c.is_descending_key as isDescending, c.is_included_column as isIncludedColumn
from sys.index_columns c
inner join sys.columns col on c.object_id = col.object_id and c.column_id = col.column_id
inner join sys.objects o on c.object_id = o.object_id
INNER JOIN sys.schemas u ON u.schema_id=o.schema_id
where c.object_id =OBJECT_ID_CONDITION and u.name =SCHEMA_NAME_CONDITION
order by c.key_ordinal
";

pub const SQL_TABLE_SIZES: &'static str = "
SELECT distinct
    t.object_id as objectId,
    p.rows AS tableRowCount
FROM
    sys.tables t
INNER JOIN
    sys.indexes i ON t.OBJECT_ID = i.object_id
INNER JOIN
    sys.partitions p ON i.object_id = p.OBJECT_ID AND i.index_id = p.index_id
INNER JOIN
    sys.schemas s ON t.schema_id = s.schema_id
WHERE
    t.NAME NOT LIKE 'dt%'
    AND t.is_ms_shipped = 0
    AND i.OBJECT_ID > 255
    AND s.name =SCHEMA_NAME_CONDITION
";

pub const SQL_LOAD_SQL_CODE: &'static str = "
select s.name as pureName, u.name as schemaName, c.text AS codeText
    from sys.objects s
    inner join sys.syscomments c on s.object_id = c.id
    inner join sys.schemas u on u.schema_id = s.schema_id
where (s.object_id =OBJECT_ID_CONDITION) and u.name =SCHEMA_NAME_CONDITION
order by u.name, s.name, c.colid
";

pub const SQL_VIEWS: &'static str = "
SELECT
	o.name as pureName,
	u.name as schemaName,
	o.object_id as objectId,
	o.create_date as createDate,
	o.modify_date as modifyDate
FROM sys.objects o INNER JOIN sys.schemas u ON u.schema_id=o.schema_id
WHERE type in ('V') and o.object_id =OBJECT_ID_CONDITION and u.name =SCHEMA_NAME_CONDITION
";

pub const SQL_VIEW_COLUMNS: &'static str = "
select
    o.object_id AS objectId,
    col.TABLE_SCHEMA as schemaName,
    col.TABLE_NAME as pureName,
	col.COLUMN_NAME as columnName,
	col.IS_NULLABLE as isNullable,
	col.DATA_TYPE as dataType,
	col.CHARACTER_MAXIMUM_LENGTH as charMaxLength,
	col.NUMERIC_PRECISION as precision,
	col.NUMERIC_SCALE as scale,
	col.COLUMN_DEFAULT
FROM sys.objects o
INNER JOIN sys.schemas u ON u.schema_id=o.schema_id
INNER JOIN INFORMATION_SCHEMA.COLUMNS col ON col.TABLE_NAME = o.name AND col.TABLE_SCHEMA = u.name
WHERE o.type in ('V') and o.object_id =OBJECT_ID_CONDITION and u.name =SCHEMA_NAME_CONDITION
order by col.ORDINAL_POSITION
";

pub const SQL_PROGRAMMABLES: &'static str = "
select o.name as pureName, s.name as schemaName, o.object_id as objectId, o.create_date as createDate, o.modify_date as modifyDate, o.type as sqlObjectType
from sys.objects o
inner join sys.schemas s on o.schema_id = s.schema_id
where o.type in ('P', 'IF', 'FN', 'TF') and o.object_id =OBJECT_ID_CONDITION and s.name =SCHEMA_NAME_CONDITION
";

pub const SQL_PROCEDURES_PARAMETERS: &'static str = "
SELECT
    o.object_id as parentObjectId,
    p.object_id as objectId,
    o.name as pureName,
    p.name AS parameterName,
    TYPE_NAME(p.user_type_id) AS dataType,
    CASE
        WHEN TYPE_NAME(p.user_type_id) = 'nvarchar' THEN p.max_length / 2
        ELSE p.max_length
    END AS charMaxLength,
    CASE
        WHEN p.is_output = 1 THEN 'OUT'
        ELSE 'IN'
    END AS parameterMode,
    CASE
        WHEN TYPE_NAME(p.user_type_id) IN ('numeric', 'decimal') THEN p.precision
        ELSE NULL
    END AS numericPrecision,
    CASE
        WHEN TYPE_NAME(p.user_type_id) IN ('numeric', 'decimal') THEN p.scale
        ELSE NULL
    END AS numericScale,
    p.parameter_id AS parameterIndex,
    s.name as schemaName
FROM
    sys.objects o
JOIN
    sys.parameters p ON o.object_id = p.object_id
INNER JOIN
    sys.schemas s ON s.schema_id=o.schema_id
WHERE
    o.type = 'P'
    and o.object_id =OBJECT_ID_CONDITION and s.name =SCHEMA_NAME_CONDITION
ORDER BY
    o.object_id,
    p.parameter_id;
";

pub const SQL_FUNCTION_PARAMETERS: &'static str = "
SELECT
    o.object_id as parentObjectId,
    p.object_id AS parameterObjectId,
    o.name as pureName,
    CASE
        WHEN p.name IS NULL OR LTRIM(RTRIM(p.name)) = '' THEN
            '@Output'
        ELSE
            p.name
    END AS parameterName,
    TYPE_NAME(p.user_type_id) AS dataType,
    CASE
        WHEN TYPE_NAME(p.user_type_id) = 'nvarchar' THEN p.max_length / 2
        ELSE p.max_length
    END AS charMaxLength,
    CASE
        WHEN p.is_output = 1 THEN 'OUT'
        ELSE 'IN'
    END AS parameterMode,
    CASE
        WHEN TYPE_NAME(p.user_type_id) IN ('numeric', 'decimal') THEN p.precision
        ELSE NULL
    END AS numericPrecision,
    CASE
        WHEN TYPE_NAME(p.user_type_id) IN ('numeric', 'decimal') THEN p.scale
        ELSE NULL
    END AS numericScale,
    p.parameter_id AS parameterIndex,
    s.name as schemaName
FROM
    sys.objects o
JOIN
    sys.parameters p ON o.object_id = p.object_id
INNER JOIN
    sys.schemas s ON s.schema_id=o.schema_id
WHERE
    o.type IN ('FN', 'IF', 'TF')
    and o.object_id =OBJECT_ID_CONDITION and s.name =SCHEMA_NAME_CONDITION
ORDER BY
    p.object_id,
    p.parameter_id;
";

pub const SQL_TRIGGERS: &'static str = "
SELECT
   o.modify_date as modifyDate,
   o.object_id as objectId,
   o.name AS triggerName,
   s.name AS schemaName,
   OBJECT_NAME(o.parent_object_id) AS tableName,
   CASE
       WHEN OBJECTPROPERTY(o.object_id, 'ExecIsAfterTrigger') = 1 THEN 'AFTER'
       WHEN OBJECTPROPERTY(o.object_id, 'ExecIsInsteadOfTrigger') = 1 THEN 'INSTEAD OF'
       ELSE 'BEFORE'
   END AS triggerTiming,
   CASE
       WHEN OBJECTPROPERTY(o.object_id, 'ExecIsInsertTrigger') = 1 THEN 'INSERT'
       WHEN OBJECTPROPERTY(o.object_id, 'ExecIsUpdateTrigger') = 1 THEN 'UPDATE'
       WHEN OBJECTPROPERTY(o.object_id, 'ExecIsDeleteTrigger') = 1 THEN 'DELETE'
   END AS eventType,
   OBJECT_DEFINITION(o.object_id) AS definition
FROM sys.objects o
INNER JOIN sys.tables t
   ON o.parent_object_id = t.object_id
INNER JOIN sys.schemas s
   ON t.schema_id = s.schema_id
WHERE o.type = 'TR'
  AND o.is_ms_shipped = 0
  AND o.object_id =OBJECT_ID_CONDITION
  AND s.name =SCHEMA_NAME_CONDITION
";

} // verus!
