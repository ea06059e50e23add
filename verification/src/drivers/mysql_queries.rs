//! Catalog query templates of the MySQL / MariaDB driver.
use vstd::prelude::*;

verus! {

pub const SQL_TABLES: &'static str = "
select
\tTABLE_NAME as pureName,
\tTABLE_ROWS as tableRowCount,
\tENGINE as tableEngine,
\tTABLE_COMMENT as objectComment,
\tDATA_LENGTH + INDEX_LENGTH as sizeBytes,
\tcase when ENGINE='InnoDB' then CREATE_TIME else coalesce(UPDATE_TIME, CREATE_TIME) end as modifyDate
from information_schema.tables
where TABLE_SCHEMA = '#DATABASE#' and TABLE_TYPE in ('BASE TABLE', 'SYSTEM VIEW', 'SYSTEM VERSIONED') and TABLE_NAME =OBJECT_ID_CONDITION;
";

pub const SQL_COLUMNS: &'static str = "
select
\tTABLE_NAME as pureName,
\tCOLUMN_NAME as columnName,
\tIS_NULLABLE as isNullable,
\tDATA_TYPE as dataType,
\tCHARACTER_MAXIMUM_LENGTH as charMaxLength,
\tNUMERIC_PRECISION as numericPrecision,
\tNUMERIC_SCALE as numericScale,
\tCOLUMN_DEFAULT as defaultValue,
\tCOLUMN_COMMENT as columnComment,
\tCOLUMN_TYPE as columnType,
\tEXTRA as extra
from INFORMATION_SCHEMA.COLUMNS
where TABLE_SCHEMA = '#DATABASE#' and TABLE_NAME =OBJECT_ID_CONDITION
order by ORDINAL_POSITION
";

pub const SQL_PRIMARY_KEYS: &'static str = "
select
\tKEY_COLUMN_USAGE.CONSTRAINT_NAME as constraintName,
\tKEY_COLUMN_USAGE.TABLE_NAME as pureName,
\tKEY_COLUMN_USAGE.COLUMN_NAME as columnName
from INFORMATION_SCHEMA.KEY_COLUMN_USAGE
where KEY_COLUMN_USAGE.CONSTRAINT_SCHEMA = '#DATABASE#' and KEY_COLUMN_USAGE.TABLE_NAME =OBJECT_ID_CONDITION AND KEY_COLUMN_USAGE.CONSTRAINT_NAME = 'PRIMARY'
order by KEY_COLUMN_USAGE.ORDINAL_POSITION
";

pub const SQL_FOREIGN_KEYS: &'static str = "
select
\tREFERENTIAL_CONSTRAINTS.CONSTRAINT_NAME as constraintName,
\tREFERENTIAL_CONSTRAINTS.TABLE_NAME as pureName,
\tREFERENTIAL_CONSTRAINTS.UPDATE_RULE as updateAction,
\tREFERENTIAL_CONSTRAINTS.DELETE_RULE as deleteAction,
\tREFERENTIAL_CONSTRAINTS.REFERENCED_TABLE_NAME as refTableName,
\tKEY_COLUMN_USAGE.COLUMN_NAME as columnName,
\tKEY_COLUMN_USAGE.REFERENCED_COLUMN_NAME as refColumnName
from INFORMATION_SCHEMA.REFERENTIAL_CONSTRAINTS
inner join INFORMATION_SCHEMA.KEY_COLUMN_USAGE
\ton REFERENTIAL_CONSTRAINTS.TABLE_NAME = KEY_COLUMN_USAGE.TABLE_NAME
\tand REFERENTIAL_CONSTRAINTS.CONSTRAINT_NAME = KEY_COLUMN_USAGE.CONSTRAINT_NAME
\tand REFERENTIAL_CONSTRAINTS.CONSTRAINT_SCHEMA = KEY_COLUMN_USAGE.CONSTRAINT_SCHEMA
where REFERENTIAL_CONSTRAINTS.CONSTRAINT_SCHEMA = '#DATABASE#' and REFERENTIAL_CONSTRAINTS.TABLE_NAME =OBJECT_ID_CONDITION
order by KEY_COLUMN_USAGE.ORDINAL_POSITION
";

pub const SQL_INDEXES: &'static str = "
SELECT
\tINDEX_NAME AS constraintName,
\tTABLE_NAME AS tableName,
\tCOLUMN_NAME AS columnName,
\tINDEX_TYPE AS indexType,
\tNON_UNIQUE AS nonUnique,
\tCASE COLLATION
\t\tWHEN 'D' THEN 1
\t\tELSE 0
\tEND AS isDescending
FROM INFORMATION_SCHEMA.STATISTICS
WHERE TABLE_SCHEMA = '#DATABASE#' AND TABLE_NAME =OBJECT_ID_CONDITION AND INDEX_NAME != 'PRIMARY'
ORDER BY SEQ_IN_INDEX
";

pub const SQL_UNIQUE_NAMES: &'static str = "
select CONSTRAINT_NAME as constraintName
from information_schema.TABLE_CONSTRAINTS
where CONSTRAINT_SCHEMA = '#DATABASE#' and constraint_type = 'UNIQUE'
";

pub const SQL_VIEWS: &'static str = "
select
\tTABLE_NAME as pureName,
\tcoalesce(UPDATE_TIME, CREATE_TIME) as modifyDate
from information_schema.tables
where TABLE_SCHEMA = '#DATABASE#' and TABLE_NAME =OBJECT_ID_CONDITION and TABLE_TYPE = 'VIEW';
";

pub const SQL_VIEW_TEXTS: &'static str = "
select
\tTABLE_NAME as pureName,
\tVIEW_DEFINITION as viewDefinition
from information_schema.views
where TABLE_SCHEMA = '#DATABASE#' and TABLE_NAME =OBJECT_ID_CONDITION;
";

pub const SQL_PROGRAMMABLES: &'static str = "
select
\tROUTINE_NAME as pureName,
\tROUTINE_TYPE as objectType,
\tCOALESCE(LAST_ALTERED, CREATED) as modifyDate,
\tDATA_TYPE AS returnDataType,
\tROUTINE_DEFINITION as routineDefinition,
\tIS_DETERMINISTIC as isDeterministic
from information_schema.routines
where ROUTINE_SCHEMA = '#DATABASE#' and ROUTINE_NAME =OBJECT_ID_CONDITION
";

pub const SQL_PARAMETERS: &'static str = "
SELECT
\tr.ROUTINE_SCHEMA AS schemaName,
\tr.SPECIFIC_NAME AS pureName,
\tCASE
\t\tWHEN COALESCE(NULLIF(PARAMETER_MODE, ''), 'RETURN') = 'RETURN' THEN 'Return'
\t\tELSE PARAMETER_NAME
\tEND AS parameterName,
\tp.CHARACTER_MAXIMUM_LENGTH AS charMaxLength,
\tp.NUMERIC_PRECISION AS numericPrecision,
\tp.NUMERIC_SCALE AS numericScale,
\tp.DTD_IDENTIFIER AS dataType,
\tCOALESCE(NULLIF(PARAMETER_MODE, ''), 'RETURN') AS parameterMode,
\tr.ROUTINE_TYPE AS routineType,
\tp.ORDINAL_POSITION AS ordinalPosition
FROM
\tinformation_schema.PARAMETERS p
JOIN
\tinformation_schema.ROUTINES r
ON
\tp.SPECIFIC_NAME = r.SPECIFIC_NAME AND r.ROUTINE_SCHEMA = p.SPECIFIC_SCHEMA
WHERE
\tr.ROUTINE_SCHEMA = '#DATABASE#' AND r.ROUTINE_NAME =OBJECT_ID_CONDITION
ORDER BY
\tr.ROUTINE_SCHEMA, r.SPECIFIC_NAME, p.ORDINAL_POSITION
";

pub const SQL_TRIGGERS: &'static str = "
SELECT
\tTRIGGER_NAME AS triggerName,
\tEVENT_MANIPULATION AS eventType,
\tACTION_TIMING AS triggerTiming,
\tEVENT_OBJECT_SCHEMA AS schemaName,
\tEVENT_OBJECT_TABLE AS tableName,
\tACTION_STATEMENT AS definition,
\tCREATED as modifyDate
FROM
\tINFORMATION_SCHEMA.TRIGGERS
\tWHERE EVENT_OBJECT_SCHEMA = '#DATABASE#' AND TRIGGER_NAME =OBJECT_ID_CONDITION
";

pub const SQL_SCHEDULER_EVENTS: &'static str = "
SELECT
\tEVENT_SCHEMA,
\tEVENT_NAME,
\tDEFINER,
\tEVENT_TYPE,
\tEXECUTE_AT,
\tINTERVAL_VALUE,
\tINTERVAL_FIELD,
\tCREATED,
\tLAST_EXECUTED,
\tLAST_ALTERED,
\tSTARTS,
\tENDS,
\tSTATUS,
\tON_COMPLETION,
\tCONCAT('CREATE EVENT \\\\`', EVENT_NAME, '\\\\` ',
\t\tCASE WHEN EVENT_TYPE = 'RECURRING' THEN 'ON SCHEDULE EVERY ' ELSE 'ON SCHEDULE AT ' END,
\t\tCASE WHEN EVENT_TYPE = 'RECURRING' THEN CONCAT(INTERVAL_VALUE, ' ', INTERVAL_FIELD)
\t\t\tELSE DATE_FORMAT(EXECUTE_AT, '%Y-%m-%d %H:%i:%s') END,
\t\t' DO ', EVENT_DEFINITION) AS CREATE_SQL
FROM INFORMATION_SCHEMA.EVENTS
WHERE EVENT_SCHEMA = '#DATABASE#' AND EVENT_NAME =OBJECT_ID_CONDITION
";

} // verus!
