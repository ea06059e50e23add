//! Catalog query templates of the Firebird driver.
use vstd::prelude::*;

verus! {

pub const SQL_VERSION: &'static str = "SELECT rdb$get_context('SYSTEM', 'ENGINE_VERSION') as \"VERSION\" from rdb$database";

pub const SQL_CAPABILITIES: &'static str = "
SELECT
    (
        SELECT COUNT(*)
        FROM RDB$RELATION_FIELDS
        WHERE RDB$RELATION_NAME = 'RDB$FUNCTIONS'
          AND RDB$FIELD_NAME = 'RDB$FUNCTION_SOURCE'
    ) AS \"functionSourceCount\",
    (
        SELECT COUNT(*)
        FROM RDB$RELATION_FIELDS
        WHERE RDB$RELATION_NAME = 'RDB$FUNCTION_ARGUMENTS'
          AND RDB$FIELD_NAME = 'RDB$FIELD_SOURCE'
    ) AS \"functionArgumentSourceCount\"
FROM RDB$DATABASE
";

pub const SQL_TABLES: &'static str = "
SELECT
    TRIM(RDB$RELATION_NAME) AS \"pure_name\",
    RDB$DESCRIPTION AS \"object_comment\",
    RDB$FORMAT AS \"object_type_field\"
FROM
    RDB$RELATIONS
WHERE
    RDB$SYSTEM_FLAG = 0
AND
    COALESCE(RDB$RELATION_TYPE, 0) = 0
AND
    ('tables:' || TRIM(RDB$RELATION_NAME)) =OBJECT_ID_CONDITION
ORDER BY
    \"pure_name\"
";

pub const SQL_COLUMNS: &'static str = "
SELECT DISTINCT
    CAST(TRIM(rf.rdb$relation_name) AS VARCHAR(255)) AS \"pure_name\",
    CAST(TRIM(rf.rdb$field_name) AS VARCHAR(255)) AS \"column_name\",
    CASE rf.rdb$null_flag WHEN 1 THEN 1 ELSE 0 END AS \"notNull\",
    f.rdb$field_type AS \"dataTypeCode\",
    f.rdb$field_sub_type AS \"subType\",
    f.rdb$field_precision AS \"precision\",
    f.rdb$field_scale AS \"scale\",
    f.rdb$field_length / 4 AS \"length\",
    rf.RDB$DEFAULT_SOURCE AS \"defaultValue\"
FROM
    rdb$relation_fields rf
JOIN
    rdb$relations r ON rf.rdb$relation_name = r.rdb$relation_name
LEFT JOIN
    rdb$fields f ON rf.rdb$field_source = f.rdb$field_name
WHERE
    r.rdb$system_flag = 0
AND
    ('tables:' || CAST(TRIM(rf.rdb$relation_name) AS VARCHAR(255))) =OBJECT_ID_CONDITION
ORDER BY
    \"pure_name\", rf.rdb$field_position
";

pub const SQL_PRIMARY_KEYS: &'static str = "
SELECT
    TRIM(rc.RDB$RELATION_NAME) AS \"pure_name\",
    TRIM(rc.RDB$CONSTRAINT_NAME) AS \"constraint_name\",
    TRIM(iseg.RDB$FIELD_NAME) AS \"column_name\",
    CAST(NULL AS VARCHAR(63)) AS \"ref_column_name\",
    0 AS \"is_included_column\",
    CASE COALESCE(idx.RDB$INDEX_TYPE, 0)
        WHEN 1 THEN 1
        ELSE 0
    END AS \"is_descending\"
FROM
    RDB$RELATION_CONSTRAINTS rc
JOIN
    RDB$RELATIONS rel ON rc.RDB$RELATION_NAME = rel.RDB$RELATION_NAME
JOIN
    RDB$INDICES idx ON rc.RDB$INDEX_NAME = idx.RDB$INDEX_NAME
JOIN
    RDB$INDEX_SEGMENTS iseg ON idx.RDB$INDEX_NAME = iseg.RDB$INDEX_NAME
WHERE
    rc.RDB$CONSTRAINT_TYPE = 'PRIMARY KEY'
    AND COALESCE(rel.RDB$SYSTEM_FLAG, 0) = 0
    AND ('tables:' || TRIM(rc.RDB$RELATION_NAME)) =OBJECT_ID_CONDITION
ORDER BY
    \"pure_name\",
    \"constraint_name\",
    iseg.RDB$FIELD_POSITION
";

pub const SQL_UNIQUES: &'static str = "
SELECT
    TRIM(rc.RDB$CONSTRAINT_NAME) AS \"constraint_name\",
    TRIM('unique') AS \"constraint_type\",
    TRIM(rc.RDB$RELATION_NAME) AS \"pure_name\",
    TRIM(s.RDB$FIELD_NAME) AS \"column_name\",
    CASE COALESCE(i.RDB$INDEX_TYPE, 0)
        WHEN 1 THEN 1
        ELSE 0
    END AS \"is_descending\"
FROM
    RDB$RELATION_CONSTRAINTS rc
JOIN
    RDB$INDICES i ON rc.RDB$INDEX_NAME = i.RDB$INDEX_NAME
JOIN
    RDB$INDEX_SEGMENTS s ON i.RDB$INDEX_NAME = s.RDB$INDEX_NAME
WHERE
    rc.RDB$CONSTRAINT_TYPE = 'UNIQUE'
    AND COALESCE(i.RDB$SYSTEM_FLAG, 0) = 0
    AND
        ('tables:' || TRIM(rc.RDB$RELATION_NAME)) =OBJECT_ID_CONDITION
";

pub const SQL_INDEXES: &'static str = "
SELECT
    TRIM(I.RDB$INDEX_NAME) AS \"constraint_name\",
    TRIM('index') AS \"constraint_type\",
    TRIM(I.RDB$RELATION_NAME) AS \"pure_name\",
    CASE COALESCE(I.RDB$UNIQUE_FLAG, 0)
        WHEN 1 THEN 1
        ELSE 0
    END AS \"is_unique\",
    CASE
        WHEN I.RDB$EXPRESSION_SOURCE IS NOT NULL THEN TRIM('expression')
        ELSE TRIM('normal')
    END AS \"index_type\",
    TRIM(S.RDB$FIELD_NAME) AS \"column_name\",
    CASE COALESCE(I.RDB$INDEX_TYPE, 0)
        WHEN 1 THEN 1
        ELSE 0
    END AS \"is_descending\"
FROM
    RDB$INDICES I
JOIN
    RDB$INDEX_SEGMENTS S ON I.RDB$INDEX_NAME = S.RDB$INDEX_NAME
WHERE
    COALESCE(I.RDB$SYSTEM_FLAG, 0) = 0
    AND I.RDB$FOREIGN_KEY IS NULL
    AND NOT EXISTS (
        SELECT 1
        FROM RDB$RELATION_CONSTRAINTS rc
        WHERE rc.RDB$INDEX_NAME = I.RDB$INDEX_NAME
          AND rc.RDB$CONSTRAINT_TYPE IN ('PRIMARY KEY', 'UNIQUE')
    )
    AND
        ('tables:' || TRIM(I.RDB$RELATION_NAME)) =OBJECT_ID_CONDITION
";

pub const SQL_FOREIGN_KEYS: &'static str = "
SELECT
    TRIM(rc_fk.RDB$RELATION_NAME) AS \"pure_name\",
    TRIM(rc_fk.RDB$CONSTRAINT_NAME) AS \"constraint_name\",
    TRIM(iseg_fk.RDB$FIELD_NAME) AS \"column_name\",
    TRIM(iseg_pk.RDB$FIELD_NAME) AS \"ref_column_name\",
    TRIM(rc_pk.RDB$RELATION_NAME) AS \"ref_table_name\",
    0 AS \"is_included_column\",
    CASE COALESCE(idx_fk.RDB$INDEX_TYPE, 0)
        WHEN 1 THEN 1
        ELSE 0
    END AS \"is_descending\"
FROM
    RDB$RELATION_CONSTRAINTS rc_fk
JOIN
    RDB$RELATIONS rel ON rc_fk.RDB$RELATION_NAME = rel.RDB$RELATION_NAME
JOIN
    RDB$INDEX_SEGMENTS iseg_fk ON rc_fk.RDB$INDEX_NAME = iseg_fk.RDB$INDEX_NAME
JOIN
    RDB$INDICES idx_fk ON rc_fk.RDB$INDEX_NAME = idx_fk.RDB$INDEX_NAME
JOIN
    RDB$REF_CONSTRAINTS refc ON rc_fk.RDB$CONSTRAINT_NAME = refc.RDB$CONSTRAINT_NAME
JOIN
    RDB$RELATION_CONSTRAINTS rc_pk ON refc.RDB$CONST_NAME_UQ = rc_pk.RDB$CONSTRAINT_NAME
JOIN
    RDB$INDEX_SEGMENTS iseg_pk ON rc_pk.RDB$INDEX_NAME = iseg_pk.RDB$INDEX_NAME
                               AND iseg_fk.RDB$FIELD_POSITION = iseg_pk.RDB$FIELD_POSITION
WHERE
    rc_fk.RDB$CONSTRAINT_TYPE = 'FOREIGN KEY'
AND
    ('tables:' || TRIM(rc_fk.RDB$RELATION_NAME)) =OBJECT_ID_CONDITION
ORDER BY
    \"pure_name\",
    \"constraint_name\",
    iseg_fk.RDB$FIELD_POSITION
";

pub const SQL_VIEWS: &'static str = "
SELECT
    TRIM(RDB$RELATION_NAME) AS \"pure_name\",
    RDB$DESCRIPTION AS \"object_comment\",
    RDB$FORMAT AS \"object_type_field\"
FROM
    RDB$RELATIONS
WHERE
    RDB$SYSTEM_FLAG = 0
AND
    RDB$RELATION_TYPE = 1
AND
    ('tables:' || TRIM(RDB$RELATION_NAME)) =OBJECT_ID_CONDITION
ORDER BY
    \"pure_name\"
";

pub const SQL_TRIGGERS: &'static str = "
SELECT
    TRIM(rtr.RDB$TRIGGER_NAME) as \"pure_name\",
    TRIM(rtr.RDB$RELATION_NAME) as \"table_name\",
    rtr.RDB$TRIGGER_TYPE as \"trigger_type\",
    CAST(rtr.RDB$TRIGGER_SOURCE AS VARCHAR(8191)) AS \"trigger_body_sql\"
FROM
    RDB$TRIGGERS rtr
JOIN RDB$RELATIONS rel ON rtr.RDB$RELATION_NAME = rel.RDB$RELATION_NAME
WHERE rtr.RDB$SYSTEM_FLAG = 0
AND ('triggers:' || TRIM(rtr.RDB$TRIGGER_NAME)) =OBJECT_ID_CONDITION
ORDER BY rtr.RDB$TRIGGER_NAME
";

pub const SQL_PROCEDURES: &'static str = "
SELECT
    TRIM(P.RDB$PROCEDURE_NAME) AS \"pure_name\",
    TRIM('PROCEDURE') AS \"object_type_field\",
    TRIM(P.RDB$DESCRIPTION) AS \"object_comment\",
    CAST(SUBSTRING(P.RDB$PROCEDURE_SOURCE FROM 1 FOR 5000) AS VARCHAR(5000)) AS \"create_sql\"
FROM
    RDB$PROCEDURES P
WHERE
    COALESCE(P.RDB$SYSTEM_FLAG, 0) = 0
    AND ('procedures:' || TRIM(P.RDB$PROCEDURE_NAME)) =OBJECT_ID_CONDITION
ORDER BY
    \"pure_name\"
";

pub const SQL_PROCEDURE_PARAMETERS: &'static str = "
SELECT
    TRIM(PP.RDB$PROCEDURE_NAME) AS \"owning_object_name\",
    TRIM(PP.RDB$PARAMETER_NAME) AS \"parameter_name\",
    FFLDS.RDB$FIELD_TYPE AS \"dataTypeCode\",
    FFLDS.RDB$FIELD_SUB_TYPE AS \"subType\",
    FFLDS.rdb$field_precision AS \"precision\",
    FFLDS.rdb$field_scale AS \"scale\",
    FFLDS.rdb$field_length AS \"length\",
    CASE PP.RDB$PARAMETER_TYPE
        WHEN 0 THEN 'IN'
        WHEN 1 THEN 'OUT'
        ELSE CAST(PP.RDB$PARAMETER_TYPE AS VARCHAR(10))
    END AS \"parameter_mode\",
    PP.RDB$PARAMETER_NUMBER AS \"position\",
    TRIM(PP.RDB$PARAMETER_NAME) AS \"pure_name\"
FROM
    RDB$PROCEDURE_PARAMETERS PP
JOIN
    RDB$PROCEDURES P ON PP.RDB$PROCEDURE_NAME = P.RDB$PROCEDURE_NAME
JOIN
    RDB$FIELDS FFLDS ON PP.RDB$FIELD_SOURCE = FFLDS.RDB$FIELD_NAME
WHERE
    COALESCE(P.RDB$SYSTEM_FLAG, 0) = 0
ORDER BY
    \"owning_object_name\", PP.RDB$PARAMETER_TYPE, \"position\"
";

pub const SQL_FUNCTIONS: &'static str = "
SELECT
    TRIM(F.RDB$FUNCTION_NAME) AS \"pure_name\",
    TRIM('FUNCTION') AS \"object_type_field\",
    TRIM(F.RDB$DESCRIPTION) AS \"object_comment\",
    F.RDB$LEGACY_FLAG AS \"legacy_flag\",
    TRIM(F.RDB$ENTRYPOINT) AS \"entry_point\",
    TRIM(F.RDB$MODULE_NAME) AS \"module_name\",
    CAST(SUBSTRING(F.RDB$FUNCTION_SOURCE FROM 1 FOR 5000) AS VARCHAR(5000)) AS \"create_sql\"
FROM
    RDB$FUNCTIONS F
WHERE
    COALESCE(F.RDB$SYSTEM_FLAG, 0) = 0
    AND ('functions:' || TRIM(F.RDB$FUNCTION_NAME)) =OBJECT_ID_CONDITION
ORDER BY
    \"pure_name\"
";

pub const SQL_FUNCTIONS_LEGACY: &'static str = "
SELECT
    TRIM(F.RDB$FUNCTION_NAME) AS \"pure_name\",
    TRIM('FUNCTION') AS \"object_type_field\",
    TRIM(F.RDB$DESCRIPTION) AS \"object_comment\",
    1 AS \"legacy_flag\",
    TRIM(F.RDB$ENTRYPOINT) AS \"entry_point\",
    TRIM(F.RDB$MODULE_NAME) AS \"module_name\",
    CAST(NULL AS VARCHAR(5000)) AS \"create_sql\"
FROM
    RDB$FUNCTIONS F
WHERE
    COALESCE(F.RDB$SYSTEM_FLAG, 0) = 0
    AND ('functions:' || TRIM(F.RDB$FUNCTION_NAME)) =OBJECT_ID_CONDITION
ORDER BY
    \"pure_name\"
";

pub const SQL_FUNCTION_PARAMETERS: &'static str = "
SELECT
    TRIM(FA.RDB$FUNCTION_NAME) AS \"owning_object_name\",
    TRIM(FA.RDB$ARGUMENT_NAME) AS \"parameter_name\",
    COALESCE(FFLDS.RDB$FIELD_TYPE, FA.RDB$FIELD_TYPE) AS \"dataTypeCode\",
    COALESCE(FFLDS.RDB$FIELD_SUB_TYPE, FA.RDB$FIELD_SUB_TYPE) AS \"subType\",
    COALESCE(FFLDS.RDB$FIELD_PRECISION, FA.RDB$FIELD_PRECISION) AS \"precision\",
    COALESCE(FFLDS.RDB$FIELD_SCALE, FA.RDB$FIELD_SCALE) AS \"scale\",
    COALESCE(FFLDS.RDB$FIELD_LENGTH, FA.RDB$FIELD_LENGTH) AS \"length\",
    TRIM(CASE
        WHEN FA.RDB$ARGUMENT_POSITION = F.RDB$RETURN_ARGUMENT THEN 'RETURN'
        ELSE 'IN'
    END) AS \"parameter_mode\",
    FA.RDB$ARGUMENT_POSITION AS \"position\",
    TRIM(FA.RDB$FUNCTION_NAME) AS \"pure_name\"
FROM
    RDB$FUNCTION_ARGUMENTS FA
JOIN
    RDB$FUNCTIONS F ON FA.RDB$FUNCTION_NAME = F.RDB$FUNCTION_NAME
LEFT JOIN
    RDB$FIELDS FFLDS ON FA.RDB$FIELD_SOURCE = FFLDS.RDB$FIELD_NAME
WHERE
    COALESCE(F.RDB$SYSTEM_FLAG, 0) = 0
ORDER BY
    \"owning_object_name\", \"position\"
";

pub const SQL_FUNCTION_PARAMETERS_LEGACY: &'static str = "
SELECT
    TRIM(FA.RDB$FUNCTION_NAME) AS \"owning_object_name\",
    CAST(NULL AS VARCHAR(63)) AS \"parameter_name\",
    FA.RDB$FIELD_TYPE AS \"dataTypeCode\",
    FA.RDB$FIELD_SUB_TYPE AS \"subType\",
    FA.RDB$FIELD_PRECISION AS \"precision\",
    FA.RDB$FIELD_SCALE AS \"scale\",
    FA.RDB$FIELD_LENGTH AS \"length\",
    TRIM(CASE
        WHEN FA.RDB$ARGUMENT_POSITION = F.RDB$RETURN_ARGUMENT THEN 'RETURN'
        ELSE 'IN'
    END) AS \"parameter_mode\",
    FA.RDB$ARGUMENT_POSITION AS \"position\",
    TRIM(FA.RDB$FUNCTION_NAME) AS \"pure_name\"
FROM
    RDB$FUNCTION_ARGUMENTS FA
JOIN
    RDB$FUNCTIONS F ON FA.RDB$FUNCTION_NAME = F.RDB$FUNCTION_NAME
WHERE
    COALESCE(F.RDB$SYSTEM_FLAG, 0) = 0
ORDER BY
    \"owning_object_name\", \"position\"
";

} // verus!
