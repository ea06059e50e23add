//! DbGate database-object model.
//!
//! These types describe the in-memory "dbinfo" structure that the app uses to
//! represent a connected database: tables, views, procedures, functions,
//! triggers, columns, primary/foreign keys, indexes, uniques, checks. Beside
//! each type stands its content as a mathematical value.
use vstd::prelude::*;

verus! {

/// A named object (table / view / column / etc.).
#[derive(Debug, Clone)]
pub struct NamedObjectInfo {
    pub pure_name: String,
    pub schema_name: Option<String>,
    pub content_hash: Option<String>,
    pub engine: Option<String>,
}

/// What a [`NamedObjectInfo`] holds.
pub struct NamedObjectInfoView {
    pub pure_name: Seq<char>,
    pub schema_name: Option<Seq<char>>,
    pub content_hash: Option<Seq<char>>,
    pub engine: Option<Seq<char>>,
}

impl DeepView for NamedObjectInfo {
    type V = NamedObjectInfoView;

    open spec fn deep_view(&self) -> NamedObjectInfoView {
        NamedObjectInfoView {
            pure_name: self.pure_name.deep_view(),
            schema_name: self.schema_name.deep_view(),
            content_hash: self.content_hash.deep_view(),
            engine: self.engine.deep_view(),
        }
    }
}

/// Reference to a column, possibly within an index / key definition.
#[derive(Debug, Clone)]
pub struct ColumnReference {
    pub column_name: String,
    pub ref_column_name: Option<String>,
    pub is_included_column: Option<bool>,
    pub is_descending: Option<bool>,
}

/// What a [`ColumnReference`] holds.
pub struct ColumnReferenceView {
    pub column_name: Seq<char>,
    pub ref_column_name: Option<Seq<char>>,
    pub is_included_column: Option<bool>,
    pub is_descending: Option<bool>,
}

impl DeepView for ColumnReference {
    type V = ColumnReferenceView;

    open spec fn deep_view(&self) -> ColumnReferenceView {
        ColumnReferenceView {
            column_name: self.column_name.deep_view(),
            ref_column_name: self.ref_column_name.deep_view(),
            is_included_column: self.is_included_column.deep_view(),
            is_descending: self.is_descending.deep_view(),
        }
    }
}

#[derive(Debug, Clone, Copy, PartialEq, Eq, Structural)]
pub enum ConstraintType {
    PrimaryKey,
    ForeignKey,
    SortingKey,
    Index,
    Check,
    Unique,
}

impl DeepView for ConstraintType {
    type V = ConstraintType;

    open spec fn deep_view(&self) -> ConstraintType {
        *self
    }
}

/// Base for all constraints.
#[derive(Debug, Clone)]
pub struct ConstraintInfo {
    pub pairing_id: Option<String>,
    pub constraint_name: Option<String>,
    pub constraint_type: ConstraintType,
}

/// What a [`ConstraintInfo`] holds.
pub struct ConstraintInfoView {
    pub pairing_id: Option<Seq<char>>,
    pub constraint_name: Option<Seq<char>>,
    pub constraint_type: ConstraintType,
}

impl DeepView for ConstraintInfo {
    type V = ConstraintInfoView;

    open spec fn deep_view(&self) -> ConstraintInfoView {
        ConstraintInfoView {
            pairing_id: self.pairing_id.deep_view(),
            constraint_name: self.constraint_name.deep_view(),
            constraint_type: self.constraint_type.deep_view(),
        }
    }
}

/// Constraint that references one or more columns.
#[derive(Debug, Clone)]
pub struct ColumnsConstraintInfo {
    pub constraint: ConstraintInfo,
    pub columns: Vec<ColumnReference>,
}

/// What a [`ColumnsConstraintInfo`] holds.
pub struct ColumnsConstraintInfoView {
    pub constraint: ConstraintInfoView,
    pub columns: Seq<ColumnReferenceView>,
}

impl DeepView for ColumnsConstraintInfo {
    type V = ColumnsConstraintInfoView;

    open spec fn deep_view(&self) -> ColumnsConstraintInfoView {
        ColumnsConstraintInfoView {
            constraint: self.constraint.deep_view(),
            columns: self.columns.deep_view(),
        }
    }
}

#[derive(Debug, Clone)]
pub struct PrimaryKeyInfo {
    pub columns_constraint: ColumnsConstraintInfo,
}

/// What a [`PrimaryKeyInfo`] holds.
pub struct PrimaryKeyInfoView {
    pub columns_constraint: ColumnsConstraintInfoView,
}

impl DeepView for PrimaryKeyInfo {
    type V = PrimaryKeyInfoView;

    open spec fn deep_view(&self) -> PrimaryKeyInfoView {
        PrimaryKeyInfoView {
            columns_constraint: self.columns_constraint.deep_view(),
        }
    }
}

#[derive(Debug, Clone)]
pub struct ForeignKeyInfo {
    pub columns_constraint: ColumnsConstraintInfo,
    pub ref_schema_name: Option<String>,
    pub ref_table_name: String,
    pub update_action: Option<String>,
    pub delete_action: Option<String>,
}

/// What a [`ForeignKeyInfo`] holds.
pub struct ForeignKeyInfoView {
    pub columns_constraint: ColumnsConstraintInfoView,
    pub ref_schema_name: Option<Seq<char>>,
    pub ref_table_name: Seq<char>,
    pub update_action: Option<Seq<char>>,
    pub delete_action: Option<Seq<char>>,
}

impl DeepView for ForeignKeyInfo {
    type V = ForeignKeyInfoView;

    open spec fn deep_view(&self) -> ForeignKeyInfoView {
        ForeignKeyInfoView {
            columns_constraint: self.columns_constraint.deep_view(),
            ref_schema_name: self.ref_schema_name.deep_view(),
            ref_table_name: self.ref_table_name.deep_view(),
            update_action: self.update_action.deep_view(),
            delete_action: self.delete_action.deep_view(),
        }
    }
}

#[derive(Debug, Clone)]
pub struct IndexInfo {
    pub columns_constraint: ColumnsConstraintInfo,
    pub is_unique: bool,
    pub index_type: Option<String>,
    pub filter_definition: Option<String>,
}

/// What a [`IndexInfo`] holds.
pub struct IndexInfoView {
    pub columns_constraint: ColumnsConstraintInfoView,
    pub is_unique: bool,
    pub index_type: Option<Seq<char>>,
    pub filter_definition: Option<Seq<char>>,
}

impl DeepView for IndexInfo {
    type V = IndexInfoView;

    open spec fn deep_view(&self) -> IndexInfoView {
        IndexInfoView {
            columns_constraint: self.columns_constraint.deep_view(),
            is_unique: self.is_unique.deep_view(),
            index_type: self.index_type.deep_view(),
            filter_definition: self.filter_definition.deep_view(),
        }
    }
}

#[derive(Debug, Clone)]
pub struct UniqueInfo {
    pub columns_constraint: ColumnsConstraintInfo,
}

/// What a [`UniqueInfo`] holds.
pub struct UniqueInfoView {
    pub columns_constraint: ColumnsConstraintInfoView,
}

impl DeepView for UniqueInfo {
    type V = UniqueInfoView;

    open spec fn deep_view(&self) -> UniqueInfoView {
        UniqueInfoView {
            columns_constraint: self.columns_constraint.deep_view(),
        }
    }
}

#[derive(Debug, Clone)]
pub struct CheckInfo {
    pub constraint: ConstraintInfo,
    pub definition: String,
}

/// What a [`CheckInfo`] holds.
pub struct CheckInfoView {
    pub constraint: ConstraintInfoView,
    pub definition: Seq<char>,
}

impl DeepView for CheckInfo {
    type V = CheckInfoView;

    open spec fn deep_view(&self) -> CheckInfoView {
        CheckInfoView {
            constraint: self.constraint.deep_view(),
            definition: self.definition.deep_view(),
        }
    }
}

/// A single table/view column.
#[derive(Debug, Clone)]
pub struct ColumnInfo {
    pub column_name: String,
    pub data_type: String,
    pub pairing_id: Option<String>,
    pub not_null: Option<bool>,
    pub auto_increment: Option<bool>,
    pub displayed_data_type: Option<String>,
    pub precision: Option<i64>,
    pub scale: Option<i64>,
    pub length: Option<i64>,
    pub computed_expression: Option<String>,
    pub is_persisted: Option<bool>,
    pub is_sparse: Option<bool>,
    pub default_value: Option<String>,
    pub on_update_expression: Option<String>,
    pub default_constraint: Option<String>,
    pub column_comment: Option<String>,
    pub is_unsigned: Option<bool>,
    pub is_zerofill: Option<bool>,
}

/// What a [`ColumnInfo`] holds.
pub struct ColumnInfoView {
    pub column_name: Seq<char>,
    pub data_type: Seq<char>,
    pub pairing_id: Option<Seq<char>>,
    pub not_null: Option<bool>,
    pub auto_increment: Option<bool>,
    pub displayed_data_type: Option<Seq<char>>,
    pub precision: Option<i64>,
    pub scale: Option<i64>,
    pub length: Option<i64>,
    pub computed_expression: Option<Seq<char>>,
    pub is_persisted: Option<bool>,
    pub is_sparse: Option<bool>,
    pub default_value: Option<Seq<char>>,
    pub on_update_expression: Option<Seq<char>>,
    pub default_constraint: Option<Seq<char>>,
    pub column_comment: Option<Seq<char>>,
    pub is_unsigned: Option<bool>,
    pub is_zerofill: Option<bool>,
}

impl DeepView for ColumnInfo {
    type V = ColumnInfoView;

    open spec fn deep_view(&self) -> ColumnInfoView {
        ColumnInfoView {
            column_name: self.column_name.deep_view(),
            data_type: self.data_type.deep_view(),
            pairing_id: self.pairing_id.deep_view(),
            not_null: self.not_null.deep_view(),
            auto_increment: self.auto_increment.deep_view(),
            displayed_data_type: self.displayed_data_type.deep_view(),
            precision: self.precision.deep_view(),
            scale: self.scale.deep_view(),
            length: self.length.deep_view(),
            computed_expression: self.computed_expression.deep_view(),
            is_persisted: self.is_persisted.deep_view(),
            is_sparse: self.is_sparse.deep_view(),
            default_value: self.default_value.deep_view(),
            on_update_expression: self.on_update_expression.deep_view(),
            default_constraint: self.default_constraint.deep_view(),
            column_comment: self.column_comment.deep_view(),
            is_unsigned: self.is_unsigned.deep_view(),
            is_zerofill: self.is_zerofill.deep_view(),
        }
    }
}

/// Common fields for any database object (table/view/procedure/...).
#[derive(Debug, Clone)]
pub struct DatabaseObjectInfo {
    pub pure_name: String,
    pub schema_name: Option<String>,
    pub pairing_id: Option<String>,
    pub object_id: Option<String>,
    pub create_date: Option<String>,
    pub modify_date: Option<String>,
    pub hash_code: Option<String>,
    pub object_type_field: Option<String>,
    pub object_comment: Option<String>,
}

/// What a [`DatabaseObjectInfo`] holds.
pub struct DatabaseObjectInfoView {
    pub pure_name: Seq<char>,
    pub schema_name: Option<Seq<char>>,
    pub pairing_id: Option<Seq<char>>,
    pub object_id: Option<Seq<char>>,
    pub create_date: Option<Seq<char>>,
    pub modify_date: Option<Seq<char>>,
    pub hash_code: Option<Seq<char>>,
    pub object_type_field: Option<Seq<char>>,
    pub object_comment: Option<Seq<char>>,
}

impl DeepView for DatabaseObjectInfo {
    type V = DatabaseObjectInfoView;

    open spec fn deep_view(&self) -> DatabaseObjectInfoView {
        DatabaseObjectInfoView {
            pure_name: self.pure_name.deep_view(),
            schema_name: self.schema_name.deep_view(),
            pairing_id: self.pairing_id.deep_view(),
            object_id: self.object_id.deep_view(),
            create_date: self.create_date.deep_view(),
            modify_date: self.modify_date.deep_view(),
            hash_code: self.hash_code.deep_view(),
            object_type_field: self.object_type_field.deep_view(),
            object_comment: self.object_comment.deep_view(),
        }
    }
}

/// SQL-defined object (view/procedure/function/trigger) carrying its DDL.
#[derive(Debug, Clone)]
pub struct SqlObjectInfo {
    pub object: DatabaseObjectInfo,
    pub create_sql: Option<String>,
    pub requires_format: Option<bool>,
}

/// What a [`SqlObjectInfo`] holds.
pub struct SqlObjectInfoView {
    pub object: DatabaseObjectInfoView,
    pub create_sql: Option<Seq<char>>,
    pub requires_format: Option<bool>,
}

impl DeepView for SqlObjectInfo {
    type V = SqlObjectInfoView;

    open spec fn deep_view(&self) -> SqlObjectInfoView {
        SqlObjectInfoView {
            object: self.object.deep_view(),
            create_sql: self.create_sql.deep_view(),
            requires_format: self.requires_format.deep_view(),
        }
    }
}

/// A table (full metadata).
#[derive(Debug, Clone)]
pub struct TableInfo {
    pub object: DatabaseObjectInfo,
    pub columns: Vec<ColumnInfo>,
    pub primary_key: Option<PrimaryKeyInfo>,
    pub sorting_key: Option<ColumnsConstraintInfo>,
    pub foreign_keys: Option<Vec<ForeignKeyInfo>>,
    pub dependencies: Option<Vec<ForeignKeyInfo>>,
    pub indexes: Option<Vec<IndexInfo>>,
    pub uniques: Option<Vec<UniqueInfo>>,
    pub checks: Option<Vec<CheckInfo>>,
    pub table_row_count: Option<i64>,
    pub table_engine: Option<String>,
}

/// What a [`TableInfo`] holds.
pub struct TableInfoView {
    pub object: DatabaseObjectInfoView,
    pub columns: Seq<ColumnInfoView>,
    pub primary_key: Option<PrimaryKeyInfoView>,
    pub sorting_key: Option<ColumnsConstraintInfoView>,
    pub foreign_keys: Option<Seq<ForeignKeyInfoView>>,
    pub dependencies: Option<Seq<ForeignKeyInfoView>>,
    pub indexes: Option<Seq<IndexInfoView>>,
    pub uniques: Option<Seq<UniqueInfoView>>,
    pub checks: Option<Seq<CheckInfoView>>,
    pub table_row_count: Option<i64>,
    pub table_engine: Option<Seq<char>>,
}

impl DeepView for TableInfo {
    type V = TableInfoView;

    open spec fn deep_view(&self) -> TableInfoView {
        TableInfoView {
            object: self.object.deep_view(),
            columns: self.columns.deep_view(),
            primary_key: self.primary_key.deep_view(),
            sorting_key: self.sorting_key.deep_view(),
            foreign_keys: self.foreign_keys.deep_view(),
            dependencies: self.dependencies.deep_view(),
            indexes: self.indexes.deep_view(),
            uniques: self.uniques.deep_view(),
            checks: self.checks.deep_view(),
            table_row_count: self.table_row_count.deep_view(),
            table_engine: self.table_engine.deep_view(),
        }
    }
}

/// A collection (Mongo / Cassandra style).
#[derive(Debug, Clone)]
pub struct CollectionInfo {
    pub object: DatabaseObjectInfo,
    pub known_columns: Option<Vec<ColumnInfo>>,
    pub unique_key: Option<Vec<ColumnReference>>,
}

/// What a [`CollectionInfo`] holds.
pub struct CollectionInfoView {
    pub object: DatabaseObjectInfoView,
    pub known_columns: Option<Seq<ColumnInfoView>>,
    pub unique_key: Option<Seq<ColumnReferenceView>>,
}

impl DeepView for CollectionInfo {
    type V = CollectionInfoView;

    open spec fn deep_view(&self) -> CollectionInfoView {
        CollectionInfoView {
            object: self.object.deep_view(),
            known_columns: self.known_columns.deep_view(),
            unique_key: self.unique_key.deep_view(),
        }
    }
}

/// A view (columns + create SQL).
#[derive(Debug, Clone)]
pub struct ViewInfo {
    pub object: SqlObjectInfo,
    pub columns: Vec<ColumnInfo>,
}

/// What a [`ViewInfo`] holds.
pub struct ViewInfoView {
    pub object: SqlObjectInfoView,
    pub columns: Seq<ColumnInfoView>,
}

impl DeepView for ViewInfo {
    type V = ViewInfoView;

    open spec fn deep_view(&self) -> ViewInfoView {
        ViewInfoView {
            object: self.object.deep_view(),
            columns: self.columns.deep_view(),
        }
    }
}

#[derive(Debug, Clone, Copy, PartialEq, Eq, Structural)]
pub enum ParameterMode {
    In,
    Out,
    InOut,
    Return,
}

impl DeepView for ParameterMode {
    type V = ParameterMode;

    open spec fn deep_view(&self) -> ParameterMode {
        *self
    }
}

#[derive(Debug, Clone)]
pub struct ParameterInfo {
    pub parameter_name: String,
    pub data_type: String,
    pub parameter_mode: Option<ParameterMode>,
    pub position: Option<i64>,
}

/// What a [`ParameterInfo`] holds.
pub struct ParameterInfoView {
    pub parameter_name: Seq<char>,
    pub data_type: Seq<char>,
    pub parameter_mode: Option<ParameterMode>,
    pub position: Option<i64>,
}

impl DeepView for ParameterInfo {
    type V = ParameterInfoView;

    open spec fn deep_view(&self) -> ParameterInfoView {
        ParameterInfoView {
            parameter_name: self.parameter_name.deep_view(),
            data_type: self.data_type.deep_view(),
            parameter_mode: self.parameter_mode.deep_view(),
            position: self.position.deep_view(),
        }
    }
}

#[derive(Debug, Clone)]
pub struct CallableObjectInfo {
    pub object: SqlObjectInfo,
    pub parameters: Option<Vec<ParameterInfo>>,
}

/// What a [`CallableObjectInfo`] holds.
pub struct CallableObjectInfoView {
    pub object: SqlObjectInfoView,
    pub parameters: Option<Seq<ParameterInfoView>>,
}

impl DeepView for CallableObjectInfo {
    type V = CallableObjectInfoView;

    open spec fn deep_view(&self) -> CallableObjectInfoView {
        CallableObjectInfoView {
            object: self.object.deep_view(),
            parameters: self.parameters.deep_view(),
        }
    }
}

/// Stored procedure.
#[derive(Debug, Clone)]
pub struct ProcedureInfo {
    pub callable: CallableObjectInfo,
}

/// What a [`ProcedureInfo`] holds.
pub struct ProcedureInfoView {
    pub callable: CallableObjectInfoView,
}

impl DeepView for ProcedureInfo {
    type V = ProcedureInfoView;

    open spec fn deep_view(&self) -> ProcedureInfoView {
        ProcedureInfoView {
            callable: self.callable.deep_view(),
        }
    }
}

/// Stored function.
#[derive(Debug, Clone)]
pub struct FunctionInfo {
    pub callable: CallableObjectInfo,
    pub return_type: Option<String>,
}

/// What a [`FunctionInfo`] holds.
pub struct FunctionInfoView {
    pub callable: CallableObjectInfoView,
    pub return_type: Option<Seq<char>>,
}

impl DeepView for FunctionInfo {
    type V = FunctionInfoView;

    open spec fn deep_view(&self) -> FunctionInfoView {
        FunctionInfoView {
            callable: self.callable.deep_view(),
            return_type: self.return_type.deep_view(),
        }
    }
}

#[derive(Debug, Clone, Copy, PartialEq, Eq, Structural)]
pub enum TriggerTiming {
    Before,
    After,
    InsteadOf,
    BeforeEachRow,
    AfterEachRow,
    AfterStatement,
    BeforeStatement,
    AfterEvent,
    BeforeEvent,
}

impl DeepView for TriggerTiming {
    type V = TriggerTiming;

    open spec fn deep_view(&self) -> TriggerTiming {
        *self
    }
}

#[derive(Debug, Clone, Copy, PartialEq, Eq, Structural)]
pub enum TriggerEventType {
    Insert,
    Update,
    Delete,
    Truncate,
}

impl DeepView for TriggerEventType {
    type V = TriggerEventType;

    open spec fn deep_view(&self) -> TriggerEventType {
        *self
    }
}

#[derive(Debug, Clone)]
pub struct TriggerInfo {
    pub object: SqlObjectInfo,
    pub function_name: Option<String>,
    pub table_name: Option<String>,
    pub trigger_timing: Option<TriggerTiming>,
    pub event_type: Option<TriggerEventType>,
}

/// What a [`TriggerInfo`] holds.
pub struct TriggerInfoView {
    pub object: SqlObjectInfoView,
    pub function_name: Option<Seq<char>>,
    pub table_name: Option<Seq<char>>,
    pub trigger_timing: Option<TriggerTiming>,
    pub event_type: Option<TriggerEventType>,
}

impl DeepView for TriggerInfo {
    type V = TriggerInfoView;

    open spec fn deep_view(&self) -> TriggerInfoView {
        TriggerInfoView {
            object: self.object.deep_view(),
            function_name: self.function_name.deep_view(),
            table_name: self.table_name.deep_view(),
            trigger_timing: self.trigger_timing.deep_view(),
            event_type: self.event_type.deep_view(),
        }
    }
}

#[derive(Debug, Clone)]
pub struct SchemaInfo {
    pub schema_name: String,
    pub object_id: Option<String>,
    pub is_default: Option<bool>,
}

/// What a [`SchemaInfo`] holds.
pub struct SchemaInfoView {
    pub schema_name: Seq<char>,
    pub object_id: Option<Seq<char>>,
    pub is_default: Option<bool>,
}

impl DeepView for SchemaInfo {
    type V = SchemaInfoView;

    open spec fn deep_view(&self) -> SchemaInfoView {
        SchemaInfoView {
            schema_name: self.schema_name.deep_view(),
            object_id: self.object_id.deep_view(),
            is_default: self.is_default.deep_view(),
        }
    }
}

/// Aggregate of all object types in a database ("DatabaseInfo").
#[derive(Debug, Clone)]
pub struct DatabaseInfo {
    pub tables: Vec<TableInfo>,
    pub collections: Vec<CollectionInfo>,
    pub views: Vec<ViewInfo>,
    pub matviews: Option<Vec<ViewInfo>>,
    pub procedures: Vec<ProcedureInfo>,
    pub functions: Vec<FunctionInfo>,
    pub triggers: Vec<TriggerInfo>,
    pub engine: Option<String>,
}

/// What a [`DatabaseInfo`] holds.
pub struct DatabaseInfoView {
    pub tables: Seq<TableInfoView>,
    pub collections: Seq<CollectionInfoView>,
    pub views: Seq<ViewInfoView>,
    pub matviews: Option<Seq<ViewInfoView>>,
    pub procedures: Seq<ProcedureInfoView>,
    pub functions: Seq<FunctionInfoView>,
    pub triggers: Seq<TriggerInfoView>,
    pub engine: Option<Seq<char>>,
}

impl DeepView for DatabaseInfo {
    type V = DatabaseInfoView;

    open spec fn deep_view(&self) -> DatabaseInfoView {
        DatabaseInfoView {
            tables: self.tables.deep_view(),
            collections: self.collections.deep_view(),
            views: self.views.deep_view(),
            matviews: self.matviews.deep_view(),
            procedures: self.procedures.deep_view(),
            functions: self.functions.deep_view(),
            triggers: self.triggers.deep_view(),
            engine: self.engine.deep_view(),
        }
    }
}

/// A column of which nothing is known.
pub open spec fn blank_column() -> ColumnInfoView {
    ColumnInfoView {
        column_name: Seq::empty(),
        data_type: Seq::empty(),
        pairing_id: None,
        not_null: None,
        auto_increment: None,
        displayed_data_type: None,
        precision: None,
        scale: None,
        length: None,
        computed_expression: None,
        is_persisted: None,
        is_sparse: None,
        default_value: None,
        on_update_expression: None,
        default_constraint: None,
        column_comment: None,
        is_unsigned: None,
        is_zerofill: None,
    }
}

impl Default for ColumnInfo {
    fn default() -> (r: Self)
        ensures
            r.deep_view() == blank_column(),
    {
        let r = ColumnInfo {
            column_name: String::new(),
            data_type: String::new(),
            pairing_id: None,
            not_null: None,
            auto_increment: None,
            displayed_data_type: None,
            precision: None,
            scale: None,
            length: None,
            computed_expression: None,
            is_persisted: None,
            is_sparse: None,
            default_value: None,
            on_update_expression: None,
            default_constraint: None,
            column_comment: None,
            is_unsigned: None,
            is_zerofill: None,
        };
        r
    }
}

/// A database without objects.
pub open spec fn empty_database() -> DatabaseInfoView {
    DatabaseInfoView {
        tables: Seq::empty(),
        collections: Seq::empty(),
        views: Seq::empty(),
        matviews: None,
        procedures: Seq::empty(),
        functions: Seq::empty(),
        triggers: Seq::empty(),
        engine: None,
    }
}

impl Default for DatabaseInfo {
    fn default() -> (r: Self)
        ensures
            r.deep_view() == empty_database(),
    {
        let r = DatabaseInfo {
            tables: Vec::new(),
            collections: Vec::new(),
            views: Vec::new(),
            matviews: None,
            procedures: Vec::new(),
            functions: Vec::new(),
            triggers: Vec::new(),
            engine: None,
        };
        assert(r.tables.deep_view() =~= Seq::empty());
        assert(r.collections.deep_view() =~= Seq::empty());
        assert(r.views.deep_view() =~= Seq::empty());
        assert(r.procedures.deep_view() =~= Seq::empty());
        assert(r.functions.deep_view() =~= Seq::empty());
        assert(r.triggers.deep_view() =~= Seq::empty());
        r
    }
}

} // verus!
