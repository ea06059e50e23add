//! The plugins metadata surface: what is installed, and the JavaScript module of
//! one plugin package.
//!
//! The frontend evaluates the module to build its driver list, so the list drives
//! connection creation, the engine dropdown and the table browsing widgets.
use vstd::prelude::*;

use crate::encoding::json_string_text;
use crate::numbers::decimal;
use crate::registry::{EngineMetadata, EngineMetadataView};
use crate::rows::{map_list, new_list, push_item};
use crate::text::{concat3, joined, same};
use crate::value::{
    add_member, array_value, clone_value, no_members, object_value, Json, Value,
};

verus! {

/// A port as a value.
pub open spec fn port_json(port: Option<u32>) -> Json {
    match port {
        Some(p) => Json::Int(p as int),
        None => Json::Null,
    }
}

/// The entry of an engine.
pub open spec fn entry_json(m: EngineMetadataView) -> Json {
    Json::Object(
        seq![
            ("name"@, Json::Str(m.name)),
            ("displayName"@, Json::Str(m.display_name)),
            ("engine"@, Json::Str(m.engine)),
            ("defaultPort"@, port_json(m.default_port)),
            ("databaseEngine"@, Json::Str(m.database_engine)),
            ("icons"@, m.icons),
        ],
    )
}

fn entry_value(m: &EngineMetadata) -> (r: Value)
    ensures
        r@ == entry_json(m.deep_view()),
{
    let port = match m.default_port {
        Some(p) => Value::Int(p as i128),
        None => Value::Null,
    };
    let mut o = no_members();
    add_member(&mut o, "name", Value::Str(m.name.clone()));
    add_member(&mut o, "displayName", Value::Str(m.display_name.clone()));
    add_member(&mut o, "engine", Value::Str(m.engine.clone()));
    add_member(&mut o, "defaultPort", port);
    add_member(&mut o, "databaseEngine", Value::Str(m.database_engine.clone()));
    add_member(&mut o, "icons", clone_value(&m.icons));
    assert(crate::value::entries(o@) =~= entry_json(m.deep_view())->Object_0);
    object_value(o)
}

/// `plugins_installed`: the installed engines as plugin metadata entries.
pub fn installed(metadata: &Vec<EngineMetadata>) -> (r: Value)
    ensures
        r@ == Json::Array(
            Seq::new(
                metadata@.len(),
                |i: int| entry_json(metadata.deep_view()[i]),
            ),
        ),
{
    let f = |m: &EngineMetadata| -> (v: Value)
        ensures
            v@ == entry_json(m.deep_view()),
    {
        entry_value(m)
    };
    let items = map_list(metadata, f);
    assert(items.deep_view() =~= Seq::new(
        metadata@.len(),
        |i: int| entry_json(metadata.deep_view()[i]),
    ));
    array_value(items)
}

/// Whether one of the entries belongs to the given package.
pub open spec fn has_package(list: Seq<EngineMetadataView>, name: Seq<char>) -> bool {
    exists|i: int| 0 <= i < list.len() && (#[trigger] list[i]).name == name
}

/// The first entry of each package.
pub open spec fn first_of_each(list: Seq<EngineMetadataView>) -> Seq<EngineMetadataView>
    decreases list.len(),
{
    if list.len() == 0 {
        Seq::empty()
    } else {
        let before = first_of_each(list.drop_last());
        if has_package(before, list.last().name) {
            before
        } else {
            before.push(list.last())
        }
    }
}

/// One entry per package: no package is listed twice, and none is left out.
pub proof fn law_first_of_each(list: Seq<EngineMetadataView>, name: Seq<char>)
    ensures
        has_package(first_of_each(list), name) == has_package(list, name),
        forall|i: int, j: int|
            0 <= i < j < first_of_each(list).len() ==> (#[trigger] first_of_each(list)[i]).name != (
            #[trigger] first_of_each(list)[j]).name,
    decreases list.len(),
{
    if list.len() > 0 {
        let rest = list.drop_last();
        let before = first_of_each(rest);
        let after = first_of_each(list);
        let last = list.last();
        law_first_of_each(rest, name);
        law_first_of_each(rest, last.name);
        if has_package(list, name) {
            let i = choose|i: int| 0 <= i < list.len() && (#[trigger] list[i]).name == name;
            if i < rest.len() {
                assert(rest[i].name == name);
                let k = choose|k: int| 0 <= k < before.len() && (#[trigger] before[k]).name == name;
                assert(after[k].name == name);
            } else if has_package(before, last.name) {
                assert(has_package(before, name));
            } else {
                assert(after[before.len() as int].name == name);
            }
        }
        if has_package(after, name) {
            let k = choose|k: int| 0 <= k < after.len() && (#[trigger] after[k]).name == name;
            if k < before.len() {
                assert(before[k].name == name);
                let i = choose|i: int| 0 <= i < rest.len() && (#[trigger] rest[i]).name == name;
                assert(list[i].name == name);
            } else {
                assert(list[list.len() - 1].name == name);
            }
        }
        assert forall|i: int, j: int| 0 <= i < j < after.len() implies (#[trigger] after[i]).name
            != (#[trigger] after[j]).name by {
            assert(after[i] == before[i]);
            if j < before.len() {
                assert(after[j] == before[j]);
            } else if after[i].name == after[j].name {
                assert(has_package(before, last.name)) by {
                    assert(before[i].name == last.name);
                }
            }
        }
    }
}

fn package_listed(list: &Vec<EngineMetadata>, name: &str) -> (r: bool)
    ensures
        r == has_package(list.deep_view(), name@),
{
    let ghost all = list.deep_view();
    let mut i: usize = 0;
    while i < list.len()
        invariant
            i <= list@.len(),
            all == list.deep_view(),
            forall|j: int| 0 <= j < i ==> (#[trigger] all[j]).name != name@,
        decreases list@.len() - i,
    {
        assert(all[i as int].name == list@[i as int].name@);
        if same(list[i].name.as_str(), name) {
            return true;
        }
        i = i + 1;
    }
    false
}

/// A copy of the metadata of an engine.
pub fn copy_metadata(m: &EngineMetadata) -> (r: EngineMetadata)
    ensures
        r.deep_view() == m.deep_view(),
{
    EngineMetadata {
        name: m.name.clone(),
        display_name: m.display_name.clone(),
        engine: m.engine.clone(),
        default_port: m.default_port,
        database_engine: m.database_engine.clone(),
        icons: clone_value(&m.icons),
    }
}

/// One entry per uniquely named package. A package with several engines must not
/// be listed twice where its module is loaded once per entry.
pub fn one_per_package(metadata: &Vec<EngineMetadata>) -> (r: Vec<EngineMetadata>)
    ensures
        r.deep_view() == first_of_each(metadata.deep_view()),
{
    let ghost all = metadata.deep_view();
    let mut out: Vec<EngineMetadata> = new_list();
    let mut i: usize = 0;
    while i < metadata.len()
        invariant
            i <= metadata@.len(),
            all == metadata.deep_view(),
            out.deep_view() == first_of_each(all.take(i as int)),
        decreases metadata@.len() - i,
    {
        proof {
            crate::rows::lemma_take_next(all, i as int);
        }
        if !package_listed(&out, metadata[i].name.as_str()) {
            push_item(&mut out, copy_metadata(&metadata[i]));
        }
        i = i + 1;
    }
    proof {
        crate::rows::lemma_take_all(all);
    }
    out
}

// ---------------------------------------------------------------------------
// The JavaScript module of a package
// ---------------------------------------------------------------------------

/// The fields of the connection form of a file-based engine.
pub const FILE_FIELDS: &'static str =
    "(field, values) => field == 'databaseFile' || field == 'isReadOnly'";

/// The fields of the connection form of a server.
pub const SERVER_FIELDS: &'static str =
    "(field, values) => ['server', 'port', 'user', 'password', 'database', 'defaultDatabase', 'singleDatabase', 'isReadOnly'].includes(field)";

pub const SPLITTER_SQLITE: &'static str =
    r#"{"skipSeparatorBeginEnd":true,"stringEscapes":{"\"":"\"","'":"'"},"stringsBegins":["'","\""],"stringsEnds":{"\"":"\"","'":"'"}}"#;

pub const SPLITTER_MYSQL: &'static str =
    r#"{"allowCustomDelimiter":true,"stringEscapes":{"\"":"\\","'":"\\","`":"`"},"stringsBegins":["'","`","\""],"stringsEnds":{"\"":"\"","'":"'","`":"`"}}"#;

pub const SPLITTER_POSTGRES: &'static str =
    r#"{"allowDollarDollarString":true,"stringEscapes":{"\"":"\"","'":"'"},"stringsBegins":["'","\""],"stringsEnds":{"\"":"\"","'":"'"}}"#;

pub const SPLITTER_MSSQL: &'static str =
    r#"{"allowGoDelimiter":true,"allowSemicolon":false,"keepSemicolonInCommands":true,"stringEscapes":{"'":"'"},"stringsBegins":["'","["],"stringsEnds":{"'":"'","[":"]"}}"#;

pub const SPLITTER_ORACLE: &'static str =
    r#"{"allowCustomSqlTerminator":true,"allowSlashDelimiter":true,"stringEscapes":{"\"":"\"","'":"'"},"stringsBegins":["'","\""],"stringsEnds":{"\"":"\"","'":"'"}}"#;

pub const SPLITTER_FIREBIRD: &'static str =
    r#"{"allowCustomSetTerm":true,"queryParameterStyle":":","skipSeparatorBeginEnd":true}"#;

pub const SPLITTER_OTHER: &'static str =
    r#"{"stringEscapes":{"\"":"\"","'":"'"},"stringsBegins":["'","\""],"stringsEnds":{"\"":"\"","'":"'"}}"#;

/// What a file-based engine does before a connection is saved.
pub const BEFORE_SAVE: &'static str =
    "(connection) => {
      const databaseFile = connection && connection.databaseFile;
      const match = databaseFile && String(databaseFile).match(/[\\/]([^\\/]+)$/);
      return { ...connection, singleDatabase: true, defaultDatabase: match ? match[1] : databaseFile };
    }";

/// The field filter of an engine family.
pub open spec fn field_filter(engine: Seq<char>) -> Seq<char> {
    if engine == "sqlite"@ {
        FILE_FIELDS@
    } else {
        SERVER_FIELDS@
    }
}

/// JS field filter for the connection form: file-based engines pick a file path,
/// everything else uses the classic server fields.
pub fn show_connection_field(engine: &str) -> (r: &'static str)
    ensures
        r@ == field_filter(engine@),
{
    if same(engine, "sqlite") {
        FILE_FIELDS
    } else {
        SERVER_FIELDS
    }
}

/// The splitter options of an engine family.
pub open spec fn splitter_of(engine: Seq<char>) -> Seq<char> {
    if engine == "sqlite"@ {
        SPLITTER_SQLITE@
    } else if engine == "mysql"@ || engine == "mariadb"@ {
        SPLITTER_MYSQL@
    } else if engine == "postgres"@ {
        SPLITTER_POSTGRES@
    } else if engine == "mssql"@ {
        SPLITTER_MSSQL@
    } else if engine == "oracle"@ {
        SPLITTER_ORACLE@
    } else if engine == "firebird"@ {
        SPLITTER_FIREBIRD@
    } else {
        SPLITTER_OTHER@
    }
}

/// JS splitter options literal for one engine family.
pub fn splitter_options(engine: &str) -> (r: &'static str)
    ensures
        r@ == splitter_of(engine@),
{
    if same(engine, "sqlite") {
        SPLITTER_SQLITE
    } else if same(engine, "mysql") || same(engine, "mariadb") {
        SPLITTER_MYSQL
    } else if same(engine, "postgres") {
        SPLITTER_POSTGRES
    } else if same(engine, "mssql") {
        SPLITTER_MSSQL
    } else if same(engine, "oracle") {
        SPLITTER_ORACLE
    } else if same(engine, "firebird") {
        SPLITTER_FIREBIRD
    } else {
        SPLITTER_OTHER
    }
}

/// A port as a JS literal.
pub open spec fn port_literal(port: Option<u32>) -> Seq<char> {
    match port {
        Some(p) => crate::numbers::dec(p as nat),
        None => "null"@,
    }
}

/// The JS object literal of an engine without icons.
pub open spec fn driver_literal(m: EngineMetadataView) -> Seq<char> {
    let splitter = splitter_of(m.database_engine);
    "  {\n    ...window['DBGATE_PACKAGES']['dbgate-tools'].driverBase,\n"@ + "    engine: "@
        + crate::encoding::json_string(m.engine) + ",\n    title: "@
        + crate::encoding::json_string(m.display_name) + ",\n    defaultPort: "@ + port_literal(
        m.default_port,
    ) + ",\n    databaseEngine: "@ + crate::encoding::json_string(m.database_engine)
        + ",\n    databaseEngineTypes: [\"sql\"],\n    icons: {},\n    showConnectionField: "@
        + field_filter(m.database_engine)
        + ",\n    getQuerySplitterOptions: (usage) => usage == 'editor'\n      ? { ..."@ + splitter
        + ", ignoreComments: true, preventSingleLineSplit: true }\n      : "@ + splitter
        + ",\n    showConnectionTab: (field) => false"@ + (if m.database_engine == "sqlite"@ {
        ",\n    beforeConnectionSave: "@ + BEFORE_SAVE@
    } else {
        Seq::empty()
    }) + "\n  }"@
}

/// Builds the JS driver object literal for one registered engine. Spreading
/// `driverBase` gives every default method that the frontend calls on drivers.
pub fn driver_js(m: &EngineMetadata) -> (r: String)
    requires
        m.icons@ == Json::Object(Seq::empty()),
    ensures
        r@ == driver_literal(m.deep_view()),
{
    let family = m.database_engine.as_str();
    let port = match m.default_port {
        Some(p) => decimal(p as u64),
        None => "null".to_owned(),
    };
    let splitter = splitter_options(family);
    let mut s =
        "  {\n    ...window['DBGATE_PACKAGES']['dbgate-tools'].driverBase,\n".to_owned();
    s.push_str("    engine: ");
    s.push_str(json_string_text(m.engine.as_str()).as_str());
    s.push_str(",\n    title: ");
    s.push_str(json_string_text(m.display_name.as_str()).as_str());
    s.push_str(",\n    defaultPort: ");
    s.push_str(port.as_str());
    s.push_str(",\n    databaseEngine: ");
    s.push_str(json_string_text(family).as_str());
    s.push_str(
        ",\n    databaseEngineTypes: [\"sql\"],\n    icons: {},\n    showConnectionField: ",
    );
    s.push_str(show_connection_field(family));
    s.push_str(",\n    getQuerySplitterOptions: (usage) => usage == 'editor'\n      ? { ...");
    s.push_str(splitter);
    s.push_str(", ignoreComments: true, preventSingleLineSplit: true }\n      : ");
    s.push_str(splitter);
    s.push_str(",\n    showConnectionTab: (field) => false");
    let mut extra = String::new();
    if same(family, "sqlite") {
        extra = crate::text::concat2(",\n    beforeConnectionSave: ", BEFORE_SAVE);
    }
    s.push_str(extra.as_str());
    s.push_str("\n  }");
    s
}

/// The literal of an engine, where it belongs to the package.
pub open spec fn literal_in(m: EngineMetadataView, package: Seq<char>) -> Option<Seq<char>> {
    if m.name == package {
        Some(driver_literal(m))
    } else {
        None
    }
}

/// The literals of the engines of a package.
pub open spec fn literals_of(list: Seq<EngineMetadataView>, package: Seq<char>) -> Seq<Seq<char>> {
    crate::rows::pick(list, |m: EngineMetadataView| literal_in(m, package))
}

/// The module of a package.
pub open spec fn module_of(list: Seq<EngineMetadataView>, package: Seq<char>) -> Seq<char> {
    "var plugin = {\"__esModule\": true, \"default\": {\"drivers\": [\n"@ + crate::text::join(
        literals_of(list, package),
        ",\n"@,
    ) + "\n]}};"@
}

/// The package that the arguments name, empty where they name none.
pub open spec fn package_in(args: Json) -> Seq<char> {
    crate::rows::or_empty(args.text("packageName"@))
}

/// `plugins_script`: generates the frontend module for one plugin package. All
/// engines that share the package are emitted together.
pub fn script(metadata: &Vec<EngineMetadata>, args: &Value) -> (r: String)
    requires
        forall|i: int|
            0 <= i < metadata@.len() ==> (#[trigger] metadata@[i]).icons@ == Json::Object(
                Seq::empty(),
            ),
    ensures
        r@ == module_of(metadata.deep_view(), package_in(args@)),
{
    let package = crate::rows::get_text(args, "packageName");
    let ghost all = metadata.deep_view();
    let mut drivers: Vec<String> = new_list();
    let mut i: usize = 0;
    while i < metadata.len()
        invariant
            i <= metadata@.len(),
            all == metadata.deep_view(),
            forall|k: int|
                0 <= k < metadata@.len() ==> (#[trigger] metadata@[k]).icons@ == Json::Object(
                    Seq::empty(),
                ),
            drivers.deep_view() == literals_of(all.take(i as int), package@),
        decreases metadata@.len() - i,
    {
        proof {
            crate::rows::lemma_take_next(all, i as int);
        }
        if same(metadata[i].name.as_str(), package.as_str()) {
            push_item(&mut drivers, driver_js(&metadata[i]));
        }
        i = i + 1;
    }
    proof {
        crate::rows::lemma_take_all(all);
        assert(crate::text::texts(drivers@) =~= drivers.deep_view());
    }
    concat3(
        "var plugin = {\"__esModule\": true, \"default\": {\"drivers\": [\n",
        joined(&drivers, ",\n").as_str(),
        "\n]}};",
    )
}

// ---------------------------------------------------------------------------
// Laws
// ---------------------------------------------------------------------------

/// An engine is listed member by member, each under its name.
pub proof fn law_entry(m: EngineMetadataView)
    ensures
        entry_json(m).text("name"@) == Some(m.name),
        entry_json(m).text("displayName"@) == Some(m.display_name),
        entry_json(m).text("engine"@) == Some(m.engine),
        entry_json(m).text("databaseEngine"@) == Some(m.database_engine),
        entry_json(m).get("icons"@) == Some(m.icons),
        m.default_port matches Some(p) ==> entry_json(m).get("defaultPort"@) == Some(
            Json::Int(p as int),
        ),
        m.default_port is None ==> entry_json(m).get("defaultPort"@) == Some(Json::Null),
{
    reveal_with_fuel(crate::value::find_key, 7);
    reveal_strlit("name");
    reveal_strlit("displayName");
    reveal_strlit("engine");
    reveal_strlit("defaultPort");
    reveal_strlit("databaseEngine");
    reveal_strlit("icons");
    assert("name"@.len() == 4);
    assert("displayName"@.len() == 11);
    assert("engine"@.len() == 6);
    assert("defaultPort"@.len() == 11);
    assert("databaseEngine"@.len() == 14);
    assert("icons"@.len() == 5);
    assert("displayName"@[1] == 'i');
    assert("defaultPort"@[1] == 'e');
}

/// Of each package the first entry is kept, and the entries stay in their order.
pub proof fn law_first_of_each_push(list: Seq<EngineMetadataView>, m: EngineMetadataView)
    ensures
        first_of_each(Seq::empty()).len() == 0,
        has_package(list, m.name) ==> first_of_each(list.push(m)) == first_of_each(list),
        !has_package(list, m.name) ==> first_of_each(list.push(m)) == first_of_each(list).push(m),
{
    assert(list.push(m).drop_last() =~= list);
    law_first_of_each(list, m.name);
}

/// A file-based engine asks for its file, every other for a server; each family has the rules by
/// which its scripts are split.
pub proof fn law_families(engine: Seq<char>)
    ensures
        field_filter("sqlite"@) == FILE_FIELDS@,
        engine != "sqlite"@ ==> field_filter(engine) == SERVER_FIELDS@,
        splitter_of("sqlite"@) == SPLITTER_SQLITE@,
        splitter_of("mysql"@) == SPLITTER_MYSQL@,
        splitter_of("mariadb"@) == SPLITTER_MYSQL@,
        splitter_of("postgres"@) == SPLITTER_POSTGRES@,
        splitter_of("mssql"@) == SPLITTER_MSSQL@,
        splitter_of("oracle"@) == SPLITTER_ORACLE@,
        splitter_of("firebird"@) == SPLITTER_FIREBIRD@,
        engine != "sqlite"@ && engine != "mysql"@ && engine != "mariadb"@ && engine != "postgres"@
            && engine != "mssql"@ && engine != "oracle"@ && engine != "firebird"@ ==> splitter_of(
            engine,
        ) == SPLITTER_OTHER@,
{
    reveal_strlit("sqlite");
    reveal_strlit("mysql");
    reveal_strlit("mariadb");
    reveal_strlit("postgres");
    reveal_strlit("mssql");
    reveal_strlit("oracle");
    reveal_strlit("firebird");
    assert("sqlite"@.len() == 6);
    assert("mysql"@.len() == 5);
    assert("mariadb"@.len() == 7);
    assert("postgres"@.len() == 8);
    assert("mssql"@.len() == 5);
    assert("oracle"@.len() == 6);
    assert("firebird"@.len() == 8);
    assert("sqlite"@[0] == 's');
    assert("mysql"@[1] == 'y');
    assert("postgres"@[0] == 'p');
    assert("mssql"@[1] == 's');
    assert("oracle"@[0] == 'o');
    assert("firebird"@[0] == 'f');
}

/// A port is written in digits, and null where there is none.
pub proof fn law_port_literal(p: u32)
    ensures
        port_literal(None) == "null"@,
        port_literal(Some(p)) == crate::numbers::dec(p as nat),
        crate::numbers::digits_value(port_literal(Some(p)), 0, port_literal(Some(p)).len() as int)
            == p,
{
    crate::numbers::law_decimal(p as nat);
}

/// A driver is described by its engine, title, port and family, by the fields and the splitting
/// rules of its family, and, for a file-based engine, by what is done before saving.
pub proof fn law_driver_literal(m: EngineMetadataView)
    ensures
        driver_literal(m)
            == "  {\n    ...window['DBGATE_PACKAGES']['dbgate-tools'].driverBase,\n"@
            + "    engine: "@ + crate::encoding::json_string(m.engine) + ",\n    title: "@
            + crate::encoding::json_string(m.display_name) + ",\n    defaultPort: "@
            + port_literal(m.default_port) + ",\n    databaseEngine: "@
            + crate::encoding::json_string(m.database_engine)
            + ",\n    databaseEngineTypes: [\"sql\"],\n    icons: {},\n    showConnectionField: "@
            + field_filter(m.database_engine)
            + ",\n    getQuerySplitterOptions: (usage) => usage == 'editor'\n      ? { ..."@
            + splitter_of(m.database_engine)
            + ", ignoreComments: true, preventSingleLineSplit: true }\n      : "@ + splitter_of(
            m.database_engine,
        ) + ",\n    showConnectionTab: (field) => false"@ + (if m.database_engine == "sqlite"@ {
            ",\n    beforeConnectionSave: "@ + BEFORE_SAVE@
        } else {
            Seq::empty()
        }) + "\n  }"@,
{
}

/// The module of a package holds the drivers of that package and no others, in their order.
pub proof fn law_module(list: Seq<EngineMetadataView>, m: EngineMetadataView, package: Seq<char>)
    ensures
        literals_of(Seq::empty(), package).len() == 0,
        m.name == package ==> literals_of(list.push(m), package) == literals_of(
            list,
            package,
        ).push(driver_literal(m)),
        m.name != package ==> literals_of(list.push(m), package) == literals_of(list, package),
        module_of(list, package)
            == "var plugin = {\"__esModule\": true, \"default\": {\"drivers\": [\n"@
            + crate::text::join(literals_of(list, package), ",\n"@) + "\n]}};"@,
{
    let f = |m: EngineMetadataView| literal_in(m, package);
    crate::rows::law_pick_push(list, f, m);
}

/// The package is the one that the arguments name.
pub proof fn law_package(args: Json, name: Seq<char>)
    requires
        args.text("packageName"@) == Some(name),
    ensures
        package_in(args) == name,
{
}

} // verus!
