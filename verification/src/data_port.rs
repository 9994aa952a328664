//! Whole-workbench export and import as one JSON document.

use vstd::prelude::*;

use crate::db::{query_with_columns, Database, SqlValue};
use crate::domain::{internal, str_eq, validation, DomainError};
use crate::json::{json_field, json_i64, json_render, json_str, number_text, render_json, JsonValue};
use crate::search::SearchService;
use crate::store::{begin, connect, fetch, finish, run};

verus! {

/// The `format` of an export document.
pub const EXPORT_FORMAT: &'static str = "workbench-export";
/// The `version` of an export document.
pub const EXPORT_VERSION: u32 = 1;

/// The tables an export holds, parents before children.
pub const EXPORT_TABLES: [&'static str; 16] = [
    "settings",
    "smoke_notes",
    "task_lists",
    "tags",
    "task_series",
    "tasks",
    "task_tags",
    "reminders",
    "reminder_occurrences",
    "memories",
    "memory_tags",
    "assets",
    "derived_texts",
    "clipboard_items",
    "entity_links",
    "item_templates",
];

/// The tables an import empties, children before parents.
pub const CLEAR_ORDER: [&'static str; 16] = [
    "reminder_occurrences",
    "reminders",
    "memory_tags",
    "task_tags",
    "entity_links",
    "derived_texts",
    "clipboard_items",
    "assets",
    "memories",
    "item_templates",
    "tasks",
    "task_series",
    "tags",
    "task_lists",
    "smoke_notes",
    "settings",
];

pub struct ImportResult {
    pub tables: usize,
    pub rows: usize,
}

pub open spec fn hex_digit(d: u8) -> char {
    if d < 10 {
        ((d + 48) as u8) as char
    } else {
        ((d + 87) as u8) as char
    }
}

/// Lowercase hexadecimal, two digits per byte (`hex::encode`).
pub open spec fn hex_text(b: Seq<u8>) -> Seq<char>
    decreases b.len(),
{
    if b.len() == 0 {
        Seq::empty()
    } else {
        hex_text(b.drop_last()).push(hex_digit(b.last() / 16)).push(hex_digit(b.last() % 16))
    }
}

fn hex_digit_of(d: u8) -> (r: char)
    requires
        d < 16,
    ensures
        r == hex_digit(d),
{
    if d < 10 {
        (d + 48) as char
    } else {
        (d + 87) as char
    }
}

pub fn hex_encode(b: &Vec<u8>) -> (r: String)
    ensures
        r@ == hex_text(b@),
{
    let mut out: Vec<char> = Vec::new();
    let mut i: usize = 0;
    while i < b.len()
        invariant
            i <= b@.len(),
            out@ == hex_text(b@.take(i as int)),
        decreases b@.len() - i,
    {
        assert(b@.take(i + 1).drop_last() =~= b@.take(i as int));
        let x = b[i];
        out.push(hex_digit_of(x / 16));
        out.push(hex_digit_of(x % 16));
        i = i + 1;
    }
    assert(b@.take(i as int) =~= b@);
    crate::chars::string_of(out.as_slice())
}

/// How a stored value is written in an export: NULL as null, an integer
/// as a number, text as a string, a blob as `base64:` and its hex digits.
pub open spec fn exported_as(v: SqlValue, j: JsonValue) -> bool {
    match v {
        SqlValue::Null => j is Null,
        SqlValue::Integer(i) => j is Number && crate::json::json_i64(j) == Some(i),
        SqlValue::Text(s) => j matches JsonValue::Str(t) && t@ == s@,
        SqlValue::Blob(b) => j matches JsonValue::Str(t) && t@ == "base64:"@ + hex_text(b@),
    }
}

/// Two stored values with the same contents.
pub open spec fn same_sql(a: SqlValue, b: SqlValue) -> bool {
    match (a, b) {
        (SqlValue::Null, SqlValue::Null) => true,
        (SqlValue::Integer(x), SqlValue::Integer(y)) => x == y,
        (SqlValue::Text(x), SqlValue::Text(y)) => x@ == y@,
        (SqlValue::Blob(x), SqlValue::Blob(y)) => x@ == y@,
        _ => false,
    }
}

/// A stored value as JSON.
pub fn sql_to_json(v: &SqlValue) -> (r: JsonValue)
    ensures
        exported_as(*v, r),
{
    match v {
        SqlValue::Null => JsonValue::Null,
        SqlValue::Integer(i) => {
            JsonValue::Number(number_text(*i))
        },
        SqlValue::Text(s) => JsonValue::Str(s.clone()),
        SqlValue::Blob(b) => {
            let mut t = "base64:".to_string();
            t.append(hex_encode(b).as_str());
            JsonValue::Str(t)
        },
    }
}

/// The value stored for a JSON value: null as NULL, a boolean as 1 or
/// 0, an integer as an integer, a string as text, anything else as its
/// JSON text.
pub open spec fn stored_value(v: JsonValue) -> SqlValue {
    match v {
        JsonValue::Null => SqlValue::Null,
        JsonValue::Bool(b) => SqlValue::Integer(if b { 1 } else { 0 }),
        JsonValue::Number(t) => match json_i64(v) {
            Some(i) => SqlValue::Integer(i),
            None => SqlValue::Text(t),
        },
        JsonValue::Str(s) => SqlValue::Text(s),
        _ => SqlValue::Null,
    }
}

/// An export read back stores what was exported: NULL, integers and texts
/// come back unchanged (a blob comes back as its `base64:` text).
pub proof fn export_value_roundtrip(v: SqlValue, j: JsonValue)
    requires
        exported_as(v, j),
        !(v is Blob),
    ensures
        same_sql(stored_value(j), v),
{
}

pub fn json_to_sql(v: &JsonValue) -> (r: SqlValue)
    ensures
        !(v is Array || v is Object) ==> r == stored_value(*v),
        (v is Array || v is Object) ==> crate::db::sql_text(r) == Some(json_render(*v)),
{
    match v {
        JsonValue::Null => SqlValue::Null,
        JsonValue::Bool(b) => SqlValue::Integer(
            if *b {
                1
            } else {
                0
            },
        ),
        JsonValue::Number(t) => match v.as_i64() {
            Some(i) => SqlValue::Integer(i),
            None => SqlValue::Text(t.clone()),
        },
        JsonValue::Str(s) => SqlValue::Text(s.clone()),
        _ => SqlValue::Text(render_json(v)),
    }
}

/// The statement that inserts an exported row: its columns in order and
/// numbered placeholders `?1, ?2, …`.
pub fn insert_statement(table: &str, obj: &Vec<(String, JsonValue)>) -> (r: (String, Vec<SqlValue>))
    ensures
        r.1@.len() == obj@.len(),
        forall|i: int|
            0 <= i < obj@.len() && !(obj@[i].1 is Array || obj@[i].1 is Object) ==> (#[trigger] r.1@[i])
                == stored_value(obj@[i].1),
{
    let mut sql = "INSERT INTO ".to_string();
    sql.append(table);
    sql.append(" (");
    let mut placeholders = String::new();
    let mut values: Vec<SqlValue> = Vec::new();
    let mut i: usize = 0;
    while i < obj.len()
        invariant
            i <= obj@.len(),
            values@.len() == i,
            forall|k: int|
                0 <= k < i && !(obj@[k].1 is Array || obj@[k].1 is Object) ==> (#[trigger] values@[k])
                    == stored_value(obj@[k].1),
        decreases obj@.len() - i,
    {
        if i > 0 {
            sql.append(", ");
            placeholders.append(", ");
        }
        sql.append(obj[i].0.as_str());
        placeholders.append("?");
        let n: i64 = if i < 0x7fff_ffff {
            (i as i64) + 1
        } else {
            0x7fff_ffff
        };
        placeholders.append(number_text(n).as_str());
        values.push(json_to_sql(&obj[i].1));
        i = i + 1;
    }
    sql.append(") VALUES (");
    sql.append(placeholders.as_str());
    sql.append(")");
    (sql, values)
}

/// Whether a document has the shape of an export: an object whose
/// `format`, `exportedAt` and `appVersion` are strings, whose `version`
/// and `schemaVersion` are integers (the version fitting in 32 bits) and
/// whose `data` is an object.
pub open spec fn export_shaped(doc: JsonValue) -> bool {
    &&& doc is Object
    &&& json_field(doc, "format"@) matches Some(f) && json_str(f) is Some
    &&& json_field(doc, "exportedAt"@) matches Some(f) && json_str(f) is Some
    &&& json_field(doc, "appVersion"@) matches Some(f) && json_str(f) is Some
    &&& json_field(doc, "version"@) matches Some(f) && json_i64(f) matches Some(n) && 0 <= n <= u32::MAX
    &&& json_field(doc, "schemaVersion"@) matches Some(f) && json_i64(f) is Some
    &&& json_field(doc, "data"@) matches Some(d) && d is Object
}

/// Whether a document is an export this version can import.
pub open spec fn importable(doc: JsonValue) -> bool {
    &&& export_shaped(doc)
    &&& json_str(json_field(doc, "format"@).unwrap()) == Some("workbench-export"@)
    &&& json_i64(json_field(doc, "version"@).unwrap()) == Some(1i64)
}

fn is_text(v: Option<&JsonValue>) -> (r: bool)
    ensures
        r == (v matches Some(f) && json_str(*f) is Some),
{
    match v {
        Some(f) => f.as_str().is_some(),
        None => false,
    }
}

/// Reads an export document and checks it can be imported; gives its
/// `data` member.
pub fn read_export(raw: &str) -> (r: Result<JsonValue, DomainError>)
    ensures
        r is Ok <==> (crate::json::json_parse(raw@) matches Some(doc) && importable(doc)),
        r matches Ok(d) ==> (crate::json::json_parse(raw@) matches Some(doc) && json_field(doc, "data"@) == Some(d)),
        r matches Err(e) ==> e is Validation,
{
    let doc = match crate::json::parse_json(raw) {
        Some(d) => d,
        None => return Err(validation("无效的导出文件: 不是 JSON")),
    };
    let version = match doc.get("version") {
        Some(v) => v.as_i64(),
        None => None,
    };
    let schema = match doc.get("schemaVersion") {
        Some(v) => v.as_i64(),
        None => None,
    };
    let data_ok = match doc.get("data") {
        Some(JsonValue::Object(_)) => true,
        _ => false,
    };
    let shaped = match &doc {
        JsonValue::Object(_) => true,
        _ => false,
    } && is_text(doc.get("format")) && is_text(doc.get("exportedAt")) && is_text(doc.get("appVersion"))
        && match version {
        Some(n) => 0 <= n && n <= 0xffff_ffff,
        None => false,
    } && schema.is_some() && data_ok;
    if !shaped {
        return Err(validation("无效的导出文件: 结构不符"));
    }
    let format_ok = match doc.get("format") {
        Some(f) => match f.as_str() {
            Some(s) => str_eq(s, EXPORT_FORMAT),
            None => false,
        },
        None => false,
    };
    if !format_ok {
        return Err(validation("不是工作台导出文件"));
    }
    let v = match version {
        Some(n) => n,
        None => 0,
    };
    if v != 1 {
        let mut m = "不支持的导出版本: ".to_string();
        m.append(number_text(v).as_str());
        return Err(DomainError::Validation(m));
    }
    match doc.take_member("data") {
        Some(d) => Ok(d),
        None => Err(validation("无效的导出文件: 结构不符")),
    }
}

/// The rows of a table in an export's data: none when the table is
/// missing; refused when it is not an array.
pub fn table_rows<'a>(data: &'a JsonValue, table: &str) -> (r: Result<Option<&'a Vec<JsonValue>>, DomainError>)
    ensures
        match json_field(*data, table@) {
            None => r matches Ok(None),
            Some(JsonValue::Array(items)) => r matches Ok(Some(v)) && *v == items,
            Some(_) => r matches Err(DomainError::Validation(_)),
        },
{
    match data.get(table) {
        None => Ok(None),
        Some(v) => match v {
            JsonValue::Array(items) => Ok(Some(items)),
            _ => {
                let mut m = "表 ".to_string();
                m.append(table);
                m.append(" 数据格式错误");
                Err(DomainError::Validation(m))
            },
        },
    }
}

/// The export document: its header fields and the data of each table.
pub fn export_document(tables: Vec<(String, JsonValue)>, exported_at: String, schema_version: i64, app_version: String) -> (r:
    JsonValue)
    ensures
        r matches JsonValue::Object(m) && m@.len() == 6,
        json_field(r, "format"@) matches Some(f) && json_str(f) == Some("workbench-export"@),
        json_field(r, "version"@) matches Some(f) && json_i64(f) == Some(1i64),
        json_field(r, "schemaVersion"@) matches Some(f) && json_i64(f) == Some(schema_version),
        json_field(r, "exportedAt"@) matches Some(f) && json_str(f) == Some(exported_at@),
        json_field(r, "appVersion"@) matches Some(f) && json_str(f) == Some(app_version@),
        json_field(r, "data"@) == Some(JsonValue::Object(tables)),
{
    let version = JsonValue::Number(number_text(1));
    let schema = JsonValue::Number(number_text(schema_version));
    proof {
        reveal_strlit("workbench-export");
        reveal_strlit("format");
        reveal_strlit("version");
        reveal_strlit("exportedAt");
        reveal_strlit("schemaVersion");
        reveal_strlit("appVersion");
        reveal_strlit("data");
    }
    let mut m: Vec<(String, JsonValue)> = Vec::new();
    m.push(("format".to_string(), JsonValue::Str(EXPORT_FORMAT.to_string())));
    m.push(("version".to_string(), version));
    m.push(("exportedAt".to_string(), JsonValue::Str(exported_at)));
    m.push(("schemaVersion".to_string(), schema));
    m.push(("appVersion".to_string(), JsonValue::Str(app_version)));
    m.push(("data".to_string(), JsonValue::Object(tables)));
    proof {
        let e = m@;
        assert("format"@.len() == 6);
        assert("version"@.len() == 7);
        assert("exportedAt"@.len() == 10);
        assert("schemaVersion"@.len() == 13);
        assert("appVersion"@.len() == 10);
        assert("data"@.len() == 4);
        assert("exportedAt"@[0] != "appVersion"@[0]);
        crate::json::lemma_member_at(e, "format"@, 0);
        crate::json::lemma_member_at(e, "version"@, 1);
        crate::json::lemma_member_at(e, "exportedAt"@, 2);
        crate::json::lemma_member_at(e, "schemaVersion"@, 3);
        crate::json::lemma_member_at(e, "appVersion"@, 4);
        crate::json::lemma_member_at(e, "data"@, 5);
    }
    JsonValue::Object(m)
}

pub struct DataPortService {
    pub db: Database,
    pub search: SearchService,
}

impl DataPortService {
    pub fn new(db: Database) -> (r: Self)
        ensures
            r.db.path@ == db.path@,
    {
        DataPortService { search: SearchService::new(db.clone()), db }
    }

    /// Every exported table's rows as one indented JSON document, with
    /// the schema version, the export time and the given app version.
    pub fn export_json(&self, app_version: &str) -> (r: Result<String, DomainError>)
        ensures
            r matches Ok(s) ==> exists|doc: JsonValue|
                s@ == crate::json::json_render_pretty(doc) && importable(doc),
    {
        let conn = connect(&self.db)?;
        let rows = fetch(&conn, "SELECT COALESCE(MAX(version), 0) FROM schema_migrations", &[])?;
        let schema_version = crate::rows::single_int(&rows)?;
        let mut tables: Vec<(String, JsonValue)> = Vec::new();
        let mut k: usize = 0;
        while k < 16
            invariant
                k <= 16,
            decreases 16 - k,
        {
            let table = EXPORT_TABLES[k];
            let mut sql = "SELECT * FROM ".to_string();
            sql.append(table);
            let (names, data) = match query_with_columns(&conn, sql.as_str()) {
                Ok(x) => x,
                Err(e) => return Err(internal(e)),
            };
            let mut items: Vec<JsonValue> = Vec::new();
            let mut i: usize = 0;
            while i < data.len()
                invariant
                    i <= data@.len(),
                decreases data@.len() - i,
            {
                let mut obj: Vec<(String, JsonValue)> = Vec::new();
                let mut c: usize = 0;
                while c < names.len() && c < data[i].len()
                    invariant
                        c <= names@.len(),
                        i < data@.len(),
                    decreases names@.len() - c,
                {
                    obj.push((names[c].clone(), sql_to_json(&data[i][c])));
                    c = c + 1;
                }
                items.push(JsonValue::Object(obj));
                i = i + 1;
            }
            tables.push((table.to_string(), JsonValue::Array(items)));
            k = k + 1;
        }
        let doc = export_document(tables, crate::clock::now_stamp(), schema_version, app_version.to_string());
        Ok(crate::json::render_json_pretty(&doc))
    }

    /// Replaces every exported table with an export's data, in one
    /// transaction, then rebuilds the search index. A document that is
    /// not an importable export, or whose table data is not an array, is
    /// refused before anything changes.
    pub fn import_json(&self, raw: &str) -> (r: Result<ImportResult, DomainError>)
        ensures
            !(crate::json::json_parse(raw@) matches Some(doc) && importable(doc)) ==> r matches Err(
                DomainError::Validation(_),
            ),
            r matches Ok(res) ==> res.tables <= 16,
    {
        let data = match read_export(raw) {
            Ok(d) => d,
            Err(e) => return Err(e),
        };
        let mut k: usize = 0;
        while k < 16
            invariant
                k <= 16,
                crate::json::json_parse(raw@) matches Some(doc) && importable(doc),
            decreases 16 - k,
        {
            match table_rows(&data, EXPORT_TABLES[k]) {
                Ok(_) => {},
                Err(e) => return Err(e),
            }
            k = k + 1;
        }
        let conn = connect(&self.db)?;
        begin(&conn)?;
        let outcome = self.replace_all(&conn, &data);
        let result = finish(&conn, outcome)?;
        self.search.rebuild_all()?;
        Ok(result)
    }

    fn replace_all(&self, conn: &rusqlite::Connection, data: &JsonValue) -> (r: Result<ImportResult, DomainError>)
        ensures
            r matches Ok(res) ==> res.tables <= 16,
    {
        let mut k: usize = 0;
        while k < 16
            invariant
                k <= 16,
            decreases 16 - k,
        {
            let mut sql = "DELETE FROM ".to_string();
            sql.append(CLEAR_ORDER[k]);
            run(conn, sql.as_str(), &[])?;
            k = k + 1;
        }
        let _ = run(conn, "DELETE FROM search_index", &[]);
        let _ = run(conn, "DELETE FROM search_documents", &[]);
        let mut tables: usize = 0;
        let mut rows: usize = 0;
        let mut k: usize = 0;
        while k < 16
            invariant
                k <= 16,
                tables <= k,
            decreases 16 - k,
        {
            let table = EXPORT_TABLES[k];
            match table_rows(data, table)? {
                None => {},
                Some(items) => {
                    tables = tables + 1;
                    let mut i: usize = 0;
                    while i < items.len()
                        invariant
                            i <= items@.len(),
                            tables <= k + 1,
                        decreases items@.len() - i,
                    {
                        if let JsonValue::Object(obj) = &items[i] {
                            if obj.len() > 0 {
                                let (sql, values) = insert_statement(table, obj);
                                match crate::db::execute(conn, sql.as_str(), values.as_slice()) {
                                    Ok(_) => {},
                                    Err(e) => {
                                        let mut m = "导入 ".to_string();
                                        m.append(table);
                                        m.append(" 失败: ");
                                        m.append(e.message.as_str());
                                        return Err(DomainError::Internal(m));
                                    },
                                }
                            }
                            if rows < usize::MAX {
                                rows = rows + 1;
                            }
                        }
                        i = i + 1;
                    }
                },
            }
            k = k + 1;
        }
        Ok(ImportResult { tables, rows })
    }
}

} // verus!
