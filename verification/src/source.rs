//! Reading a configuration out of a parsed source document.
//!
//! The `toml` crate parses configuration text and the manifest's
//! metadata section (handed over as a `serde_json::Value`) is
//! re-serialized into the same document shape.  The parsed documents
//! are opaque here; the functions below walk them through a small
//! trusted boundary and build the library's own partial-configuration
//! values, whose further treatment is verified.

use vstd::prelude::*;

use crate::config::{
    partial_entries_view, partial_keys_distinct, strings_view, ConfigError, PartialConfig,
    PartialConfigView,
};
use crate::entry::{opt_str_view, PartialEntry, PartialEntryView};

verus! {

#[verifier::external_type_specification]
#[verifier::external_body]
pub struct ExTomlValue(toml::Value);

#[verifier::external_type_specification]
#[verifier::external_body]
pub struct ExTomlDeError(toml::de::Error);

#[verifier::external_type_specification]
#[verifier::external_body]
pub struct ExTomlSerError(toml::ser::Error);

#[verifier::external_type_specification]
#[verifier::external_body]
pub struct ExJsonValue(serde_json::Value);

/// The mathematical value of a parsed TOML document.  A table carries
/// its entries in the order the document value iterates them, with
/// pairwise-distinct keys; `Other` stands for the value kinds this
/// library never reads (floats and datetimes).
pub ghost enum TomlModel {
    Boolean(bool),
    Integer(i64),
    Text(Seq<char>),
    List(Seq<TomlModel>),
    Table(Seq<(Seq<char>, TomlModel)>),
    Other,
}

/// The mathematical value of a JSON value.  Every kind carries its
/// payload — a float as its bit pattern, which is never interpreted
/// here — so that two values with the same model behave the same
/// under re-serialization.
pub ghost enum JsonModel {
    Null,
    Boolean(bool),
    PosInt(u64),
    NegInt(i64),
    Float(u64),
    Text(Seq<char>),
    List(Seq<JsonModel>),
    Object(Seq<(Seq<char>, JsonModel)>),
}

/// Whether a sequence of keyed entries holds the given key.
pub open spec fn entries_contain<T>(es: Seq<(Seq<char>, T)>, key: Seq<char>) -> bool {
    exists|i: int| 0 <= i < es.len() && es[i].0 == key
}

/// The value a sequence of keyed entries holds under the given key
/// (meaningful when the keys are distinct and the key is there).
pub open spec fn entries_get<T>(es: Seq<(Seq<char>, T)>, key: Seq<char>) -> T {
    es[choose|i: int| 0 <= i < es.len() && es[i].0 == key].1
}

/// With pairwise-distinct keys, looking an entry's own key up yields
/// that entry.
pub proof fn lemma_entries_get_at<T>(es: Seq<(Seq<char>, T)>, i: int)
    requires
        0 <= i < es.len(),
        forall|a: int, b: int| 0 <= a < b < es.len() ==> es[a].0 != es[b].0,
    ensures
        entries_contain(es, es[i].0),
        entries_get(es, es[i].0) == es[i].1,
{
    assert(entries_contain(es, es[i].0));
    let j = choose|j: int| 0 <= j < es.len() && es[j].0 == es[i].0;
    if j < i {
        assert(es[j].0 != es[i].0);
    } else if i < j {
        assert(es[i].0 != es[j].0);
    }
}

/// The model of a TOML document value.  This is the contents-name of
/// the declared `toml::Value`: the trusted items below say, for each
/// accessor the library calls, what it returns in terms of this name.
pub uninterp spec fn toml_model(v: toml::Value) -> TomlModel;

/// What `toml::from_str` returns for a text: `None` when the text
/// does not parse, else the parsed document's model.  Parsing is a
/// function of the text alone.
pub uninterp spec fn toml_doc_model(s: Seq<char>) -> Option<TomlModel>;

/// The model of a JSON value: the contents-name of the declared
/// `serde_json::Value`.
pub uninterp spec fn json_model(v: serde_json::Value) -> JsonModel;

/// What `toml::Value::try_from` returns for a JSON value: `None` when
/// the value does not re-serialize as TOML (a null, for instance),
/// else the resulting document's model.  Re-serialization is a
/// function of the value — hence of its model, which keeps every
/// payload — alone.
pub uninterp spec fn toml_of_json(j: JsonModel) -> Option<TomlModel>;

pub assume_specification[ toml::Value::as_bool ](v: &toml::Value) -> (r: Option<bool>)
    ensures
        toml_model(*v) matches TomlModel::Boolean(b) ==> r == Some(b),
        !(toml_model(*v) is Boolean) ==> r is None,
;

pub assume_specification<'a>[ toml::Value::as_str ](v: &'a toml::Value) -> (r: Option<&'a str>)
    ensures
        r is Some <==> toml_model(*v) is Text,
        r matches Some(x) ==> (toml_model(*v) matches TomlModel::Text(s) && x@ == s),
;

pub assume_specification[ toml::Value::as_integer ](v: &toml::Value) -> (r: Option<i64>)
    ensures
        toml_model(*v) matches TomlModel::Integer(n) ==> r == Some(n),
        !(toml_model(*v) is Integer) ==> r is None,
;

pub assume_specification<'a>[ toml::Value::as_array ](v: &'a toml::Value) -> (r: Option<
    &'a Vec<toml::Value>,
>)
    ensures
        r is Some <==> toml_model(*v) is List,
        r matches Some(a) ==> (toml_model(*v) matches TomlModel::List(items) && a@.len()
            == items.len() && (forall|i: int|
            0 <= i < items.len() ==> #[trigger] toml_model(a@[i]) == items[i])),
;

pub assume_specification[ toml::Value::is_table ](v: &toml::Value) -> (r: bool)
    ensures
        r == (toml_model(*v) is Table),
;

pub assume_specification[ serde_json::Value::is_null ](v: &serde_json::Value) -> (r: bool)
    ensures
        r == (json_model(*v) is Null),
;

pub assume_specification[ serde_json::Value::is_object ](v: &serde_json::Value) -> (r: bool)
    ensures
        r == (json_model(*v) is Object),
;

/// Relies on `toml::from_str`: parses TOML text into a document
/// value, a function of the text alone, named by [`toml_doc_model`].
#[verifier::external_body]
pub fn parse_toml(text: &str) -> (r: Result<toml::Value, toml::de::Error>)
    ensures
        r is Err <==> toml_doc_model(text@) is None,
        r matches Ok(doc) ==> (toml_doc_model(text@) matches Some(m) && toml_model(doc) == m),
{
    toml::from_str(text)
}

/// Relies on `toml::Value::get` with a string index: a lookup among a
/// table's entries — whose keys a table holds once each — and `None`
/// on any non-table value.
#[verifier::external_body]
pub fn toml_get<'a>(v: &'a toml::Value, key: &str) -> (r: Option<&'a toml::Value>)
    ensures
        r is Some <==> (toml_model(*v) matches TomlModel::Table(es) && entries_contain(es, key@)),
        r matches Some(x) ==> (toml_model(*v) matches TomlModel::Table(es) && toml_model(*x)
            == entries_get(es, key@)),
{
    v.get(key)
}

/// Relies on `serde_json::Value::get` with a string index: a lookup
/// among an object's members — whose keys an object holds once each —
/// and `None` on any non-object value.
#[verifier::external_body]
pub fn json_get<'a>(v: &'a serde_json::Value, key: &str) -> (r: Option<&'a serde_json::Value>)
    ensures
        r is Some <==> (json_model(*v) matches JsonModel::Object(es) && entries_contain(es, key@)),
        r matches Some(x) ==> (json_model(*v) matches JsonModel::Object(es) && json_model(*x)
            == entries_get(es, key@)),
{
    v.get(key)
}

/// Relies on `toml::Value::try_from`: re-serializes a JSON value as a
/// TOML document value, a function of the value alone, named by
/// [`toml_of_json`].
#[verifier::external_body]
pub fn json_to_toml(v: &serde_json::Value) -> (r: Result<toml::Value, toml::ser::Error>)
    ensures
        r is Err <==> toml_of_json(json_model(*v)) is None,
        r matches Ok(t) ==> (toml_of_json(json_model(*v)) matches Some(m) && toml_model(t) == m),
{
    toml::Value::try_from(v)
}

/// Relies on `toml::Value::as_table` and `toml::map::Map::keys`: the
/// keys of a table, in the table's own entry order, each of which the
/// table holds exactly once — so the names are pairwise distinct.
#[verifier::external_body]
pub fn toml_table_keys(v: &toml::Value) -> (r: Option<Vec<String>>)
    ensures
        r matches Some(ks) ==> forall|i: int, j: int|
            0 <= i < j < ks@.len() ==> ks@[i]@ != ks@[j]@,
        r is Some <==> toml_model(*v) is Table,
        r matches Some(ks) ==> (toml_model(*v) matches TomlModel::Table(es) && ks@.len()
            == es.len() && (forall|i: int| 0 <= i < es.len() ==> #[trigger] ks@[i]@ == es[i].0)),
{
    match v.as_table() {
        Some(t) => Some(t.keys().cloned().collect()),
        None => None,
    }
}

/// The items of a list value (empty on any other kind).
pub open spec fn list_items(m: TomlModel) -> Seq<TomlModel> {
    match m {
        TomlModel::List(items) => items,
        _ => Seq::empty(),
    }
}

/// The entries of a table value (empty on any other kind).
pub open spec fn table_entries(m: TomlModel) -> Seq<(Seq<char>, TomlModel)> {
    match m {
        TomlModel::Table(es) => es,
        _ => Seq::empty(),
    }
}

/// Whether a field, when present, holds a boolean.
pub open spec fn bool_field_ok(es: Seq<(Seq<char>, TomlModel)>, field: Seq<char>) -> bool {
    entries_contain(es, field) ==> entries_get(es, field) is Boolean
}

/// The value of an optional boolean field.
pub open spec fn bool_field(es: Seq<(Seq<char>, TomlModel)>, field: Seq<char>) -> Option<bool> {
    if entries_contain(es, field) {
        match entries_get(es, field) {
            TomlModel::Boolean(b) => Some(b),
            _ => None,
        }
    } else {
        None
    }
}

/// Whether a field, when present, holds a string.
pub open spec fn str_field_ok(es: Seq<(Seq<char>, TomlModel)>, field: Seq<char>) -> bool {
    entries_contain(es, field) ==> entries_get(es, field) is Text
}

/// The value of an optional string field.
pub open spec fn str_field(es: Seq<(Seq<char>, TomlModel)>, field: Seq<char>) -> Option<
    Seq<char>,
> {
    if entries_contain(es, field) {
        match entries_get(es, field) {
            TomlModel::Text(s) => Some(s),
            _ => None,
        }
    } else {
        None
    }
}

/// Whether a value is a list of strings.
pub open spec fn strings_shape_ok(m: TomlModel) -> bool {
    m is List && (forall|i: int| 0 <= i < list_items(m).len() ==> list_items(m)[i] is Text)
}

/// The strings of a list-of-strings value.
pub open spec fn strings_value(m: TomlModel) -> Seq<Seq<char>> {
    list_items(m).map_values(
        |x: TomlModel|
            match x {
                TomlModel::Text(s) => s,
                _ => Seq::<char>::empty(),
            },
    )
}

/// Whether a field, when present, holds a list of strings.
pub open spec fn list_field_ok(es: Seq<(Seq<char>, TomlModel)>, field: Seq<char>) -> bool {
    entries_contain(es, field) ==> strings_shape_ok(entries_get(es, field))
}

/// The value of an optional list-of-strings field.
pub open spec fn list_field(es: Seq<(Seq<char>, TomlModel)>, field: Seq<char>) -> Option<
    Seq<Seq<char>>,
> {
    if entries_contain(es, field) {
        Some(strings_value(entries_get(es, field)))
    } else {
        None
    }
}

/// Whether a value is a well-shaped timeout: a table with a
/// non-negative integer `secs`, and `nanos`, when present, a
/// non-negative integer too.
pub open spec fn timeout_shape_ok(m: TomlModel) -> bool {
    &&& m is Table
    &&& entries_contain(table_entries(m), "nanos"@) ==> (entries_get(table_entries(m), "nanos"@)
        matches TomlModel::Integer(n) && n >= 0)
    &&& entries_contain(table_entries(m), "secs"@)
    &&& entries_get(table_entries(m), "secs"@) matches TomlModel::Integer(k) && k >= 0
}

/// The whole seconds of a well-shaped timeout value.
pub open spec fn timeout_value(m: TomlModel) -> u64 {
    match entries_get(table_entries(m), "secs"@) {
        TomlModel::Integer(k) => if 0 <= k {
            k as u64
        } else {
            0
        },
        _ => 0,
    }
}

/// Whether the `timeout` field, when present, is well-shaped.
pub open spec fn timeout_field_ok(es: Seq<(Seq<char>, TomlModel)>) -> bool {
    entries_contain(es, "timeout"@) ==> timeout_shape_ok(entries_get(es, "timeout"@))
}

/// The value of the optional `timeout` field.
pub open spec fn timeout_field(es: Seq<(Seq<char>, TomlModel)>) -> Option<u64> {
    if entries_contain(es, "timeout"@) {
        Some(timeout_value(entries_get(es, "timeout"@)))
    } else {
        None
    }
}

/// Whether the `commandline` field, when present, holds a non-empty
/// string.  An explicitly empty command would resolve to a silent
/// no-op job — the opposite of what the failing placeholder exists
/// for — so it counts as malformed, like a wrongly-typed field.
pub open spec fn command_field_ok(es: Seq<(Seq<char>, TomlModel)>) -> bool {
    entries_contain(es, "commandline"@) ==> (entries_get(es, "commandline"@) matches
        TomlModel::Text(s) && s.len() > 0)
}

/// Whether a value is a well-shaped matrix entry: a table whose known
/// fields, when present, have their expected shapes, and whose
/// command, when present, is non-empty.
pub open spec fn entry_shape_ok(m: TomlModel) -> bool {
    &&& m is Table
    &&& bool_field_ok(table_entries(m), "run"@)
    &&& bool_field_ok(table_entries(m), "run_cron"@)
    &&& str_field_ok(table_entries(m), "version"@)
    &&& str_field_ok(table_entries(m), "install_commandline"@)
    &&& command_field_ok(table_entries(m))
    &&& timeout_field_ok(table_entries(m))
}

/// A well-shaped matrix entry supplies no empty command.
pub proof fn lemma_entry_shape_command_ok(m: TomlModel)
    requires
        entry_shape_ok(m),
    ensures
        crate::entry::partial_command_ok(entry_value(m)),
{
}

/// The partial entry a well-shaped matrix-entry value supplies.
pub open spec fn entry_value(m: TomlModel) -> PartialEntryView {
    PartialEntryView {
        run: bool_field(table_entries(m), "run"@),
        run_cron: bool_field(table_entries(m), "run_cron"@),
        version: str_field(table_entries(m), "version"@),
        install_commandline: str_field(table_entries(m), "install_commandline"@),
        commandline: str_field(table_entries(m), "commandline"@),
        timeout: timeout_field(table_entries(m)),
    }
}

/// Whether a value is a well-shaped custom-entry table: a table each
/// of whose entries is a well-shaped matrix entry.
pub open spec fn customs_shape_ok(m: TomlModel) -> bool {
    m is Table && (forall|i: int|
        0 <= i < table_entries(m).len() ==> #[trigger] entry_shape_ok(table_entries(m)[i].1))
}

/// The named partial entries a well-shaped custom-entry table
/// supplies, in the table's own order.
pub open spec fn customs_value(m: TomlModel) -> Seq<(Seq<char>, PartialEntryView)> {
    table_entries(m).map_values(
        |p: (Seq<char>, TomlModel)| (p.0, entry_value(p.1)),
    )
}

/// Whether an optional matrix-entry field is well-shaped.
pub open spec fn opt_entry_field_ok(es: Seq<(Seq<char>, TomlModel)>, field: Seq<char>) -> bool {
    entries_contain(es, field) ==> entry_shape_ok(entries_get(es, field))
}

/// The value of an optional matrix-entry field.
pub open spec fn opt_entry_field(es: Seq<(Seq<char>, TomlModel)>, field: Seq<char>) -> Option<
    PartialEntryView,
> {
    if entries_contain(es, field) {
        Some(entry_value(entries_get(es, field)))
    } else {
        None
    }
}

/// Whether the `additional_matrix_entries` field, when present, is a
/// well-shaped custom-entry table.
pub open spec fn customs_field_ok(es: Seq<(Seq<char>, TomlModel)>) -> bool {
    entries_contain(es, "additional_matrix_entries"@) ==> customs_shape_ok(
        entries_get(es, "additional_matrix_entries"@),
    )
}

/// The value of the optional `additional_matrix_entries` field.
pub open spec fn customs_field(es: Seq<(Seq<char>, TomlModel)>) -> Seq<
    (Seq<char>, PartialEntryView),
> {
    if entries_contain(es, "additional_matrix_entries"@) {
        customs_value(entries_get(es, "additional_matrix_entries"@))
    } else {
        Seq::empty()
    }
}

/// Whether a document is a well-shaped configuration: a table whose
/// known fields, when present, have their expected shapes.
pub open spec fn config_shape_ok(m: TomlModel) -> bool {
    &&& m is Table
    &&& opt_entry_field_ok(table_entries(m), "bench"@)
    &&& opt_entry_field_ok(table_entries(m), "clippy"@)
    &&& opt_entry_field_ok(table_entries(m), "rustfmt"@)
    &&& customs_field_ok(table_entries(m))
    &&& str_field_ok(table_entries(m), "cache"@)
    &&& str_field_ok(table_entries(m), "os"@)
    &&& str_field_ok(table_entries(m), "dist"@)
    &&& list_field_ok(table_entries(m), "versions"@)
    &&& str_field_ok(table_entries(m), "test_commandline"@)
    &&& list_field_ok(table_entries(m), "scheduled_test_branches"@)
    &&& str_field_ok(table_entries(m), "test_schedule"@)
}

/// The partial configuration a well-shaped document supplies.
pub open spec fn config_value(m: TomlModel) -> PartialConfigView {
    PartialConfigView {
        bench: opt_entry_field(table_entries(m), "bench"@),
        clippy: opt_entry_field(table_entries(m), "clippy"@),
        rustfmt: opt_entry_field(table_entries(m), "rustfmt"@),
        additional_matrix_entries: customs_field(table_entries(m)),
        cache: str_field(table_entries(m), "cache"@),
        os: str_field(table_entries(m), "os"@),
        dist: str_field(table_entries(m), "dist"@),
        versions: list_field(table_entries(m), "versions"@),
        test_commandline: str_field(table_entries(m), "test_commandline"@),
        scheduled_test_branches: list_field(table_entries(m), "scheduled_test_branches"@),
        test_schedule: str_field(table_entries(m), "test_schedule"@),
    }
}

/// A boolean field of a table: absent is fine, any non-boolean value
/// is a shape error naming the field.
fn opt_bool_field(v: &toml::Value, field: &str) -> (r: Result<Option<bool>, ConfigError>)
    ensures
        r matches Err(e) ==> (e matches ConfigError::BadField { field: f } && f@ == field@),
        toml_model(*v) is Table ==> (r is Ok <==> bool_field_ok(table_entries(toml_model(*v)), field@)),
        r matches Ok(o) ==> o == bool_field(table_entries(toml_model(*v)), field@),
{
    match toml_get(v, field) {
        None => Ok(None),
        Some(x) => match x.as_bool() {
            Some(b) => Ok(Some(b)),
            None => Err(ConfigError::BadField { field: field.to_owned() }),
        },
    }
}

/// A string field of a table: absent is fine, any non-string value is
/// a shape error naming the field.
fn opt_string_field(v: &toml::Value, field: &str) -> (r: Result<Option<String>, ConfigError>)
    ensures
        r matches Err(e) ==> (e matches ConfigError::BadField { field: f } && f@ == field@),
        toml_model(*v) is Table ==> (r is Ok <==> str_field_ok(table_entries(toml_model(*v)), field@)),
        r matches Ok(o) ==> opt_str_view(o) == str_field(table_entries(toml_model(*v)), field@),
{
    match toml_get(v, field) {
        None => Ok(None),
        Some(x) => match x.as_str() {
            Some(s) => Ok(Some(s.to_owned())),
            None => Err(ConfigError::BadField { field: field.to_owned() }),
        },
    }
}

/// An array-of-strings value: anything else is a shape error naming
/// the field it came from.
pub(crate) fn strings_from_toml(x: &toml::Value, field: &str) -> (r: Result<Vec<String>, ConfigError>)
    ensures
        r matches Err(e) ==> (e matches ConfigError::BadField { field: f } && f@ == field@),
        r is Ok <==> strings_shape_ok(toml_model(*x)),
        r matches Ok(out) ==> strings_view(out) == strings_value(toml_model(*x)),
{
    let ghost m = toml_model(*x);
    match x.as_array() {
        None => Err(ConfigError::BadField { field: field.to_owned() }),
        Some(items) => {
            let mut out: Vec<String> = Vec::new();
            let mut i: usize = 0;
            while i < items.len()
                invariant
                    i <= items.len(),
                    m == toml_model(*x),
                    m is List,
                    items@.len() == list_items(m).len(),
                    forall|j: int|
                        0 <= j < items@.len() ==> #[trigger] toml_model(items@[j])
                            == list_items(m)[j],
                    out@.len() == i,
                    forall|j: int| 0 <= j < i ==> list_items(m)[j] is Text,
                    forall|j: int|
                        0 <= j < i ==> #[trigger] out@[j]@ == strings_value(m)[j],
                decreases items.len() - i,
            {
                match items[i].as_str() {
                    Some(s) => out.push(s.to_owned()),
                    None => {
                        return Err(ConfigError::BadField { field: field.to_owned() });
                    },
                }
                i += 1;
            }
            proof {
                assert(strings_view(out) =~= strings_value(m));
            }
            Ok(out)
        },
    }
}

/// A timeout value: a table holding at least a non-negative integer
/// number of seconds under `secs`, optionally a non-negative integer
/// under `nanos` (which a whole-second timeout ignores).
fn timeout_from_toml(x: &toml::Value) -> (r: Result<u64, ConfigError>)
    ensures
        r matches Err(e) ==> (e matches ConfigError::BadField { field: f } && f@ == "timeout"@),
        r is Ok <==> timeout_shape_ok(toml_model(*x)),
        r matches Ok(t) ==> t == timeout_value(toml_model(*x)),
{
    if !x.is_table() {
        return Err(ConfigError::BadField { field: "timeout".to_owned() });
    }
    match toml_get(x, "nanos") {
        None => (),
        Some(n) => match n.as_integer() {
            Some(i) if i >= 0 => (),
            _ => {
                return Err(ConfigError::BadField { field: "timeout".to_owned() });
            },
        },
    }
    match toml_get(x, "secs") {
        None => Err(ConfigError::BadField { field: "timeout".to_owned() }),
        Some(s) => match s.as_integer() {
            Some(i) if i >= 0 => Ok(i as u64),
            _ => Err(ConfigError::BadField { field: "timeout".to_owned() }),
        },
    }
}

/// One matrix entry as a source document supplies it: a table whose
/// known fields, when present, must have their expected shapes — a
/// supplied command must be non-empty — while unknown fields are
/// ignored.
pub fn partial_entry_from_toml(v: &toml::Value) -> (r: Result<PartialEntry, ConfigError>)
    ensures
        r matches Err(e) ==> e matches ConfigError::BadField { .. },
        r is Ok <==> entry_shape_ok(toml_model(*v)),
        r matches Ok(p) ==> p@ == entry_value(toml_model(*v)),
{
    if !v.is_table() {
        return Err(ConfigError::BadField { field: "matrix entry".to_owned() });
    }
    let run = match opt_bool_field(v, "run") {
        Ok(o) => o,
        Err(e) => {
            return Err(e);
        },
    };
    let run_cron = match opt_bool_field(v, "run_cron") {
        Ok(o) => o,
        Err(e) => {
            return Err(e);
        },
    };
    let version = match opt_string_field(v, "version") {
        Ok(o) => o,
        Err(e) => {
            return Err(e);
        },
    };
    let install_commandline = match opt_string_field(v, "install_commandline") {
        Ok(o) => o,
        Err(e) => {
            return Err(e);
        },
    };
    let commandline = match opt_string_field(v, "commandline") {
        Ok(o) => o,
        Err(e) => {
            return Err(e);
        },
    };
    match &commandline {
        Some(c) => {
            if c.as_str().is_empty() {
                return Err(ConfigError::BadField { field: "commandline".to_owned() });
            }
        },
        None => (),
    }
    let timeout = match toml_get(v, "timeout") {
        None => None,
        Some(x) => match timeout_from_toml(x) {
            Ok(t) => Some(t),
            Err(e) => {
                return Err(e);
            },
        },
    };
    let p = PartialEntry {
        run,
        run_cron,
        version,
        install_commandline,
        commandline,
        timeout,
    };
    proof {
        assert(p@ =~= entry_value(toml_model(*v)));
    }
    Ok(p)
}

/// The user-named custom entries: a table from names to matrix
/// entries.  The names come out pairwise distinct, as the keys of a
/// table are.
pub fn customs_from_toml(x: &toml::Value) -> (r: Result<Vec<(String, PartialEntry)>, ConfigError>)
    ensures
        r matches Err(e) ==> e matches ConfigError::BadField { .. },
        r matches Ok(entries) ==> forall|i: int, j: int|
            0 <= i < j < entries@.len() ==> entries@[i].0@ != entries@[j].0@,
        r is Ok <==> customs_shape_ok(toml_model(*x)),
        r matches Ok(entries) ==> partial_entries_view(entries) == customs_value(toml_model(*x)),
{
    let ghost m = toml_model(*x);
    let ghost es = table_entries(m);
    match toml_table_keys(x) {
        None => Err(ConfigError::BadField { field: "additional_matrix_entries".to_owned() }),
        Some(keys) => {
            proof {
                assert(forall|a: int, b: int|
                    0 <= a < b < es.len() ==> es[a].0 == keys@[a]@ && es[b].0 == keys@[b]@);
            }
            let mut out: Vec<(String, PartialEntry)> = Vec::new();
            let mut i: usize = 0;
            while i < keys.len()
                invariant
                    i <= keys.len(),
                    out@.len() == i,
                    m == toml_model(*x),
                    m is Table,
                    es == table_entries(m),
                    keys@.len() == es.len(),
                    forall|j: int| 0 <= j < es.len() ==> #[trigger] keys@[j]@ == es[j].0,
                    forall|j: int, k: int|
                        0 <= j < k < keys@.len() ==> keys@[j]@ != keys@[k]@,
                    forall|j: int| 0 <= j < i ==> #[trigger] entry_shape_ok(es[j].1),
                    forall|j: int|
                        0 <= j < i ==> (#[trigger] out@[j]).0@ == es[j].0 && out@[j].1@
                            == entry_value(es[j].1),
                decreases keys.len() - i,
            {
                proof {
                    assert forall|a: int, b: int| 0 <= a < b < es.len() implies es[a].0
                        != es[b].0 by {
                        assert(keys@[a]@ == es[a].0);
                        assert(keys@[b]@ == es[b].0);
                        assert(keys@[a]@ != keys@[b]@);
                    }
                    lemma_entries_get_at(es, i as int);
                }
                let looked_up = match toml_get(x, keys[i].as_str()) {
                    Some(ev) => ev,
                    None => {
                        return Err(
                            ConfigError::BadField { field: "additional_matrix_entries".to_owned() },
                        );
                    },
                };
                match partial_entry_from_toml(looked_up) {
                    Ok(pe) => out.push((keys[i].clone(), pe)),
                    Err(e) => {
                        proof {
                            assert(!entry_shape_ok(es[i as int].1));
                        }
                        return Err(e);
                    },
                }
                i += 1;
            }
            proof {
                assert(partial_entries_view(out) =~= customs_value(m));
            }
            Ok(out)
        },
    }
}

/// A whole configuration as one source document supplies it.
pub fn partial_config_from_toml(v: &toml::Value) -> (r: Result<PartialConfig, ConfigError>)
    ensures
        r matches Err(e) ==> e matches ConfigError::BadField { .. },
        r matches Ok(p) ==> partial_keys_distinct(p@),
        r is Ok <==> config_shape_ok(toml_model(*v)),
        r matches Ok(p) ==> p@ == config_value(toml_model(*v)),
        r matches Ok(p) ==> crate::config::partial_commands_nonempty(p@),
{
    if !v.is_table() {
        return Err(ConfigError::BadField { field: "configuration".to_owned() });
    }
    let bench = match toml_get(v, "bench") {
        None => None,
        Some(x) => match partial_entry_from_toml(x) {
            Ok(pe) => Some(pe),
            Err(e) => {
                return Err(e);
            },
        },
    };
    let clippy = match toml_get(v, "clippy") {
        None => None,
        Some(x) => match partial_entry_from_toml(x) {
            Ok(pe) => Some(pe),
            Err(e) => {
                return Err(e);
            },
        },
    };
    let rustfmt = match toml_get(v, "rustfmt") {
        None => None,
        Some(x) => match partial_entry_from_toml(x) {
            Ok(pe) => Some(pe),
            Err(e) => {
                return Err(e);
            },
        },
    };
    let additional_matrix_entries = match toml_get(v, "additional_matrix_entries") {
        None => {
            let empty_entries: Vec<(String, PartialEntry)> = Vec::new();
            proof {
                assert(partial_entries_view(empty_entries) =~= Seq::<(
                    Seq<char>,
                    PartialEntryView,
                )>::empty());
            }
            empty_entries
        },
        Some(x) => match customs_from_toml(x) {
            Ok(entries) => entries,
            Err(e) => {
                return Err(e);
            },
        },
    };
    let cache = match opt_string_field(v, "cache") {
        Ok(o) => o,
        Err(e) => {
            return Err(e);
        },
    };
    let os = match opt_string_field(v, "os") {
        Ok(o) => o,
        Err(e) => {
            return Err(e);
        },
    };
    let dist = match opt_string_field(v, "dist") {
        Ok(o) => o,
        Err(e) => {
            return Err(e);
        },
    };
    let versions = match toml_get(v, "versions") {
        None => None,
        Some(x) => match strings_from_toml(x, "versions") {
            Ok(vs) => Some(vs),
            Err(e) => {
                return Err(e);
            },
        },
    };
    let test_commandline = match opt_string_field(v, "test_commandline") {
        Ok(o) => o,
        Err(e) => {
            return Err(e);
        },
    };
    let scheduled_test_branches = match toml_get(v, "scheduled_test_branches") {
        None => None,
        Some(x) => match strings_from_toml(x, "scheduled_test_branches") {
            Ok(vs) => Some(vs),
            Err(e) => {
                return Err(e);
            },
        },
    };
    let test_schedule = match opt_string_field(v, "test_schedule") {
        Ok(o) => o,
        Err(e) => {
            return Err(e);
        },
    };
    let p = PartialConfig {
        bench,
        clippy,
        rustfmt,
        additional_matrix_entries,
        cache,
        os,
        dist,
        versions,
        test_commandline,
        scheduled_test_branches,
        test_schedule,
    };
    proof {
        assert(p@ =~= config_value(toml_model(*v)));
        let m = toml_model(*v);
        let es = table_entries(m);
        if entries_contain(es, "bench"@) {
            lemma_entry_shape_command_ok(entries_get(es, "bench"@));
        }
        if entries_contain(es, "clippy"@) {
            lemma_entry_shape_command_ok(entries_get(es, "clippy"@));
        }
        if entries_contain(es, "rustfmt"@) {
            lemma_entry_shape_command_ok(entries_get(es, "rustfmt"@));
        }
        assert forall|i: int|
            0 <= i < p@.additional_matrix_entries.len() implies #[trigger] crate::entry::partial_command_ok(
            p@.additional_matrix_entries[i].1,
        ) by {
            if entries_contain(es, "additional_matrix_entries"@) {
                let cm = entries_get(es, "additional_matrix_entries"@);
                assert(customs_shape_ok(cm));
                assert(p@.additional_matrix_entries[i].1 == entry_value(table_entries(cm)[i].1));
                assert(entry_shape_ok(table_entries(cm)[i].1));
                lemma_entry_shape_command_ok(table_entries(cm)[i].1);
            }
        }
    }
    Ok(p)
}

} // verus!
