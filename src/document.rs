//! The persisted form of the store: a TOML document whose top-level tables are
//! environments. Parsing, editing and writing TOML are left to the `toml`
//! crate; which entries become environments is decided here.

use vstd::prelude::*;
use crate::environment::Environment;
use crate::pairs::{assoc, has_key, keys_distinct, lemma_assoc_dom, string_pairs};
use crate::store::Store;
use crate::text::owned;

verus! {

#[verifier::external_type_specification]
#[verifier::external_body]
pub struct ExTomlValue(toml::Value);

#[verifier::external_type_specification]
#[verifier::external_body]
#[verifier::reject_recursive_types(K)]
#[verifier::reject_recursive_types(V)]
pub struct ExTomlMap<K, V>(toml::map::Map<K, V>);

#[verifier::external_type_specification]
#[verifier::external_body]
pub struct ExTomlDeError(toml::de::Error);

#[verifier::external_type_specification]
#[verifier::external_body]
pub struct ExTomlSerError(toml::ser::Error);

/// What the store reads of a TOML value: a string's text, a table's entries,
/// or nothing more (integers, floats, booleans, dates, arrays).
pub enum TomlModel {
    Text(Seq<char>),
    Table(Map<Seq<char>, TomlModel>),
    Other,
}

/// What a TOML table holds, entry by entry.
pub uninterp spec fn table_model(t: toml::Table) -> Map<Seq<char>, TomlModel>;

/// What a TOML value is.
pub uninterp spec fn value_model(v: toml::Value) -> TomlModel;

/// The document that a text parses to, if it is valid TOML.
pub uninterp spec fn parsed_document(text: Seq<char>) -> Option<Map<Seq<char>, TomlModel>>;

/// The entries of a vector of key/value pairs, each value seen through its model.
pub open spec fn entry_models(v: Seq<(String, toml::Value)>) -> Seq<(Seq<char>, TomlModel)> {
    v.map_values(|e: (String, toml::Value)| (e.0@, value_model(e.1)))
}

/// The string-valued entries of a table; every other entry is dropped.
pub open spec fn text_entries(m: Map<Seq<char>, TomlModel>) -> Map<Seq<char>, Seq<char>> {
    Map::new(|k: Seq<char>| m.contains_key(k) && m[k] is Text, |k: Seq<char>| m[k]->Text_0)
}

/// Each table of a document as an environment of its string entries.
pub open spec fn tables_of(doc: Map<Seq<char>, TomlModel>) -> Map<Seq<char>, Map<Seq<char>, Seq<char>>> {
    Map::new(
        |k: Seq<char>| doc.contains_key(k) && doc[k] is Table,
        |k: Seq<char>| text_entries(doc[k]->Table_0),
    )
}

/// The store that a document describes: one environment per table, and the
/// string entries at the top level, if any, as the environment `global`
/// (unless a table of that name takes its place).
pub open spec fn store_of(doc: Map<Seq<char>, TomlModel>) -> Map<Seq<char>, Map<Seq<char>, Seq<char>>> {
    let root = text_entries(doc);
    if root != Map::<Seq<char>, Seq<char>>::empty() && !tables_of(doc).contains_key("global"@) {
        tables_of(doc).insert("global"@, root)
    } else {
        tables_of(doc)
    }
}

/// The table that saving writes for a set of variables: each value as a string.
pub open spec fn variables_model(vars: Seq<(Seq<char>, Seq<char>)>) -> Map<Seq<char>, TomlModel> {
    assoc(vars).map_values(|v: Seq<char>| TomlModel::Text(v))
}

/// A document after the environment `name` is saved with `vars`: that one
/// table is replaced or added, every other entry is kept.
pub open spec fn saved_document(
    doc: Map<Seq<char>, TomlModel>,
    name: Seq<char>,
    vars: Seq<(Seq<char>, Seq<char>)>,
) -> Map<Seq<char>, TomlModel> {
    doc.insert(name, TomlModel::Table(variables_model(vars)))
}

/// Why saving an environment into a document failed, with toml's message.
pub enum SaveError {
    /// The existing document is not valid TOML.
    Parse(String),
    /// The edited document could not be written out as TOML that reads back.
    Render(String),
}

/// Relies on `toml::Table`'s `FromStr` (toml's document deserializer): the
/// text either parses to a table or is refused, the same way each time.
#[verifier::external_body]
fn parse_document(text: &str) -> (r: Result<toml::Table, toml::de::Error>)
    ensures
        r is Ok <==> parsed_document(text@) is Some,
        r matches Ok(t) ==> parsed_document(text@) == Some(table_model(t)),
{
    text.parse::<toml::Table>()
}

/// Relies on `toml::map::Map::iter`: each entry of the table once.
#[verifier::external_body]
fn table_entries(t: &toml::Table) -> (r: Vec<(String, toml::Value)>)
    ensures
        keys_distinct(entry_models(r@)),
        assoc(entry_models(r@)) == table_model(*t),
{
    t.iter().map(|(k, v)| (k.clone(), v.clone())).collect()
}

/// Relies on `toml::Value::as_str`: the text of a string value, else nothing.
#[verifier::external_body]
fn value_as_str(v: &toml::Value) -> (r: Option<String>)
    ensures
        r is Some <==> value_model(*v) is Text,
        r matches Some(s) ==> value_model(*v) == TomlModel::Text(s@),
{
    v.as_str().map(String::from)
}

/// Relies on `toml::Value::as_table`: the table of a table value, else nothing.
#[verifier::external_body]
fn value_as_table(v: &toml::Value) -> (r: Option<toml::Table>)
    ensures
        r is Some <==> value_model(*v) is Table,
        r matches Some(t) ==> value_model(*v) == TomlModel::Table(table_model(t)),
{
    v.as_table().cloned()
}

/// Relies on `toml::map::Map::new`: an empty table.
#[verifier::external_body]
fn empty_table() -> (r: toml::Table)
    ensures
        table_model(r).dom() == Set::<Seq<char>>::empty(),
{
    toml::Table::new()
}

/// Relies on `toml::map::Map::insert`: sets one entry, keeps the others.
#[verifier::external_body]
fn table_insert(t: toml::Table, key: String, value: toml::Value) -> (r: toml::Table)
    ensures
        table_model(r) == table_model(t).insert(key@, value_model(value)),
{
    let mut t = t;
    t.insert(key, value);
    t
}

/// Relies on the variant `toml::Value::String`: a string value.
#[verifier::external_body]
fn string_value(s: String) -> (r: toml::Value)
    ensures
        value_model(r) == TomlModel::Text(s@),
{
    toml::Value::String(s)
}

/// Relies on the variant `toml::Value::Table`: a table value.
#[verifier::external_body]
fn table_value(t: toml::Table) -> (r: toml::Value)
    ensures
        value_model(r) == TomlModel::Table(table_model(t)),
{
    toml::Value::Table(t)
}

/// Relies on `toml::to_string`: the table written out as a TOML document, or
/// toml's refusal (a value it cannot write, such as a malformed date). What it
/// writes is read back as the same table whenever it parses at all; it may not
/// parse, for instance when a nested table's header path grows past the
/// parser's depth limit.
#[verifier::external_body]
fn render_document(t: &toml::Table) -> (r: Result<String, toml::ser::Error>)
    ensures
        r matches Ok(s) ==> (parsed_document(s@) is Some ==> parsed_document(s@) == Some(
            table_model(*t),
        )),
{
    toml::to_string(t)
}

/// Relies on the `Display` of `toml::de::Error`: its message.
#[verifier::external_body]
fn parse_error_text(e: &toml::de::Error) -> (r: String) {
    e.to_string()
}

/// Relies on the `Display` of `toml::ser::Error`: its message.
#[verifier::external_body]
fn render_error_text(e: &toml::ser::Error) -> (r: String) {
    e.to_string()
}

/// Adding an entry to a table adds it to the table's string entries when it is
/// a string, and takes its key out of them otherwise.
proof fn lemma_text_entries_insert(m: Map<Seq<char>, TomlModel>, k: Seq<char>, x: TomlModel)
    ensures
        text_entries(m.insert(k, x)) == (if x is Text {
            text_entries(m).insert(k, x->Text_0)
        } else {
            text_entries(m).remove(k)
        }),
{
    if x is Text {
        assert(text_entries(m.insert(k, x)) =~= text_entries(m).insert(k, x->Text_0));
    } else {
        assert(text_entries(m.insert(k, x)) =~= text_entries(m).remove(k));
    }
}

/// Adding an entry to a document adds an environment when it is a table, and
/// takes its key out of the environments otherwise.
proof fn lemma_tables_of_insert(m: Map<Seq<char>, TomlModel>, k: Seq<char>, x: TomlModel)
    ensures
        tables_of(m.insert(k, x)) == (if x is Table {
            tables_of(m).insert(k, text_entries(x->Table_0))
        } else {
            tables_of(m).remove(k)
        }),
{
    if x is Table {
        assert(tables_of(m.insert(k, x)) =~= tables_of(m).insert(k, text_entries(x->Table_0)));
    } else {
        assert(tables_of(m.insert(k, x)) =~= tables_of(m).remove(k));
    }
}

/// The entry at index `i` of a list with distinct keys is not among the
/// entries before it, and extending the prefix by it inserts it.
proof fn lemma_prefix_step<V>(s: Seq<(Seq<char>, V)>, i: int)
    requires
        keys_distinct(s),
        0 <= i < s.len(),
    ensures
        !assoc(s.take(i)).contains_key(s[i].0),
        assoc(s.take(i + 1)) == assoc(s.take(i)).insert(s[i].0, s[i].1),
{
    assert(s.take(i + 1).drop_last() =~= s.take(i));
    lemma_assoc_dom(s.take(i), s[i].0);
    if has_key(s.take(i), s[i].0) {
        let j = choose|j: int| 0 <= j < s.take(i).len() && s.take(i)[j].0 == s[i].0;
        assert(s[j].0 == s[i].0);
    }
}

/// The string entries among `entries`, as an environment.
fn texts_of_entries(entries: &Vec<(String, toml::Value)>) -> (r: Environment)
    requires
        keys_distinct(entry_models(entries@)),
    ensures
        r.wf(),
        r.map() == text_entries(assoc(entry_models(entries@))),
{
    let ghost s = entry_models(entries@);
    let mut env = Environment::new();
    assert(env.map() =~= text_entries(assoc(s.take(0))));
    let mut i: usize = 0;
    while i < entries.len()
        invariant
            i <= entries@.len(),
            s == entry_models(entries@),
            keys_distinct(s),
            env.wf(),
            env.map() == text_entries(assoc(s.take(i as int))),
        decreases entries@.len() - i,
    {
        proof {
            lemma_prefix_step(s, i as int);
            lemma_text_entries_insert(assoc(s.take(i as int)), s[i as int].0, s[i as int].1);
        }
        match value_as_str(&entries[i].1) {
            Some(v) => {
                env.insert(entries[i].0.clone(), v);
            },
            None => {
                assert(env.map().remove(s[i as int].0) =~= env.map());
            },
        }
        i = i + 1;
    }
    assert(s.take(i as int) =~= s);
    env
}

/// The string entries of a table, as an environment; entries of any other
/// kind are dropped.
pub fn environment_from_table(t: &toml::Table) -> (r: Environment)
    ensures
        r.wf(),
        r.map() == text_entries(table_model(*t)),
{
    let entries = table_entries(t);
    texts_of_entries(&entries)
}

/// The store that a parsed document describes (see `store_of`).
pub fn store_from_table(doc: &toml::Table) -> (r: Store)
    ensures
        r.wf(),
        r.contents() == store_of(table_model(*doc)),
{
    let entries = table_entries(doc);
    let ghost s = entry_models(entries@);
    let ghost m = table_model(*doc);
    let root = texts_of_entries(&entries);
    let ghost root_map = root.map();
    let mut store = Store::new();
    if root.len() > 0 {
        proof {
            lemma_assoc_dom(root@, root@[0].0);
            assert(has_key(root@, root@[0].0));
            assert(root_map != Map::<Seq<char>, Seq<char>>::empty()) by {
                assert(root_map.contains_key(root@[0].0));
            }
        }
        store.put(owned("global"), root);
    } else {
        assert(root_map =~= Map::<Seq<char>, Seq<char>>::empty());
    }
    let ghost base = store.contents();
    assert(tables_of(assoc(s.take(0))) =~= Map::<Seq<char>, Map<Seq<char>, Seq<char>>>::empty());
    assert(base =~= base.union_prefer_right(tables_of(assoc(s.take(0)))));
    let mut i: usize = 0;
    while i < entries.len()
        invariant
            i <= entries@.len(),
            s == entry_models(entries@),
            keys_distinct(s),
            store.wf(),
            store.contents() == base.union_prefer_right(tables_of(assoc(s.take(i as int)))),
        decreases entries@.len() - i,
    {
        let ghost before = assoc(s.take(i as int));
        proof {
            lemma_prefix_step(s, i as int);
            lemma_tables_of_insert(before, s[i as int].0, s[i as int].1);
        }
        match value_as_table(&entries[i].1) {
            Some(t) => {
                let env = environment_from_table(&t);
                store.put(entries[i].0.clone(), env);
                assert(store.contents() =~= base.union_prefer_right(
                    tables_of(before).insert(s[i as int].0, text_entries(table_model(t))),
                ));
            },
            None => {
                assert(tables_of(before).remove(s[i as int].0) =~= tables_of(before));
            },
        }
        i = i + 1;
    }
    assert(s.take(i as int) =~= s);
    assert(store.contents() =~= store_of(m));
    store
}

/// The store that a text describes: that of its document when it is valid
/// TOML, else an empty one.
pub fn load_store(text: &str) -> (r: Store)
    ensures
        r.wf(),
        r.contents() == match parsed_document(text@) {
            Some(doc) => store_of(doc),
            None => Map::<Seq<char>, Map<Seq<char>, Seq<char>>>::empty(),
        },
{
    match parse_document(text) {
        Ok(doc) => store_from_table(&doc),
        Err(_) => Store::new(),
    }
}

/// A table holding each variable as a string.
fn variables_table(vars: &Vec<(String, String)>) -> (r: toml::Table)
    ensures
        table_model(r) == variables_model(string_pairs(vars@)),
{
    let ghost s = string_pairs(vars@);
    let mut t = empty_table();
    assert(table_model(t) =~= variables_model(s.take(0)));
    let mut i: usize = 0;
    while i < vars.len()
        invariant
            i <= vars@.len(),
            s == string_pairs(vars@),
            table_model(t) == variables_model(s.take(i as int)),
        decreases vars@.len() - i,
    {
        let k = vars[i].0.clone();
        let v = vars[i].1.clone();
        t = table_insert(t, k, string_value(v));
        assert(s.take(i + 1).drop_last() =~= s.take(i as int));
        assert(table_model(t) =~= variables_model(s.take(i + 1)));
        i = i + 1;
    }
    assert(s.take(i as int) =~= s);
    t
}

/// The document with the environment `name` set to `vars`: that table is
/// replaced or added, every other entry is kept as it was.
pub fn edit_document(doc: toml::Table, name: &str, vars: &Vec<(String, String)>) -> (r: toml::Table)
    ensures
        table_model(r) == saved_document(table_model(doc), name@, string_pairs(vars@)),
{
    let t = variables_table(vars);
    table_insert(doc, owned(name), table_value(t))
}

/// The new text of a persisted document after the environment `name` is set
/// to `vars`. Fails with `Parse` exactly when the current text is not valid
/// TOML. Otherwise it fails with `Render` when toml cannot write the edited
/// document as text that reads back, and else gives a text that parses to the
/// saved document (see `saved_document`).
pub fn save_document(text: &str, name: &str, vars: &Vec<(String, String)>) -> (r: Result<
    String,
    SaveError,
>)
    ensures
        parsed_document(text@) is None <==> r matches Err(SaveError::Parse(_)),
        parsed_document(text@) matches Some(d) ==> (r is Ok || r matches Err(SaveError::Render(_))),
        r matches Ok(out) ==> parsed_document(text@) is Some && parsed_document(out@) == Some(
            saved_document(parsed_document(text@)->0, name@, string_pairs(vars@)),
        ),
{
    match parse_document(text) {
        Err(e) => Err(SaveError::Parse(parse_error_text(&e))),
        Ok(doc) => {
            let edited = edit_document(doc, name, vars);
            match render_document(&edited) {
                Err(e) => Err(SaveError::Render(render_error_text(&e))),
                Ok(out) => match parse_document(out.as_str()) {
                    Err(e) => Err(SaveError::Render(parse_error_text(&e))),
                    Ok(_) => Ok(out),
                },
            }
        },
    }
}

/// Loading a document after the environment `name` was saved with `vars`
/// gives an environment `name` that holds exactly those variables: no more, no
/// fewer, whatever the document held before.
pub proof fn lemma_saved_environment_loads_back(
    doc: Map<Seq<char>, TomlModel>,
    name: Seq<char>,
    vars: Seq<(Seq<char>, Seq<char>)>,
)
    ensures
        store_of(saved_document(doc, name, vars)).contains_key(name),
        store_of(saved_document(doc, name, vars))[name] == assoc(vars),
{
    let saved = saved_document(doc, name, vars);
    assert(text_entries(variables_model(vars)) =~= assoc(vars));
    assert(tables_of(saved).contains_key(name));
}

/// Saving the same environment with the same variables twice leaves the
/// document, and so the loaded store, as one save does.
pub proof fn lemma_saving_twice_is_saving_once(
    doc: Map<Seq<char>, TomlModel>,
    name: Seq<char>,
    vars: Seq<(Seq<char>, Seq<char>)>,
)
    ensures
        saved_document(saved_document(doc, name, vars), name, vars) == saved_document(
            doc,
            name,
            vars,
        ),
        store_of(saved_document(saved_document(doc, name, vars), name, vars)) == store_of(
            saved_document(doc, name, vars),
        ),
{
    assert(saved_document(saved_document(doc, name, vars), name, vars) =~= saved_document(
        doc,
        name,
        vars,
    ));
}

/// Round trip on text: when `out` is what saving `name` with `vars` into the
/// valid document `text` writes, loading `out` gives an environment `name`
/// holding exactly those variables.
pub proof fn lemma_saved_text_loads_back(
    text: Seq<char>,
    out: Seq<char>,
    name: Seq<char>,
    vars: Seq<(Seq<char>, Seq<char>)>,
)
    requires
        parsed_document(text) is Some,
        parsed_document(out) == Some(saved_document(parsed_document(text)->0, name, vars)),
    ensures
        parsed_document(out) matches Some(doc) && store_of(doc).contains_key(name)
            && store_of(doc)[name] == assoc(vars),
{
    lemma_saved_environment_loads_back(parsed_document(text)->0, name, vars);
}

/// Idempotence on text: saving the same variables under the same name into
/// the text that a first save wrote gives a text that parses, and so loads,
/// exactly as the first one.
pub proof fn lemma_saving_text_twice_is_saving_once(
    text: Seq<char>,
    once: Seq<char>,
    twice: Seq<char>,
    name: Seq<char>,
    vars: Seq<(Seq<char>, Seq<char>)>,
)
    requires
        parsed_document(text) is Some,
        parsed_document(once) == Some(saved_document(parsed_document(text)->0, name, vars)),
        parsed_document(twice) == Some(saved_document(parsed_document(once)->0, name, vars)),
    ensures
        parsed_document(twice) == parsed_document(once),
{
    lemma_saving_twice_is_saving_once(parsed_document(text)->0, name, vars);
}

} // verus!
