//! How a server is stored: its definition as a row of the `tools` table,
//! its environment as rows of the `tool_env` table, and back.
use vstd::prelude::*;
use crate::json::{parse_string_list, string_list_parse, string_list_text, string_list_to_text};
use crate::registration::{opt_texts, texts};
use crate::server_model::{Distribution, ServerConfiguration, ServerDefinition, ServerEnvironment};
use crate::strmap::StrMap;
use crate::text::{opt_text, owned, str_eq};

verus! {

/// A row of the `tools` table; `args` holds a JSON array's text.
pub struct DBTool {
    pub id: String,
    pub name: String,
    pub description: String,
    pub tool_type: String,
    pub enabled: bool,
    pub entry_point: Option<String>,
    pub command: Option<String>,
    pub args: Option<String>,
    pub distribution_type: Option<String>,
    pub distribution_package: Option<String>,
}

/// A row of the `tool_env` table: one environment variable of a tool.
pub struct DBToolEnv {
    pub tool_id: String,
    pub env_key: String,
    pub env_value: String,
    pub env_description: String,
    pub env_required: bool,
}

/// The text of an optional string, empty when absent.
pub open spec fn text_or_empty(s: Option<String>) -> Seq<char> {
    match s {
        Some(x) => x@,
        None => Seq::empty(),
    }
}

/// Whether `row` stores definition `d` under `id`: the command is stored
/// only when it is not empty, the arguments as their JSON text, the
/// distribution as its type and package.
pub open spec fn writes_row(row: DBTool, id: Seq<char>, d: ServerDefinition) -> bool {
    let command = match d.configuration {
        Some(c) => text_or_empty(c.command),
        None => Seq::empty(),
    };
    &&& row.id@ == id
    &&& row.name == d.name
    &&& row.description == d.description
    &&& row.tool_type == d.tools_type
    &&& row.enabled == d.enabled
    &&& row.entry_point == d.entry_point
    &&& (if command.len() == 0 { row.command is None } else { row.command is Some && row.command->0@ == command })
    &&& match d.configuration {
        Some(c) => match c.args {
            Some(a) => row.args is Some && row.args->0@ == string_list_text(texts(a@))
                && string_list_parse(row.args->0@) == Some(texts(a@)),
            None => row.args is None,
        },
        None => row.args is None,
    }
    &&& match d.distribution {
        Some(dist) => row.distribution_type == Some(dist.dist_type) && row.distribution_package == Some(dist.package),
        None => row.distribution_type is None && row.distribution_package is None,
    }
}

/// The row that stores definition `d` under `id`.
pub fn tool_row(id: &str, d: &ServerDefinition) -> (row: DBTool)
    ensures
        writes_row(row, id@, *d),
{
    let command: Option<String> = match &d.configuration {
        Some(c) => match &c.command {
            Some(x) => if x.as_str().is_empty() { None } else { Some(x.clone()) },
            None => None,
        },
        None => None,
    };
    let args: Option<String> = match &d.configuration {
        Some(c) => match &c.args {
            Some(a) => Some(string_list_to_text(a)),
            None => None,
        },
        None => None,
    };
    let (distribution_type, distribution_package) = match &d.distribution {
        Some(dist) => (Some(dist.dist_type.clone()), Some(dist.package.clone())),
        None => (None, None),
    };
    DBTool {
        id: owned(id),
        name: d.name.clone(),
        description: d.description.clone(),
        tool_type: d.tools_type.clone(),
        enabled: d.enabled,
        entry_point: match &d.entry_point { Some(e) => Some(e.clone()), None => None },
        command,
        args,
        distribution_type,
        distribution_package,
    }
}

/// Whether `env_row` stores variable `k` of tool `id`, described by `v`
/// (no default is stored as an empty value).
pub open spec fn writes_env(env_row: DBToolEnv, id: Seq<char>, k: String, v: ServerEnvironment) -> bool {
    &&& env_row.tool_id@ == id
    &&& env_row.env_key == k
    &&& env_row.env_value@ == text_or_empty(v.default)
    &&& env_row.env_description == v.description
    &&& env_row.env_required == v.required
}

/// The variables of a definition, in order: none without configuration or
/// environment.
pub open spec fn env_entries(d: ServerDefinition) -> Seq<(String, ServerEnvironment)> {
    match d.configuration {
        Some(c) => match c.env {
            Some(e) => e.entries(),
            None => Seq::empty(),
        },
        None => Seq::empty(),
    }
}

/// The `tool_env` rows that store the environment of definition `d` under `id`.
pub fn env_rows(id: &str, d: &ServerDefinition) -> (rows: Vec<DBToolEnv>)
    ensures
        rows@.len() == env_entries(*d).len(),
        forall|i: int| 0 <= i < rows@.len() ==> writes_env(#[trigger] rows@[i], id@, env_entries(*d)[i].0,
            env_entries(*d)[i].1),
{
    let mut rows: Vec<DBToolEnv> = Vec::new();
    match &d.configuration {
        Some(c) => match &c.env {
            Some(e) => {
                let mut i: usize = 0;
                while i < e.len()
                    invariant
                        i <= e.entries().len(),
                        env_entries(*d) == e.entries(),
                        rows@.len() == i,
                        forall|j: int| 0 <= j < i ==> writes_env(#[trigger] rows@[j], id@, e.entries()[j].0,
                            e.entries()[j].1),
                    decreases e.entries().len() - i,
                {
                    let (k, v) = e.entry(i);
                    let value = match &v.default {
                        Some(x) => x.clone(),
                        None => String::new(),
                    };
                    rows.push(DBToolEnv {
                        tool_id: owned(id),
                        env_key: k.clone(),
                        env_value: value,
                        env_description: v.description.clone(),
                        env_required: v.required,
                    });
                    i = i + 1;
                }
            }
            None => {}
        },
        None => {}
    }
    rows
}


/// The variables that `rows` store for tool `id`, each read with its value
/// as default; a later row of a variable replaces an earlier one.
pub open spec fn stored_env(rows: Seq<DBToolEnv>, id: Seq<char>) -> Map<Seq<char>, ServerEnvironment>
    decreases rows.len(),
{
    if rows.len() == 0 {
        Map::empty()
    } else {
        let m = stored_env(rows.drop_last(), id);
        let r = rows.last();
        if r.tool_id@ == id {
            m.insert(r.env_key@, ServerEnvironment {
                description: r.env_description,
                default: Some(r.env_value),
                required: r.env_required,
            })
        } else {
            m
        }
    }
}

/// Whether `d` is the definition that `row` reads as, with the variables
/// `env`: a configuration always, holding the stored command, the arguments
/// read from their JSON text, and the variables (none when there are none);
/// a distribution when a distribution type is stored.
pub open spec fn reads_as(d: ServerDefinition, row: DBTool, env: Map<Seq<char>, ServerEnvironment>) -> bool {
    &&& d.name == row.name
    &&& d.description == row.description
    &&& d.enabled == row.enabled
    &&& d.tools_type == row.tool_type
    &&& d.entry_point == row.entry_point
    &&& d.configuration is Some
    &&& d.configuration->0.command == row.command
    &&& opt_texts(d.configuration->0.args) == match row.args {
        Some(t) => string_list_parse(t@),
        None => None,
    }
    &&& (if env.dom() == Set::<Seq<char>>::empty() {
        d.configuration->0.env is None
    } else {
        d.configuration->0.env is Some && d.configuration->0.env->0.wf() && d.configuration->0.env->0@ == env
    })
    &&& match row.distribution_type {
        Some(t) => d.distribution is Some && d.distribution->0.dist_type == t
            && d.distribution->0.package@ == text_or_empty(row.distribution_package),
        None => d.distribution is None,
    }
}

fn env_of_rows(rows: &Vec<DBToolEnv>, id: &str) -> (m: StrMap<ServerEnvironment>)
    ensures
        m.wf(),
        m@ == stored_env(rows@, id@),
{
    let mut m: StrMap<ServerEnvironment> = StrMap::new();
    let mut j: usize = 0;
    while j < rows.len()
        invariant
            j <= rows@.len(),
            m.wf(),
            m@ == stored_env(rows@.take(j as int), id@),
        decreases rows@.len() - j,
    {
        let r = &rows[j];
        assert(rows@.take(j + 1).drop_last() =~= rows@.take(j as int));
        if str_eq(r.tool_id.as_str(), id) {
            m.insert(r.env_key.clone(), ServerEnvironment {
                description: r.env_description.clone(),
                default: Some(r.env_value.clone()),
                required: r.env_required,
            });
        }
        j = j + 1;
    }
    assert(rows@.take(j as int) =~= rows@);
    m
}

fn parsed_args(args: &Option<String>) -> (r: Option<Vec<String>>)
    ensures
        opt_texts(r) == match *args {
            Some(t) => string_list_parse(t@),
            None => None,
        },
{
    match args {
        Some(t) => parse_string_list(t.as_str()),
        None => None,
    }
}

/// The definition that a stored row reads as, with the variables `env`.
fn definition_from(row: DBTool, env: StrMap<ServerEnvironment>) -> (d: ServerDefinition)
    requires
        env.wf(),
    ensures
        reads_as(d, row, env@),
{
    let args = parsed_args(&row.args);
    let empty = env.len() == 0;
    proof {
        if empty {
            assert(env@.dom() =~= Set::<Seq<char>>::empty());
        } else {
            env.lemma_entry(0);
            assert(env@.dom().contains(env.entries()[0].0@));
        }
    }
    let distribution = match row.distribution_type {
        Some(t) => Some(Distribution {
            dist_type: t,
            package: match row.distribution_package {
                Some(p) => p,
                None => String::new(),
            },
        }),
        None => None,
    };
    ServerDefinition {
        name: row.name,
        description: row.description,
        enabled: row.enabled,
        tools_type: row.tool_type,
        entry_point: row.entry_point,
        configuration: Some(ServerConfiguration {
            command: row.command,
            args,
            env: if empty { None } else { Some(env) },
        }),
        distribution,
    }
}

/// Reads a stored tool back from its row and the `tool_env` rows.
pub fn read_definition(row: DBTool, rows: &Vec<DBToolEnv>) -> (d: ServerDefinition)
    ensures
        reads_as(d, row, stored_env(rows@, row.id@)),
{
    let env = env_of_rows(rows, row.id.as_str());
    definition_from(row, env)
}

/// Whether row `i` is the first with its identifier.
pub open spec fn first_row(rows: Seq<DBTool>, i: int) -> bool {
    forall|k: int| 0 <= k < i ==> #[trigger] rows[k].id@ != rows[i].id@
}

/// Whether row `i` is the last with its identifier.
pub open spec fn last_row(rows: Seq<DBTool>, i: int) -> bool {
    forall|k: int| i < k < rows.len() ==> #[trigger] rows[k].id@ != rows[i].id@
}

/// The identifiers of `rows`.
pub open spec fn row_ids(rows: Seq<DBTool>) -> Set<Seq<char>> {
    Set::new(|x: Seq<char>| exists|i: int| 0 <= i < rows.len() && #[trigger] rows[i].id@ == x)
}

fn seen_before(seen: &Vec<String>, id: &str) -> (r: bool)
    ensures
        r == texts(seen@).contains(id@),
{
    let mut i: usize = 0;
    while i < seen.len()
        invariant
            i <= seen@.len(),
            forall|k: int| 0 <= k < i ==> seen@[k]@ != id@,
        decreases seen@.len() - i,
    {
        if str_eq(seen[i].as_str(), id) {
            assert(texts(seen@)[i as int] == id@);
            return true;
        }
        i = i + 1;
    }
    assert forall|k: int| 0 <= k < texts(seen@).len() implies #[trigger] texts(seen@)[k] != id@ by {
        assert(texts(seen@)[k] == seen@[k]@);
    }
    false
}

/// Whether `m` is what reading every row back gives: one tool per
/// identifier, given by the last row with it, with the variables stored for
/// it when that row is also the first with it.
pub open spec fn reads_all(m: StrMap<ServerDefinition>, rows: Seq<DBTool>, env_rows: Seq<DBToolEnv>) -> bool {
    &&& m.wf()
    &&& m@.dom() == row_ids(rows)
    &&& forall|i: int| 0 <= i < rows.len() && last_row(rows, i) ==> reads_as(
            m@[(#[trigger] rows[i]).id@], rows[i],
            if first_row(rows, i) { stored_env(env_rows, rows[i].id@) } else { Map::empty() })
}

/// Whether no identifier occurs in two rows.
pub open spec fn distinct_ids(rows: Seq<DBTool>) -> bool {
    forall|i: int, j: int| 0 <= i < j < rows.len() ==> #[trigger] rows[i].id@ != #[trigger] rows[j].id@
}

/// Reads every stored tool back, by identifier. Each row's tool gets the
/// variables stored for its identifier; should an identifier occur in
/// several rows, the last row gives the tool, and only the first row gets
/// the variables.
pub fn read_all(rows: Vec<DBTool>, env_rows: &Vec<DBToolEnv>) -> (m: StrMap<ServerDefinition>)
    ensures
        reads_all(m, rows@, env_rows@),
{
    let ghost all = rows@;
    let mut rest = rows;
    let total = rest.len();
    let mut m: StrMap<ServerDefinition> = StrMap::new();
    let mut seen: Vec<String> = Vec::new();
    let mut done: usize = 0;
    while rest.len() > 0
        invariant
            all.len() == total,
            done + rest@.len() == all.len(),
            rest@ == all.skip(done as int),
            seen@.len() == done,
            forall|k: int| 0 <= k < done ==> #[trigger] seen@[k] == all[k].id,
            m.wf(),
            m@.dom() == row_ids(all.take(done as int)),
            forall|i: int| 0 <= i < done && last_row(all.take(done as int), i) ==> reads_as(
                m@[(#[trigger] all[i]).id@], all[i],
                if first_row(all, i) { stored_env(env_rows@, all[i].id@) } else { Map::empty() }),
        decreases rest@.len(),
    {
        let row = rest.remove(0);
        let ghost n = done as int;
        assert(all[n] == row);
        let repeated = seen_before(&seen, row.id.as_str());
        assert(repeated == !first_row(all, n)) by {
            if repeated {
                let k = choose|k: int| 0 <= k < texts(seen@).len() && texts(seen@)[k] == row.id@;
                assert(all[k].id@ == all[n].id@);
            } else {
                assert forall|k: int| 0 <= k < n implies #[trigger] all[k].id@ != all[n].id@ by {
                    assert(texts(seen@)[k] == seen@[k]@);
                }
            }
        }
        let env = if repeated {
            let e: StrMap<ServerEnvironment> = StrMap::new();
            e
        } else {
            env_of_rows(env_rows, row.id.as_str())
        };
        seen.push(row.id.clone());
        let key = row.id.clone();
        let d = definition_from(row, env);
        let ghost pre = m@;
        m.insert(key, d);
        done = done + 1;
        proof {
            let t = all.take(done as int);
            assert forall|x: Seq<char>| #[trigger] m@.dom().contains(x) == row_ids(t).contains(x) by {
                if x == all[n].id@ {
                    assert(t[n].id@ == x);
                } else {
                    if row_ids(t).contains(x) {
                        let j = choose|j: int| 0 <= j < t.len() && #[trigger] t[j].id@ == x;
                        assert(all.take(n)[j].id@ == x);
                        assert(row_ids(all.take(n)).contains(x));
                    }
                    if pre.dom().contains(x) {
                        let j = choose|j: int| 0 <= j < all.take(n).len() && #[trigger] all.take(n)[j].id@ == x;
                        assert(t[j].id@ == x);
                    }
                }
            }
            assert(m@.dom() =~= row_ids(t));
            assert forall|i: int| 0 <= i < done && last_row(t, i) implies reads_as(
                m@[(#[trigger] all[i]).id@], all[i],
                if first_row(all, i) { stored_env(env_rows@, all[i].id@) } else { Map::empty() }) by {
                if i < n {
                    assert(t[n].id@ != t[i].id@);
                    assert forall|k: int| i < k < all.take(n).len() implies #[trigger] all.take(n)[k].id@ != all.take(n)[i].id@ by {
                        assert(t[k] == all.take(n)[k]);
                    }
                }
            }
        }
        assert(rest@ =~= all.skip(done as int));
    }
    assert(all.take(done as int) =~= all);
    m
}


/// The outcome of clearing the database: a failure is reported with its cause.
pub fn cleared_outcome(r: Result<(), String>) -> (o: Result<(), String>)
    ensures
        match r {
            Ok(()) => o is Ok,
            Err(e) => o is Err && o->Err_0@ == "Failed to clear database: "@ + e@,
        },
{
    proof { reveal_strlit("Failed to clear database: "); }
    match r {
        Ok(()) => Ok(()),
        Err(e) => Err(crate::text::join2("Failed to clear database: ", e.as_str())),
    }
}

/// The variables of a definition: none without configuration or environment.
pub open spec fn def_env(d: ServerDefinition) -> Map<Seq<char>, ServerEnvironment> {
    match d.configuration {
        Some(c) => match c.env {
            Some(e) => e@,
            None => Map::empty(),
        },
        None => Map::empty(),
    }
}

/// The command of a definition as stored: absent when it has none or an
/// empty one.
pub open spec fn stored_command(d: ServerDefinition) -> Option<Seq<char>> {
    let c = match d.configuration {
        Some(c) => text_or_empty(c.command),
        None => Seq::empty(),
    };
    if c.len() == 0 { None } else { Some(c) }
}

/// Whether `back` is what storage gives back for `d`: the same name,
/// description, flag, type, entry point and distribution, and always a
/// configuration, holding the command unless it was absent or empty, the
/// same arguments, and the same variables (none when there were none),
/// each with its default read back as given, or as empty when it had none.
pub open spec fn reads_back_as(back: ServerDefinition, d: ServerDefinition) -> bool {
    let e = def_env(d);
    &&& back.name == d.name
    &&& back.description == d.description
    &&& back.enabled == d.enabled
    &&& back.tools_type == d.tools_type
    &&& back.entry_point == d.entry_point
    &&& match (back.distribution, d.distribution) {
        (Some(x), Some(y)) => x.dist_type == y.dist_type && x.package@ == y.package@,
        (None, None) => true,
        _ => false,
    }
    &&& back.configuration is Some
    &&& opt_text(back.configuration->0.command) == stored_command(d)
    &&& opt_texts(back.configuration->0.args) == match d.configuration { Some(c) => opt_texts(c.args), None => None }
    &&& (if e.dom() == Set::<Seq<char>>::empty() {
        back.configuration->0.env is None
    } else {
        &&& back.configuration->0.env is Some
        &&& back.configuration->0.env->0@.dom() == e.dom()
        &&& forall|k: Seq<char>| #[trigger] e.contains_key(k) ==> ({
            let v = back.configuration->0.env->0@[k];
            &&& v.description == e[k].description
            &&& v.required == e[k].required
            &&& v.default is Some && v.default->0@ == text_or_empty(e[k].default)
        })
    })
}

/// The variables that the first `j` rows store, when they store the first
/// `j` entries of an environment with distinct keys.
proof fn lemma_stored_env(rows: Seq<DBToolEnv>, id: Seq<char>, e: StrMap<ServerEnvironment>, j: int)
    requires
        e.wf(),
        0 <= j <= rows.len(),
        rows.len() == e.entries().len(),
        forall|i: int| 0 <= i < rows.len() ==> writes_env(#[trigger] rows[i], id, e.entries()[i].0, e.entries()[i].1),
    ensures
        forall|k: Seq<char>| #[trigger] stored_env(rows.take(j), id).contains_key(k) <==>
            exists|i: int| 0 <= i < j && #[trigger] e.entries()[i].0@ == k,
        forall|i: int| 0 <= i < j ==> ({
            let v = #[trigger] stored_env(rows.take(j), id)[e.entries()[i].0@];
            &&& v.description == e.entries()[i].1.description
            &&& v.required == e.entries()[i].1.required
            &&& v.default is Some && v.default->0@ == text_or_empty(e.entries()[i].1.default)
        }),
    decreases j,
{
    if j > 0 {
        lemma_stored_env(rows, id, e, j - 1);
        assert(rows.take(j).drop_last() =~= rows.take(j - 1));
        assert(rows.take(j).last() == rows[j - 1]);
        let r = rows[j - 1];
        assert(writes_env(r, id, e.entries()[j - 1].0, e.entries()[j - 1].1));
        assert forall|k: Seq<char>| #[trigger] stored_env(rows.take(j), id).contains_key(k) <==>
            exists|i: int| 0 <= i < j && #[trigger] e.entries()[i].0@ == k by {
            if k == r.env_key@ {
                assert(e.entries()[j - 1].0@ == k);
            } else if exists|i: int| 0 <= i < j && #[trigger] e.entries()[i].0@ == k {
                let i = choose|i: int| 0 <= i < j && #[trigger] e.entries()[i].0@ == k;
                assert(i != j - 1);
            }
        }
        assert forall|i: int| 0 <= i < j implies ({
            let v = #[trigger] stored_env(rows.take(j), id)[e.entries()[i].0@];
            &&& v.description == e.entries()[i].1.description
            &&& v.required == e.entries()[i].1.required
            &&& v.default is Some && v.default->0@ == text_or_empty(e.entries()[i].1.default)
        }) by {
            if i < j - 1 {
                assert(e.entries()[i].0@ != e.entries()[j - 1].0@);
            }
        }
    }
}

/// What is stored for a definition reads back as it was stored: an empty
/// command reads back as none, a variable without default as one with an
/// empty default, a missing or empty environment as none, and a missing
/// configuration as one with nothing in it; everything else is kept.
pub proof fn law_stored_definition_reads_back(id: Seq<char>, d: ServerDefinition, row: DBTool,
    rows: Seq<DBToolEnv>, back: ServerDefinition)
    requires
        d.configuration is Some && d.configuration->0.env is Some ==> d.configuration->0.env->0.wf(),
        writes_row(row, id, d),
        rows.len() == env_entries(d).len(),
        forall|i: int| 0 <= i < rows.len() ==> writes_env(#[trigger] rows[i], id, env_entries(d)[i].0, env_entries(d)[i].1),
        reads_as(back, row, stored_env(rows, id)),
    ensures
        reads_back_as(back, d),
{
    let b = back.configuration->0;
    let st = stored_env(rows, id);
    match d.configuration {
        Some(c) => match c.env {
            Some(e) => {
                lemma_stored_env(rows, id, e, rows.len() as int);
                assert(rows.take(rows.len() as int) =~= rows);
                assert forall|k: Seq<char>| #[trigger] st.contains_key(k) == e@.contains_key(k) by {
                    e.lemma_keys(k);
                }
                assert(st.dom() =~= e@.dom());
                if e.entries().len() > 0 {
                    assert(st.contains_key(e.entries()[0].0@));
                    assert(st.dom() != Set::<Seq<char>>::empty());
                    assert forall|k: Seq<char>| #[trigger] e@.contains_key(k) implies ({
                        let v = b.env->0@[k];
                        &&& v.description == e@[k].description
                        &&& v.required == e@[k].required
                        &&& v.default is Some && v.default->0@ == text_or_empty(e@[k].default)
                    }) by {
                        let i = choose|i: int| 0 <= i < e.entries().len() && #[trigger] e.entries()[i].0@ == k;
                        e.lemma_entry(i);
                    }
                } else {
                    assert(rows.len() == 0);
                    assert(st =~= Map::<Seq<char>, ServerEnvironment>::empty());
                    assert(e@.dom() =~= Set::<Seq<char>>::empty());
                }
            }
            None => {
                assert(rows.len() == 0);
                assert(st =~= Map::<Seq<char>, ServerEnvironment>::empty());
                assert(def_env(d).dom() =~= Set::<Seq<char>>::empty());
            }
        },
        None => {
            assert(rows.len() == 0);
            assert(st =~= Map::<Seq<char>, ServerEnvironment>::empty());
            assert(def_env(d).dom() =~= Set::<Seq<char>>::empty());
        }
    }
}

/// Two environments that describe the same variables alike.
pub open spec fn same_env(a: Map<Seq<char>, ServerEnvironment>, b: Map<Seq<char>, ServerEnvironment>) -> bool {
    &&& a.dom() == b.dom()
    &&& forall|k: Seq<char>| #[trigger] a.contains_key(k) ==> a[k].description == b[k].description
        && a[k].required == b[k].required && opt_text(a[k].default) == opt_text(b[k].default)
}

/// Two definitions that hold the same server.
pub open spec fn same_definition(a: ServerDefinition, b: ServerDefinition) -> bool {
    &&& a.name == b.name
    &&& a.description == b.description
    &&& a.enabled == b.enabled
    &&& a.tools_type == b.tools_type
    &&& a.entry_point == b.entry_point
    &&& match (a.distribution, b.distribution) {
        (Some(x), Some(y)) => x.dist_type == y.dist_type && x.package@ == y.package@,
        (None, None) => true,
        _ => false,
    }
    &&& match (a.configuration, b.configuration) {
        (Some(x), Some(y)) => {
            &&& opt_text(x.command) == opt_text(y.command)
            &&& opt_texts(x.args) == opt_texts(y.args)
            &&& match (x.env, y.env) {
                (Some(p), Some(q)) => same_env(p@, q@),
                (None, None) => true,
                _ => false,
            }
        }
        (None, None) => true,
        _ => false,
    }
}

/// Reading all stored tools agrees with reading each one alone: when no
/// identifier is stored twice, every stored identifier is read, and the tool
/// read for it among all is the one its row reads as by itself.
pub proof fn law_all_tools_read_as_each_alone(m: StrMap<ServerDefinition>, rows: Seq<DBTool>,
    env_rows: Seq<DBToolEnv>, i: int, alone: ServerDefinition)
    requires
        distinct_ids(rows),
        reads_all(m, rows, env_rows),
        0 <= i < rows.len(),
        reads_as(alone, rows[i], stored_env(env_rows, rows[i].id@)),
    ensures
        m@.dom() == row_ids(rows),
        m@.contains_key(rows[i].id@),
        same_definition(m@[rows[i].id@], alone),
{
    assert(first_row(rows, i)) by {
        assert forall|k: int| 0 <= k < i implies #[trigger] rows[k].id@ != rows[i].id@ by {
            assert(rows[k].id@ != rows[i].id@);
        }
    }
    assert(last_row(rows, i)) by {
        assert forall|k: int| i < k < rows.len() implies #[trigger] rows[k].id@ != rows[i].id@ by {
            assert(rows[i].id@ != rows[k].id@);
        }
    }
    assert(row_ids(rows).contains(rows[i].id@));
    let d = m@[rows[i].id@];
    let env = stored_env(env_rows, rows[i].id@);
    assert(reads_as(d, rows[i], env));
    if env.dom() != Set::<Seq<char>>::empty() {
        let p = d.configuration->0.env->0@;
        let q = alone.configuration->0.env->0@;
        assert(p == q);
    }
}

} // verus!
