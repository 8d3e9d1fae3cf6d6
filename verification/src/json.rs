//! The JSON values that the library reads and builds.
//!
//! `Json` holds as plain values what `serde_json::Value` holds; a number keeps
//! the text under which `serde_json` writes it. Objects keep their members in
//! order, each key once.
use vstd::prelude::*;
use crate::registration::texts;
use crate::text::{decimal, owned, str_eq, usize_to_string};

verus! {

pub enum Json {
    Null,
    Bool(bool),
    Number(String),
    Str(String),
    Array(Vec<Json>),
    Object(Vec<(String, Json)>),
}

/// The mathematical value of a `Json`.
#[verifier::ext_equal]
pub enum JsonV {
    Null,
    Bool(bool),
    Number(Seq<char>),
    Str(Seq<char>),
    Array(Seq<JsonV>),
    Object(Seq<(Seq<char>, JsonV)>),
}

/// The position of the first member named `k` in `s`, or -1.
pub open spec fn key_index(s: Seq<(Seq<char>, JsonV)>, k: Seq<char>) -> int
    decreases s.len(),
{
    if s.len() == 0 {
        -1
    } else if s[0].0 == k {
        0
    } else {
        let r = key_index(s.drop_first(), k);
        if r < 0 { -1 } else { r + 1 }
    }
}

/// The value of the member named `k` in `s`.
pub open spec fn lookup(s: Seq<(Seq<char>, JsonV)>, k: Seq<char>) -> Option<JsonV> {
    let i = key_index(s, k);
    if i >= 0 { Some(s[i].1) } else { None }
}

/// `s` with member `k` set to `v`: in place where `k` is present, else appended.
pub open spec fn upsert(s: Seq<(Seq<char>, JsonV)>, k: Seq<char>, v: JsonV) -> Seq<(Seq<char>, JsonV)> {
    let i = key_index(s, k);
    if i >= 0 { s.update(i, (k, v)) } else { s.push((k, v)) }
}

/// `key_index` is the first position with key `k`.
pub proof fn lemma_key_index(s: Seq<(Seq<char>, JsonV)>, k: Seq<char>)
    ensures
        -1 <= key_index(s, k) < s.len(),
        key_index(s, k) >= 0 ==> s[key_index(s, k)].0 == k,
        forall|j: int| 0 <= j < s.len() && (key_index(s, k) < 0 || j < key_index(s, k)) ==> #[trigger] s[j].0 != k,
    decreases s.len(),
{
    if s.len() > 0 && s[0].0 != k {
        lemma_key_index(s.drop_first(), k);
        assert forall|j: int| 0 <= j < s.len() && (key_index(s, k) < 0 || j < key_index(s, k)) implies #[trigger] s[j].0 != k by {
            if j > 0 {
                assert(s[j] == s.drop_first()[j - 1]);
            }
        }
    }
}

/// Any position that is the first with key `k` is `key_index`.
pub proof fn lemma_key_index_is(s: Seq<(Seq<char>, JsonV)>, k: Seq<char>, i: int)
    requires
        -1 <= i < s.len(),
        i >= 0 ==> s[i].0 == k,
        forall|j: int| 0 <= j < s.len() && (i < 0 || j < i) ==> #[trigger] s[j].0 != k,
    ensures
        key_index(s, k) == i,
{
    lemma_key_index(s, k);
    let r = key_index(s, k);
    if r >= 0 && i >= 0 {
        if r < i {
            assert(s[r].0 != k);
        } else if i < r {
            assert(s[i].0 != k);
        }
    } else if r >= 0 {
        assert(s[r].0 != k);
    } else if i >= 0 {
        assert(s[i].0 != k);
    }
}

/// After setting member `k` to `v`, reading `k` gives `v` and reading any
/// other member gives what it gave before.
pub proof fn law_set_member_reads_back(s: Seq<(Seq<char>, JsonV)>, k: Seq<char>, v: JsonV, k2: Seq<char>)
    ensures
        lookup(upsert(s, k, v), k) == Some(v),
        k2 != k ==> lookup(upsert(s, k, v), k2) == lookup(s, k2),
{
    lemma_key_index(s, k);
    lemma_key_index(s, k2);
    let i = key_index(s, k);
    let t = upsert(s, k, v);
    if i >= 0 {
        lemma_key_index_is(t, k, i);
        if k2 != k {
            let i2 = key_index(s, k2);
            assert forall|j: int| 0 <= j < t.len() && (i2 < 0 || j < i2) implies #[trigger] t[j].0 != k2 by {
                if j != i { assert(t[j] == s[j]); }
            }
            lemma_key_index_is(t, k2, i2);
        }
    } else {
        assert forall|j: int| 0 <= j < t.len() && (s.len() < 0 || j < s.len()) implies #[trigger] t[j].0 != k by {
            assert(t[j] == s[j]);
        }
        lemma_key_index_is(t, k, s.len() as int);
        if k2 != k {
            let i2 = key_index(s, k2);
            assert forall|j: int| 0 <= j < t.len() && (i2 < 0 || j < i2) implies #[trigger] t[j].0 != k2 by {
                if j < s.len() { assert(t[j] == s[j]); }
            }
            lemma_key_index_is(t, k2, i2);
        }
    }
}

impl JsonV {
    /// The member `key` of an object; `None` for a missing member or a non-object.
    pub open spec fn field(self, key: Seq<char>) -> Option<JsonV> {
        match self {
            JsonV::Object(m) => lookup(m, key),
            _ => None,
        }
    }

    pub open spec fn str_of(self) -> Option<Seq<char>> {
        match self {
            JsonV::Str(s) => Some(s),
            _ => None,
        }
    }

    /// `serde_json::Value::get(key).and_then(as_str)`.
    pub open spec fn str_field(self, key: Seq<char>) -> Option<Seq<char>> {
        match self.field(key) {
            Some(v) => v.str_of(),
            None => None,
        }
    }
}

impl Json {
    pub open spec fn view(self) -> JsonV
        decreases self,
    {
        match self {
            Json::Null => JsonV::Null,
            Json::Bool(b) => JsonV::Bool(b),
            Json::Number(n) => JsonV::Number(n@),
            Json::Str(s) => JsonV::Str(s@),
            Json::Array(v) => JsonV::Array(Seq::new(v@.len(), |i: int|
                if 0 <= i < v@.len() { v@[i].view() } else { JsonV::Null })),
            Json::Object(v) => JsonV::Object(Seq::new(v@.len(), |i: int|
                if 0 <= i < v@.len() { (v@[i].0@, v@[i].1.view()) } else { (Seq::empty(), JsonV::Null) })),
        }
    }
}

/// The values of the elements of `v`.
pub open spec fn views(v: Seq<Json>) -> Seq<JsonV> {
    Seq::new(v.len(), |i: int| v[i].view())
}

/// The members of an object, by value.
pub open spec fn member_views(v: Seq<(String, Json)>) -> Seq<(Seq<char>, JsonV)> {
    Seq::new(v.len(), |i: int| (v[i].0@, v[i].1.view()))
}

pub proof fn lemma_array_view(v: Vec<Json>)
    ensures
        Json::Array(v).view() == JsonV::Array(views(v@)),
{
    assert(Json::Array(v).view()->Array_0 =~= views(v@));
}

pub proof fn lemma_object_view(v: Vec<(String, Json)>)
    ensures
        Json::Object(v).view() == JsonV::Object(member_views(v@)),
{
    assert(Json::Object(v).view()->Object_0 =~= member_views(v@));
}

/// A copy of `j` with the same value.
pub fn clone_json(j: &Json) -> (r: Json)
    ensures
        r.view() == j.view(),
    decreases j, 0nat,
{
    match j {
        Json::Null => Json::Null,
        Json::Bool(b) => Json::Bool(*b),
        Json::Number(n) => Json::Number(n.clone()),
        Json::Str(s) => Json::Str(s.clone()),
        Json::Array(v) => {
            let out = clone_elements(v);
            proof {
                lemma_array_view(*v);
                lemma_array_view(out);
                assert(views(out@) =~= views(v@));
            }
            Json::Array(out)
        }
        Json::Object(v) => {
            let out = clone_members(v);
            proof {
                lemma_object_view(*v);
                lemma_object_view(out);
                assert(member_views(out@) =~= member_views(v@));
            }
            Json::Object(out)
        }
    }
}

/// Copies of the elements of `v`.
pub fn clone_elements(v: &Vec<Json>) -> (out: Vec<Json>)
    ensures
        views(out@) == views(v@),
    decreases v, 0nat,
{
    let mut out: Vec<Json> = Vec::new();
    let mut i: usize = 0;
    while i < v.len()
        invariant
            i <= v.len(),
            out@.len() == i,
            forall|k: int| 0 <= k < i ==> #[trigger] out@[k].view() == v@[k].view(),
        decreases v.len() - i,
    {
        proof { vstd::std_specs::vec::axiom_vec_index_decreases(*v, i as int); }
        let c = clone_json(&v[i]);
        out.push(c);
        i = i + 1;
    }
    assert(views(out@) =~= views(v@));
    out
}

/// Copies of the members of `v`.
pub fn clone_members(v: &Vec<(String, Json)>) -> (out: Vec<(String, Json)>)
    ensures
        member_views(out@) == member_views(v@),
    decreases v, 0nat,
{
    let mut out: Vec<(String, Json)> = Vec::new();
    let mut i: usize = 0;
    while i < v.len()
        invariant
            i <= v.len(),
            out@.len() == i,
            forall|k: int| #![trigger out@[k]] 0 <= k < i ==> out@[k].0@ == v@[k].0@ && out@[k].1.view() == v@[k].1.view(),
        decreases v.len() - i,
    {
        proof { vstd::std_specs::vec::axiom_vec_index_decreases(*v, i as int); }
        let c = clone_json(&v[i].1);
        out.push((v[i].0.clone(), c));
        i = i + 1;
    }
    assert(member_views(out@) =~= member_views(v@));
    out
}

/// The position of the member named `key`, searching from the front.
pub fn member_position(m: &Vec<(String, Json)>, key: &str) -> (r: Option<usize>)
    ensures
        match r {
            Some(i) => i < m@.len() && key_index(member_views(m@), key@) == i,
            None => key_index(member_views(m@), key@) == -1,
        },
{
    let ghost s = member_views(m@);
    let mut i: usize = 0;
    while i < m.len()
        invariant
            i <= m@.len(),
            s == member_views(m@),
            forall|j: int| 0 <= j < i ==> #[trigger] s[j].0 != key@,
        decreases m@.len() - i,
    {
        if str_eq(m[i].0.as_str(), key) {
            proof { lemma_key_index_is(s, key@, i as int); }
            return Some(i);
        }
        i = i + 1;
    }
    proof { lemma_key_index_is(s, key@, -1); }
    None
}

impl Json {
    /// `serde_json::Value::get` with a string key.
    pub fn get(&self, key: &str) -> (r: Option<&Json>)
        ensures
            match r {
                Some(v) => self.view().field(key@) == Some(v.view()),
                None => self.view().field(key@) is None,
            },
    {
        match self {
            Json::Object(m) => {
                proof { lemma_object_view(*m); }
                match member_position(m, key) {
                    Some(i) => Some(&m[i].1),
                    None => None,
                }
            }
            _ => None,
        }
    }

    pub fn as_str(&self) -> (r: Option<&String>)
        ensures
            match r {
                Some(s) => self.view().str_of() == Some(s@),
                None => self.view().str_of() is None,
            },
    {
        match self {
            Json::Str(s) => Some(s),
            _ => None,
        }
    }

    /// `get(key).and_then(as_str)`.
    pub fn str_field(&self, key: &str) -> (r: Option<&String>)
        ensures
            match r {
                Some(s) => self.view().str_field(key@) == Some(s@),
                None => self.view().str_field(key@) is None,
            },
    {
        match self.get(key) {
            Some(v) => v.as_str(),
            None => None,
        }
    }

    pub fn as_array(&self) -> (r: Option<&Vec<Json>>)
        ensures
            match r {
                Some(a) => self.view() == JsonV::Array(views(a@)),
                None => !(self.view() is Array),
            },
    {
        match self {
            Json::Array(a) => {
                proof { lemma_array_view(*a); }
                Some(a)
            }
            _ => None,
        }
    }

    pub fn as_object(&self) -> (r: Option<&Vec<(String, Json)>>)
        ensures
            match r {
                Some(m) => self.view() == JsonV::Object(member_views(m@)),
                None => !(self.view() is Object),
            },
    {
        match self {
            Json::Object(m) => {
                proof { lemma_object_view(*m); }
                Some(m)
            }
            _ => None,
        }
    }

    /// Whether `self` is an object with a member named `key`.
    pub fn contains_key(&self, key: &str) -> (r: bool)
        ensures
            r == (self.view().field(key@) is Some),
    {
        self.get(key).is_some()
    }

    pub fn string(s: &str) -> (r: Json)
        ensures
            r.view() == JsonV::Str(s@),
    {
        Json::Str(owned(s))
    }

    /// A JSON number holding `n`.
    pub fn from_usize(n: usize) -> (r: Json)
        ensures
            r.view() == JsonV::Number(decimal(n as nat)),
    {
        Json::Number(usize_to_string(n))
    }

    /// A JSON array of strings.
    pub fn string_array(items: &Vec<String>) -> (r: Json)
        ensures
            r.view() == JsonV::Array(str_views(items@)),
    {
        let mut out: Vec<Json> = Vec::new();
        let mut i: usize = 0;
        while i < items.len()
            invariant
                i <= items@.len(),
                out@.len() == i,
                forall|k: int| 0 <= k < i ==> #[trigger] out@[k].view() == JsonV::Str(items@[k]@),
            decreases items@.len() - i,
        {
            out.push(Json::Str(items[i].clone()));
            i = i + 1;
        }
        proof {
            lemma_array_view(out);
            assert(views(out@) =~= str_views(items@));
        }
        Json::Array(out)
    }
}

/// JSON strings holding each of `items`.
pub open spec fn str_views(items: Seq<String>) -> Seq<JsonV> {
    Seq::new(items.len(), |i: int| JsonV::Str(items[i]@))
}

/// Sets member `key` of the object members `m` to `v`.
pub fn set_member(m: &mut Vec<(String, Json)>, key: String, v: Json)
    ensures
        member_views(final(m)@) == upsert(member_views(old(m)@), key@, v.view()),
{
    let ghost s = member_views(m@);
    let ghost k = key@;
    let ghost vv = v.view();
    match member_position(m, key.as_str()) {
        Some(i) => {
            m.set(i, (key, v));
            assert(member_views(m@) =~= s.update(i as int, (k, vv)));
        }
        None => {
            m.push((key, v));
            assert(member_views(m@) =~= s.push((k, vv)));
        }
    }
}

#[verifier::external_type_specification]
#[verifier::external_body]
pub struct ExSerdeValue(serde_json::Value);

/// The compact JSON text that `serde_json` writes for the value `v`.
pub uninterp spec fn json_text(v: JsonV) -> Seq<char>;

/// Builds the `serde_json::Value` that `j` stands for: one `serde_json`
/// constructor per variant; a number's text is read back by `serde_json`
/// (text that is no JSON number becomes `null`).
#[verifier::external_body]
fn to_serde(j: &Json) -> serde_json::Value {
    match j {
        Json::Null => serde_json::Value::Null,
        Json::Bool(b) => serde_json::Value::Bool(*b),
        Json::Number(n) => serde_json::from_str(n).unwrap_or(serde_json::Value::Null),
        Json::Str(s) => serde_json::Value::String(s.clone()),
        Json::Array(a) => serde_json::Value::Array(a.iter().map(to_serde).collect()),
        Json::Object(m) => serde_json::Value::Object(m.iter().map(|(k, v)| (k.clone(), to_serde(v))).collect()),
    }
}

/// `serde_json::Value::to_string`: the compact JSON text of the value, a
/// function of the value alone (named `json_text`).
#[verifier::external_body]
pub(crate) fn to_json_text(j: &Json) -> (r: String)
    ensures
        r@ == json_text(j.view()),
{
    to_serde(j).to_string()
}


/// The list of strings that `serde_json` reads from `text`, when `text` is
/// a JSON array of strings.
pub uninterp spec fn string_list_parse(text: Seq<char>) -> Option<Seq<Seq<char>>>;

/// The JSON text that `serde_json` writes for a list of strings.
pub uninterp spec fn string_list_text(items: Seq<Seq<char>>) -> Seq<char>;

/// `serde_json::from_str::<Vec<String>>`: the list when `text` is a JSON
/// array of strings, else nothing; a function of the text alone (named
/// `string_list_parse`).
#[verifier::external_body]
pub(crate) fn parse_string_list(text: &str) -> (r: Option<Vec<String>>)
    ensures
        match r {
            Some(v) => string_list_parse(text@) == Some(texts(v@)),
            None => string_list_parse(text@) is None,
        },
{
    serde_json::from_str::<Vec<String>>(text).ok()
}

/// `serde_json::to_string` on a list of strings: its JSON array text (named
/// `string_list_text`), which `serde_json` reads back as the same list.
#[verifier::external_body]
pub(crate) fn string_list_to_text(items: &Vec<String>) -> (r: String)
    ensures
        r@ == string_list_text(texts(items@)),
        string_list_parse(r@) == Some(texts(items@)),
{
    serde_json::to_string(items).unwrap_or_default()
}


/// What `serde_json` reads from `text`: the value, or the text of the error
/// it reports.
pub uninterp spec fn json_parse(text: Seq<char>) -> Result<JsonV, Seq<char>>;

/// Builds the `Json` that a `serde_json::Value` stands for: one variant for
/// one variant, a number kept as the text `serde_json` writes for it.
#[verifier::external_body]
fn from_serde(v: &serde_json::Value) -> Json {
    match v {
        serde_json::Value::Null => Json::Null,
        serde_json::Value::Bool(b) => Json::Bool(*b),
        serde_json::Value::Number(n) => Json::Number(n.to_string()),
        serde_json::Value::String(s) => Json::Str(s.clone()),
        serde_json::Value::Array(a) => Json::Array(a.iter().map(from_serde).collect()),
        serde_json::Value::Object(m) => Json::Object(m.iter().map(|(k, v)| (k.clone(), from_serde(v))).collect()),
    }
}

/// `serde_json::from_str::<serde_json::Value>`: the value that `text`
/// holds, or the text of the parse error; a function of the text alone
/// (named `json_parse`).
#[verifier::external_body]
pub(crate) fn parse_json_text(text: &str) -> (r: Result<Json, String>)
    ensures
        match r {
            Ok(v) => json_parse(text@) == Ok::<JsonV, Seq<char>>(v.view()),
            Err(e) => json_parse(text@) == Err::<JsonV, Seq<char>>(e@),
        },
{
    serde_json::from_str::<serde_json::Value>(text).map(|v| from_serde(&v)).map_err(|e| e.to_string())
}

#[verifier::external_type_specification]
#[verifier::external_body]
pub struct ExTomlValue(toml::Value);

/// What the `toml` crate reads from `text` as a table, as a JSON object,
/// or the text of the error it reports.
pub uninterp spec fn toml_parse(text: Seq<char>) -> Result<JsonV, Seq<char>>;

/// Builds the `Json` that a `toml::Value` stands for: one variant for one
/// variant; a number or a date keeps the text that `toml` writes for it.
#[verifier::external_body]
fn from_toml(v: &toml::Value) -> Json {
    match v {
        toml::Value::String(s) => Json::Str(s.clone()),
        toml::Value::Integer(i) => Json::Number(i.to_string()),
        toml::Value::Float(_) => Json::Number(v.to_string()),
        toml::Value::Boolean(b) => Json::Bool(*b),
        toml::Value::Datetime(d) => Json::Str(d.to_string()),
        toml::Value::Array(a) => Json::Array(a.iter().map(from_toml).collect()),
        toml::Value::Table(t) => Json::Object(t.iter().map(|(k, v)| (k.clone(), from_toml(v))).collect()),
    }
}

/// `str::parse::<toml::Table>`: the table that `text` holds, as a JSON
/// object, or the text of the parse error; a function of the text alone
/// (named `toml_parse`).
#[verifier::external_body]
pub(crate) fn parse_toml_text(text: &str) -> (r: Result<Json, String>)
    ensures
        match r {
            Ok(v) => toml_parse(text@) == Ok::<JsonV, Seq<char>>(v.view()),
            Err(e) => toml_parse(text@) == Err::<JsonV, Seq<char>>(e@),
        },
{
    text.parse::<toml::Table>()
        .map(|t| Json::Object(t.iter().map(|(k, v)| (k.clone(), from_toml(v))).collect()))
        .map_err(|e| e.to_string())
}

} // verus!
