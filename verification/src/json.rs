use vstd::prelude::*;


verus! {

/// A JSON value as the CLI reads and writes it.
///
/// Numbers that fit in an `i64` are held as integers; any other number keeps its
/// JSON text, which nothing here reads.
#[derive(Debug)]
pub enum Json {
    Null,
    Bool(bool),
    Int(i64),
    OtherNumber(String),
    Str(String),
    Array(Vec<Json>),
    Object(Vec<(String, Json)>),
}

/// The mathematical value of a [`Json`].
pub enum JsonView {
    Null,
    Bool(bool),
    Int(i64),
    OtherNumber(Seq<char>),
    Str(Seq<char>),
    Array(Seq<JsonView>),
    Object(Seq<(Seq<char>, JsonView)>),
}

impl Json {
    pub open spec fn model(self) -> JsonView
        decreases self,
    {
        match self {
            Json::Null => JsonView::Null,
            Json::Bool(b) => JsonView::Bool(b),
            Json::Int(i) => JsonView::Int(i),
            Json::OtherNumber(t) => JsonView::OtherNumber(t@),
            Json::Str(s) => JsonView::Str(s@),
            Json::Array(items) => JsonView::Array(
                Seq::new(
                    items@.len(),
                    |i: int|
                        if 0 <= i < items@.len() {
                            items@[i].model()
                        } else {
                            JsonView::Null
                        },
                ),
            ),
            Json::Object(fields) => JsonView::Object(
                Seq::new(
                    fields@.len(),
                    |i: int|
                        if 0 <= i < fields@.len() {
                            (fields@[i].0@, fields@[i].1.model())
                        } else {
                            (Seq::empty(), JsonView::Null)
                        },
                ),
            ),
        }
    }
}

/// The models of a sequence of values.
pub open spec fn models(items: Seq<Json>) -> Seq<JsonView> {
    items.map_values(|j: Json| j.model())
}

/// The models of a sequence of object fields.
pub open spec fn field_models(fields: Seq<(String, Json)>) -> Seq<(Seq<char>, JsonView)> {
    fields.map_values(|f: (String, Json)| (f.0@, f.1.model()))
}

pub proof fn lemma_model_array(items: Vec<Json>)
    ensures
        Json::Array(items).model() == JsonView::Array(models(items@)),
{
    let m = Json::Array(items).model();
    assert(m->Array_0 =~= models(items@));
}

pub proof fn lemma_model_object(fields: Vec<(String, Json)>)
    ensures
        Json::Object(fields).model() == JsonView::Object(field_models(fields@)),
{
    let m = Json::Object(fields).model();
    assert(m->Object_0 =~= field_models(fields@));
}

/// The value of the first field named `key`.
pub open spec fn find_field(fields: Seq<(Seq<char>, JsonView)>, key: Seq<char>) -> Option<JsonView>
    decreases fields.len(),
{
    if fields.len() == 0 {
        None
    } else if fields[0].0 == key {
        Some(fields[0].1)
    } else {
        find_field(fields.drop_first(), key)
    }
}

impl JsonView {
    /// `Value::get` with a string key: the field of an object, `None` otherwise.
    pub open spec fn get(self, key: Seq<char>) -> Option<JsonView> {
        match self {
            JsonView::Object(fields) => find_field(fields, key),
            _ => None,
        }
    }

    /// `Value::as_str`.
    pub open spec fn as_str(self) -> Option<Seq<char>> {
        match self {
            JsonView::Str(s) => Some(s),
            _ => None,
        }
    }

    /// `Value::as_i64`.
    pub open spec fn as_i64(self) -> Option<i64> {
        match self {
            JsonView::Int(i) => Some(i),
            _ => None,
        }
    }

    /// `Value::as_array`.
    pub open spec fn as_array(self) -> Option<Seq<JsonView>> {
        match self {
            JsonView::Array(items) => Some(items),
            _ => None,
        }
    }

    /// The string at `key`, if the value is an object holding a string there.
    pub open spec fn str_at(self, key: Seq<char>) -> Option<Seq<char>> {
        match self.get(key) {
            Some(v) => v.as_str(),
            None => None,
        }
    }
}

/// Looks a key up in the fields of an object.
fn find_field_exec<'a>(fields: &'a Vec<(String, Json)>, key: &str) -> (r: Option<&'a Json>)
    ensures
        match r {
            Some(v) => find_field(field_models(fields@), key@) == Some(v.model()),
            None => find_field(field_models(fields@), key@) is None,
        },
{
    let mut i: usize = 0;
    assert(field_models(fields@).skip(0) =~= field_models(fields@));
    while i < fields.len()
        invariant
            i <= fields.len(),
            find_field(field_models(fields@), key@) == find_field(
                field_models(fields@).skip(i as int),
                key@,
            ),
        decreases fields.len() - i,
    {
        let ghost rest = field_models(fields@).skip(i as int);
        assert(rest[0] == (fields@[i as int].0@, fields@[i as int].1.model()));
        assert(rest.drop_first() =~= field_models(fields@).skip(i + 1));
        let k = fields[i].0.as_str();
        if crate::text::str_eq(k, key) {
            return Some(&fields[i].1);
        }
        i = i + 1;
    }
    assert(field_models(fields@).skip(i as int).len() == 0);
    None
}

impl Json {
    /// `Value::get` with a string key.
    pub fn get(&self, key: &str) -> (r: Option<&Json>)
        ensures
            match r {
                Some(v) => self.model().get(key@) == Some(v.model()),
                None => self.model().get(key@) is None,
            },
    {
        match self {
            Json::Object(fields) => {
                proof {
                    lemma_model_object(*fields);
                }
                find_field_exec(fields, key)
            },
            _ => None,
        }
    }

    /// `Value::as_str`.
    pub fn as_str(&self) -> (r: Option<&str>)
        ensures
            match r {
                Some(s) => self.model().as_str() == Some(s@),
                None => self.model().as_str() is None,
            },
    {
        match self {
            Json::Str(s) => Some(s.as_str()),
            _ => None,
        }
    }

    /// `Value::as_i64`.
    pub fn as_i64(&self) -> (r: Option<i64>)
        ensures
            r == self.model().as_i64(),
    {
        match self {
            Json::Int(i) => Some(*i),
            _ => None,
        }
    }

    /// `Value::as_array`.
    pub fn as_array(&self) -> (r: Option<&Vec<Json>>)
        ensures
            match r {
                Some(items) => self.model().as_array() == Some(models(items@)),
                None => self.model().as_array() is None,
            },
    {
        match self {
            Json::Array(items) => {
                proof {
                    lemma_model_array(*items);
                }
                Some(items)
            },
            _ => None,
        }
    }

    /// The string at `key` of an object.
    pub fn str_at(&self, key: &str) -> (r: Option<&str>)
        ensures
            match r {
                Some(s) => self.model().str_at(key@) == Some(s@),
                None => self.model().str_at(key@) is None,
            },
    {
        match self.get(key) {
            Some(v) => v.as_str(),
            None => None,
        }
    }
}


impl View for Json {
    type V = JsonView;

    open spec fn view(&self) -> JsonView {
        self.model()
    }
}

/// An object with the given fields, in order.
pub fn object(fields: Vec<(String, Json)>) -> (j: Json)
    ensures
        j.model() == JsonView::Object(field_models(fields@)),
{
    proof {
        lemma_model_object(fields);
    }
    Json::Object(fields)
}

/// Appends a field to an object under construction.
pub fn push_field(fields: &mut Vec<(String, Json)>, key: &str, value: Json)
    ensures
        field_models(final(fields)@) == field_models(old(fields)@).push((key@, value.model())),
{
    let ghost before = field_models(fields@);
    fields.push((String::from_str(key), value));
    assert(field_models(fields@) =~= before.push((key@, value.model())));
}

/// A JSON string.
pub fn json_str(s: &str) -> (j: Json)
    ensures
        j.model() == JsonView::Str(s@),
{
    Json::Str(String::from_str(s))
}

/// A JSON string, or `null` when absent.
pub fn json_opt_str(s: &Option<String>) -> (j: Json)
    ensures
        j.model() == opt_str_model(crate::text::opt_view(*s)),
{
    match s {
        Some(x) => json_str(x.as_str()),
        None => Json::Null,
    }
}

pub open spec fn opt_str_model(s: Option<Seq<char>>) -> JsonView {
    match s {
        Some(x) => JsonView::Str(x),
        None => JsonView::Null,
    }
}

} // verus!
