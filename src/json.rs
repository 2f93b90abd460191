use vstd::prelude::*;

verus! {

/// A JSON document as plain values. Numbers are held as their decimal text,
/// exactly as the wire carries them.
pub enum JsonValue {
    Null,
    Bool(bool),
    Number(String),
    Str(String),
    Array(Vec<JsonValue>),
    Object(Vec<(String, JsonValue)>),
}

/// The mathematical model of a JSON document.
pub enum Json {
    Null,
    Bool(bool),
    Number(Seq<char>),
    Str(Seq<char>),
    Array(Seq<Json>),
    Object(Seq<(Seq<char>, Json)>),
}

impl JsonValue {
    pub open spec fn view(&self) -> Json
        decreases self,
    {
        match self {
            JsonValue::Null => Json::Null,
            JsonValue::Bool(b) => Json::Bool(*b),
            JsonValue::Number(n) => Json::Number(n@),
            JsonValue::Str(s) => Json::Str(s@),
            JsonValue::Array(items) => Json::Array(
                Seq::new(
                    items@.len(),
                    |i: int|
                        if 0 <= i < items@.len() {
                            items@[i].view()
                        } else {
                            Json::Null
                        },
                ),
            ),
            JsonValue::Object(fields) => Json::Object(
                Seq::new(
                    fields@.len(),
                    |i: int|
                        if 0 <= i < fields@.len() {
                            (fields@[i].0@, fields@[i].1.view())
                        } else {
                            (Seq::empty(), Json::Null)
                        },
                ),
            ),
        }
    }
}

/// The models of a sequence of documents.
pub open spec fn views(items: Seq<JsonValue>) -> Seq<Json> {
    items.map_values(|v: JsonValue| v@)
}

/// The models of a sequence of object members.
pub open spec fn field_views(fields: Seq<(String, JsonValue)>) -> Seq<(Seq<char>, Json)> {
    fields.map_values(|f: (String, JsonValue)| (f.0@, f.1@))
}

/// The value that an object holds under `key`: the last member of that name,
/// as a JSON object read into a map keeps it.
pub open spec fn lookup(fields: Seq<(Seq<char>, Json)>, key: Seq<char>) -> Option<Json>
    decreases fields.len(),
{
    if fields.len() == 0 {
        None
    } else if fields.last().0 == key {
        Some(fields.last().1)
    } else {
        lookup(fields.drop_last(), key)
    }
}

/// What `doc[key]` reads: a member of an object, nothing for any other document.
pub open spec fn member(doc: Json, key: Seq<char>) -> Option<Json> {
    match doc {
        Json::Object(fields) => lookup(fields, key),
        _ => None,
    }
}

/// The text of a member that is a JSON string; nothing when the member is
/// missing or of another kind.
pub open spec fn string_member(doc: Json, key: Seq<char>) -> Option<Seq<char>> {
    match member(doc, key) {
        Some(Json::Str(s)) => Some(s),
        _ => None,
    }
}

/// A `String` with the characters of `s`.
pub fn text(s: &str) -> (r: String)
    ensures
        r@ == s@,
{
    String::from_str(s)
}

pub fn string(s: &str) -> (r: JsonValue)
    ensures
        r@ == Json::Str(s@),
{
    JsonValue::Str(text(s))
}

pub fn number(digits: &str) -> (r: JsonValue)
    ensures
        r@ == Json::Number(digits@),
{
    JsonValue::Number(text(digits))
}

pub fn boolean(b: bool) -> (r: JsonValue)
    ensures
        r@ == Json::Bool(b),
{
    JsonValue::Bool(b)
}

pub fn array(items: Vec<JsonValue>) -> (r: JsonValue)
    ensures
        r@ == Json::Array(views(items@)),
{
    let r = JsonValue::Array(items);
    proof {
        assert(r@->Array_0 =~= views(items@));
    }
    r
}

pub fn object(fields: Vec<(String, JsonValue)>) -> (r: JsonValue)
    ensures
        r@ == Json::Object(field_views(fields@)),
{
    let r = JsonValue::Object(fields);
    proof {
        assert(r@->Object_0 =~= field_views(fields@));
    }
    r
}

/// An object member named `key`.
pub fn field(key: &str, value: JsonValue) -> (r: (String, JsonValue))
    ensures
        r.0@ == key@,
        r.1 == value,
{
    (text(key), value)
}

/// Whether two texts hold the same characters.
pub fn same_text(a: &str, b: &str) -> (r: bool)
    ensures
        r == (a@ == b@),
{
    let n = a.unicode_len();
    if n != b.unicode_len() {
        return false;
    }
    let mut i: usize = 0;
    while i < n
        invariant
            n == a@.len(),
            n == b@.len(),
            i <= n,
            a@.subrange(0, i as int) == b@.subrange(0, i as int),
        decreases n - i,
    {
        if a.get_char(i) != b.get_char(i) {
            return false;
        }
        assert(a@.subrange(0, i + 1) =~= a@.subrange(0, i as int).push(a@[i as int]));
        assert(b@.subrange(0, i + 1) =~= b@.subrange(0, i as int).push(b@[i as int]));
        i = i + 1;
    }
    assert(a@ =~= a@.subrange(0, n as int));
    assert(b@ =~= b@.subrange(0, n as int));
    true
}

impl JsonValue {
    /// The member named `key` of an object; `None` for any other document.
    pub fn get(&self, key: &str) -> (r: Option<&JsonValue>)
        ensures
            match r {
                Some(v) => member(self@, key@) == Some(v@),
                None => member(self@, key@) is None,
            },
    {
        match self {
            JsonValue::Object(fields) => {
                let ghost model = self@->Object_0;
                let mut i: usize = fields.len();
                assert(model.subrange(0, i as int) =~= model);
                while i > 0
                    invariant
                        self@ == Json::Object(model),
                        *self == JsonValue::Object(*fields),
                        model.len() == fields@.len(),
                        i <= fields@.len(),
                        lookup(model, key@) == lookup(model.subrange(0, i as int), key@),
                    decreases i,
                {
                    let ghost prefix = model.subrange(0, i as int);
                    assert(prefix.drop_last() =~= model.subrange(0, i - 1));
                    assert(model[i - 1] == (fields@[i - 1].0@, fields@[i - 1].1@));
                    if same_text(fields[i - 1].0.as_str(), key) {
                        return Some(&fields[i - 1].1);
                    }
                    i = i - 1;
                }
                None
            },
            _ => None,
        }
    }

    /// The text of a JSON string; `None` for any other document.
    pub fn as_str(&self) -> (r: Option<&String>)
        ensures
            match r {
                Some(s) => self@ == Json::Str(s@),
                None => !(self@ is Str),
            },
    {
        match self {
            JsonValue::Str(s) => Some(s),
            _ => None,
        }
    }

    /// The text of the string member named `key`; `None` when the member is
    /// missing or is not a string.
    pub fn str_member(&self, key: &str) -> (r: Option<&String>)
        ensures
            match r {
                Some(s) => string_member(self@, key@) == Some(s@),
                None => string_member(self@, key@) is None,
            },
    {
        match self.get(key) {
            Some(v) => v.as_str(),
            None => None,
        }
    }
}

} // verus!
