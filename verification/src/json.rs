use vstd::prelude::*;

verus! {

/// A JSON number, kept in the three forms that JSON text distinguishes.
pub enum JsonNumber {
    /// A non-negative integer.
    PosInt(u64),
    /// A negative integer.
    NegInt(i64),
    /// Any other number, in its textual form.
    Float(String),
}

/// A JSON document, as the node exchanges it with the gateway.
pub enum Json {
    Null,
    Bool(bool),
    Number(JsonNumber),
    String(String),
    Array(Vec<Json>),
    /// The members of an object, in order.
    Object(Vec<(String, Json)>),
}

/// The mathematical model of a JSON number.
pub enum NumberValue {
    PosInt(u64),
    NegInt(i64),
    Float(Seq<char>),
}

/// The mathematical model of a JSON document.
pub enum JsonValue {
    Null,
    Bool(bool),
    Number(NumberValue),
    Text(Seq<char>),
    Array(Seq<JsonValue>),
    Object(Seq<(Seq<char>, JsonValue)>),
}

impl View for JsonNumber {
    type V = NumberValue;

    open spec fn view(&self) -> NumberValue {
        match self {
            JsonNumber::PosInt(n) => NumberValue::PosInt(*n),
            JsonNumber::NegInt(n) => NumberValue::NegInt(*n),
            JsonNumber::Float(s) => NumberValue::Float(s@),
        }
    }
}

/// The models of a sequence of documents.
pub open spec fn items_view(items: Seq<Json>) -> Seq<JsonValue>
    decreases items,
{
    if items.len() == 0 {
        Seq::empty()
    } else {
        seq![json_view(items[0])] + items_view(items.drop_first())
    }
}

/// The models of the members of an object.
pub open spec fn fields_view(fields: Seq<(String, Json)>) -> Seq<(Seq<char>, JsonValue)>
    decreases fields,
{
    if fields.len() == 0 {
        Seq::empty()
    } else {
        seq![(fields[0].0@, json_view(fields[0].1))] + fields_view(fields.drop_first())
    }
}

/// The model of a document.
pub open spec fn json_view(j: Json) -> JsonValue
    decreases j,
{
    match j {
        Json::Null => JsonValue::Null,
        Json::Bool(b) => JsonValue::Bool(b),
        Json::Number(n) => JsonValue::Number(n@),
        Json::String(s) => JsonValue::Text(s@),
        Json::Array(items) => JsonValue::Array(items_view(items@)),
        Json::Object(fields) => JsonValue::Object(fields_view(fields@)),
    }
}

impl View for Json {
    type V = JsonValue;

    open spec fn view(&self) -> JsonValue {
        json_view(*self)
    }
}

/// The value of the first member named `key`, if there is one.
pub open spec fn lookup(fields: Seq<(Seq<char>, JsonValue)>, key: Seq<char>) -> Option<JsonValue>
    decreases fields.len(),
{
    if fields.len() == 0 {
        None
    } else if fields[0].0 == key {
        Some(fields[0].1)
    } else {
        lookup(fields.drop_first(), key)
    }
}

impl JsonValue {
    /// The member `key` of an object; nothing for any other document.
    pub open spec fn get(self, key: Seq<char>) -> Option<JsonValue> {
        match self {
            JsonValue::Object(fields) => lookup(fields, key),
            _ => None,
        }
    }
}

/// The text held by a string document.
pub open spec fn text_of(v: Option<JsonValue>) -> Option<Seq<char>> {
    match v {
        Some(JsonValue::Text(s)) => Some(s),
        _ => None,
    }
}

/// The value of a non-negative integer document.
pub open spec fn u64_of(v: Option<JsonValue>) -> Option<u64> {
    match v {
        Some(JsonValue::Number(NumberValue::PosInt(n))) => Some(n),
        _ => None,
    }
}

/// The members of an object document.
pub open spec fn members_of(v: Option<JsonValue>) -> Option<Seq<(Seq<char>, JsonValue)>> {
    match v {
        Some(JsonValue::Object(fields)) => Some(fields),
        _ => None,
    }
}

/// The elements of an array document.
pub open spec fn elements_of(v: Option<JsonValue>) -> Option<Seq<JsonValue>> {
    match v {
        Some(JsonValue::Array(items)) => Some(items),
        _ => None,
    }
}

/// The number that an `i64` becomes in a document.
pub open spec fn int_value(n: i64) -> NumberValue {
    if n >= 0 {
        NumberValue::PosInt(n as u64)
    } else {
        NumberValue::NegInt(n)
    }
}

pub proof fn lemma_fields_view_len_index(fields: Seq<(String, Json)>)
    ensures
        fields_view(fields).len() == fields.len(),
        forall|k: int|
            0 <= k < fields.len() ==> #[trigger] fields_view(fields)[k] == (
            fields[k].0@,
            json_view(fields[k].1),
        ),
    decreases fields.len(),
{
    if fields.len() > 0 {
        lemma_fields_view_len_index(fields.drop_first());
        assert forall|k: int| 0 <= k < fields.len() implies #[trigger] fields_view(fields)[k] == (
            fields[k].0@,
            json_view(fields[k].1),
        ) by {
            if k > 0 {
                assert(fields.drop_first()[k - 1] == fields[k]);
            }
        }
    }
}

pub proof fn lemma_items_view_len_index(items: Seq<Json>)
    ensures
        items_view(items).len() == items.len(),
        forall|k: int| 0 <= k < items.len() ==> #[trigger] items_view(items)[k] == json_view(items[k]),
    decreases items.len(),
{
    if items.len() > 0 {
        lemma_items_view_len_index(items.drop_first());
        assert forall|k: int| 0 <= k < items.len() implies #[trigger] items_view(items)[k]
            == json_view(items[k]) by {
            if k > 0 {
                assert(items.drop_first()[k - 1] == items[k]);
            }
        }
    }
}

pub proof fn lemma_fields_view_push(fields: Seq<(String, Json)>, f: (String, Json))
    ensures
        fields_view(fields.push(f)) == fields_view(fields).push((f.0@, json_view(f.1))),
{
    lemma_fields_view_len_index(fields);
    lemma_fields_view_len_index(fields.push(f));
    assert(fields_view(fields.push(f)) =~= fields_view(fields).push((f.0@, json_view(f.1))));
}

pub proof fn lemma_items_view_push(items: Seq<Json>, j: Json)
    ensures
        items_view(items.push(j)) == items_view(items).push(json_view(j)),
{
    lemma_items_view_len_index(items);
    lemma_items_view_len_index(items.push(j));
    assert(items_view(items.push(j)) =~= items_view(items).push(json_view(j)));
}

proof fn lemma_lookup_skip(fields: Seq<(Seq<char>, JsonValue)>, i: int, key: Seq<char>)
    requires
        0 <= i < fields.len(),
        fields[i].0 != key,
    ensures
        lookup(fields.skip(i), key) == lookup(fields.skip(i + 1), key),
{
    assert(fields.skip(i).drop_first() =~= fields.skip(i + 1));
}

/// Appends the member `key: value` to the members of an object under construction.
pub fn push_member(fields: &mut Vec<(String, Json)>, key: &str, value: Json)
    ensures
        fields_view(final(fields)@) == fields_view(old(fields)@).push((key@, value@)),
{
    let k = String::from_str(key);
    proof {
        lemma_fields_view_push(fields@, (k, value));
    }
    fields.push((k, value));
}

/// Appends an element to the elements of an array under construction.
pub fn push_item(items: &mut Vec<Json>, value: Json)
    ensures
        items_view(final(items)@) == items_view(old(items)@).push(value@),
{
    proof {
        lemma_items_view_push(items@, value);
    }
    items.push(value);
}

impl Json {
    /// A string document.
    pub fn text(s: &str) -> (res: Json)
        ensures
            res@ == JsonValue::Text(s@),
    {
        Json::String(String::from_str(s))
    }

    /// The document for an integer, as a JSON serializer writes an `i64`.
    pub fn integer(n: i64) -> (res: Json)
        ensures
            res@ == JsonValue::Number(int_value(n)),
    {
        if n >= 0 {
            Json::Number(JsonNumber::PosInt(n as u64))
        } else {
            Json::Number(JsonNumber::NegInt(n))
        }
    }

    /// The member `key` of an object; `None` for a missing member or any other document.
    pub fn get(&self, key: &str) -> (res: Option<&Json>)
        ensures
            match res {
                Some(r) => self@.get(key@) == Some(r@),
                None => self@.get(key@) is None,
            },
    {
        match self {
            Json::Object(fields) => {
                let k = String::from_str(key);
                let ghost fv = fields_view(fields@);
                proof {
                    lemma_fields_view_len_index(fields@);
                    assert(fv.skip(0) =~= fv);
                    assert(self@ == JsonValue::Object(fv));
                }
                let mut i: usize = 0;
                while i < fields.len()
                    invariant
                        0 <= i <= fields.len(),
                        fv == fields_view(fields@),
                        self@ == JsonValue::Object(fv),
                        fv.len() == fields@.len(),
                        forall|m: int|
                            0 <= m < fields.len() ==> #[trigger] fv[m] == (
                            fields@[m].0@,
                            json_view(fields@[m].1),
                        ),
                        k@ == key@,
                        lookup(fv, key@) == lookup(fv.skip(i as int), key@),
                    decreases fields.len() - i,
                {
                    if fields[i].0 == k {
                        assert(fv.skip(i as int)[0] == fv[i as int]);
                        assert(fv[i as int].0 == key@);
                        assert(lookup(fv.skip(i as int), key@) == Some(fv[i as int].1));
                        return Some(&fields[i].1);
                    }
                    proof {
                        assert(fv[i as int].0 == fields@[i as int].0@);
                        lemma_lookup_skip(fv, i as int, key@);
                    }
                    i = i + 1;
                }
                assert(fv.skip(i as int).len() == 0);
                None
            },
            _ => None,
        }
    }

    /// The text of the member `key`, where it is a string.
    pub fn get_text(&self, key: &str) -> (res: Option<String>)
        ensures
            match res {
                Some(s) => text_of(self@.get(key@)) == Some(s@),
                None => text_of(self@.get(key@)) is None,
            },
    {
        match self.get(key) {
            Some(Json::String(s)) => Some(s.clone()),
            _ => None,
        }
    }

    /// The value of the member `key`, where it is a non-negative integer.
    pub fn get_u64(&self, key: &str) -> (res: Option<u64>)
        ensures
            res == u64_of(self@.get(key@)),
    {
        match self.get(key) {
            Some(Json::Number(JsonNumber::PosInt(n))) => Some(*n),
            _ => None,
        }
    }
}

} // verus!
