//! A model of JSON values that the library can read field by field.

use vstd::prelude::*;

verus! {

use vstd::std_specs::vec::axiom_vec_index_decreases;

broadcast use vstd::std_specs::vec::axiom_vec_index_decreases;

/// A JSON number: what fits an integer as that integer, anything else as
/// the text of its literal.
#[derive(Debug)]
pub enum JsonNumber {
    Unsigned(u64),
    Signed(i64),
    Real(String),
}

/// A JSON value.
#[derive(Debug)]
pub enum Json {
    Null,
    Bool(bool),
    Number(JsonNumber),
    Text(String),
    Array(Vec<Json>),
    Object(Vec<(String, Json)>),
}

/// A JSON number with its text as characters.
pub enum NumberView {
    Unsigned(u64),
    Signed(i64),
    Real(Seq<char>),
}

/// A JSON value with its texts as characters.
pub enum JsonView {
    Null,
    Bool(bool),
    Number(NumberView),
    Text(Seq<char>),
    Array(Seq<JsonView>),
    Object(Seq<(Seq<char>, JsonView)>),
}

impl View for JsonNumber {
    type V = NumberView;

    open spec fn view(&self) -> NumberView {
        match self {
            JsonNumber::Unsigned(n) => NumberView::Unsigned(*n),
            JsonNumber::Signed(n) => NumberView::Signed(*n),
            JsonNumber::Real(t) => NumberView::Real(t@),
        }
    }
}

/// A JSON value with every text in it as characters.
pub open spec fn json_view(json: Json) -> JsonView
    decreases json,
{
    match json {
        Json::Null => JsonView::Null,
        Json::Bool(b) => JsonView::Bool(b),
        Json::Number(n) => JsonView::Number(n@),
        Json::Text(t) => JsonView::Text(t@),
        Json::Array(items) => JsonView::Array(
            Seq::new(
                items@.len(),
                |i: int|
                    if 0 <= i < items@.len() {
                        json_view(items@[i])
                    } else {
                        JsonView::Null
                    },
            ),
        ),
        Json::Object(fields) => JsonView::Object(
            Seq::new(
                fields@.len(),
                |i: int|
                    if 0 <= i < fields@.len() {
                        (fields@[i].0@, json_view(fields@[i].1))
                    } else {
                        (Seq::empty(), JsonView::Null)
                    },
            ),
        ),
    }
}

impl View for Json {
    type V = JsonView;

    open spec fn view(&self) -> JsonView {
        json_view(*self)
    }
}

/// The entries of an object with their keys as characters.
pub open spec fn fields_view(fields: Seq<(String, Json)>) -> Seq<(Seq<char>, JsonView)> {
    Seq::new(fields.len(), |i: int| (fields[i].0@, fields[i].1@))
}

/// The items of an array, each by its view.
pub open spec fn items_view(items: Seq<Json>) -> Seq<JsonView> {
    Seq::new(items.len(), |i: int| items[i]@)
}

/// An object is seen as its entries, each seen by its key and its value.
pub proof fn lemma_object_view(fields: Vec<(String, Json)>)
    ensures
        Json::Object(fields)@ == JsonView::Object(fields_view(fields@)),
{
    assert(Json::Object(fields)@->Object_0 =~= fields_view(fields@));
}

/// An array is seen as its items, each by its view.
pub proof fn lemma_array_view(items: Vec<Json>)
    ensures
        Json::Array(items)@ == JsonView::Array(items_view(items@)),
{
    assert(Json::Array(items)@->Array_0 =~= items_view(items@));
}

/// An item of an array is smaller than the array, so that a function may
/// call itself on it.
pub proof fn lemma_item_is_smaller(json: Json, items: Vec<Json>, i: int)
    requires
        json == Json::Array(items),
        0 <= i < items.len(),
    ensures
        decreases_to!(json => items[i]),
{
    axiom_vec_index_decreases(items, i);
    assert(decreases_to!(json => json->Array_0));
    assert(decreases_to!(items => items[i]));
}

/// The value of an entry of an object is smaller than the object.
pub proof fn lemma_member_is_smaller(json: Json, fields: Vec<(String, Json)>, i: int)
    requires
        json == Json::Object(fields),
        0 <= i < fields.len(),
    ensures
        decreases_to!(json => fields[i].1),
{
    axiom_vec_index_decreases(fields, i);
    assert(decreases_to!(json => json->Object_0));
    assert(decreases_to!(fields => fields[i]));
    assert(decreases_to!(fields[i] => fields[i].1));
}

/// The value of the first entry of `fields` whose key is `key`.
pub open spec fn field_of(fields: Seq<(Seq<char>, JsonView)>, key: Seq<char>) -> Option<JsonView>
    decreases fields.len(),
{
    if fields.len() == 0 {
        None
    } else if fields[0].0 == key {
        Some(fields[0].1)
    } else {
        field_of(fields.drop_first(), key)
    }
}

/// The value that the object `json` holds under `key`; nothing where `json`
/// is no object or has no such key.
pub open spec fn member_of(json: JsonView, key: Seq<char>) -> Option<JsonView> {
    match json {
        JsonView::Object(fields) => field_of(fields, key),
        _ => None,
    }
}

impl Json {
    /// The value under `key`, where this is an object that has the key.
    pub fn get(&self, key: &str) -> (found: Option<&Json>)
        ensures
            match found {
                Some(value) => member_of(self@, key@) == Some(value@),
                None => member_of(self@, key@) is None,
            },
    {
        match self {
            Json::Object(fields) => {
                let ghost all = fields_view(fields@);
                let mut i: usize = 0;
                proof {
                    lemma_object_view(*fields);
                }
                assert(all.skip(0) =~= all);
                while i < fields.len()
                    invariant
                        i <= fields.len(),
                        self@ == JsonView::Object(all),
                        all.len() == fields@.len(),
                        forall|k: int|
                            0 <= k < all.len() ==> #[trigger] all[k] == (
                                fields@[k].0@,
                                fields@[k].1@,
                            ),
                        field_of(all, key@) == field_of(all.skip(i as int), key@),
                    decreases fields.len() - i,
                {
                    let entry = &fields[i];
                    proof {
                        let rest = all.skip(i as int);
                        assert(rest[0] == all[i as int]);
                        assert(rest.drop_first() =~= all.skip(i + 1));
                    }
                    if crate::text::str_eq(entry.0.as_str(), key) {
                        return Some(&entry.1);
                    }
                    i += 1;
                }
                None
            },
            _ => None,
        }
    }
}

} // verus!
