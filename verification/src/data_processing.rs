//! Leaving members out of JSON values before they are sent.

use crate::json::{
    fields_view, items_view, lemma_array_view, lemma_item_is_smaller, lemma_member_is_smaller,
    lemma_object_view, Json, JsonNumber, JsonView,
};
use crate::text::str_eq;
use vstd::prelude::*;

verus! {


/// The names in `exclude`, as a set of texts.
pub open spec fn excluded(exclude: Seq<String>) -> Set<Seq<char>> {
    Set::new(|name: Seq<char>| exists|i: int| 0 <= i < exclude.len() && exclude[i]@ == name)
}

/// `json` without the members whose names are in `exclude`: an object
/// loses those of its own members and keeps the others as they are, in
/// their order; an array has each of its items treated so; anything else
/// stays as it is.
pub open spec fn filtered(json: JsonView, exclude: Set<Seq<char>>) -> JsonView
    decreases json,
{
    match json {
        JsonView::Object(fields) => JsonView::Object(
            fields.filter(|field: (Seq<char>, JsonView)| !exclude.contains(field.0)),
        ),
        JsonView::Array(items) => JsonView::Array(
            Seq::new(
                items.len(),
                |i: int|
                    if 0 <= i < items.len() {
                        filtered(items[i], exclude)
                    } else {
                        JsonView::Null
                    },
            ),
        ),
        _ => json,
    }
}

/// Whether `name` is one of the names in `exclude`.
pub fn is_excluded(exclude: &Vec<String>, name: &str) -> (found: bool)
    ensures
        found == excluded(exclude@).contains(name@),
{
    let mut i: usize = 0;
    while i < exclude.len()
        invariant
            i <= exclude.len(),
            forall|k: int| 0 <= k < i ==> exclude@[k]@ != name@,
        decreases exclude.len() - i,
    {
        if str_eq(exclude[i].as_str(), name) {
            return true;
        }
        i += 1;
    }
    false
}

impl Json {
    /// A copy of this value.
    pub fn duplicate(&self) -> (copy: Json)
        ensures
            copy@ == self@,
        decreases self,
    {
        match self {
            Json::Null => Json::Null,
            Json::Bool(b) => Json::Bool(*b),
            Json::Number(JsonNumber::Unsigned(n)) => Json::Number(JsonNumber::Unsigned(*n)),
            Json::Number(JsonNumber::Signed(n)) => Json::Number(JsonNumber::Signed(*n)),
            Json::Number(JsonNumber::Real(t)) => Json::Number(JsonNumber::Real(t.clone())),
            Json::Text(t) => Json::Text(t.clone()),
            Json::Array(items) => {
                let mut copies: Vec<Json> = Vec::new();
                let mut i: usize = 0;
                while i < items.len()
                    invariant
                        i <= items.len(),
                        *self == Json::Array(*items),
                        copies@.len() == i,
                        forall|k: int| 0 <= k < i ==> copies@[k]@ == items@[k]@,
                    decreases items.len() - i,
                {
                    proof {
                        lemma_item_is_smaller(*self, *items, i as int);
                    }
                    copies.push(items[i].duplicate());
                    i += 1;
                }
                proof {
                    lemma_array_view(*items);
                    lemma_array_view(copies);
                    assert(items_view(copies@) =~= items_view(items@));
                }
                Json::Array(copies)
            },
            Json::Object(fields) => {
                let mut copies: Vec<(String, Json)> = Vec::new();
                let mut i: usize = 0;
                while i < fields.len()
                    invariant
                        i <= fields.len(),
                        *self == Json::Object(*fields),
                        copies@.len() == i,
                        forall|k: int|
                            0 <= k < i ==> copies@[k].0@ == fields@[k].0@ && copies@[k].1@
                                == fields@[k].1@,
                    decreases fields.len() - i,
                {
                    proof {
                        lemma_member_is_smaller(*self, *fields, i as int);
                    }
                    copies.push((fields[i].0.clone(), fields[i].1.duplicate()));
                    i += 1;
                }
                proof {
                    lemma_object_view(*fields);
                    lemma_object_view(copies);
                    assert(fields_view(copies@) =~= fields_view(fields@));
                }
                Json::Object(copies)
            },
        }
    }
}

/// `value` without the members whose names are in `exclude`.
pub fn filter_value(value: &Json, exclude: &Vec<String>) -> (kept: Json)
    ensures
        kept@ == filtered(value@, excluded(exclude@)),
    decreases value,
{
    let ghost names = excluded(exclude@);
    match value {
        Json::Object(fields) => {
            let ghost keep = |field: (Seq<char>, JsonView)| !names.contains(field.0);
            let ghost all = fields_view(fields@);
            let mut kept: Vec<(String, Json)> = Vec::new();
            let mut i: usize = 0;
            proof {
                reveal(Seq::filter);
                assert(all.take(0) =~= Seq::empty());
                assert(fields_view(kept@) =~= Seq::empty());
            }
            while i < fields.len()
                invariant
                    i <= fields.len(),
                    names == excluded(exclude@),
                    keep == |field: (Seq<char>, JsonView)| !names.contains(field.0),
                    all == fields_view(fields@),
                    fields_view(kept@) == all.take(i as int).filter(keep),
                decreases fields.len() - i,
            {
                proof {
                    reveal(Seq::filter);
                    let next = all.take(i + 1);
                    assert(next.drop_last() =~= all.take(i as int));
                    assert(next.last() == (fields@[i as int].0@, fields@[i as int].1@));
                }
                if !is_excluded(exclude, fields[i].0.as_str()) {
                    let ghost before = fields_view(kept@);
                    kept.push((fields[i].0.clone(), fields[i].1.duplicate()));
                    assert(fields_view(kept@) =~= before.push(
                        (fields@[i as int].0@, fields@[i as int].1@),
                    ));
                }
                i += 1;
            }
            proof {
                assert(all.take(i as int) =~= all);
                lemma_object_view(*fields);
                lemma_object_view(kept);
            }
            Json::Object(kept)
        },
        Json::Array(items) => {
            let mut kept: Vec<Json> = Vec::new();
            let mut i: usize = 0;
            while i < items.len()
                invariant
                    i <= items.len(),
                    *value == Json::Array(*items),
                    names == excluded(exclude@),
                    kept@.len() == i,
                    forall|k: int| 0 <= k < i ==> kept@[k]@ == filtered(items@[k]@, names),
                decreases items.len() - i,
            {
                proof {
                    lemma_item_is_smaller(*value, *items, i as int);
                }
                kept.push(filter_value(&items[i], exclude));
                i += 1;
            }
            proof {
                lemma_array_view(*items);
                lemma_array_view(kept);
                assert(items_view(kept@) =~= filtered(value@, names)->Array_0);
            }
            Json::Array(kept)
        },
        _ => value.duplicate(),
    }
}

/// Every value of `data` without the members whose names are in `exclude`.
pub fn deep_filter_data(data: &Vec<Json>, exclude: &Vec<String>) -> (kept: Vec<Json>)
    ensures
        kept@.len() == data@.len(),
        forall|i: int|
            0 <= i < data@.len() ==> (#[trigger] kept@[i])@ == filtered(
                data@[i]@,
                excluded(exclude@),
            ),
{
    let mut kept: Vec<Json> = Vec::new();
    let mut i: usize = 0;
    while i < data.len()
        invariant
            i <= data.len(),
            kept@.len() == i,
            forall|k: int|
                0 <= k < i ==> (#[trigger] kept@[k])@ == filtered(data@[k]@, excluded(exclude@)),
        decreases data.len() - i,
    {
        kept.push(filter_value(&data[i], exclude));
        i += 1;
    }
    kept
}

} // verus!
