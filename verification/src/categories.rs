//! The bodies of the requests that create a category and a tag.

use crate::serde::{deserialize_enum, out_of_range, EnumDeserialize, Type};
use vstd::prelude::*;

verus! {

/// The body of a request to create a category.
#[derive(Debug)]
pub struct CategoryRequest {
    pub name: String,
    /// What the category belongs to; `type` on the wire.
    pub kind: Type,
}

/// The body of a request to create a tag.
#[derive(Debug)]
pub struct CreateTagRequest {
    pub name: String,
    /// What the tag belongs to; `type` on the wire.
    pub kind: Type,
}

/// What reading the text of a type gives: the type it names, or the message
/// that lists the types.
pub open spec fn type_read(type_text: Seq<char>, kind: Result<Type, Seq<char>>) -> bool {
    match kind {
        Ok(k) => Type::named(type_text) == Some(k),
        Err(message) => Type::named(type_text) is None && message == out_of_range(
            type_text,
            Type::valid_names(),
        ),
    }
}

impl CategoryRequest {
    /// The request with the given name and the type that `type_text` names;
    /// where it names none, the message that lists the types.
    pub fn from_parts(name: String, type_text: &str) -> (request: Result<Self, String>)
        ensures
            match request {
                Ok(r) => r.name == name && type_read(type_text@, Ok(r.kind)),
                Err(message) => type_read(type_text@, Err(message@)),
            },
    {
        match deserialize_enum::<Type>(type_text) {
            Ok(kind) => Ok(CategoryRequest { name, kind }),
            Err(message) => Err(message),
        }
    }
}

impl CreateTagRequest {
    /// The request with the given name and the type that `type_text` names;
    /// where it names none, the message that lists the types.
    pub fn from_parts(name: String, type_text: &str) -> (request: Result<Self, String>)
        ensures
            match request {
                Ok(r) => r.name == name && type_read(type_text@, Ok(r.kind)),
                Err(message) => type_read(type_text@, Err(message@)),
            },
    {
        match deserialize_enum::<Type>(type_text) {
            Ok(kind) => Ok(CreateTagRequest { name, kind }),
            Err(message) => Err(message),
        }
    }
}

} // verus!
