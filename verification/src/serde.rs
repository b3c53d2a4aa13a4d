//! Reading an enumeration from the text that names one of its values.

use crate::text::str_eq;
use vstd::prelude::*;
use vstd::string::StringExecFns;

verus! {

/// An enumeration whose values are written as fixed texts.
pub trait EnumDeserialize: Sized {
    /// The value that `s` names, if it names one.
    spec fn named(s: Seq<char>) -> Option<Self>;

    /// The texts that name a value, in the order in which they are listed
    /// to a client.
    spec fn valid_names() -> Seq<Seq<char>>;

    /// Reads a value from the text that names it.
    fn from_str(s: &str) -> (value: Result<Self, ()>)
        ensures
            match value {
                Ok(v) => Self::named(s@) == Some(v),
                Err(_) => Self::named(s@) is None,
            },
    ;

    /// The texts that name a value.
    fn valid_values() -> (names: Vec<&'static str>)
        ensures
            names@.map_values(|n: &'static str| n@) == Self::valid_names(),
    ;
}

/// The texts of `parts` in a row, with `separator` between each two.
pub open spec fn joined(parts: Seq<Seq<char>>, separator: Seq<char>) -> Seq<char>
    decreases parts.len(),
{
    if parts.len() == 0 {
        Seq::empty()
    } else if parts.len() == 1 {
        parts[0]
    } else {
        joined(parts.drop_last(), separator) + separator + parts.last()
    }
}

/// What a client is told of a text that names no value: the text, and the
/// texts that would have named one.
pub open spec fn out_of_range(s: Seq<char>, names: Seq<Seq<char>>) -> Seq<char> {
    s + " 不在"@ + joined(names, "或"@) + " 范围里面"@
}

/// The texts of `parts` in a row, with `separator` between each two.
pub fn join(parts: &Vec<&'static str>, separator: &str) -> (text: String)
    ensures
        text@ == joined(parts@.map_values(|n: &'static str| n@), separator@),
{
    let ghost names = parts@.map_values(|n: &'static str| n@);
    let mut text = String::new();
    let mut i: usize = 0;
    assert(names.take(0) =~= Seq::empty());
    while i < parts.len()
        invariant
            i <= parts.len(),
            names == parts@.map_values(|n: &'static str| n@),
            text@ == joined(names.take(i as int), separator@),
        decreases parts.len() - i,
    {
        proof {
            let next = names.take(i + 1);
            assert(next.drop_last() =~= names.take(i as int));
            assert(next.last() == parts@[i as int]@);
            if i == 0 {
                assert(text@ + parts@[i as int]@ =~= parts@[i as int]@);
            }
        }
        if i > 0 {
            text.append(separator);
        }
        text.append(parts[i]);
        i += 1;
    }
    assert(names.take(i as int) =~= names);
    text
}

/// Reads a value of `T` from the text `s`. A text that names no value is
/// answered with a message that lists the texts that do.
pub fn deserialize_enum<T: EnumDeserialize>(s: &str) -> (value: Result<T, String>)
    ensures
        match value {
            Ok(v) => T::named(s@) == Some(v),
            Err(message) => T::named(s@) is None && message@ == out_of_range(
                s@,
                T::valid_names(),
            ),
        },
{
    match T::from_str(s) {
        Ok(v) => Ok(v),
        Err(_) => {
            let valid = T::valid_values();
            let list = join(&valid, "或");
            let mut message = s.to_owned();
            message.append(" 不在");
            message.append(list.as_str());
            message.append(" 范围里面");
            Err(message)
        },
    }
}

/// What a category or a tag belongs to.
#[derive(Debug, Clone, Copy, PartialEq, Eq, Structural)]
pub enum Type {
    Article,
    Library,
}

impl EnumDeserialize for Type {
    open spec fn named(s: Seq<char>) -> Option<Type> {
        if s == "Article"@ {
            Some(Type::Article)
        } else if s == "Library"@ {
            Some(Type::Library)
        } else {
            None
        }
    }

    open spec fn valid_names() -> Seq<Seq<char>> {
        seq!["Article"@, "Library"@]
    }

    fn from_str(s: &str) -> (value: Result<Type, ()>) {
        if str_eq(s, "Article") {
            Ok(Type::Article)
        } else if str_eq(s, "Library") {
            Ok(Type::Library)
        } else {
            Err(())
        }
    }

    fn valid_values() -> (names: Vec<&'static str>) {
        let mut names: Vec<&'static str> = Vec::new();
        names.push("Article");
        names.push("Library");
        assert(names@.map_values(|n: &'static str| n@) =~= Self::valid_names());
        names
    }
}

} // verus!
