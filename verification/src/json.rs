//! The parts of JSON documents that the control plane looks at.
//!
//! A document is read one level deep: the members of an object are cells, and what is neither
//! null, an integer nor a text is kept as its JSON text.
use vstd::prelude::*;

use crate::text;

verus! {

/// A JSON value as the member of an object.
#[derive(Debug)]
pub enum JsonCell {
    Null,
    /// An integer that is not negative.
    Unsigned(u64),
    /// A negative integer.
    Negative(i64),
    Text(String),
    /// Any other value, as its JSON text.
    Other(String),
}

impl JsonCell {
    /// The value as text.
    pub open spec fn string(self) -> Option<String> {
        match self {
            JsonCell::Text(s) => Some(s),
            _ => None,
        }
    }

    /// Gives the value as text.
    pub fn as_str(&self) -> (s: Option<String>)
        ensures
            s == self.string(),
    {
        match self {
            JsonCell::Text(s) => Some(s.clone()),
            _ => None,
        }
    }
}

/// A member of a JSON object.
#[derive(Debug)]
pub struct JsonMember {
    pub name: String,
    pub value: JsonCell,
}

/// A JSON value as far as it is an object.
#[derive(Debug)]
pub enum JsonRow {
    /// The members of an object; no name occurs twice.
    Object(Vec<JsonMember>),
    /// Any value that is no object.
    Other,
}

/// The value of the first member with a name.
pub open spec fn member_of(members: Seq<JsonMember>, name: Seq<char>) -> Option<JsonCell>
    decreases members.len(),
{
    if members.len() == 0 {
        None
    } else if members[0].name@ == name {
        Some(members[0].value)
    } else {
        member_of(members.drop_first(), name)
    }
}

/// The first member with a name is the one that is found.
pub proof fn lemma_member_at(members: Seq<JsonMember>, name: Seq<char>, i: int)
    requires
        0 <= i < members.len(),
        members[i].name@ == name,
        forall|j: int| 0 <= j < i ==> (#[trigger] members[j]).name@ != name,
    ensures
        member_of(members, name) == Some(members[i].value),
    decreases i,
{
    if i > 0 {
        assert(members[0].name@ != name);
        assert forall|j: int| 0 <= j < i - 1 implies (
        #[trigger] members.drop_first()[j]).name@ != name by {
            assert(members[j + 1].name@ != name);
        }
        lemma_member_at(members.drop_first(), name, i - 1);
    }
}

/// Finds the value of the first member with a name.
pub fn member<'a>(members: &'a Vec<JsonMember>, name: &str) -> (cell: Option<&'a JsonCell>)
    ensures
        match cell {
            Some(c) => member_of(members@, name@) == Some(*c),
            None => member_of(members@, name@) is None,
        },
{
    let mut i: usize = 0;
    assert(members@.skip(0) =~= members@);
    while i < members.len()
        invariant
            i <= members@.len(),
            member_of(members@, name@) == member_of(members@.skip(i as int), name@),
        decreases members@.len() - i,
    {
        if text::same_text(members[i].name.as_str(), name) {
            return Some(&members[i].value);
        }
        assert(members@.skip(i as int).drop_first() =~= members@.skip(i + 1));
        i = i + 1;
    }
    None
}

impl JsonRow {
    /// The value that an object has under a name.
    pub open spec fn value_of(self, name: Seq<char>) -> Option<JsonCell> {
        match self {
            JsonRow::Object(members) => member_of(members@, name),
            JsonRow::Other => None,
        }
    }

    /// Finds the value that an object has under a name.
    pub fn get<'a>(&'a self, name: &str) -> (cell: Option<&'a JsonCell>)
        ensures
            match cell {
                Some(c) => self.value_of(name@) == Some(*c),
                None => self.value_of(name@) is None,
            },
    {
        match self {
            JsonRow::Object(members) => member(members, name),
            JsonRow::Other => None,
        }
    }
}

/// A JSON document: its text and, where it is an object, its members.
#[derive(Debug)]
pub struct JsonDocument {
    pub text: String,
    pub row: JsonRow,
}

} // verus!
