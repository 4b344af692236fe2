use vstd::prelude::*;

use crate::common::{lemma_map_of, map_of};

verus! {

/// Compares two strings by their characters.
pub fn same_text(a: &str, b: &str) -> (r: bool)
    ensures
        r == (a@ == b@),
{
    a.to_owned() == b.to_owned()
}

/// A JSON number, as far as the signalling logic reads it.
pub enum JsonNumber {
    /// A non-negative integer.
    PosInt(u64),
    /// A negative integer.
    NegInt(i64),
    /// A number with a fraction or an exponent.
    Float,
}

/// A parsed JSON value. An object lists its members in order; where a key
/// occurs more than once the last member counts, as in a JSON parser that
/// keeps one value per key.
pub enum Json {
    Null,
    Bool(bool),
    Number(JsonNumber),
    Str(String),
    Array(Vec<Json>),
    Object(Vec<(String, Json)>),
}

impl Json {
    /// The member of an object under `key`; nothing for a missing key or a
    /// value that is not an object.
    pub open spec fn member(self, key: Seq<char>) -> Option<Json> {
        match self {
            Json::Object(members) => if map_of(members@).contains_key(key) {
                Some(map_of(members@)[key])
            } else {
                None
            },
            _ => None,
        }
    }

    /// Indexing by a key: the member, or `Null` where there is none.
    pub open spec fn at(self, key: Seq<char>) -> Json {
        match self.member(key) {
            Some(v) => v,
            None => Json::Null,
        }
    }

    /// The text of a string value.
    pub open spec fn text(self) -> Option<Seq<char>> {
        match self {
            Json::Str(s) => Some(s@),
            _ => None,
        }
    }

    /// The value of a non-negative integer.
    pub open spec fn unsigned(self) -> Option<u64> {
        match self {
            Json::Number(JsonNumber::PosInt(n)) => Some(n),
            _ => None,
        }
    }

    /// The member under `key`, if this is an object that has one.
    pub fn get(&self, key: &str) -> (r: Option<&Json>)
        ensures
            match r {
                Some(v) => self.member(key@) == Some(*v),
                None => self.member(key@) is None,
            },
    {
        match self {
            Json::Object(members) => {
                let mut i = members.len();
                while i > 0
                    invariant
                        *self == Json::Object(*members),
                        i <= members@.len(),
                        forall|j: int| i <= j < members@.len() ==> (#[trigger] members@[j]).0@ != key@,
                    decreases i,
                {
                    i = i - 1;
                    if same_text(members[i].0.as_str(), key) {
                        proof {
                            lemma_last_member(members@, i as int);
                        }
                        return Some(&members[i].1);
                    }
                }
                proof {
                    lemma_map_of(members@);
                }
                None
            },
            _ => None,
        }
    }

    /// The text of a string value.
    pub fn as_str(&self) -> (r: Option<&String>)
        ensures
            match r {
                Some(s) => self.text() == Some(s@),
                None => self.text() is None,
            },
    {
        match self {
            Json::Str(s) => Some(s),
            _ => None,
        }
    }

    /// The value of a non-negative integer.
    pub fn as_u64(&self) -> (r: Option<u64>)
        ensures
            r == self.unsigned(),
    {
        match self {
            Json::Number(JsonNumber::PosInt(n)) => Some(*n),
            _ => None,
        }
    }
}

/// The last entry with a key is the one the map keeps for it.
pub proof fn lemma_last_member<V>(s: Seq<(String, V)>, i: int)
    requires
        0 <= i < s.len(),
        forall|j: int| i < j < s.len() ==> (#[trigger] s[j]).0@ != s[i].0@,
    ensures
        map_of(s).contains_key(s[i].0@),
        map_of(s)[s[i].0@] == s[i].1,
    decreases s.len(),
{
    if i < s.len() - 1 {
        let p = s.drop_last();
        assert forall|j: int| i < j < p.len() implies (#[trigger] p[j]).0@ != p[i].0@ by {
            assert(p[j] == s[j]);
        }
        lemma_last_member(p, i);
        assert(p[i] == s[i]);
        assert(s[s.len() - 1].0@ != s[i].0@);
    }
}

} // verus!
