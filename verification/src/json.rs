//! A plain document model for the structured texts this crate reads:
//! JSON bodies from the two remote APIs and the YAML token file.
//! Numbers are kept as their decimal text so that no value is ever
//! transformed on its way from a response body to the database row.
use vstd::prelude::*;

verus! {

/// A parsed structured document. Object members keep the order in
/// which the parser handed them over; a lookup takes the first match.
pub enum Json {
    Null,
    Bool(bool),
    /// The decimal text of a number, exactly as the parser renders it.
    Num(String),
    Str(String),
    Arr(Vec<Json>),
    Obj(Vec<(String, Json)>),
}

/// First member of `entries` whose key reads as `key`, if any.
pub open spec fn spec_obj_get(entries: Seq<(String, Json)>, key: Seq<char>) -> Option<Json>
    decreases entries.len(),
{
    if entries.len() == 0 {
        None
    } else if entries[0].0@ == key {
        Some(entries[0].1)
    } else {
        spec_obj_get(entries.drop_first(), key)
    }
}

/// Member `key` of `doc`, provided `doc` is an object that has it.
pub open spec fn spec_get(doc: Json, key: Seq<char>) -> Option<Json> {
    match doc {
        Json::Obj(entries) => spec_obj_get(entries@, key),
        _ => None,
    }
}

proof fn lemma_obj_get_skip(entries: Seq<(String, Json)>, key: Seq<char>, i: int)
    requires
        0 <= i <= entries.len(),
        forall|j: int| 0 <= j < i ==> #[trigger] entries[j].0@ != key,
    ensures
        spec_obj_get(entries, key) == spec_obj_get(entries.skip(i), key),
    decreases i,
{
    if i > 0 {
        assert(entries[0].0@ != key);
        assert(entries.drop_first().skip(i - 1) =~= entries.skip(i));
        lemma_obj_get_skip(entries.drop_first(), key, i - 1);
    } else {
        assert(entries.skip(0) =~= entries);
    }
}

impl Json {
    /// Member `key` of this document, when it is an object holding one.
    pub fn get<'a>(&'a self, key: &str) -> (r: Option<&'a Json>)
        ensures
            match r {
                Some(v) => spec_get(*self, key@) == Some(*v),
                None => spec_get(*self, key@) is None,
            },
    {
        match self {
            Json::Obj(entries) => {
                let wanted: String = key.to_owned();
                let n = entries.len();
                let mut i: usize = 0;
                while i < n
                    invariant
                        n == entries.len(),
                        i <= n,
                        forall|j: int| 0 <= j < i ==> #[trigger] entries@[j].0@ != key@,
                        wanted@ == key@,
                        spec_get(*self, key@) == spec_obj_get(entries@, key@),
                    decreases n - i,
                {
                    if entries[i].0 == wanted {
                        proof {
                            lemma_obj_get_skip(entries@, key@, i as int);
                            assert(entries@.skip(i as int)[0] == entries@[i as int]);
                        }
                        return Some(&entries[i].1);
                    }
                    i += 1;
                }
                proof {
                    lemma_obj_get_skip(entries@, key@, n as int);
                    assert(entries@.skip(n as int) =~= Seq::<(String, Json)>::empty());
                }
                None
            },
            _ => None,
        }
    }
}

} // verus!
