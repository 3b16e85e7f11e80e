//! A JSON document as the decoders read it.

use vstd::prelude::*;

verus! {

/// A JSON document. A number is kept only as far as the decoders read one:
/// as a signed 64-bit integer where it is one, and as `Number` otherwise.
/// Of two members of an object with the same key, the first one counts.
#[derive(Debug, PartialEq, Eq)]
pub enum JsonValue {
    Null,
    Bool(bool),
    Integer(i64),
    Number,
    Text(String),
    Array(Vec<JsonValue>),
    Object(Vec<(String, JsonValue)>),
}

/// The mathematical value of a `JsonValue`.
pub enum Json {
    Null,
    Bool(bool),
    Integer(int),
    Number,
    Text(Seq<char>),
    Array(Seq<Json>),
    Object(Seq<(Seq<char>, Json)>),
}

/// The mathematical value of a document, level by level. (The bounds inside
/// the two sequences are there for termination only: see `lemma_array_view`
/// and `lemma_object_view` for what the sequences are.)
pub open spec fn json_of(v: JsonValue) -> Json
    decreases v,
{
    match v {
        JsonValue::Null => Json::Null,
        JsonValue::Bool(b) => Json::Bool(b),
        JsonValue::Integer(i) => Json::Integer(i as int),
        JsonValue::Number => Json::Number,
        JsonValue::Text(s) => Json::Text(s@),
        JsonValue::Array(items) => Json::Array(
            Seq::new(
                items@.len(),
                |i: int|
                    if 0 <= i < items@.len() {
                        json_of(items@[i])
                    } else {
                        Json::Null
                    },
            ),
        ),
        JsonValue::Object(members) => Json::Object(
            Seq::new(
                members@.len(),
                |i: int|
                    if 0 <= i < members@.len() {
                        (members@[i].0@, json_of(members@[i].1))
                    } else {
                        (Seq::empty(), Json::Null)
                    },
            ),
        ),
    }
}

impl View for JsonValue {
    type V = Json;

    open spec fn view(&self) -> Json {
        json_of(*self)
    }
}

/// The value of the first member with the given key, if there is one.
pub open spec fn find_member(members: Seq<(Seq<char>, Json)>, key: Seq<char>) -> Option<Json>
    decreases members.len(),
{
    if members.len() == 0 {
        None
    } else if members[0].0 == key {
        Some(members[0].1)
    } else {
        find_member(members.drop_first(), key)
    }
}

/// A member that is added at the end is found under its key where no
/// earlier member has it, and changes nothing under any other key.
pub proof fn lemma_find_member_push(
    members: Seq<(Seq<char>, Json)>,
    added: (Seq<char>, Json),
    key: Seq<char>,
)
    ensures
        find_member(members.push(added), key) == match find_member(members, key) {
            Some(found) => Some(found),
            None => if added.0 == key {
                Some(added.1)
            } else {
                None
            },
        },
    decreases members.len(),
{
    let longer = members.push(added);
    if members.len() == 0 {
        assert(longer.drop_first() =~= Seq::empty());
    } else {
        assert(longer[0] == members[0]);
        assert(longer.drop_first() =~= members.drop_first().push(added));
        lemma_find_member_push(members.drop_first(), added, key);
    }
}

/// The objects of an array with one more element at its end: the element
/// is kept, behind the others, exactly where it is an object.
pub proof fn lemma_objects_push(items: Seq<Json>, last: Json)
    ensures
        Json::Array(items.push(last)).objects() == if last is Object {
            Json::Array(items).objects().push(last)
        } else {
            Json::Array(items).objects()
        },
{
    items.lemma_filter_push(last, |j: Json| j is Object);
}

/// An empty array has no objects.
pub proof fn lemma_objects_empty()
    ensures
        Json::Array(Seq::empty()).objects() == Seq::<Json>::empty(),
{
    reveal(Seq::filter);
}

impl Json {
    /// The member of an object under a key; nothing for any other document.
    pub open spec fn member(self, key: Seq<char>) -> Option<Json> {
        match self {
            Json::Object(members) => find_member(members, key),
            _ => None,
        }
    }

    /// The elements of an array that are objects, in order; none for any
    /// other document.
    pub open spec fn objects(self) -> Seq<Json> {
        match self {
            Json::Array(items) => items.filter(|j: Json| j is Object),
            _ => Seq::empty(),
        }
    }

    /// The characters of a text; nothing for any other document.
    pub open spec fn text(self) -> Option<Seq<char>> {
        match self {
            Json::Text(s) => Some(s),
            _ => None,
        }
    }

    /// The value of an integer; nothing for any other document.
    pub open spec fn integer(self) -> Option<int> {
        match self {
            Json::Integer(i) => Some(i),
            _ => None,
        }
    }

    /// The value of a boolean; nothing for any other document.
    pub open spec fn boolean(self) -> Option<bool> {
        match self {
            Json::Bool(b) => Some(b),
            _ => None,
        }
    }
}

/// The members of an object's view, one for one.
pub open spec fn members_view(members: Seq<(String, JsonValue)>) -> Seq<(Seq<char>, Json)> {
    Seq::new(members.len(), |i: int| (members[i].0@, members[i].1@))
}

/// The elements of an array's view, one for one.
pub open spec fn items_view(items: Seq<JsonValue>) -> Seq<Json> {
    Seq::new(items.len(), |i: int| items[i]@)
}

/// The views of borrowed documents, one for one.
pub open spec fn borrowed_view(items: Seq<&JsonValue>) -> Seq<Json> {
    Seq::new(items.len(), |i: int| items[i]@)
}

/// The view of an array is the array of the views of its elements.
pub proof fn lemma_array_view(items: Vec<JsonValue>)
    ensures
        JsonValue::Array(items)@ == Json::Array(items_view(items@)),
{
    let value = JsonValue::Array(items);
    assert(value@->Array_0 =~= items_view(items@));
}

/// The view of an object is the object of its members' keys and views.
pub proof fn lemma_object_view(members: Vec<(String, JsonValue)>)
    ensures
        JsonValue::Object(members)@ == Json::Object(members_view(members@)),
{
    let value = JsonValue::Object(members);
    assert(value@->Object_0 =~= members_view(members@));
}

impl JsonValue {
    /// The member of an object under `key`: the first one, if several have
    /// that key.
    pub fn get(&self, key: &str) -> (r: Option<&JsonValue>)
        ensures
            match r {
                Some(j) => self@.member(key@) == Some(j@),
                None => self@.member(key@) is None,
            },
    {
        match self {
            JsonValue::Object(members) => {
                proof {
                    lemma_object_view(*members);
                }
                let wanted = String::from_str(key);
                let ghost all = members_view(members@);
                assert(all.skip(0) =~= all);
                let mut i: usize = 0;
                while i < members.len()
                    invariant
                        i <= members.len(),
                        wanted@ == key@,
                        all == members_view(members@),
                        self@.member(key@) == find_member(all, key@),
                        find_member(all, key@) == find_member(all.skip(i as int), key@),
                    decreases members.len() - i,
                {
                    proof {
                        let rest = all.skip(i as int);
                        assert(rest[0] == all[i as int]);
                        assert(all[i as int] == (members@[i as int].0@, members@[i as int].1@));
                        assert(rest.drop_first() =~= all.skip(i + 1));
                    }
                    if members[i].0 == wanted {
                        return Some(&members[i].1);
                    }
                    i = i + 1;
                }
                None
            },
            _ => None,
        }
    }

    /// The elements of an array that are objects, in order; none for any
    /// other document.
    pub fn objects(&self) -> (r: Vec<&JsonValue>)
        ensures
            borrowed_view(r@) == self@.objects(),
    {
        let mut out: Vec<&JsonValue> = Vec::new();
        match self {
            JsonValue::Array(items) => {
                let ghost all = items_view(items@);
                proof {
                    lemma_array_view(*items);
                    reveal(Seq::filter);
                    assert(all.take(0) =~= Seq::<Json>::empty());
                    assert(borrowed_view(out@) =~= all.take(0).filter(|j: Json| j is Object));
                }
                let mut i: usize = 0;
                while i < items.len()
                    invariant
                        i <= items.len(),
                        all == items_view(items@),
                        borrowed_view(out@) == all.take(i as int).filter(|j: Json| j is Object),
                    decreases items.len() - i,
                {
                    let ghost before = all.take(i as int);
                    let ghost old_out = out@;
                    proof {
                        assert(all.take(i + 1) =~= before.push(all[i as int]));
                        before.lemma_filter_push(all[i as int], |j: Json| j is Object);
                        assert(all[i as int] == items@[i as int]@);
                    }
                    match &items[i] {
                        JsonValue::Object(_) => {
                            out.push(&items[i]);
                            proof {
                                assert(borrowed_view(out@) =~= borrowed_view(old_out).push(
                                    items@[i as int]@,
                                ));
                            }
                        },
                        _ => {},
                    }
                    i = i + 1;
                }
                proof {
                    assert(all.take(items@.len() as int) =~= all);
                }
            },
            _ => {
                proof {
                    assert(borrowed_view(out@) =~= Seq::<Json>::empty());
                }
            },
        }
        out
    }

    /// The text, if this is one.
    pub fn as_str(&self) -> (r: Option<&str>)
        ensures
            match r {
                Some(s) => self@.text() == Some(s@),
                None => self@.text() is None,
            },
    {
        match self {
            JsonValue::Text(s) => Some(s.as_str()),
            _ => None,
        }
    }

    /// The integer, if this is one.
    pub fn as_i64(&self) -> (r: Option<i64>)
        ensures
            match r {
                Some(i) => self@.integer() == Some(i as int),
                None => self@.integer() is None,
            },
    {
        match self {
            JsonValue::Integer(i) => Some(*i),
            _ => None,
        }
    }

    /// The boolean, if this is one.
    pub fn as_bool(&self) -> (r: Option<bool>)
        ensures
            r == self@.boolean(),
    {
        match self {
            JsonValue::Bool(b) => Some(*b),
            _ => None,
        }
    }
}

} // verus!
