//! The JSON document model that every message is written to and read from.
//!
//! A message never touches text here: it is turned into a [`Json`] tree and
//! recovered from one. Turning a tree into bytes and back is the transport's
//! business.
use vstd::prelude::*;

verus! {

/// The mathematical value of a JSON document.
///
/// An object keeps its members in the order in which they were written.
pub enum JsonModel {
    /// The literal `null`.
    Null,
    /// `true` or `false`.
    Bool(bool),
    /// A non-negative integer.
    Number(u64),
    /// A string.
    Text(Seq<char>),
    /// An array.
    Array(Seq<JsonModel>),
    /// An object: its members, each a key and a value.
    Object(Seq<(Seq<char>, JsonModel)>),
}

/// The value stored under `key` in a member list, or `None` where the key
/// does not occur. Of several members with one key the last one counts.
pub open spec fn lookup(members: Seq<(Seq<char>, JsonModel)>, key: Seq<char>) -> Option<JsonModel>
    decreases members.len(),
{
    if members.len() == 0 {
        None
    } else if members.last().0 == key {
        Some(members.last().1)
    } else {
        lookup(members.drop_last(), key)
    }
}

/// The member list of an object without members.
pub open spec fn empty_members() -> Seq<(Seq<char>, JsonModel)> {
    Seq::empty()
}

/// Looking a key up after one more member was written: the new member
/// answers for its own key and leaves every other key as it was.
pub broadcast proof fn lemma_lookup_push(
    members: Seq<(Seq<char>, JsonModel)>,
    k: Seq<char>,
    v: JsonModel,
    key: Seq<char>,
)
    ensures
        #[trigger] lookup(members.push((k, v)), key) == if k == key {
            Some(v)
        } else {
            lookup(members, key)
        },
{
    assert(members.push((k, v)).drop_last() =~= members);
}

/// A JSON document.
///
/// Its numbers are unsigned 64-bit integers, the only numbers that the
/// messages of the protocol hold.
#[derive(Debug, PartialEq, Eq, Hash)]
pub enum Json {
    /// The literal `null`.
    Null,
    /// `true` or `false`.
    Bool(bool),
    /// A non-negative integer.
    Number(u64),
    /// A string.
    Text(String),
    /// An array.
    Array(Vec<Json>),
    /// An object: its members in written order.
    Object(Vec<(String, Json)>),
}

/// The member lists of an object, seen as mathematical values.
pub open spec fn members_view(members: Seq<(String, Json)>) -> Seq<(Seq<char>, JsonModel)>
    decreases members,
{
    Seq::new(
        members.len(),
        |i: int|
            if 0 <= i < members.len() {
                (members[i].0@, members[i].1@)
            } else {
                (Seq::empty(), JsonModel::Null)
            },
    )
}

/// The items of an array, seen as mathematical values.
pub open spec fn items_view(items: Seq<Json>) -> Seq<JsonModel>
    decreases items,
{
    Seq::new(
        items.len(),
        |i: int|
            if 0 <= i < items.len() {
                items[i]@
            } else {
                JsonModel::Null
            },
    )
}

impl View for Json {
    type V = JsonModel;

    open spec fn view(&self) -> JsonModel
        decreases self,
    {
        match self {
            Json::Null => JsonModel::Null,
            Json::Bool(b) => JsonModel::Bool(*b),
            Json::Number(n) => JsonModel::Number(*n),
            Json::Text(s) => JsonModel::Text(s@),
            Json::Array(items) => JsonModel::Array(items_view(items@)),
            Json::Object(members) => JsonModel::Object(members_view(members@)),
        }
    }
}

/// Whether two pieces of text hold the same characters.
pub fn same_text(a: &str, b: &str) -> (r: bool)
    ensures
        r == (a@ == b@),
{
    let x = a.to_owned();
    let y = b.to_owned();
    x == y
}

impl Json {
    /// The value of the member `key` of an object; `None` for a key that the
    /// object lacks and for a document that is no object.
    pub fn get(&self, key: &str) -> (r: Option<&Json>)
        ensures
            match self@ {
                JsonModel::Object(members) => match r {
                    Some(j) => lookup(members, key@) == Some(j@),
                    None => lookup(members, key@) is None,
                },
                _ => r is None,
            },
    {
        match self {
            Json::Object(members) => {
                let ghost model = members_view(members@);
                let mut i: usize = members.len();
                proof {
                    assert(model.take(i as int) =~= model);
                }
                while i > 0
                    invariant
                        i <= members.len(),
                        model == members_view(members@),
                        self@ == JsonModel::Object(model),
                        lookup(model, key@) == lookup(model.take(i as int), key@),
                    decreases i,
                {
                    let member = &members[i - 1];
                    proof {
                        let part = model.take(i as int);
                        assert(part.len() == i);
                        assert(part.last() == model[i - 1]);
                        assert(model[i - 1] == (member.0@, member.1@));
                        assert(part.drop_last() =~= model.take(i - 1));
                    }
                    if same_text(member.0.as_str(), key) {
                        proof {
                            let part = model.take(i as int);
                            assert(part.last().0 == key@);
                            assert(lookup(part, key@) == Some(part.last().1));
                        }
                        return Some(&member.1);
                    }
                    i = i - 1;
                }
                proof {
                    assert(model.take(0).len() == 0);
                }
                None
            },
            _ => None,
        }
    }
}

impl Json {
    /// A copy of the document, member for member.
    pub fn duplicate(&self) -> (j: Json)
        ensures
            j@ == self@,
        decreases self,
    {
        match self {
            Json::Null => Json::Null,
            Json::Bool(b) => Json::Bool(*b),
            Json::Number(n) => Json::Number(*n),
            Json::Text(s) => Json::Text(s.clone()),
            Json::Array(items) => {
                let mut copy: Vec<Json> = Vec::new();
                let mut i: usize = 0;
                while i < items.len()
                    invariant
                        i <= items.len(),
                        copy.len() == i,
                        decreases_to!(*self => *items),
                        forall|k: int| 0 <= k < i ==> copy[k]@ == items[k]@,
                    decreases items.len() - i,
                {
                    proof {
                        vstd::std_specs::vec::axiom_vec_index_decreases(*items, i as int);
                    }
                    copy.push(items[i].duplicate());
                    i = i + 1;
                }
                proof {
                    assert(items_view(copy@) =~= items_view(items@));
                }
                Json::Array(copy)
            },
            Json::Object(members) => {
                let mut copy: Vec<(String, Json)> = Vec::new();
                let mut i: usize = 0;
                while i < members.len()
                    invariant
                        i <= members.len(),
                        copy.len() == i,
                        decreases_to!(*self => *members),
                        forall|k: int|
                            0 <= k < i ==> copy[k].0@ == members[k].0@ && copy[k].1@
                                == members[k].1@,
                    decreases members.len() - i,
                {
                    let member = &members[i];
                    proof {
                        vstd::std_specs::vec::axiom_vec_index_decreases(*members, i as int);
                    }
                    copy.push((member.0.clone(), member.1.duplicate()));
                    i = i + 1;
                }
                proof {
                    assert(members_view(copy@) =~= members_view(members@));
                }
                Json::Object(copy)
            },
        }
    }
}

impl Clone for Json {
    fn clone(&self) -> (j: Json)
        ensures
            j@ == self@,
    {
        self.duplicate()
    }
}

} // verus!
