//! Writing values to JSON documents and reading them back.
use crate::json::{empty_members, items_view, lookup, members_view, Json, JsonModel};
use vstd::prelude::*;

verus! {

/// Why a document could not be read as the value asked for.
#[derive(Clone, Copy, Debug, PartialEq, Eq, Hash, Structural)]
pub enum SchemaError {
    /// The document does not have the shape of the value: a mandatory member
    /// is missing, a member has the wrong type, or the members present fit
    /// no variant.
    Shape,
    /// A closed enumeration was given a token that it does not have.
    UnknownToken,
}

/// A value with a JSON document form.
///
/// `encode_spec` and `decode_spec` define the form over mathematical values;
/// `to_json` and `from_json` compute them.
pub trait Wire: Sized + View {
    /// The document that a value is written as.
    spec fn encode_spec(m: Self::V) -> JsonModel;

    /// The value that a document reads as, or the reason why it reads as none.
    spec fn decode_spec(j: JsonModel) -> Result<Self::V, SchemaError>;

    /// Reading what was written gives the value back.
    proof fn lemma_round_trip(m: Self::V)
        ensures
            Self::decode_spec(Self::encode_spec(m)) == Ok::<Self::V, SchemaError>(m),
    ;

    /// Write the value as a document.
    fn to_json(&self) -> (j: Json)
        ensures
            j@ == Self::encode_spec(self@),
    ;

    /// Read a value from a document.
    fn from_json(j: &Json) -> (r: Result<Self, SchemaError>)
        ensures
            match r {
                Ok(v) => Self::decode_spec(j@) == Ok::<Self::V, SchemaError>(v@),
                Err(e) => Self::decode_spec(j@) == Err::<Self::V, SchemaError>(e),
            },
    ;
}

/// The unit value is written as `null`.
impl Wire for () {
    open spec fn encode_spec(m: ()) -> JsonModel {
        JsonModel::Null
    }

    open spec fn decode_spec(j: JsonModel) -> Result<(), SchemaError> {
        match j {
            JsonModel::Null => Ok(()),
            _ => Err(SchemaError::Shape),
        }
    }

    proof fn lemma_round_trip(m: ()) {
    }

    fn to_json(&self) -> (j: Json) {
        Json::Null
    }

    fn from_json(j: &Json) -> (r: Result<(), SchemaError>) {
        match j {
            Json::Null => Ok(()),
            _ => Err(SchemaError::Shape),
        }
    }
}

/// An unsigned integer is written as a number.
impl Wire for u64 {
    open spec fn encode_spec(m: u64) -> JsonModel {
        JsonModel::Number(m)
    }

    open spec fn decode_spec(j: JsonModel) -> Result<u64, SchemaError> {
        match j {
            JsonModel::Number(n) => Ok(n),
            _ => Err(SchemaError::Shape),
        }
    }

    proof fn lemma_round_trip(m: u64) {
    }

    fn to_json(&self) -> (j: Json) {
        Json::Number(*self)
    }

    fn from_json(j: &Json) -> (r: Result<u64, SchemaError>) {
        match j {
            Json::Number(n) => Ok(*n),
            _ => Err(SchemaError::Shape),
        }
    }
}

/// Text is written as a string.
impl Wire for String {
    open spec fn encode_spec(m: Seq<char>) -> JsonModel {
        JsonModel::Text(m)
    }

    open spec fn decode_spec(j: JsonModel) -> Result<Seq<char>, SchemaError> {
        match j {
            JsonModel::Text(s) => Ok(s),
            _ => Err(SchemaError::Shape),
        }
    }

    proof fn lemma_round_trip(m: Seq<char>) {
    }

    fn to_json(&self) -> (j: Json) {
        Json::Text(self.clone())
    }

    fn from_json(j: &Json) -> (r: Result<String, SchemaError>) {
        match j {
            Json::Text(s) => Ok(s.clone()),
            _ => Err(SchemaError::Shape),
        }
    }
}

/// A document stands for itself: any document is a value, and an identifier
/// may be one.
impl Wire for Json {
    open spec fn encode_spec(m: JsonModel) -> JsonModel {
        m
    }

    open spec fn decode_spec(j: JsonModel) -> Result<JsonModel, SchemaError> {
        Ok(j)
    }

    proof fn lemma_round_trip(m: JsonModel) {
    }

    fn to_json(&self) -> (j: Json) {
        self.duplicate()
    }

    fn from_json(j: &Json) -> (r: Result<Json, SchemaError>) {
        Ok(j.duplicate())
    }
}

/// What a mandatory member reads as: a missing one is a shape error.
pub open spec fn required<T: Wire>(members: Seq<(Seq<char>, JsonModel)>, key: Seq<char>) -> Result<
    T::V,
    SchemaError,
> {
    match lookup(members, key) {
        Some(j) => T::decode_spec(j),
        None => Err(SchemaError::Shape),
    }
}

/// What an optional member reads as: a missing one is `None`, and one that is
/// present is read whatever it holds, `null` included.
pub open spec fn optional<T: Wire>(members: Seq<(Seq<char>, JsonModel)>, key: Seq<char>) -> Result<
    Option<T::V>,
    SchemaError,
> {
    match lookup(members, key) {
        Some(j) => match T::decode_spec(j) {
            Ok(v) => Ok(Some(v)),
            Err(e) => Err(e),
        },
        None => Ok(None),
    }
}

/// The view of an optional value.
pub open spec fn option_view<T: View>(o: Option<T>) -> Option<T::V> {
    match o {
        Some(v) => Some(v@),
        None => None,
    }
}

/// Read the mandatory member `key` of an object. A document that is no
/// object has no members.
pub fn read_required<T: Wire>(j: &Json, key: &str) -> (r: Result<T, SchemaError>)
    ensures
        match j@ {
            JsonModel::Object(members) => match r {
                Ok(v) => required::<T>(members, key@) == Ok::<T::V, SchemaError>(v@),
                Err(e) => required::<T>(members, key@) == Err::<T::V, SchemaError>(e),
            },
            _ => r == Err::<T, SchemaError>(SchemaError::Shape),
        },
{
    match j.get(key) {
        Some(v) => T::from_json(v),
        None => Err(SchemaError::Shape),
    }
}

/// Read the optional member `key` of an object.
pub fn read_optional<T: Wire>(j: &Json, key: &str) -> (r: Result<Option<T>, SchemaError>)
    ensures
        match j@ {
            JsonModel::Object(members) => match r {
                Ok(v) => optional::<T>(members, key@) == Ok::<Option<T::V>, SchemaError>(option_view(v)),
                Err(e) => optional::<T>(members, key@) == Err::<Option<T::V>, SchemaError>(e),
            },
            _ => r == Ok::<Option<T>, SchemaError>(None),
        },
{
    match j.get(key) {
        Some(x) => match T::from_json(x) {
            Ok(v) => Ok(Some(v)),
            Err(e) => Err(e),
        },
        None => Ok(None),
    }
}

/// Write one more member at the end of a member list.
pub fn put(members: &mut Vec<(String, Json)>, key: &str, value: Json)
    ensures
        members_view(final(members)@) == members_view(old(members)@).push((key@, value@)),
{
    let ghost before = members_view(members@);
    let name = key.to_owned();
    members.push((name, value));
    proof {
        assert(members_view(members@) =~= before.push((key@, value@)));
    }
}

/// A member list with nothing in it.
pub fn no_members() -> (members: Vec<(String, Json)>)
    ensures
        members_view(members@) == empty_members(),
{
    let members: Vec<(String, Json)> = Vec::new();
    proof {
        assert(members_view(members@) =~= Seq::<(Seq<char>, JsonModel)>::empty());
    }
    members
}

/// What a member that may be `null` reads as: a missing one and `null` are
/// both `None`.
pub open spec fn nullable<T: Wire>(members: Seq<(Seq<char>, JsonModel)>, key: Seq<char>) -> Result<
    Option<T::V>,
    SchemaError,
> {
    match lookup(members, key) {
        None => Ok(None),
        Some(JsonModel::Null) => Ok(None),
        Some(j) => match T::decode_spec(j) {
            Ok(v) => Ok(Some(v)),
            Err(e) => Err(e),
        },
    }
}

/// What a value that may be absent is written as where the member is always
/// written: `null` for an absent one.
pub open spec fn encode_nullable<T: Wire>(o: Option<T::V>) -> JsonModel {
    match o {
        Some(v) => T::encode_spec(v),
        None => JsonModel::Null,
    }
}

/// Read the member `key` of an object, which may be missing or `null`.
pub fn read_nullable<T: Wire>(j: &Json, key: &str) -> (r: Result<Option<T>, SchemaError>)
    ensures
        match j@ {
            JsonModel::Object(members) => match r {
                Ok(v) => nullable::<T>(members, key@) == Ok::<Option<T::V>, SchemaError>(option_view(v)),
                Err(e) => nullable::<T>(members, key@) == Err::<Option<T::V>, SchemaError>(e),
            },
            _ => r == Ok::<Option<T>, SchemaError>(None),
        },
{
    match j.get(key) {
        None => Ok(None),
        Some(Json::Null) => Ok(None),
        Some(x) => match T::from_json(x) {
            Ok(v) => Ok(Some(v)),
            Err(e) => Err(e),
        },
    }
}

/// Write a value that may be absent, `null` for an absent one.
pub fn write_nullable<T: Wire>(o: &Option<T>) -> (j: Json)
    ensures
        j@ == encode_nullable::<T>(option_view(*o)),
{
    match o {
        Some(v) => v.to_json(),
        None => Json::Null,
    }
}

/// The texts of a list of strings.
pub open spec fn texts_view(texts: Seq<String>) -> Seq<Seq<char>> {
    Seq::new(texts.len(), |i: int| texts[i]@)
}

/// A list of texts is written as an array of strings.
pub open spec fn encode_texts(texts: Seq<Seq<char>>) -> JsonModel {
    JsonModel::Array(Seq::new(texts.len(), |i: int| JsonModel::Text(texts[i])))
}

/// An array reads as a list of texts where each of its items is a string.
pub open spec fn decode_texts(j: JsonModel) -> Result<Seq<Seq<char>>, SchemaError> {
    match j {
        JsonModel::Array(items) => if forall|i: int| 0 <= i < items.len() ==> items[i] is Text {
            Ok(Seq::new(items.len(), |i: int| items[i]->Text_0))
        } else {
            Err(SchemaError::Shape)
        },
        _ => Err(SchemaError::Shape),
    }
}

/// Reading a written list of texts gives the list back.
pub proof fn lemma_texts_round_trip(texts: Seq<Seq<char>>)
    ensures
        decode_texts(encode_texts(texts)) == Ok::<Seq<Seq<char>>, SchemaError>(texts),
{
    let items = encode_texts(texts)->Array_0;
    assert(Seq::new(items.len(), |i: int| items[i]->Text_0) =~= texts);
}

/// Write a list of strings as an array.
pub fn write_texts(texts: &Vec<String>) -> (j: Json)
    ensures
        j@ == encode_texts(texts_view(texts@)),
{
    let mut items: Vec<Json> = Vec::new();
    let mut i: usize = 0;
    while i < texts.len()
        invariant
            i <= texts.len(),
            items.len() == i,
            forall|k: int| 0 <= k < i ==> items[k]@ == JsonModel::Text(texts[k]@),
        decreases texts.len() - i,
    {
        items.push(Json::Text(texts[i].clone()));
        i = i + 1;
    }
    proof {
        assert(items_view(items@) =~= encode_texts(texts_view(texts@))->Array_0);
    }
    Json::Array(items)
}

/// Read an array of strings.
pub fn read_texts(j: &Json) -> (r: Result<Vec<String>, SchemaError>)
    ensures
        match r {
            Ok(v) => decode_texts(j@) == Ok::<Seq<Seq<char>>, SchemaError>(texts_view(v@)),
            Err(e) => decode_texts(j@) == Err::<Seq<Seq<char>>, SchemaError>(e),
        },
{
    match j {
        Json::Array(items) => {
            let ghost model = items_view(items@);
            let mut texts: Vec<String> = Vec::new();
            let mut i: usize = 0;
            while i < items.len()
                invariant
                    i <= items.len(),
                    texts.len() == i,
                    model == items_view(items@),
                    j@ == JsonModel::Array(model),
                    forall|k: int| 0 <= k < i ==> #[trigger] model[k] == JsonModel::Text(texts[k]@),
                decreases items.len() - i,
            {
                match &items[i] {
                    Json::Text(s) => {
                        texts.push(s.clone());
                    },
                    _ => {
                        proof {
                            assert(!(model[i as int] is Text));
                        }
                        return Err(SchemaError::Shape);
                    },
                }
                i = i + 1;
            }
            proof {
                assert(texts_view(texts@) =~= Seq::new(model.len(), |k: int| model[k]->Text_0));
            }
            Ok(texts)
        },
        _ => Err(SchemaError::Shape),
    }
}

} // verus!
