//! The message envelopes of the protocol: greeting, commands, responses and
//! events.
use crate::json::{empty_members, lookup, members_view, same_text, Json, JsonModel};
use crate::qmp_monitor::{QmpCapability, VersionInfo, VersionInfoModel};
use crate::wire::{
    decode_texts, encode_texts, lemma_texts_round_trip, no_members, option_view, optional, put,
    read_optional, read_required, read_texts, required, texts_view, write_texts, SchemaError,
    Wire,
};
use vstd::prelude::*;

verus! {

broadcast use crate::json::lemma_lookup_push;

/// The member names, by their lengths and first characters: enough to tell
/// any two of them apart.
proof fn lemma_member_names()
    ensures
        "seconds"@.len() == 7 && "seconds"@[0] == 's' && "seconds"@[1] == 'e' && "seconds"@[2] == 'c',
        "microseconds"@.len() == 12 && "microseconds"@[0] == 'm' && "microseconds"@[1] == 'i' && "microseconds"@[2] == 'c',
        "execute"@.len() == 7 && "execute"@[0] == 'e' && "execute"@[1] == 'x' && "execute"@[2] == 'e',
        "arguments"@.len() == 9 && "arguments"@[0] == 'a' && "arguments"@[1] == 'r' && "arguments"@[2] == 'g',
        "id"@.len() == 2 && "id"@[0] == 'i' && "id"@[1] == 'd',
        "exec-oob"@.len() == 8 && "exec-oob"@[0] == 'e' && "exec-oob"@[1] == 'x' && "exec-oob"@[2] == 'e',
        "return"@.len() == 6 && "return"@[0] == 'r' && "return"@[1] == 'e' && "return"@[2] == 't',
        "error"@.len() == 5 && "error"@[0] == 'e' && "error"@[1] == 'r' && "error"@[2] == 'r',
        "desc"@.len() == 4 && "desc"@[0] == 'd' && "desc"@[1] == 'e' && "desc"@[2] == 's',
        "event"@.len() == 5 && "event"@[0] == 'e' && "event"@[1] == 'v' && "event"@[2] == 'e',
        "data"@.len() == 4 && "data"@[0] == 'd' && "data"@[1] == 'a' && "data"@[2] == 't',
        "timestamp"@.len() == 9 && "timestamp"@[0] == 't' && "timestamp"@[1] == 'i' && "timestamp"@[2] == 'm',
        "version"@.len() == 7 && "version"@[0] == 'v' && "version"@[1] == 'e' && "version"@[2] == 'r',
        "capabilities"@.len() == 12 && "capabilities"@[0] == 'c' && "capabilities"@[1] == 'a' && "capabilities"@[2] == 'p',
{
    reveal_strlit("seconds");
    reveal_strlit("microseconds");
    reveal_strlit("execute");
    reveal_strlit("arguments");
    reveal_strlit("id");
    reveal_strlit("exec-oob");
    reveal_strlit("return");
    reveal_strlit("error");
    reveal_strlit("desc");
    reveal_strlit("event");
    reveal_strlit("data");
    reveal_strlit("timestamp");
    reveal_strlit("version");
    reveal_strlit("capabilities");
}

/// The value that both members of a timestamp hold when the server could not
/// read its clock: minus one, in the unsigned form of the members.
pub const TIME_UNAVAILABLE: u64 = 0xffff_ffff_ffff_ffff;

/// When an event occurred in the server.
///
/// Seconds and microseconds since the Unix epoch (1 Jan 1970). Where the
/// server failed to read the host's time, both members hold
/// [`TIME_UNAVAILABLE`].
///
/// A server may limit some events to one per second: of similar events that
/// arrive within one second it drops all but the last, which it delays.
#[derive(Clone, Copy, Debug, PartialEq, Eq, Hash, Structural)]
pub struct Timestamp {
    /// Number of seconds from the Unix epoch.
    pub seconds: u64,
    /// Number of microseconds.
    pub microseconds: u64,
}

impl View for Timestamp {
    type V = Timestamp;

    open spec fn view(&self) -> Timestamp {
        *self
    }
}

impl Timestamp {
    /// Whether the timestamp is the one that a server sends when it could not
    /// read its clock.
    pub open spec fn is_unavailable_spec(self) -> bool {
        self.seconds == TIME_UNAVAILABLE && self.microseconds == TIME_UNAVAILABLE
    }

    /// The timestamp that a server sends when it could not read its clock.
    pub fn unavailable() -> (t: Timestamp)
        ensures
            t == (Timestamp { seconds: TIME_UNAVAILABLE, microseconds: TIME_UNAVAILABLE }),
            t.is_unavailable_spec(),
    {
        Timestamp { seconds: TIME_UNAVAILABLE, microseconds: TIME_UNAVAILABLE }
    }

    /// Whether the timestamp is the one that a server sends when it could not
    /// read its clock.
    pub fn is_unavailable(&self) -> (r: bool)
        ensures
            r == self.is_unavailable_spec(),
    {
        self.seconds == TIME_UNAVAILABLE && self.microseconds == TIME_UNAVAILABLE
    }

    /// A time whose microseconds are a fraction of a second is never taken
    /// for the failure to read the clock; the epoch itself is such a time.
    pub proof fn lemma_time_is_available(self)
        requires
            self.microseconds < 1_000_000,
        ensures
            !self.is_unavailable_spec(),
    {
    }
}

/// A timestamp is an object with the members `seconds` and `microseconds`,
/// each a number.
impl Wire for Timestamp {
    open spec fn encode_spec(m: Timestamp) -> JsonModel {
        JsonModel::Object(
            empty_members().push(("seconds"@, JsonModel::Number(m.seconds))).push(
                ("microseconds"@, JsonModel::Number(m.microseconds)),
            ),
        )
    }

    open spec fn decode_spec(j: JsonModel) -> Result<Timestamp, SchemaError> {
        match j {
            JsonModel::Object(members) => match required::<u64>(members, "seconds"@) {
                Err(e) => Err(e),
                Ok(seconds) => match required::<u64>(members, "microseconds"@) {
                    Err(e) => Err(e),
                    Ok(microseconds) => Ok(Timestamp { seconds, microseconds }),
                },
            },
            _ => Err(SchemaError::Shape),
        }
    }

    proof fn lemma_round_trip(m: Timestamp) {
        lemma_member_names();
    }

    fn to_json(&self) -> (j: Json) {
        let mut members = no_members();
        put(&mut members, "seconds", Json::Number(self.seconds));
        put(&mut members, "microseconds", Json::Number(self.microseconds));
        Json::Object(members)
    }

    fn from_json(j: &Json) -> (r: Result<Timestamp, SchemaError>) {
        match j {
            Json::Object(_) => {
                let seconds = read_required::<u64>(j, "seconds")?;
                let microseconds = read_required::<u64>(j, "microseconds")?;
                Ok(Timestamp { seconds, microseconds })
            },
            _ => Err(SchemaError::Shape),
        }
    }
}

/// The mathematical value of an in-band command.
pub struct CommandModel<A, I> {
    /// The name of the command.
    pub execute: Seq<char>,
    /// The arguments, if any.
    pub arguments: Option<A>,
    /// The transaction identifier, if any.
    pub id: Option<I>,
}

/// An in-band command.
///
/// On the wire it is an object with the member `execute`, then `arguments` and
/// `id` where they are present. An absent one is left out, never written as
/// `null`.
#[derive(Clone, Debug, PartialEq, Eq, Hash)]
pub struct Command<T, U> {
    /// Names the command that the server is to execute.
    pub execute: String,
    /// The arguments of the command, where it takes any. Each command says
    /// what it accepts here.
    pub arguments: Option<T>,
    /// A transaction identifier. The response to the command carries it too.
    /// Any value will do; a number that grows with each command works well.
    pub id: Option<U>,
}

impl<T: View, U: View> View for Command<T, U> {
    type V = CommandModel<T::V, U::V>;

    open spec fn view(&self) -> Self::V {
        CommandModel {
            execute: self.execute@,
            arguments: option_view(self.arguments),
            id: option_view(self.id),
        }
    }
}

impl<T: Wire, U: Wire> Wire for Command<T, U> {
    open spec fn encode_spec(m: Self::V) -> JsonModel {
        let named = empty_members().push(("execute"@, JsonModel::Text(m.execute)));
        let argued = match m.arguments {
            Some(a) => named.push(("arguments"@, T::encode_spec(a))),
            None => named,
        };
        let identified = match m.id {
            Some(i) => argued.push(("id"@, U::encode_spec(i))),
            None => argued,
        };
        JsonModel::Object(identified)
    }

    open spec fn decode_spec(j: JsonModel) -> Result<Self::V, SchemaError> {
        match j {
            JsonModel::Object(members) => match required::<String>(members, "execute"@) {
                Err(e) => Err(e),
                Ok(execute) => match optional::<T>(members, "arguments"@) {
                    Err(e) => Err(e),
                    Ok(arguments) => match optional::<U>(members, "id"@) {
                        Err(e) => Err(e),
                        Ok(id) => Ok(CommandModel { execute, arguments, id }),
                    },
                },
            },
            _ => Err(SchemaError::Shape),
        }
    }

    proof fn lemma_round_trip(m: Self::V) {
        lemma_member_names();
        if let Some(a) = m.arguments {
            T::lemma_round_trip(a);
        }
        if let Some(i) = m.id {
            U::lemma_round_trip(i);
        }
    }

    fn to_json(&self) -> (j: Json) {
        let mut members = no_members();
        put(&mut members, "execute", self.execute.to_json());
        if let Some(a) = &self.arguments {
            put(&mut members, "arguments", a.to_json());
        }
        if let Some(i) = &self.id {
            put(&mut members, "id", i.to_json());
        }
        Json::Object(members)
    }

    fn from_json(j: &Json) -> (r: Result<Self, SchemaError>) {
        match j {
            Json::Object(_) => {
                let execute = read_required::<String>(j, "execute")?;
                let arguments = read_optional::<T>(j, "arguments")?;
                let id = read_optional::<U>(j, "id")?;
                Ok(Command { execute, arguments, id })
            },
            _ => Err(SchemaError::Shape),
        }
    }
}

impl<T: Wire, U: Wire> Command<T, U> {
    /// A member is written exactly where its value is present: the name
    /// always, the arguments and the identifier only where there are any. An
    /// absent one is left out, not written as `null`.
    pub proof fn lemma_members(m: CommandModel<T::V, U::V>)
        ensures
            Self::encode_spec(m) is Object,
            lookup(Self::encode_spec(m)->Object_0, "execute"@) == Some(JsonModel::Text(m.execute)),
            lookup(Self::encode_spec(m)->Object_0, "arguments"@) == match m.arguments {
                Some(a) => Some(T::encode_spec(a)),
                None => None,
            },
            lookup(Self::encode_spec(m)->Object_0, "id"@) == match m.id {
                Some(i) => Some(U::encode_spec(i)),
                None => None,
            },
    {
        lemma_member_names();
    }
}

/// The mathematical value of an out-of-band command.
pub struct OobCommandModel<A, I> {
    /// The name of the command.
    pub exec_oob: Seq<char>,
    /// The arguments, if any.
    pub arguments: Option<A>,
    /// The transaction identifier, if any.
    pub id: Option<I>,
}

/// An out-of-band command: one that the server executes ahead of its command queue.
///
/// On the wire it is an object with the member `exec-oob`, then `arguments` and
/// `id` where they are present. An absent one is left out, never written as
/// `null`.
#[derive(Clone, Debug, PartialEq, Eq, Hash)]
pub struct OobCommand<T, U> {
    /// Names the command that the server is to execute.
    pub exec_oob: String,
    /// The arguments of the command, where it takes any. Each command says
    /// what it accepts here.
    pub arguments: Option<T>,
    /// A transaction identifier. The response to the command carries it too.
    /// Any value will do; a number that grows with each command works well.
    pub id: Option<U>,
}

impl<T: View, U: View> View for OobCommand<T, U> {
    type V = OobCommandModel<T::V, U::V>;

    open spec fn view(&self) -> Self::V {
        OobCommandModel {
            exec_oob: self.exec_oob@,
            arguments: option_view(self.arguments),
            id: option_view(self.id),
        }
    }
}

impl<T: Wire, U: Wire> Wire for OobCommand<T, U> {
    open spec fn encode_spec(m: Self::V) -> JsonModel {
        let named = empty_members().push(("exec-oob"@, JsonModel::Text(m.exec_oob)));
        let argued = match m.arguments {
            Some(a) => named.push(("arguments"@, T::encode_spec(a))),
            None => named,
        };
        let identified = match m.id {
            Some(i) => argued.push(("id"@, U::encode_spec(i))),
            None => argued,
        };
        JsonModel::Object(identified)
    }

    open spec fn decode_spec(j: JsonModel) -> Result<Self::V, SchemaError> {
        match j {
            JsonModel::Object(members) => match required::<String>(members, "exec-oob"@) {
                Err(e) => Err(e),
                Ok(exec_oob) => match optional::<T>(members, "arguments"@) {
                    Err(e) => Err(e),
                    Ok(arguments) => match optional::<U>(members, "id"@) {
                        Err(e) => Err(e),
                        Ok(id) => Ok(OobCommandModel { exec_oob, arguments, id }),
                    },
                },
            },
            _ => Err(SchemaError::Shape),
        }
    }

    proof fn lemma_round_trip(m: Self::V) {
        lemma_member_names();
        if let Some(a) = m.arguments {
            T::lemma_round_trip(a);
        }
        if let Some(i) = m.id {
            U::lemma_round_trip(i);
        }
    }

    fn to_json(&self) -> (j: Json) {
        let mut members = no_members();
        put(&mut members, "exec-oob", self.exec_oob.to_json());
        if let Some(a) = &self.arguments {
            put(&mut members, "arguments", a.to_json());
        }
        if let Some(i) = &self.id {
            put(&mut members, "id", i.to_json());
        }
        Json::Object(members)
    }

    fn from_json(j: &Json) -> (r: Result<Self, SchemaError>) {
        match j {
            Json::Object(_) => {
                let exec_oob = read_required::<String>(j, "exec-oob")?;
                let arguments = read_optional::<T>(j, "arguments")?;
                let id = read_optional::<U>(j, "id")?;
                Ok(OobCommand { exec_oob, arguments, id })
            },
            _ => Err(SchemaError::Shape),
        }
    }
}

impl<T: Wire, U: Wire> OobCommand<T, U> {
    /// A member is written exactly where its value is present: the name
    /// always, the arguments and the identifier only where there are any. An
    /// absent one is left out, not written as `null`.
    pub proof fn lemma_members(m: OobCommandModel<T::V, U::V>)
        ensures
            Self::encode_spec(m) is Object,
            lookup(Self::encode_spec(m)->Object_0, "exec-oob"@) == Some(JsonModel::Text(m.exec_oob)),
            lookup(Self::encode_spec(m)->Object_0, "arguments"@) == match m.arguments {
                Some(a) => Some(T::encode_spec(a)),
                None => None,
            },
            lookup(Self::encode_spec(m)->Object_0, "id"@) == match m.id {
                Some(i) => Some(U::encode_spec(i)),
                None => None,
            },
    {
        lemma_member_names();
    }
}

/// The mathematical value of a [`ReturnOrError`].
pub enum ReturnOrErrorModel<V> {
    /// The command succeeded.
    Return {
        /// What the command returned.
        value: V,
    },
    /// The command failed.
    Error {
        /// The name of the error class.
        class: Seq<char>,
        /// The message.
        description: Seq<char>,
    },
}

/// What a response carries: what the command returned, or why it failed.
///
/// The wire has no tag for the two: the members that are present tell them
/// apart. A success is the member `return`; a failure is the members `error`
/// and `desc`. A failure is an ordinary outcome that the caller branches on,
/// not a document that could not be read.
#[derive(Clone, Debug, PartialEq, Eq, Hash)]
pub enum ReturnOrError<T> {
    /// The command succeeded.
    Return {
        /// The data that the command returned. Each command says what it
        /// returns; one that returns no data returns an empty object.
        value: T,
    },
    /// The command failed.
    Error {
        /// The name of the error class, such as `GenericError`.
        class: String,
        /// A message for people to read. It is not meant to be parsed.
        description: String,
    },
}

impl<T: View> View for ReturnOrError<T> {
    type V = ReturnOrErrorModel<T::V>;

    open spec fn view(&self) -> Self::V {
        match self {
            ReturnOrError::Return { value } => ReturnOrErrorModel::Return { value: value@ },
            ReturnOrError::Error { class, description } => ReturnOrErrorModel::Error {
                class: class@,
                description: description@,
            },
        }
    }
}

impl<T: Wire> ReturnOrError<T> {
    /// The members that an outcome is written as.
    pub open spec fn members_spec(m: ReturnOrErrorModel<T::V>) -> Seq<(Seq<char>, JsonModel)> {
        match m {
            ReturnOrErrorModel::Return { value } => empty_members().push(
                ("return"@, T::encode_spec(value)),
            ),
            ReturnOrErrorModel::Error { class, description } => empty_members().push(
                ("error"@, JsonModel::Text(class)),
            ).push(("desc"@, JsonModel::Text(description))),
        }
    }

    /// The outcome that a member list reads as. With `return` and neither
    /// `error` nor `desc` it is a success; with `error` and `desc` and no
    /// `return` it is a failure; any other combination is a shape error.
    pub open spec fn read_spec(members: Seq<(Seq<char>, JsonModel)>) -> Result<
        ReturnOrErrorModel<T::V>,
        SchemaError,
    > {
        match (lookup(members, "return"@), lookup(members, "error"@), lookup(members, "desc"@)) {
            (Some(v), None, None) => match T::decode_spec(v) {
                Ok(value) => Ok(ReturnOrErrorModel::Return { value }),
                Err(e) => Err(e),
            },
            (None, Some(c), Some(d)) => match String::decode_spec(c) {
                Err(e) => Err(e),
                Ok(class) => match String::decode_spec(d) {
                    Err(e) => Err(e),
                    Ok(description) => Ok(ReturnOrErrorModel::Error { class, description }),
                },
            },
            _ => Err(SchemaError::Shape),
        }
    }

    /// Reading the members that an outcome was written as gives it back.
    pub proof fn lemma_members_round_trip(m: ReturnOrErrorModel<T::V>)
        ensures
            Self::read_spec(Self::members_spec(m)) == Ok::<ReturnOrErrorModel<T::V>, SchemaError>(
                m,
            ),
    {
        lemma_member_names();
        if let ReturnOrErrorModel::Return { value } = m {
            T::lemma_round_trip(value);
        }
    }

    /// The members present decide the variant. A member list reads as a
    /// success only where it has `return` and neither `error` nor `desc`, and
    /// as a failure only where it has `error` and `desc` and no `return`; one
    /// with both `return` and `error`, or with only one of `error` and
    /// `desc`, or with none of the three, does not read at all.
    pub proof fn lemma_discrimination(members: Seq<(Seq<char>, JsonModel)>)
        ensures
            Self::read_spec(members) matches Ok(ReturnOrErrorModel::Return { .. }) ==> lookup(
                members,
                "return"@,
            ) is Some && lookup(members, "error"@) is None && lookup(members, "desc"@) is None,
            Self::read_spec(members) matches Ok(ReturnOrErrorModel::Error { .. }) ==> lookup(
                members,
                "return"@,
            ) is None && lookup(members, "error"@) is Some && lookup(members, "desc"@) is Some,
            lookup(members, "return"@) is Some && lookup(members, "error"@) is Some
                ==> Self::read_spec(members) == Err::<ReturnOrErrorModel<T::V>, SchemaError>(
                SchemaError::Shape,
            ),
            (lookup(members, "error"@) is Some) != (lookup(members, "desc"@) is Some)
                ==> Self::read_spec(members) == Err::<ReturnOrErrorModel<T::V>, SchemaError>(
                SchemaError::Shape,
            ),
            lookup(members, "return"@) is None && lookup(members, "error"@) is None
                ==> Self::read_spec(members) == Err::<ReturnOrErrorModel<T::V>, SchemaError>(
                SchemaError::Shape,
            ),
            lookup(members, "return"@) is Some && lookup(members, "error"@) is None && lookup(
                members,
                "desc"@,
            ) is None ==> (Self::read_spec(members) is Ok <==> T::decode_spec(
                lookup(members, "return"@)->Some_0,
            ) is Ok),
            lookup(members, "return"@) is None && lookup(members, "error"@) is Some && lookup(
                members,
                "desc"@,
            ) is Some ==> (Self::read_spec(members) is Ok <==> lookup(
                members,
                "error"@,
            )->Some_0 is Text && lookup(members, "desc"@)->Some_0 is Text),
    {
    }

    /// Write the outcome as a member list.
    pub fn members(&self) -> (members: Vec<(String, Json)>)
        ensures
            members_view(members@) == Self::members_spec(self@),
    {
        let mut members = no_members();
        match self {
            ReturnOrError::Return { value } => {
                put(&mut members, "return", value.to_json());
            },
            ReturnOrError::Error { class, description } => {
                put(&mut members, "error", class.to_json());
                put(&mut members, "desc", description.to_json());
            },
        }
        members
    }

    /// Read the outcome from the members of an object. A document that is no
    /// object has no members, and reads as no outcome.
    pub fn read_members(j: &Json) -> (r: Result<Self, SchemaError>)
        ensures
            match j@ {
                JsonModel::Object(members) => match r {
                    Ok(v) => Self::read_spec(members) == Ok::<
                        ReturnOrErrorModel<T::V>,
                        SchemaError,
                    >(v@),
                    Err(e) => Self::read_spec(members) == Err::<
                        ReturnOrErrorModel<T::V>,
                        SchemaError,
                    >(e),
                },
                _ => r == Err::<Self, SchemaError>(SchemaError::Shape),
            },
    {
        match (j.get("return"), j.get("error"), j.get("desc")) {
            (Some(v), None, None) => match T::from_json(v) {
                Ok(value) => Ok(ReturnOrError::Return { value }),
                Err(e) => Err(e),
            },
            (None, Some(c), Some(d)) => {
                let class = String::from_json(c)?;
                let description = String::from_json(d)?;
                Ok(ReturnOrError::Error { class, description })
            },
            _ => Err(SchemaError::Shape),
        }
    }
}

/// Alone, an outcome is an object with the members of its variant.
impl<T: Wire> Wire for ReturnOrError<T> {
    open spec fn encode_spec(m: Self::V) -> JsonModel {
        JsonModel::Object(Self::members_spec(m))
    }

    open spec fn decode_spec(j: JsonModel) -> Result<Self::V, SchemaError> {
        match j {
            JsonModel::Object(members) => Self::read_spec(members),
            _ => Err(SchemaError::Shape),
        }
    }

    proof fn lemma_round_trip(m: Self::V) {
        Self::lemma_members_round_trip(m);
    }

    fn to_json(&self) -> (j: Json) {
        Json::Object(self.members())
    }

    fn from_json(j: &Json) -> (r: Result<Self, SchemaError>) {
        Self::read_members(j)
    }
}

/// The mathematical value of a [`Response`].
pub struct ResponseModel<V, I> {
    /// The outcome of the command.
    pub response: ReturnOrErrorModel<V>,
    /// The transaction identifier.
    pub id: I,
}

/// The response to a command: its outcome, and the identifier that the
/// command was sent with.
///
/// On the wire the members of the outcome stand beside `id` in one object. A
/// client matches responses to commands by the identifier, and drops a
/// response whose identifier it does not know.
#[derive(Clone, Debug, PartialEq, Eq, Hash)]
pub struct Response<T, U> {
    /// What the command returned, or why it failed.
    pub response: ReturnOrError<T>,
    /// The transaction identifier of the command.
    pub id: U,
}

impl<T: View, U: View> View for Response<T, U> {
    type V = ResponseModel<T::V, U::V>;

    open spec fn view(&self) -> Self::V {
        ResponseModel { response: self.response@, id: self.id@ }
    }
}

impl<T: Wire, U: Wire> Wire for Response<T, U> {
    open spec fn encode_spec(m: Self::V) -> JsonModel {
        JsonModel::Object(
            ReturnOrError::<T>::members_spec(m.response).push(("id"@, U::encode_spec(m.id))),
        )
    }

    open spec fn decode_spec(j: JsonModel) -> Result<Self::V, SchemaError> {
        match j {
            JsonModel::Object(members) => match ReturnOrError::<T>::read_spec(members) {
                Err(e) => Err(e),
                Ok(response) => match required::<U>(members, "id"@) {
                    Err(e) => Err(e),
                    Ok(id) => Ok(ResponseModel { response, id }),
                },
            },
            _ => Err(SchemaError::Shape),
        }
    }

    proof fn lemma_round_trip(m: Self::V) {
        lemma_member_names();
        ReturnOrError::<T>::lemma_members_round_trip(m.response);
        U::lemma_round_trip(m.id);
    }

    fn to_json(&self) -> (j: Json) {
        let mut members = self.response.members();
        put(&mut members, "id", self.id.to_json());
        Json::Object(members)
    }

    fn from_json(j: &Json) -> (r: Result<Self, SchemaError>) {
        match j {
            Json::Object(_) => {
                let response = ReturnOrError::<T>::read_members(j)?;
                let id = read_required::<U>(j, "id")?;
                Ok(Response { response, id })
            },
            _ => Err(SchemaError::Shape),
        }
    }
}

/// The mathematical value of an [`Event`].
pub struct EventModel<D> {
    /// The name of the event.
    pub event: Seq<char>,
    /// The data of the event, if any.
    pub data: Option<D>,
    /// When the event occurred.
    pub timestamp: Timestamp,
}

/// An asynchronous event: a message that the server sends of its own accord
/// when its state changes, at any time but in the middle of a response.
///
/// On the wire it is an object with the member `event`, then `data` where it
/// is present, then `timestamp`.
#[derive(Clone, Debug, PartialEq, Eq, Hash)]
pub struct Event<T> {
    /// The name of the event.
    pub event: String,
    /// Data of the event, where it has any. Each event says what it carries.
    pub data: Option<T>,
    /// When the event occurred in the server.
    pub timestamp: Timestamp,
}

impl<T: View> View for Event<T> {
    type V = EventModel<T::V>;

    open spec fn view(&self) -> Self::V {
        EventModel {
            event: self.event@,
            data: option_view(self.data),
            timestamp: self.timestamp,
        }
    }
}

impl<T: Wire> Wire for Event<T> {
    open spec fn encode_spec(m: Self::V) -> JsonModel {
        let named = empty_members().push(("event"@, JsonModel::Text(m.event)));
        let filled = match m.data {
            Some(d) => named.push(("data"@, T::encode_spec(d))),
            None => named,
        };
        JsonModel::Object(filled.push(("timestamp"@, Timestamp::encode_spec(m.timestamp))))
    }

    open spec fn decode_spec(j: JsonModel) -> Result<Self::V, SchemaError> {
        match j {
            JsonModel::Object(members) => match required::<String>(members, "event"@) {
                Err(e) => Err(e),
                Ok(event) => match optional::<T>(members, "data"@) {
                    Err(e) => Err(e),
                    Ok(data) => match required::<Timestamp>(members, "timestamp"@) {
                        Err(e) => Err(e),
                        Ok(timestamp) => Ok(EventModel { event, data, timestamp }),
                    },
                },
            },
            _ => Err(SchemaError::Shape),
        }
    }

    proof fn lemma_round_trip(m: Self::V) {
        lemma_member_names();
        if let Some(d) = m.data {
            T::lemma_round_trip(d);
        }
        Timestamp::lemma_round_trip(m.timestamp);
    }

    fn to_json(&self) -> (j: Json) {
        let mut members = no_members();
        put(&mut members, "event", self.event.to_json());
        if let Some(d) = &self.data {
            put(&mut members, "data", d.to_json());
        }
        put(&mut members, "timestamp", self.timestamp.to_json());
        Json::Object(members)
    }

    fn from_json(j: &Json) -> (r: Result<Self, SchemaError>) {
        match j {
            Json::Object(_) => {
                let event = read_required::<String>(j, "event")?;
                let data = read_optional::<T>(j, "data")?;
                let timestamp = read_required::<Timestamp>(j, "timestamp")?;
                Ok(Event { event, data, timestamp })
            },
            _ => Err(SchemaError::Shape),
        }
    }
}

impl<T: Wire> Event<T> {
    /// The data is written exactly where there is any: absent data is left
    /// out, not written as `null`. The name and the timestamp are always
    /// written.
    pub proof fn lemma_members(m: EventModel<T::V>)
        ensures
            Self::encode_spec(m) is Object,
            lookup(Self::encode_spec(m)->Object_0, "event"@) == Some(JsonModel::Text(m.event)),
            lookup(Self::encode_spec(m)->Object_0, "data"@) == match m.data {
                Some(d) => Some(T::encode_spec(d)),
                None => None,
            },
            lookup(Self::encode_spec(m)->Object_0, "timestamp"@) == Some(
                Timestamp::encode_spec(m.timestamp),
            ),
    {
        lemma_member_names();
    }
}

/// An event is never taken for a response: it has none of the members that
/// carry an outcome.
pub proof fn lemma_event_is_no_response<D: Wire, T: Wire, U: Wire>(e: EventModel<D::V>)
    ensures
        Response::<T, U>::decode_spec(Event::<D>::encode_spec(e)) == Err::<
            ResponseModel<T::V, U::V>,
            SchemaError,
        >(SchemaError::Shape),
{
    lemma_member_names();
}

/// A response is never taken for an event: it has no member `event`.
pub proof fn lemma_response_is_no_event<D: Wire, T: Wire, U: Wire>(r: ResponseModel<T::V, U::V>)
    ensures
        Event::<D>::decode_spec(Response::<T, U>::encode_spec(r)) == Err::<
            EventModel<D::V>,
            SchemaError,
        >(SchemaError::Shape),
{
    lemma_member_names();
}

/// The mathematical value of a [`ServerGreeting`].
pub struct ServerGreetingModel {
    /// The version of the server.
    pub version: VersionInfoModel,
    /// The tokens of the capabilities that the server advertises.
    pub capabilities: Seq<Seq<char>>,
}

/// The greeting that a server sends once, right after a client has
/// connected: the connection stands and the server is ready to negotiate
/// capabilities.
#[derive(Clone, Debug, PartialEq, Eq, Hash)]
pub struct ServerGreeting {
    /// The version of the server, as the command `query-version` returns it.
    pub version: VersionInfo,
    /// The features beyond the baseline that the server offers, each by its
    /// token. Their order means nothing.
    pub capabilities: Vec<String>,
}

impl View for ServerGreeting {
    type V = ServerGreetingModel;

    open spec fn view(&self) -> ServerGreetingModel {
        ServerGreetingModel {
            version: self.version@,
            capabilities: texts_view(self.capabilities@),
        }
    }
}

impl ServerGreeting {
    /// Whether the server advertises the capability.
    pub fn supports(&self, capability: QmpCapability) -> (r: bool)
        ensures
            r == self@.capabilities.contains(capability.token_spec()),
    {
        let token = capability.token();
        let mut i: usize = 0;
        while i < self.capabilities.len()
            invariant
                i <= self.capabilities.len(),
                token@ == capability.token_spec(),
                forall|k: int| 0 <= k < i ==> self@.capabilities[k] != token@,
            decreases self.capabilities.len() - i,
        {
            if same_text(self.capabilities[i].as_str(), token) {
                proof {
                    assert(self@.capabilities[i as int] == token@);
                }
                return true;
            }
            i = i + 1;
        }
        false
    }
}

/// A greeting is an object with the members `version` and `capabilities`,
/// the latter an array of strings.
impl Wire for ServerGreeting {
    open spec fn encode_spec(m: ServerGreetingModel) -> JsonModel {
        JsonModel::Object(
            empty_members().push(("version"@, VersionInfo::encode_spec(m.version))).push(
                ("capabilities"@, encode_texts(m.capabilities)),
            ),
        )
    }

    open spec fn decode_spec(j: JsonModel) -> Result<ServerGreetingModel, SchemaError> {
        match j {
            JsonModel::Object(members) => match required::<VersionInfo>(members, "version"@) {
                Err(e) => Err(e),
                Ok(version) => match lookup(members, "capabilities"@) {
                    None => Err(SchemaError::Shape),
                    Some(list) => match decode_texts(list) {
                        Err(e) => Err(e),
                        Ok(capabilities) => Ok(ServerGreetingModel { version, capabilities }),
                    },
                },
            },
            _ => Err(SchemaError::Shape),
        }
    }

    proof fn lemma_round_trip(m: ServerGreetingModel) {
        lemma_member_names();
        VersionInfo::lemma_round_trip(m.version);
        lemma_texts_round_trip(m.capabilities);
    }

    fn to_json(&self) -> (j: Json) {
        let mut members = no_members();
        put(&mut members, "version", self.version.to_json());
        put(&mut members, "capabilities", write_texts(&self.capabilities));
        Json::Object(members)
    }

    fn from_json(j: &Json) -> (r: Result<ServerGreeting, SchemaError>) {
        match j {
            Json::Object(_) => {
                let version = read_required::<VersionInfo>(j, "version")?;
                match j.get("capabilities") {
                    None => Err(SchemaError::Shape),
                    Some(list) => {
                        let capabilities = read_texts(list)?;
                        Ok(ServerGreeting { version, capabilities })
                    },
                }
            },
            _ => Err(SchemaError::Shape),
        }
    }
}

} // verus!
