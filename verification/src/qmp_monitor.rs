//! QMP monitor control: versions, capabilities, guest-event actions and the
//! builders of the commands that set them.
use crate::generic::{Command, CommandModel};
use crate::json::{empty_members, same_text, Json, JsonModel};
use crate::wire::{
    encode_nullable, no_members, nullable, put, read_nullable, read_required, required,
    write_nullable, SchemaError, Wire,
};
use vstd::prelude::*;

verus! {

broadcast use crate::json::lemma_lookup_push;

/// The member names, by their lengths and first characters: enough to tell
/// any two of them apart.
proof fn lemma_member_names()
    ensures
        "major"@.len() == 5 && "major"@[0] == 'm' && "major"@[1] == 'a' && "major"@[2] == 'j',
        "minor"@.len() == 5 && "minor"@[0] == 'm' && "minor"@[1] == 'i' && "minor"@[2] == 'n',
        "micro"@.len() == 5 && "micro"@[0] == 'm' && "micro"@[1] == 'i' && "micro"@[2] == 'c',
        "qemu"@.len() == 4 && "qemu"@[0] == 'q' && "qemu"@[1] == 'e' && "qemu"@[2] == 'm',
        "package"@.len() == 7 && "package"@[0] == 'p' && "package"@[1] == 'a' && "package"@[2] == 'c',
        "reboot"@.len() == 6 && "reboot"@[0] == 'r' && "reboot"@[1] == 'e' && "reboot"@[2] == 'b',
        "shutdown"@.len() == 8 && "shutdown"@[0] == 's' && "shutdown"@[1] == 'h' && "shutdown"@[2] == 'u',
        "panic"@.len() == 5 && "panic"@[0] == 'p' && "panic"@[1] == 'a' && "panic"@[2] == 'n',
        "watchdog"@.len() == 8 && "watchdog"@[0] == 'w' && "watchdog"@[1] == 'a' && "watchdog"@[2] == 't',
{
    reveal_strlit("major");
    reveal_strlit("minor");
    reveal_strlit("micro");
    reveal_strlit("qemu");
    reveal_strlit("package");
    reveal_strlit("reboot");
    reveal_strlit("shutdown");
    reveal_strlit("panic");
    reveal_strlit("watchdog");
}

/// A capability that a server may advertise in its greeting.
///
/// The set grows with the protocol: a token that is not known here names a
/// capability that this library does not support, and is no error.
#[derive(Clone, Copy, Debug, PartialEq, Eq, Hash, Structural)]
#[non_exhaustive]
pub enum QmpCapability {
    /// The server supports out-of-band command execution.
    Oob,
}

impl QmpCapability {
    /// The token that stands for the capability on the wire.
    pub open spec fn token_spec(self) -> Seq<char> {
        match self {
            QmpCapability::Oob => "oob"@,
        }
    }

    /// The capability that a token stands for, if it is a known one.
    pub open spec fn from_token_spec(s: Seq<char>) -> Option<QmpCapability> {
        if s == "oob"@ {
            Some(QmpCapability::Oob)
        } else {
            None
        }
    }

    /// A token is read as a capability exactly when it is that capability's
    /// token.
    pub proof fn lemma_token_exact(self, s: Seq<char>)
        ensures
            Self::from_token_spec(s) == Some(self) <==> self.token_spec() == s,
    {
    }

    /// The token that stands for the capability on the wire.
    pub fn token(&self) -> (s: &'static str)
        ensures
            s@ == self.token_spec(),
    {
        match self {
            QmpCapability::Oob => "oob",
        }
    }

    /// Read a token: `None` for a capability that is not supported.
    pub fn from_token(s: &str) -> (r: Option<QmpCapability>)
        ensures
            r == Self::from_token_spec(s@),
    {
        if same_text(s, "oob") {
            Some(QmpCapability::Oob)
        } else {
            None
        }
    }
}

/// A three-part version number.
///
/// By convention a micro version of 50 marks a development branch, one of 90
/// or more a release candidate for the next minor version, and one below 50 a
/// stable release. None of this is enforced.
#[derive(Clone, Copy, Debug, PartialEq, Eq, Hash, Structural)]
pub struct VersionTriple {
    /// The major version number.
    pub major: u64,
    /// The minor version number.
    pub minor: u64,
    /// The micro version number.
    pub micro: u64,
}

impl VersionTriple {
    /// Create a version triple from its major, minor and micro values.
    pub fn new(major: u64, minor: u64, micro: u64) -> (v: Self)
        ensures
            v == (VersionTriple { major, minor, micro }),
    {
        VersionTriple { major, minor, micro }
    }
}

impl View for VersionTriple {
    type V = VersionTriple;

    open spec fn view(&self) -> VersionTriple {
        *self
    }
}

/// A version triple is an object with the members `major`, `minor` and
/// `micro`, each a number.
impl Wire for VersionTriple {
    open spec fn encode_spec(m: VersionTriple) -> JsonModel {
        JsonModel::Object(
            empty_members().push(("major"@, JsonModel::Number(m.major))).push(
                ("minor"@, JsonModel::Number(m.minor)),
            ).push(("micro"@, JsonModel::Number(m.micro))),
        )
    }

    open spec fn decode_spec(j: JsonModel) -> Result<VersionTriple, SchemaError> {
        match j {
            JsonModel::Object(members) => match required::<u64>(members, "major"@) {
                Err(e) => Err(e),
                Ok(major) => match required::<u64>(members, "minor"@) {
                    Err(e) => Err(e),
                    Ok(minor) => match required::<u64>(members, "micro"@) {
                        Err(e) => Err(e),
                        Ok(micro) => Ok(VersionTriple { major, minor, micro }),
                    },
                },
            },
            _ => Err(SchemaError::Shape),
        }
    }

    proof fn lemma_round_trip(m: VersionTriple) {
        lemma_member_names();
    }

    fn to_json(&self) -> (j: Json) {
        let mut members = no_members();
        put(&mut members, "major", Json::Number(self.major));
        put(&mut members, "minor", Json::Number(self.minor));
        put(&mut members, "micro", Json::Number(self.micro));
        Json::Object(members)
    }

    fn from_json(j: &Json) -> (r: Result<VersionTriple, SchemaError>) {
        match j {
            Json::Object(_) => {
                let major = read_required::<u64>(j, "major")?;
                let minor = read_required::<u64>(j, "minor")?;
                let micro = read_required::<u64>(j, "micro")?;
                Ok(VersionTriple { major, minor, micro })
            },
            _ => Err(SchemaError::Shape),
        }
    }
}

/// The mathematical value of a [`VersionInfo`].
pub struct VersionInfoModel {
    /// The version of the emulator.
    pub qemu: VersionTriple,
    /// The name of the package.
    pub package: Seq<char>,
}

/// The version of a server.
#[derive(Clone, Debug, PartialEq, Eq, Hash)]
pub struct VersionInfo {
    /// The version of the emulator.
    pub qemu: VersionTriple,
    /// Empty for the emulator as its authors release it. A derived build
    /// sets a text of its own here, best a name that no other uses; its
    /// format is not laid down.
    pub package: String,
}

impl View for VersionInfo {
    type V = VersionInfoModel;

    open spec fn view(&self) -> VersionInfoModel {
        VersionInfoModel { qemu: self.qemu, package: self.package@ }
    }
}

/// Version information is an object with the members `qemu`, a version
/// triple, and `package`, a string.
impl Wire for VersionInfo {
    open spec fn encode_spec(m: VersionInfoModel) -> JsonModel {
        JsonModel::Object(
            empty_members().push(("qemu"@, VersionTriple::encode_spec(m.qemu))).push(
                ("package"@, JsonModel::Text(m.package)),
            ),
        )
    }

    open spec fn decode_spec(j: JsonModel) -> Result<VersionInfoModel, SchemaError> {
        match j {
            JsonModel::Object(members) => match required::<VersionTriple>(members, "qemu"@) {
                Err(e) => Err(e),
                Ok(qemu) => match required::<String>(members, "package"@) {
                    Err(e) => Err(e),
                    Ok(package) => Ok(VersionInfoModel { qemu, package }),
                },
            },
            _ => Err(SchemaError::Shape),
        }
    }

    proof fn lemma_round_trip(m: VersionInfoModel) {
        lemma_member_names();
        VersionTriple::lemma_round_trip(m.qemu);
    }

    fn to_json(&self) -> (j: Json) {
        let mut members = no_members();
        put(&mut members, "qemu", self.qemu.to_json());
        put(&mut members, "package", self.package.to_json());
        Json::Object(members)
    }

    fn from_json(j: &Json) -> (r: Result<VersionInfo, SchemaError>) {
        match j {
            Json::Object(_) => {
                let qemu = read_required::<VersionTriple>(j, "qemu")?;
                let package = read_required::<String>(j, "package")?;
                Ok(VersionInfo { qemu, package })
            },
            _ => Err(SchemaError::Shape),
        }
    }
}

/// What happens when the watchdog device's timer expires.
///
/// On the wire each action is its kebab-case token; no other token is read.
#[derive(Clone, Copy, Debug, PartialEq, Eq, Hash, Structural)]
pub enum WatchdogAction {
    /// The system is reset.
    Reset,
    /// The system is shut down: the guest is notified, much as by a power-down.
    Shutdown,
    /// The system is powered off and the emulator exits.
    Poweroff,
    /// The system is paused, much as by a stop.
    Pause,
    /// The system enters the debug state.
    Debug,
    /// Nothing is done.
    NoAction,
    /// A non-maskable interrupt is injected into the first VCPU (on x86, into all of them).
    InjectNmi,
}

impl View for WatchdogAction {
    type V = WatchdogAction;

    open spec fn view(&self) -> WatchdogAction {
        *self
    }
}

impl WatchdogAction {
    /// The token that stands for the action on the wire.
    pub open spec fn token_spec(self) -> Seq<char> {
        match self {
            WatchdogAction::Reset => "reset"@,
            WatchdogAction::Shutdown => "shutdown"@,
            WatchdogAction::Poweroff => "poweroff"@,
            WatchdogAction::Pause => "pause"@,
            WatchdogAction::Debug => "debug"@,
            WatchdogAction::NoAction => "none"@,
            WatchdogAction::InjectNmi => "inject-nmi"@,
        }
    }

    /// The action that a token stands for, if any.
    pub open spec fn from_token_spec(s: Seq<char>) -> Option<WatchdogAction> {
        if s == "reset"@ {
            Some(WatchdogAction::Reset)
        } else if s == "shutdown"@ {
            Some(WatchdogAction::Shutdown)
        } else if s == "poweroff"@ {
            Some(WatchdogAction::Poweroff)
        } else if s == "pause"@ {
            Some(WatchdogAction::Pause)
        } else if s == "debug"@ {
            Some(WatchdogAction::Debug)
        } else if s == "none"@ {
            Some(WatchdogAction::NoAction)
        } else if s == "inject-nmi"@ {
            Some(WatchdogAction::InjectNmi)
        } else {
            None
        }
    }

    /// A token is read as an action exactly when it is that action's token.
    pub proof fn lemma_token_exact(self, s: Seq<char>)
        ensures
            Self::from_token_spec(s) == Some(self) <==> self.token_spec() == s,
    {
        reveal_strlit("reset");
        assert("reset"@.len() == 5 && "reset"@[0] == 'r');
        reveal_strlit("shutdown");
        assert("shutdown"@.len() == 8 && "shutdown"@[0] == 's');
        reveal_strlit("poweroff");
        assert("poweroff"@.len() == 8 && "poweroff"@[0] == 'p');
        reveal_strlit("pause");
        assert("pause"@.len() == 5 && "pause"@[0] == 'p');
        reveal_strlit("debug");
        assert("debug"@.len() == 5 && "debug"@[0] == 'd');
        reveal_strlit("none");
        assert("none"@.len() == 4 && "none"@[0] == 'n');
        reveal_strlit("inject-nmi");
        assert("inject-nmi"@.len() == 10 && "inject-nmi"@[0] == 'i');
    }

    /// A token is refused exactly when it is the token of no action.
    pub proof fn lemma_unknown_token(s: Seq<char>)
        ensures
            Self::from_token_spec(s) is None <==> forall|v: WatchdogAction| v.token_spec() != s,
            Self::decode_spec(JsonModel::Text(s)) == Err::<WatchdogAction, SchemaError>(
                SchemaError::UnknownToken,
            ) <==> forall|v: WatchdogAction| v.token_spec() != s,
    {
        if let Some(v) = Self::from_token_spec(s) {
            v.lemma_token_exact(s);
        } else {
            assert forall|v: WatchdogAction| v.token_spec() != s by {
                v.lemma_token_exact(s);
            }
        }
    }

    /// The token that stands for the action on the wire.
    pub fn token(&self) -> (s: &'static str)
        ensures
            s@ == self.token_spec(),
    {
        match self {
            WatchdogAction::Reset => "reset",
            WatchdogAction::Shutdown => "shutdown",
            WatchdogAction::Poweroff => "poweroff",
            WatchdogAction::Pause => "pause",
            WatchdogAction::Debug => "debug",
            WatchdogAction::NoAction => "none",
            WatchdogAction::InjectNmi => "inject-nmi",
        }
    }

    /// Read a token: `None` for one that the enumeration does not have.
    pub fn from_token(s: &str) -> (r: Option<WatchdogAction>)
        ensures
            r == Self::from_token_spec(s@),
    {
        if same_text(s, "reset") {
            Some(WatchdogAction::Reset)
        } else if same_text(s, "shutdown") {
            Some(WatchdogAction::Shutdown)
        } else if same_text(s, "poweroff") {
            Some(WatchdogAction::Poweroff)
        } else if same_text(s, "pause") {
            Some(WatchdogAction::Pause)
        } else if same_text(s, "debug") {
            Some(WatchdogAction::Debug)
        } else if same_text(s, "none") {
            Some(WatchdogAction::NoAction)
        } else if same_text(s, "inject-nmi") {
            Some(WatchdogAction::InjectNmi)
        } else {
            None
        }
    }
}

impl Wire for WatchdogAction {
    open spec fn encode_spec(m: WatchdogAction) -> JsonModel {
        JsonModel::Text(m.token_spec())
    }

    open spec fn decode_spec(j: JsonModel) -> Result<WatchdogAction, SchemaError> {
        match j {
            JsonModel::Text(s) => match Self::from_token_spec(s) {
                Some(v) => Ok(v),
                None => Err(SchemaError::UnknownToken),
            },
            _ => Err(SchemaError::Shape),
        }
    }

    proof fn lemma_round_trip(m: WatchdogAction) {
        m.lemma_token_exact(m.token_spec());
    }

    fn to_json(&self) -> (j: Json) {
        Json::Text(self.token().to_owned())
    }

    fn from_json(j: &Json) -> (r: Result<WatchdogAction, SchemaError>) {
        match j {
            Json::Text(s) => match Self::from_token(s.as_str()) {
                Some(v) => Ok(v),
                None => Err(SchemaError::UnknownToken),
            },
            _ => Err(SchemaError::Shape),
        }
    }
}

/// What the emulator does when the guest reboots.
///
/// On the wire each action is its kebab-case token; no other token is read.
#[derive(Clone, Copy, Debug, PartialEq, Eq, Hash, Structural)]
pub enum RebootAction {
    /// Reset the VM.
    Reset,
    /// Shut the VM down and exit, as the shutdown action says.
    Shutdown,
}

impl View for RebootAction {
    type V = RebootAction;

    open spec fn view(&self) -> RebootAction {
        *self
    }
}

impl RebootAction {
    /// The token that stands for the action on the wire.
    pub open spec fn token_spec(self) -> Seq<char> {
        match self {
            RebootAction::Reset => "reset"@,
            RebootAction::Shutdown => "shutdown"@,
        }
    }

    /// The action that a token stands for, if any.
    pub open spec fn from_token_spec(s: Seq<char>) -> Option<RebootAction> {
        if s == "reset"@ {
            Some(RebootAction::Reset)
        } else if s == "shutdown"@ {
            Some(RebootAction::Shutdown)
        } else {
            None
        }
    }

    /// A token is read as an action exactly when it is that action's token.
    pub proof fn lemma_token_exact(self, s: Seq<char>)
        ensures
            Self::from_token_spec(s) == Some(self) <==> self.token_spec() == s,
    {
        reveal_strlit("reset");
        assert("reset"@.len() == 5 && "reset"@[0] == 'r');
        reveal_strlit("shutdown");
        assert("shutdown"@.len() == 8 && "shutdown"@[0] == 's');
    }

    /// A token is refused exactly when it is the token of no action.
    pub proof fn lemma_unknown_token(s: Seq<char>)
        ensures
            Self::from_token_spec(s) is None <==> forall|v: RebootAction| v.token_spec() != s,
            Self::decode_spec(JsonModel::Text(s)) == Err::<RebootAction, SchemaError>(
                SchemaError::UnknownToken,
            ) <==> forall|v: RebootAction| v.token_spec() != s,
    {
        if let Some(v) = Self::from_token_spec(s) {
            v.lemma_token_exact(s);
        } else {
            assert forall|v: RebootAction| v.token_spec() != s by {
                v.lemma_token_exact(s);
            }
        }
    }

    /// The token that stands for the action on the wire.
    pub fn token(&self) -> (s: &'static str)
        ensures
            s@ == self.token_spec(),
    {
        match self {
            RebootAction::Reset => "reset",
            RebootAction::Shutdown => "shutdown",
        }
    }

    /// Read a token: `None` for one that the enumeration does not have.
    pub fn from_token(s: &str) -> (r: Option<RebootAction>)
        ensures
            r == Self::from_token_spec(s@),
    {
        if same_text(s, "reset") {
            Some(RebootAction::Reset)
        } else if same_text(s, "shutdown") {
            Some(RebootAction::Shutdown)
        } else {
            None
        }
    }
}

impl Wire for RebootAction {
    open spec fn encode_spec(m: RebootAction) -> JsonModel {
        JsonModel::Text(m.token_spec())
    }

    open spec fn decode_spec(j: JsonModel) -> Result<RebootAction, SchemaError> {
        match j {
            JsonModel::Text(s) => match Self::from_token_spec(s) {
                Some(v) => Ok(v),
                None => Err(SchemaError::UnknownToken),
            },
            _ => Err(SchemaError::Shape),
        }
    }

    proof fn lemma_round_trip(m: RebootAction) {
        m.lemma_token_exact(m.token_spec());
    }

    fn to_json(&self) -> (j: Json) {
        Json::Text(self.token().to_owned())
    }

    fn from_json(j: &Json) -> (r: Result<RebootAction, SchemaError>) {
        match j {
            Json::Text(s) => match Self::from_token(s.as_str()) {
                Some(v) => Ok(v),
                None => Err(SchemaError::UnknownToken),
            },
            _ => Err(SchemaError::Shape),
        }
    }
}

/// What the emulator does when the guest shuts down.
///
/// On the wire each action is its kebab-case token; no other token is read.
#[derive(Clone, Copy, Debug, PartialEq, Eq, Hash, Structural)]
pub enum ShutdownAction {
    /// Shut the VM down and exit.
    Poweroff,
    /// Pause the VM.
    Pause,
}

impl View for ShutdownAction {
    type V = ShutdownAction;

    open spec fn view(&self) -> ShutdownAction {
        *self
    }
}

impl ShutdownAction {
    /// The token that stands for the action on the wire.
    pub open spec fn token_spec(self) -> Seq<char> {
        match self {
            ShutdownAction::Poweroff => "poweroff"@,
            ShutdownAction::Pause => "pause"@,
        }
    }

    /// The action that a token stands for, if any.
    pub open spec fn from_token_spec(s: Seq<char>) -> Option<ShutdownAction> {
        if s == "poweroff"@ {
            Some(ShutdownAction::Poweroff)
        } else if s == "pause"@ {
            Some(ShutdownAction::Pause)
        } else {
            None
        }
    }

    /// A token is read as an action exactly when it is that action's token.
    pub proof fn lemma_token_exact(self, s: Seq<char>)
        ensures
            Self::from_token_spec(s) == Some(self) <==> self.token_spec() == s,
    {
        reveal_strlit("poweroff");
        assert("poweroff"@.len() == 8 && "poweroff"@[0] == 'p');
        reveal_strlit("pause");
        assert("pause"@.len() == 5 && "pause"@[0] == 'p');
    }

    /// A token is refused exactly when it is the token of no action.
    pub proof fn lemma_unknown_token(s: Seq<char>)
        ensures
            Self::from_token_spec(s) is None <==> forall|v: ShutdownAction| v.token_spec() != s,
            Self::decode_spec(JsonModel::Text(s)) == Err::<ShutdownAction, SchemaError>(
                SchemaError::UnknownToken,
            ) <==> forall|v: ShutdownAction| v.token_spec() != s,
    {
        if let Some(v) = Self::from_token_spec(s) {
            v.lemma_token_exact(s);
        } else {
            assert forall|v: ShutdownAction| v.token_spec() != s by {
                v.lemma_token_exact(s);
            }
        }
    }

    /// The token that stands for the action on the wire.
    pub fn token(&self) -> (s: &'static str)
        ensures
            s@ == self.token_spec(),
    {
        match self {
            ShutdownAction::Poweroff => "poweroff",
            ShutdownAction::Pause => "pause",
        }
    }

    /// Read a token: `None` for one that the enumeration does not have.
    pub fn from_token(s: &str) -> (r: Option<ShutdownAction>)
        ensures
            r == Self::from_token_spec(s@),
    {
        if same_text(s, "poweroff") {
            Some(ShutdownAction::Poweroff)
        } else if same_text(s, "pause") {
            Some(ShutdownAction::Pause)
        } else {
            None
        }
    }
}

impl Wire for ShutdownAction {
    open spec fn encode_spec(m: ShutdownAction) -> JsonModel {
        JsonModel::Text(m.token_spec())
    }

    open spec fn decode_spec(j: JsonModel) -> Result<ShutdownAction, SchemaError> {
        match j {
            JsonModel::Text(s) => match Self::from_token_spec(s) {
                Some(v) => Ok(v),
                None => Err(SchemaError::UnknownToken),
            },
            _ => Err(SchemaError::Shape),
        }
    }

    proof fn lemma_round_trip(m: ShutdownAction) {
        m.lemma_token_exact(m.token_spec());
    }

    fn to_json(&self) -> (j: Json) {
        Json::Text(self.token().to_owned())
    }

    fn from_json(j: &Json) -> (r: Result<ShutdownAction, SchemaError>) {
        match j {
            Json::Text(s) => match Self::from_token(s.as_str()) {
                Some(v) => Ok(v),
                None => Err(SchemaError::UnknownToken),
            },
            _ => Err(SchemaError::Shape),
        }
    }
}

/// What the emulator does when the guest panics.
///
/// On the wire each action is its kebab-case token; no other token is read.
#[derive(Clone, Copy, Debug, PartialEq, Eq, Hash, Structural)]
pub enum PanicAction {
    /// Continue VM execution.
    NoAction,
    /// Pause the VM.
    Pause,
    /// Shut the VM down and exit, as the shutdown action says.
    Shutdown,
    /// Shut the VM down and exit with a non-zero status.
    ExitFailure,
}

impl View for PanicAction {
    type V = PanicAction;

    open spec fn view(&self) -> PanicAction {
        *self
    }
}

impl PanicAction {
    /// The token that stands for the action on the wire.
    pub open spec fn token_spec(self) -> Seq<char> {
        match self {
            PanicAction::NoAction => "none"@,
            PanicAction::Pause => "pause"@,
            PanicAction::Shutdown => "shutdown"@,
            PanicAction::ExitFailure => "exit-failure"@,
        }
    }

    /// The action that a token stands for, if any.
    pub open spec fn from_token_spec(s: Seq<char>) -> Option<PanicAction> {
        if s == "none"@ {
            Some(PanicAction::NoAction)
        } else if s == "pause"@ {
            Some(PanicAction::Pause)
        } else if s == "shutdown"@ {
            Some(PanicAction::Shutdown)
        } else if s == "exit-failure"@ {
            Some(PanicAction::ExitFailure)
        } else {
            None
        }
    }

    /// A token is read as an action exactly when it is that action's token.
    pub proof fn lemma_token_exact(self, s: Seq<char>)
        ensures
            Self::from_token_spec(s) == Some(self) <==> self.token_spec() == s,
    {
        reveal_strlit("none");
        assert("none"@.len() == 4 && "none"@[0] == 'n');
        reveal_strlit("pause");
        assert("pause"@.len() == 5 && "pause"@[0] == 'p');
        reveal_strlit("shutdown");
        assert("shutdown"@.len() == 8 && "shutdown"@[0] == 's');
        reveal_strlit("exit-failure");
        assert("exit-failure"@.len() == 12 && "exit-failure"@[0] == 'e');
    }

    /// A token is refused exactly when it is the token of no action.
    pub proof fn lemma_unknown_token(s: Seq<char>)
        ensures
            Self::from_token_spec(s) is None <==> forall|v: PanicAction| v.token_spec() != s,
            Self::decode_spec(JsonModel::Text(s)) == Err::<PanicAction, SchemaError>(
                SchemaError::UnknownToken,
            ) <==> forall|v: PanicAction| v.token_spec() != s,
    {
        if let Some(v) = Self::from_token_spec(s) {
            v.lemma_token_exact(s);
        } else {
            assert forall|v: PanicAction| v.token_spec() != s by {
                v.lemma_token_exact(s);
            }
        }
    }

    /// The token that stands for the action on the wire.
    pub fn token(&self) -> (s: &'static str)
        ensures
            s@ == self.token_spec(),
    {
        match self {
            PanicAction::NoAction => "none",
            PanicAction::Pause => "pause",
            PanicAction::Shutdown => "shutdown",
            PanicAction::ExitFailure => "exit-failure",
        }
    }

    /// Read a token: `None` for one that the enumeration does not have.
    pub fn from_token(s: &str) -> (r: Option<PanicAction>)
        ensures
            r == Self::from_token_spec(s@),
    {
        if same_text(s, "none") {
            Some(PanicAction::NoAction)
        } else if same_text(s, "pause") {
            Some(PanicAction::Pause)
        } else if same_text(s, "shutdown") {
            Some(PanicAction::Shutdown)
        } else if same_text(s, "exit-failure") {
            Some(PanicAction::ExitFailure)
        } else {
            None
        }
    }
}

impl Wire for PanicAction {
    open spec fn encode_spec(m: PanicAction) -> JsonModel {
        JsonModel::Text(m.token_spec())
    }

    open spec fn decode_spec(j: JsonModel) -> Result<PanicAction, SchemaError> {
        match j {
            JsonModel::Text(s) => match Self::from_token_spec(s) {
                Some(v) => Ok(v),
                None => Err(SchemaError::UnknownToken),
            },
            _ => Err(SchemaError::Shape),
        }
    }

    proof fn lemma_round_trip(m: PanicAction) {
        m.lemma_token_exact(m.token_spec());
    }

    fn to_json(&self) -> (j: Json) {
        Json::Text(self.token().to_owned())
    }

    fn from_json(j: &Json) -> (r: Result<PanicAction, SchemaError>) {
        match j {
            Json::Text(s) => match Self::from_token(s.as_str()) {
                Some(v) => Ok(v),
                None => Err(SchemaError::UnknownToken),
            },
            _ => Err(SchemaError::Shape),
        }
    }
}


/// Return the current version of the emulator.
///
/// The command is `query-version`; it takes no arguments. Like every builder
/// it sets no identifier: the one who sends the command assigns it.
pub fn query_version() -> (c: Command<(), ()>)
    ensures
        c@ == (CommandModel::<(), ()> { execute: "query-version"@, arguments: None, id: None }),
{
    Command { execute: "query-version".to_owned(), arguments: None, id: None }
}

/// Arguments of `watchdog-set-action`.
#[derive(Clone, Copy, Debug, PartialEq, Eq, Hash, Structural)]
pub struct WatchdogSetActionParams {
    /// What to do when the watchdog timer expires.
    pub action: WatchdogAction,
}

impl View for WatchdogSetActionParams {
    type V = WatchdogSetActionParams;

    open spec fn view(&self) -> WatchdogSetActionParams {
        *self
    }
}

/// The arguments are an object with the one member `action`.
impl Wire for WatchdogSetActionParams {
    open spec fn encode_spec(m: WatchdogSetActionParams) -> JsonModel {
        JsonModel::Object(empty_members().push(("action"@, WatchdogAction::encode_spec(m.action))))
    }

    open spec fn decode_spec(j: JsonModel) -> Result<WatchdogSetActionParams, SchemaError> {
        match j {
            JsonModel::Object(members) => match required::<WatchdogAction>(members, "action"@) {
                Err(e) => Err(e),
                Ok(action) => Ok(WatchdogSetActionParams { action }),
            },
            _ => Err(SchemaError::Shape),
        }
    }

    proof fn lemma_round_trip(m: WatchdogSetActionParams) {
        WatchdogAction::lemma_round_trip(m.action);
    }

    fn to_json(&self) -> (j: Json) {
        let mut members = no_members();
        put(&mut members, "action", self.action.to_json());
        Json::Object(members)
    }

    fn from_json(j: &Json) -> (r: Result<WatchdogSetActionParams, SchemaError>) {
        match j {
            Json::Object(_) => {
                let action = read_required::<WatchdogAction>(j, "action")?;
                Ok(WatchdogSetActionParams { action })
            },
            _ => Err(SchemaError::Shape),
        }
    }
}

/// Set the watchdog action.
///
/// The command is `watchdog-set-action`, with the action as its argument and
/// no identifier.
pub fn watchdog_set_action(value: WatchdogAction) -> (c: Command<WatchdogSetActionParams, ()>)
    ensures
        c@ == (CommandModel::<WatchdogSetActionParams, ()> {
            execute: "watchdog-set-action"@,
            arguments: Some(WatchdogSetActionParams { action: value }),
            id: None,
        }),
{
    Command {
        execute: "watchdog-set-action".to_owned(),
        arguments: Some(WatchdogSetActionParams { action: value }),
        id: None,
    }
}

/// Arguments of `set-action`. An action that is left out stays as it is.
#[derive(Clone, Copy, Debug, PartialEq, Eq, Hash, Structural)]
pub struct SetActionParams {
    /// What to do when the guest reboots.
    pub reboot: Option<RebootAction>,
    /// What to do when the guest shuts down.
    pub shutdown: Option<ShutdownAction>,
    /// What to do when the guest panics.
    pub panic: Option<PanicAction>,
    /// What to do when the watchdog timer expires.
    pub watchdog: Option<WatchdogAction>,
}

impl View for SetActionParams {
    type V = SetActionParams;

    open spec fn view(&self) -> SetActionParams {
        *self
    }
}

/// The arguments are an object with the members `reboot`, `shutdown`,
/// `panic` and `watchdog`. All four are always written, `null` for an action
/// that is left out; a missing member reads as one left out too.
impl Wire for SetActionParams {
    open spec fn encode_spec(m: SetActionParams) -> JsonModel {
        JsonModel::Object(
            empty_members().push(("reboot"@, encode_nullable::<RebootAction>(m.reboot))).push(
                ("shutdown"@, encode_nullable::<ShutdownAction>(m.shutdown)),
            ).push(("panic"@, encode_nullable::<PanicAction>(m.panic))).push(
                ("watchdog"@, encode_nullable::<WatchdogAction>(m.watchdog)),
            ),
        )
    }

    open spec fn decode_spec(j: JsonModel) -> Result<SetActionParams, SchemaError> {
        match j {
            JsonModel::Object(members) => match nullable::<RebootAction>(members, "reboot"@) {
                Err(e) => Err(e),
                Ok(reboot) => match nullable::<ShutdownAction>(members, "shutdown"@) {
                    Err(e) => Err(e),
                    Ok(shutdown) => match nullable::<PanicAction>(members, "panic"@) {
                        Err(e) => Err(e),
                        Ok(panic) => match nullable::<WatchdogAction>(members, "watchdog"@) {
                            Err(e) => Err(e),
                            Ok(watchdog) => Ok(
                                SetActionParams { reboot, shutdown, panic, watchdog },
                            ),
                        },
                    },
                },
            },
            _ => Err(SchemaError::Shape),
        }
    }

    proof fn lemma_round_trip(m: SetActionParams) {
        lemma_member_names();
        if let Some(a) = m.reboot {
            RebootAction::lemma_round_trip(a);
        }
        if let Some(a) = m.shutdown {
            ShutdownAction::lemma_round_trip(a);
        }
        if let Some(a) = m.panic {
            PanicAction::lemma_round_trip(a);
        }
        if let Some(a) = m.watchdog {
            WatchdogAction::lemma_round_trip(a);
        }
    }

    fn to_json(&self) -> (j: Json) {
        let mut members = no_members();
        put(&mut members, "reboot", write_nullable::<RebootAction>(&self.reboot));
        put(&mut members, "shutdown", write_nullable::<ShutdownAction>(&self.shutdown));
        put(&mut members, "panic", write_nullable::<PanicAction>(&self.panic));
        put(&mut members, "watchdog", write_nullable::<WatchdogAction>(&self.watchdog));
        Json::Object(members)
    }

    fn from_json(j: &Json) -> (r: Result<SetActionParams, SchemaError>) {
        match j {
            Json::Object(_) => {
                let reboot = read_nullable::<RebootAction>(j, "reboot")?;
                let shutdown = read_nullable::<ShutdownAction>(j, "shutdown")?;
                let panic = read_nullable::<PanicAction>(j, "panic")?;
                let watchdog = read_nullable::<WatchdogAction>(j, "watchdog")?;
                Ok(SetActionParams { reboot, shutdown, panic, watchdog })
            },
            _ => Err(SchemaError::Shape),
        }
    }
}

/// Set the actions that the emulator takes in response to guest events.
///
/// The command is `set-action`, with the actions as its arguments and no
/// identifier.
pub fn set_action(params: SetActionParams) -> (c: Command<SetActionParams, ()>)
    ensures
        c@ == (CommandModel::<SetActionParams, ()> {
            execute: "set-action"@,
            arguments: Some(params),
            id: None,
        }),
{
    Command { execute: "set-action".to_owned(), arguments: Some(params), id: None }
}

} // verus!
