use qmp_schema::generic::{
    Command, Event, OobCommand, Response, ReturnOrError, ServerGreeting, Timestamp,
    TIME_UNAVAILABLE,
};
use qmp_schema::json::{same_text, Json};
use qmp_schema::qmp_monitor::{
    query_version, set_action, watchdog_set_action, PanicAction, QmpCapability, RebootAction,
    SetActionParams, ShutdownAction, VersionInfo, VersionTriple, WatchdogAction,
    WatchdogSetActionParams,
};
use qmp_schema::wire::{
    no_members, put, read_nullable, read_optional, read_required, read_texts, write_nullable,
    write_texts, SchemaError, Wire,
};
use serde_json::Value;

fn to_value(j: &Json) -> Value {
    match j {
        Json::Null => Value::Null,
        Json::Bool(b) => Value::Bool(*b),
        Json::Number(n) => Value::Number((*n).into()),
        Json::Text(s) => Value::String(s.clone()),
        Json::Array(items) => Value::Array(items.iter().map(to_value).collect()),
        Json::Object(members) => {
            let mut map = serde_json::Map::new();
            for (key, value) in members {
                map.insert(key.clone(), to_value(value));
            }
            Value::Object(map)
        }
    }
}

fn from_value(v: &Value) -> Json {
    match v {
        Value::Null => Json::Null,
        Value::Bool(b) => Json::Bool(*b),
        Value::Number(n) => Json::Number(n.as_u64().expect("an unsigned integer")),
        Value::String(s) => Json::Text(s.clone()),
        Value::Array(items) => Json::Array(items.iter().map(from_value).collect()),
        Value::Object(map) => {
            Json::Object(map.iter().map(|(k, v)| (k.clone(), from_value(v))).collect())
        }
    }
}

fn parse(text: &str) -> Json {
    let value: Value = serde_json::from_str(text).unwrap();
    from_value(&value)
}

fn render(j: &Json) -> String {
    serde_json::to_string(&to_value(j)).unwrap()
}

fn round_trip<T: Wire + PartialEq + std::fmt::Debug>(value: T) {
    let text = render(&value.to_json());
    assert_eq!(T::from_json(&parse(&text)), Ok(value));
}

#[test]
fn struct_version_info() {
    let value_1 = VersionTriple {
        major: 5,
        minor: 6,
        micro: 7,
    };
    let value_2 = VersionTriple::new(5, 6, 7);
    assert_eq!(value_2, value_1)
}

#[test]
fn query_version_result() {
    let string = r#"{
            "qemu":{
                "major":0,
                "minor":11,
                "micro":5
            },
            "package":""
        }"#;
    let value = VersionInfo {
        qemu: VersionTriple::new(0, 11, 5),
        package: "".to_string(),
    };
    assert_eq!(value, VersionInfo::from_json(&parse(string)).unwrap());
    let compact_string = r#"{"qemu":{"major":0,"minor":11,"micro":5},"package":""}"#;
    assert_eq!(compact_string, render(&value.to_json()));
}

#[test]
fn new_query_version() {
    let cmd = query_version();
    let compact_string = r#"{"execute":"query-version"}"#;
    assert_eq!(compact_string, render(&cmd.to_json()));
}

#[test]
fn query_version_has_neither_arguments_nor_id() {
    let cmd = query_version();
    assert_eq!(cmd.execute, "query-version");
    assert_eq!(cmd.arguments, None);
    assert_eq!(cmd.id, None);
    let json = cmd.to_json();
    assert!(json.get("execute").is_some());
    assert!(json.get("arguments").is_none());
    assert!(json.get("id").is_none());
}

#[test]
fn watchdog_set_action_text() {
    let cmd = watchdog_set_action(WatchdogAction::Reset);
    assert_eq!(
        cmd.arguments,
        Some(WatchdogSetActionParams { action: WatchdogAction::Reset })
    );
    assert_eq!(cmd.id, None);
    assert_eq!(
        render(&cmd.to_json()),
        r#"{"execute":"watchdog-set-action","arguments":{"action":"reset"}}"#
    );
}

#[test]
fn set_action_text() {
    let params = SetActionParams {
        reboot: Some(RebootAction::Reset),
        shutdown: None,
        panic: Some(PanicAction::ExitFailure),
        watchdog: Some(WatchdogAction::InjectNmi),
    };
    let cmd = set_action(params);
    assert_eq!(cmd.execute, "set-action");
    assert_eq!(cmd.arguments, Some(params));
    assert_eq!(cmd.id, None);
    assert_eq!(
        render(&cmd.to_json()),
        r#"{"execute":"set-action","arguments":{"reboot":"reset","shutdown":null,"panic":"exit-failure","watchdog":"inject-nmi"}}"#
    );
}

#[test]
fn set_action_params_read_missing_and_null_alike() {
    let all = SetActionParams { reboot: None, shutdown: None, panic: None, watchdog: None };
    assert_eq!(SetActionParams::from_json(&parse("{}")), Ok(all));
    assert_eq!(
        SetActionParams::from_json(&parse(r#"{"shutdown":"pause","panic":null}"#)),
        Ok(SetActionParams { shutdown: Some(ShutdownAction::Pause), ..all })
    );
    assert_eq!(
        SetActionParams::from_json(&parse(r#"{"reboot":"pause"}"#)),
        Err(SchemaError::UnknownToken)
    );
    assert_eq!(SetActionParams::from_json(&parse(r#"{"reboot":3}"#)), Err(SchemaError::Shape));
    assert_eq!(SetActionParams::from_json(&parse("[]")), Err(SchemaError::Shape));
}

#[test]
fn round_trip_commands() {
    round_trip(query_version());
    round_trip(watchdog_set_action(WatchdogAction::Pause));
    round_trip(Command::<(), u64> { execute: "stop".to_string(), arguments: None, id: Some(7) });
    round_trip(Command::<WatchdogSetActionParams, String> {
        execute: "watchdog-set-action".to_string(),
        arguments: Some(WatchdogSetActionParams { action: WatchdogAction::Debug }),
        id: Some("a-1".to_string()),
    });
    round_trip(OobCommand::<(), ()> {
        exec_oob: "migrate-pause".to_string(),
        arguments: None,
        id: None,
    });
    round_trip(OobCommand::<VersionTriple, u64> {
        exec_oob: "x".to_string(),
        arguments: Some(VersionTriple::new(1, 2, 3)),
        id: Some(0),
    });
    round_trip(set_action(SetActionParams {
        reboot: None,
        shutdown: Some(ShutdownAction::Poweroff),
        panic: None,
        watchdog: None,
    }));
}

#[test]
fn round_trip_responses_events_and_greeting() {
    round_trip(Response::<VersionInfo, u64> {
        response: ReturnOrError::Return {
            value: VersionInfo { qemu: VersionTriple::new(9, 1, 50), package: "v9".to_string() },
        },
        id: 3,
    });
    round_trip(Response::<u64, String> {
        response: ReturnOrError::Error {
            class: "GenericError".to_string(),
            description: "no such device".to_string(),
        },
        id: "x".to_string(),
    });
    round_trip(ReturnOrError::<u64>::Return { value: 1 });
    round_trip(Event::<u64> {
        event: "SHUTDOWN".to_string(),
        data: None,
        timestamp: Timestamp { seconds: 1267040730, microseconds: 682951 },
    });
    round_trip(Event::<WatchdogSetActionParams> {
        event: "WATCHDOG".to_string(),
        data: Some(WatchdogSetActionParams { action: WatchdogAction::NoAction }),
        timestamp: Timestamp::unavailable(),
    });
    round_trip(ServerGreeting {
        version: VersionInfo { qemu: VersionTriple::new(0, 11, 5), package: String::new() },
        capabilities: vec!["oob".to_string(), "future".to_string()],
    });
    round_trip(ServerGreeting {
        version: VersionInfo { qemu: VersionTriple::new(0, 0, 0), package: String::new() },
        capabilities: vec![],
    });
    round_trip(Timestamp { seconds: 0, microseconds: 0 });
}

#[test]
fn absent_members_are_left_out() {
    let bare = Command::<u64, u64> { execute: "stop".to_string(), arguments: None, id: None };
    assert_eq!(render(&bare.to_json()), r#"{"execute":"stop"}"#);
    let with_id = Command::<u64, u64> { execute: "stop".to_string(), arguments: None, id: Some(1) };
    assert_eq!(render(&with_id.to_json()), r#"{"execute":"stop","id":1}"#);
    let with_arguments =
        Command::<u64, u64> { execute: "stop".to_string(), arguments: Some(2), id: None };
    assert_eq!(render(&with_arguments.to_json()), r#"{"execute":"stop","arguments":2}"#);
    let oob = OobCommand::<u64, u64> { exec_oob: "stop".to_string(), arguments: None, id: None };
    assert_eq!(render(&oob.to_json()), r#"{"exec-oob":"stop"}"#);
    let event = Event::<u64> {
        event: "STOP".to_string(),
        data: None,
        timestamp: Timestamp { seconds: 3, microseconds: 4 },
    };
    assert_eq!(
        render(&event.to_json()),
        r#"{"event":"STOP","timestamp":{"seconds":3,"microseconds":4}}"#
    );
    assert!(event.to_json().get("data").is_none());
}

#[test]
fn documents_as_identifiers() {
    let id = parse(r#"{"seq":[1,2,{"k":null}],"tag":"a"}"#);
    assert_eq!(id.duplicate(), id);
    assert_eq!(id.clone(), id);
    assert_eq!(id.to_json(), id);
    assert_eq!(Json::from_json(&id), Ok(id.clone()));
    let text = r#"{"return":5,"id":{"seq":[1,2,{"k":null}],"tag":"a"}}"#;
    let response = Response::<u64, Json>::from_json(&parse(text)).unwrap();
    assert_eq!(response.id, id);
    assert_eq!(render(&response.to_json()), text);
    let crate_root_builder = qmp_schema::query_version();
    assert_eq!(crate_root_builder, query_version());
}

#[test]
fn oob_command_text() {
    let cmd = OobCommand::<(), u64> {
        exec_oob: "migrate-pause".to_string(),
        arguments: None,
        id: Some(42),
    };
    assert_eq!(render(&cmd.to_json()), r#"{"exec-oob":"migrate-pause","id":42}"#);
    assert_eq!(
        OobCommand::<(), u64>::from_json(&parse(r#"{"execute":"migrate-pause","id":42}"#)),
        Err(SchemaError::Shape)
    );
}

#[test]
fn absent_and_null_are_distinct() {
    let absent = Command::<(), ()>::from_json(&parse(r#"{"execute":"stop"}"#)).unwrap();
    assert_eq!(absent.arguments, None);
    let null = Command::<(), ()>::from_json(&parse(r#"{"execute":"stop","arguments":null}"#))
        .unwrap();
    assert_eq!(null.arguments, Some(()));
    assert_eq!(render(&null.to_json()), r#"{"execute":"stop","arguments":null}"#);
    assert_eq!(
        Command::<u64, ()>::from_json(&parse(r#"{"execute":"stop","arguments":null}"#)),
        Err(SchemaError::Shape)
    );
}

#[test]
fn command_needs_its_name() {
    assert_eq!(Command::<(), ()>::from_json(&parse(r#"{"id":null}"#)), Err(SchemaError::Shape));
    assert_eq!(
        Command::<(), ()>::from_json(&parse(r#"{"execute":5}"#)),
        Err(SchemaError::Shape)
    );
    assert_eq!(Command::<(), ()>::from_json(&parse(r#""execute""#)), Err(SchemaError::Shape));
}

#[test]
fn response_discrimination() {
    let ok = Response::<u64, u64>::from_json(&parse(r#"{"return":5,"id":1}"#)).unwrap();
    assert_eq!(ok.response, ReturnOrError::Return { value: 5 });
    assert_eq!(ok.id, 1);
    let failed = Response::<u64, u64>::from_json(&parse(
        r#"{"error":"GenericError","desc":"it failed","id":2}"#,
    ))
    .unwrap();
    assert_eq!(
        failed.response,
        ReturnOrError::Error {
            class: "GenericError".to_string(),
            description: "it failed".to_string()
        }
    );
    assert_eq!(failed.id, 2);
    assert_eq!(
        render(&failed.to_json()),
        r#"{"error":"GenericError","desc":"it failed","id":2}"#
    );
    assert_eq!(render(&ok.to_json()), r#"{"return":5,"id":1}"#);
}

#[test]
fn return_or_error_rejects_other_member_sets() {
    let both = parse(r#"{"return":5,"error":"GenericError","desc":"x"}"#);
    assert_eq!(ReturnOrError::<u64>::from_json(&both), Err(SchemaError::Shape));
    let return_and_error = parse(r#"{"return":5,"error":"GenericError"}"#);
    assert_eq!(ReturnOrError::<u64>::from_json(&return_and_error), Err(SchemaError::Shape));
    let only_error = parse(r#"{"error":"GenericError"}"#);
    assert_eq!(ReturnOrError::<u64>::from_json(&only_error), Err(SchemaError::Shape));
    let only_desc = parse(r#"{"desc":"x"}"#);
    assert_eq!(ReturnOrError::<u64>::from_json(&only_desc), Err(SchemaError::Shape));
    let return_and_desc = parse(r#"{"return":5,"desc":"x"}"#);
    assert_eq!(ReturnOrError::<u64>::from_json(&return_and_desc), Err(SchemaError::Shape));
    assert_eq!(ReturnOrError::<u64>::from_json(&parse("{}")), Err(SchemaError::Shape));
    assert_eq!(ReturnOrError::<u64>::from_json(&parse("7")), Err(SchemaError::Shape));
    assert_eq!(ReturnOrError::<u64>::read_members(&parse("7")), Err(SchemaError::Shape));
    let wrong_type = parse(r#"{"error":1,"desc":"x"}"#);
    assert_eq!(ReturnOrError::<u64>::from_json(&wrong_type), Err(SchemaError::Shape));
    assert_eq!(
        ReturnOrError::<WatchdogAction>::from_json(&parse(r#"{"return":"bark"}"#)),
        Err(SchemaError::UnknownToken)
    );
    assert_eq!(
        ReturnOrError::<u64>::from_json(&parse(r#"{"return":5}"#)),
        Ok(ReturnOrError::Return { value: 5 })
    );
}

#[test]
fn response_needs_its_id() {
    assert_eq!(
        Response::<u64, u64>::from_json(&parse(r#"{"return":5}"#)),
        Err(SchemaError::Shape)
    );
}

#[test]
fn enum_token_mapping() {
    assert_eq!(WatchdogAction::InjectNmi.token(), "inject-nmi");
    assert_eq!(render(&WatchdogAction::InjectNmi.to_json()), r#""inject-nmi""#);
    assert_eq!(WatchdogAction::from_token("inject-nmi"), Some(WatchdogAction::InjectNmi));
    assert_eq!(
        WatchdogAction::from_json(&parse(r#""inject-nmi""#)),
        Ok(WatchdogAction::InjectNmi)
    );
    assert_eq!(WatchdogAction::from_token("InjectNmi"), None);
    assert_eq!(
        WatchdogAction::from_json(&parse(r#""inject_nmi""#)),
        Err(SchemaError::UnknownToken)
    );
    assert_eq!(WatchdogAction::from_json(&parse("1")), Err(SchemaError::Shape));
}

#[test]
fn every_token_reads_back() {
    let watchdog = [
        (WatchdogAction::Reset, "reset"),
        (WatchdogAction::Shutdown, "shutdown"),
        (WatchdogAction::Poweroff, "poweroff"),
        (WatchdogAction::Pause, "pause"),
        (WatchdogAction::Debug, "debug"),
        (WatchdogAction::NoAction, "none"),
        (WatchdogAction::InjectNmi, "inject-nmi"),
    ];
    for (action, token) in watchdog {
        assert_eq!(action.token(), token);
        assert_eq!(WatchdogAction::from_token(token), Some(action));
    }
    let reboot = [(RebootAction::Reset, "reset"), (RebootAction::Shutdown, "shutdown")];
    for (action, token) in reboot {
        assert_eq!(action.token(), token);
        assert_eq!(RebootAction::from_token(token), Some(action));
    }
    let shutdown = [(ShutdownAction::Poweroff, "poweroff"), (ShutdownAction::Pause, "pause")];
    for (action, token) in shutdown {
        assert_eq!(action.token(), token);
        assert_eq!(ShutdownAction::from_token(token), Some(action));
    }
    let panic = [
        (PanicAction::NoAction, "none"),
        (PanicAction::Pause, "pause"),
        (PanicAction::Shutdown, "shutdown"),
        (PanicAction::ExitFailure, "exit-failure"),
    ];
    for (action, token) in panic {
        assert_eq!(action.token(), token);
        assert_eq!(PanicAction::from_token(token), Some(action));
    }
    assert_eq!(RebootAction::from_token("pause"), None);
    assert_eq!(ShutdownAction::from_token("reset"), None);
    assert_eq!(PanicAction::from_token("reset"), None);
    assert_eq!(PanicAction::from_json(&parse(r#""poweroff""#)), Err(SchemaError::UnknownToken));
}

#[test]
fn greeting_example() {
    let text = r#"{"version":{"qemu":{"major":0,"minor":11,"micro":5},"package":""},"capabilities":["oob"]}"#;
    let greeting = ServerGreeting::from_json(&parse(text)).unwrap();
    assert_eq!(greeting.version.qemu, VersionTriple::new(0, 11, 5));
    assert_eq!(greeting.version.package, "");
    assert_eq!(greeting.capabilities, vec!["oob".to_string()]);
    assert!(greeting.supports(QmpCapability::Oob));
    assert_eq!(QmpCapability::from_token(&greeting.capabilities[0]), Some(QmpCapability::Oob));
    assert_eq!(render(&greeting.to_json()), text);
}

#[test]
fn unknown_capability_is_tolerated() {
    let text = r#"{"version":{"qemu":{"major":8,"minor":2,"micro":0},"package":"v8.2.0"},"capabilities":["teleport"]}"#;
    let greeting = ServerGreeting::from_json(&parse(text)).unwrap();
    assert!(!greeting.supports(QmpCapability::Oob));
    assert_eq!(QmpCapability::from_token("teleport"), None);
    assert_eq!(QmpCapability::Oob.token(), "oob");
}

#[test]
fn greeting_shape_errors() {
    let no_caps = r#"{"version":{"qemu":{"major":0,"minor":11,"micro":5},"package":""}}"#;
    assert_eq!(ServerGreeting::from_json(&parse(no_caps)), Err(SchemaError::Shape));
    let bad_caps = r#"{"version":{"qemu":{"major":0,"minor":11,"micro":5},"package":""},"capabilities":["oob",1]}"#;
    assert_eq!(ServerGreeting::from_json(&parse(bad_caps)), Err(SchemaError::Shape));
    let no_micro = r#"{"version":{"qemu":{"major":0,"minor":11},"package":""},"capabilities":[]}"#;
    assert_eq!(ServerGreeting::from_json(&parse(no_micro)), Err(SchemaError::Shape));
}

#[test]
fn timestamp_sentinel_and_epoch_differ() {
    let epoch = Timestamp { seconds: 0, microseconds: 0 };
    let failed = Timestamp::unavailable();
    assert_eq!(failed.seconds, u64::MAX);
    assert_eq!(failed.microseconds, u64::MAX);
    assert_eq!(TIME_UNAVAILABLE, u64::MAX);
    assert!(failed.is_unavailable());
    assert!(!epoch.is_unavailable());
    assert_ne!(epoch, failed);
    assert!(!Timestamp { seconds: u64::MAX, microseconds: 0 }.is_unavailable());
    assert!(!Timestamp { seconds: 0, microseconds: u64::MAX }.is_unavailable());
    assert_ne!(render(&epoch.to_json()), render(&failed.to_json()));
    assert_eq!(render(&epoch.to_json()), r#"{"seconds":0,"microseconds":0}"#);
    assert_eq!(Timestamp::from_json(&failed.to_json()), Ok(failed));
}

#[test]
fn event_text() {
    let text = r#"{"event":"POWERDOWN","timestamp":{"seconds":1267040730,"microseconds":682951}}"#;
    let event = Event::<u64>::from_json(&parse(text)).unwrap();
    assert_eq!(event.event, "POWERDOWN");
    assert_eq!(event.data, None);
    assert_eq!(event.timestamp, Timestamp { seconds: 1267040730, microseconds: 682951 });
    assert_eq!(render(&event.to_json()), text);
    let with_data = Event::<VersionTriple> {
        event: "E".to_string(),
        data: Some(VersionTriple::new(1, 2, 3)),
        timestamp: Timestamp { seconds: 1, microseconds: 2 },
    };
    assert_eq!(
        render(&with_data.to_json()),
        r#"{"event":"E","data":{"major":1,"minor":2,"micro":3},"timestamp":{"seconds":1,"microseconds":2}}"#
    );
    assert_eq!(
        Event::<u64>::from_json(&parse(r#"{"event":"POWERDOWN"}"#)),
        Err(SchemaError::Shape)
    );
}

#[test]
fn json_get_finds_the_last_member_of_a_name() {
    let object = Json::Object(vec![
        ("a".to_string(), Json::Number(1)),
        ("b".to_string(), Json::Bool(true)),
        ("a".to_string(), Json::Number(2)),
    ]);
    assert_eq!(object.get("a"), Some(&Json::Number(2)));
    assert_eq!(object.get("b"), Some(&Json::Bool(true)));
    assert_eq!(object.get("c"), None);
    assert_eq!(Json::Array(vec![]).get("a"), None);
    assert!(same_text("id", "id"));
    assert!(!same_text("id", "ID"));
}

#[test]
fn member_helpers() {
    let mut members = no_members();
    assert!(members.is_empty());
    put(&mut members, "n", Json::Number(4));
    put(&mut members, "z", Json::Null);
    assert_eq!(
        members,
        vec![("n".to_string(), Json::Number(4)), ("z".to_string(), Json::Null)]
    );
    let object = Json::Object(members);
    assert_eq!(read_required::<u64>(&object, "n"), Ok(4));
    assert_eq!(read_required::<u64>(&object, "m"), Err(SchemaError::Shape));
    assert_eq!(read_required::<u64>(&Json::Null, "n"), Err(SchemaError::Shape));
    assert_eq!(read_optional::<u64>(&object, "n"), Ok(Some(4)));
    assert_eq!(read_optional::<u64>(&object, "m"), Ok(None));
    assert_eq!(read_optional::<u64>(&object, "z"), Err(SchemaError::Shape));
    assert_eq!(read_optional::<u64>(&Json::Null, "n"), Ok(None));
    assert_eq!(read_nullable::<u64>(&object, "z"), Ok(None));
    assert_eq!(read_nullable::<u64>(&object, "n"), Ok(Some(4)));
    assert_eq!(read_nullable::<u64>(&object, "m"), Ok(None));
    assert_eq!(write_nullable::<u64>(&None), Json::Null);
    assert_eq!(write_nullable::<u64>(&Some(3)), Json::Number(3));
    let texts = vec!["a".to_string(), "b".to_string()];
    let array = write_texts(&texts);
    assert_eq!(array, Json::Array(vec![Json::Text("a".to_string()), Json::Text("b".to_string())]));
    assert_eq!(read_texts(&array), Ok(texts));
    assert_eq!(read_texts(&Json::Null), Err(SchemaError::Shape));
}

#[test]
fn plain_values() {
    assert_eq!(().to_json(), Json::Null);
    assert_eq!(<()>::from_json(&Json::Null), Ok(()));
    assert_eq!(<()>::from_json(&Json::Number(0)), Err(SchemaError::Shape));
    assert_eq!(9u64.to_json(), Json::Number(9));
    assert_eq!(u64::from_json(&Json::Text("9".to_string())), Err(SchemaError::Shape));
    assert_eq!("x".to_string().to_json(), Json::Text("x".to_string()));
    assert_eq!(String::from_json(&Json::Bool(false)), Err(SchemaError::Shape));
}
