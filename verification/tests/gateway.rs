use aos_runtime::gateway::{conclude, dispatch, handle, refuse, Argument, Outcome};
use aos_runtime::preloader::{BootStep, LoadError, LoadStage, LoadType};
use aos_runtime::runtime::Runtime;
use aos_runtime::text::DecodeError;
use aos_runtime::utils::preload_serde_json;
use mlua::Lua;

const DISPATCH: &str = r#"
local codec = require('serde_json')
calls = 0
_G['.loader'] = function(message, environment)
    calls = calls + 1
    local msg = codec.to_table(message)
    local env = codec.to_table(environment)
    local reply = nil
    if msg.Action == 'ping' then
        reply = 'pong'
    end
    return codec.from_table({ reply = reply, process = env.Process.Id, calls = calls })
end
"#;

fn steps() -> Vec<BootStep> {
    vec![BootStep::Script {
        name: "dispatch".to_string(),
        content: DISPATCH.to_string(),
    }]
}

fn extensions(lua: &Lua) -> Result<(), LoadError> {
    preload_serde_json(lua)
}

fn is_c_text(buffer: &[u8]) -> bool {
    match buffer.split_last() {
        Some((last, text)) => {
            *last == 0 && !text.contains(&0) && std::str::from_utf8(text).is_ok()
        }
        None => false,
    }
}

fn text_of(buffer: &[u8]) -> String {
    assert!(is_c_text(buffer));
    String::from_utf8(buffer[..buffer.len() - 1].to_vec()).unwrap()
}

#[test]
fn ping_is_answered_with_pong() {
    let mut runtime = Runtime::new();
    let outcome = handle(
        &mut runtime,
        Some("{\"Action\":\"ping\"}".as_bytes()),
        Some("{\"Process\":{\"Id\":\"P1\"}}".as_bytes()),
        extensions,
        &steps(),
    );
    assert!(matches!(outcome, Outcome::Answered { .. }));
    assert!(outcome.diagnostic().is_none());
    let decoded: serde_json::Value = serde_json::from_str(&text_of(&outcome.response())).unwrap();
    assert_eq!(decoded.get("reply").unwrap().as_str(), Some("pong"));
    assert_eq!(decoded.get("process").unwrap().as_str(), Some("P1"));
    assert!(runtime.booted());
}

#[test]
fn guest_state_persists_from_call_to_call() {
    let mut runtime = Runtime::new();
    let message = "{\"Action\":\"other\"}".as_bytes();
    let environment = "{\"Process\":{\"Id\":\"proc\"}}".as_bytes();
    let mut seen = Vec::new();
    for _ in 0..3 {
        let outcome = handle(&mut runtime, Some(message), Some(environment), extensions, &steps());
        let decoded: serde_json::Value =
            serde_json::from_str(&text_of(&outcome.response())).unwrap();
        assert!(decoded.get("reply").is_none());
        seen.push(decoded.get("calls").unwrap().as_i64().unwrap());
    }
    assert_eq!(seen, vec![1, 2, 3]);
}

#[test]
fn a_missing_message_is_refused() {
    let mut runtime = Runtime::new();
    let mut installed = false;
    let outcome = handle(
        &mut runtime,
        None,
        Some(b"{}"),
        |_lua: &Lua| {
            installed = true;
            Ok(())
        },
        &steps(),
    );
    assert!(matches!(
        outcome,
        Outcome::NullArgument { argument: Argument::Message }
    ));
    assert_eq!(outcome.response(), vec![0u8]);
    assert_eq!(outcome.diagnostic().unwrap(), "Handle arg0 is null");
    assert!(!runtime.booted());
    assert!(!installed);
}

#[test]
fn a_missing_environment_is_refused() {
    let mut runtime = Runtime::new();
    let outcome = handle(&mut runtime, Some(b"{}"), None, extensions, &steps());
    assert!(matches!(
        outcome,
        Outcome::NullArgument { argument: Argument::Environment }
    ));
    assert_eq!(outcome.response(), vec![0u8]);
    assert_eq!(outcome.diagnostic().unwrap(), "Handle arg1 is null");
    assert!(!runtime.booted());
}

#[test]
fn a_message_that_is_no_text_is_refused() {
    let mut runtime = Runtime::new();
    let outcome = handle(&mut runtime, Some(&[0x7B, 0xFF, 0x7D]), Some(b"{}"), extensions, &steps());
    assert!(matches!(
        outcome,
        Outcome::InvalidArgument { argument: Argument::Message, .. }
    ));
    assert_eq!(outcome.response(), vec![0u8]);
    assert!(outcome
        .diagnostic()
        .unwrap()
        .starts_with("Handle arg0 is invalid UTF-8 | "));
    assert!(!runtime.booted());
}

#[test]
fn an_environment_that_is_no_text_is_refused() {
    let mut runtime = Runtime::new();
    let outcome = handle(&mut runtime, Some(b"{}"), Some(&[0xC3, 0x28]), extensions, &steps());
    assert!(matches!(
        outcome,
        Outcome::InvalidArgument { argument: Argument::Environment, .. }
    ));
    assert_eq!(outcome.response(), vec![0u8]);
    assert!(outcome
        .diagnostic()
        .unwrap()
        .starts_with("Handle arg1 is invalid UTF-8 | "));
    assert!(!runtime.booted());
}

#[test]
fn the_message_is_read_before_the_environment() {
    let mut runtime = Runtime::new();
    let outcome = handle(&mut runtime, Some(&[0xFF]), None, extensions, &steps());
    assert!(matches!(
        outcome,
        Outcome::InvalidArgument { argument: Argument::Message, .. }
    ));
    let outcome = handle(&mut runtime, None, Some(&[0xFF]), extensions, &steps());
    assert!(matches!(
        outcome,
        Outcome::NullArgument { argument: Argument::Message }
    ));
}

#[test]
fn a_refusal_leaves_a_booted_runtime_as_it_is() {
    let mut runtime = Runtime::new();
    let environment = "{\"Process\":{\"Id\":\"proc\"}}".as_bytes();
    let first = handle(&mut runtime, Some(b"{}"), Some(environment), extensions, &steps());
    assert!(matches!(first, Outcome::Answered { .. }));
    let refused = handle(&mut runtime, None, Some(environment), extensions, &steps());
    assert_eq!(refused.response(), vec![0u8]);
    let calls: i64 = runtime.interpreter().unwrap().globals().get("calls").unwrap();
    assert_eq!(calls, 1);
}

#[test]
fn a_failed_boot_is_described_in_the_response() {
    let mut runtime = Runtime::new();
    let broken = vec![BootStep::Script {
        name: "broken".to_string(),
        content: "error('no start')".to_string(),
    }];
    let outcome = handle(&mut runtime, Some(b"{}"), Some(b"{}"), extensions, &broken);
    assert!(matches!(outcome, Outcome::BootFailed { .. }));
    let text = text_of(&outcome.response());
    assert!(text.starts_with("Failed to boot Lua runtime, "));
    assert!(text.contains("no start"));
    let line = outcome.diagnostic().unwrap();
    assert!(line.starts_with("Failed to boot Lua runtime | "));
    assert!(line.contains("no start"));
    assert!(!runtime.booted());
}

#[test]
fn a_failed_boot_can_be_tried_again() {
    let mut runtime = Runtime::new();
    let broken = vec![BootStep::Module {
        name: "needs".to_string(),
        content: "return require('absent')".to_string(),
        load_type: LoadType::Table,
    }];
    let environment = "{\"Process\":{\"Id\":\"proc\"}}".as_bytes();
    let first = handle(&mut runtime, Some(b"{}"), Some(environment), extensions, &broken);
    assert!(matches!(first, Outcome::BootFailed { .. }));
    let second = handle(&mut runtime, Some(b"{}"), Some(environment), extensions, &steps());
    assert!(matches!(second, Outcome::Answered { .. }));
    assert!(runtime.booted());
}

#[test]
fn failing_extensions_fail_the_boot() {
    let mut runtime = Runtime::new();
    let outcome = handle(
        &mut runtime,
        Some(b"{}"),
        Some(b"{}"),
        |_lua: &Lua| {
            Err(LoadError {
                stage: LoadStage::Create,
                message: "no extensions".to_string(),
            })
        },
        &steps(),
    );
    assert_eq!(
        text_of(&outcome.response()),
        "Failed to boot Lua runtime, no extensions"
    );
    assert_eq!(
        outcome.diagnostic().unwrap(),
        "Failed to boot Lua runtime | no extensions"
    );
    assert!(!runtime.booted());
}

#[test]
fn a_guest_without_dispatch_function_gets_an_empty_response() {
    let mut runtime = Runtime::new();
    let outcome = handle(&mut runtime, Some(b"{}"), Some(b"{}"), extensions, &Vec::new());
    assert!(matches!(outcome, Outcome::Unresolved { .. }));
    assert_eq!(outcome.response(), vec![0u8]);
    assert!(outcome
        .diagnostic()
        .unwrap()
        .starts_with("Function 'handle' is not defined globally in Lua runtime | "));
    assert!(runtime.booted());
}

#[test]
fn a_failing_dispatch_function_gets_an_empty_response() {
    let mut runtime = Runtime::new();
    let outcome = handle(
        &mut runtime,
        Some(b"not json"),
        Some(b"{}"),
        extensions,
        &steps(),
    );
    assert!(matches!(outcome, Outcome::CallFailed { .. }));
    assert_eq!(outcome.response(), vec![0u8]);
    assert!(outcome
        .diagnostic()
        .unwrap()
        .starts_with("Failed to call 'handle' function | "));
}

#[test]
fn dispatch_hands_over_both_texts_in_order() {
    let lua = Lua::new();
    lua.load("_G['.loader'] = function(a, b) return a .. '|' .. b end")
        .exec()
        .unwrap();
    let outcome = dispatch(&lua, "left", "right");
    assert_eq!(text_of(&outcome.response()), "left|right");
}

#[test]
fn dispatch_looks_the_function_up_at_every_call() {
    let lua = Lua::new();
    lua.load("_G['.loader'] = function() return 'one' end").exec().unwrap();
    assert_eq!(text_of(&dispatch(&lua, "", "").response()), "one");
    lua.load("_G['.loader'] = function() return 'two' end").exec().unwrap();
    assert_eq!(text_of(&dispatch(&lua, "", "").response()), "two");
}

#[test]
fn an_answer_with_a_nul_goes_out_as_empty_text() {
    let lua = Lua::new();
    lua.load("_G['.loader'] = function() return 'a\\0b' end").exec().unwrap();
    let outcome = dispatch(&lua, "", "");
    assert!(matches!(outcome, Outcome::Answered { .. }));
    assert_eq!(outcome.response(), vec![0u8]);
}

#[test]
fn every_outcome_has_a_well_formed_response() {
    let outcomes = vec![
        Outcome::Answered { text: "héllo".to_string() },
        Outcome::Answered { text: "with\0nul".to_string() },
        Outcome::NullArgument { argument: Argument::Message },
        Outcome::NullArgument { argument: Argument::Environment },
        Outcome::InvalidArgument { argument: Argument::Message, detail: "d".to_string() },
        Outcome::InvalidArgument { argument: Argument::Environment, detail: "d".to_string() },
        Outcome::BootFailed { detail: "d".to_string() },
        Outcome::BootFailed { detail: "\0".to_string() },
        Outcome::Unresolved { detail: "d".to_string() },
        Outcome::CallFailed { detail: "d".to_string() },
    ];
    for outcome in outcomes.iter() {
        assert!(is_c_text(&outcome.response()));
    }
    assert_eq!(outcomes[0].response(), "héllo\0".as_bytes().to_vec());
    assert_eq!(outcomes[6].response(), b"Failed to boot Lua runtime, d\0".to_vec());
    assert_eq!(outcomes[7].response(), vec![0u8]);
}

#[test]
fn every_failure_has_its_own_line() {
    let detail = "why".to_string();
    assert_eq!(
        Outcome::InvalidArgument { argument: Argument::Message, detail: detail.clone() }
            .diagnostic()
            .unwrap(),
        "Handle arg0 is invalid UTF-8 | why"
    );
    assert_eq!(
        Outcome::InvalidArgument { argument: Argument::Environment, detail: detail.clone() }
            .diagnostic()
            .unwrap(),
        "Handle arg1 is invalid UTF-8 | why"
    );
    assert_eq!(
        Outcome::Unresolved { detail: detail.clone() }.diagnostic().unwrap(),
        "Function 'handle' is not defined globally in Lua runtime | why"
    );
    assert_eq!(
        Outcome::CallFailed { detail: detail.clone() }.diagnostic().unwrap(),
        "Failed to call 'handle' function | why"
    );
    assert!(Outcome::Answered { text: detail }.diagnostic().is_none());
}

#[test]
fn refuse_keeps_the_kind_of_error() {
    assert!(matches!(
        refuse(Argument::Environment, DecodeError::Null),
        Outcome::NullArgument { argument: Argument::Environment }
    ));
    match refuse(
        Argument::Message,
        DecodeError::InvalidUtf8 { detail: "at 3".to_string() },
    ) {
        Outcome::InvalidArgument { argument, detail } => {
            assert_eq!(argument, Argument::Message);
            assert_eq!(detail, "at 3");
        }
        _ => panic!("another outcome"),
    }
}

#[test]
fn conclude_keeps_text_and_failure_apart() {
    match conclude(Ok("fine".to_string())) {
        Outcome::Answered { text } => assert_eq!(text, "fine"),
        _ => panic!("another outcome"),
    }
    match conclude(Err("bad".to_string())) {
        Outcome::CallFailed { detail } => assert_eq!(detail, "bad"),
        _ => panic!("another outcome"),
    }
}
