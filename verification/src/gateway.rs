//! The foreign call gateway: two byte buffers come in, one goes out, and
//! nothing that goes wrong on the way gets past it in any other form.

use vstd::prelude::*;
use vstd::string::StringExecFns;
use crate::lua::{call_with_texts, called_with_texts, get_function, globals, got_function, is_globals};
use crate::preloader::{describes, BootStep, LoadError};
use crate::runtime::{boot_attempted, BootError, Runtime};
use crate::text::{c_text_of, decode, decoded, is_c_text, lemma_c_text_is_well_formed, to_c_string, DecodeError};

verus! {

/// The two buffers of a call.
#[derive(Clone, Copy, Debug, PartialEq, Eq, Structural)]
pub enum Argument {
    Message,
    Environment,
}

/// How a call through the gateway ended.
#[derive(Clone, Debug)]
pub enum Outcome {
    /// The guest's dispatch function returned this text.
    Answered { text: String },
    /// A buffer was missing.
    NullArgument { argument: Argument },
    /// A buffer was not UTF-8.
    InvalidArgument { argument: Argument, detail: String },
    /// The interpreter could not be booted.
    BootFailed { detail: String },
    /// The guest has no dispatch function under the well-known name.
    Unresolved { detail: String },
    /// The dispatch function raised an error.
    CallFailed { detail: String },
}

/// The text that goes back to the caller: the guest's answer, a description
/// of the failure where the boot failed, and the empty text for every other
/// failure.
pub open spec fn response_text(outcome: Outcome) -> Seq<char> {
    match outcome {
        Outcome::Answered { text } => text@,
        Outcome::BootFailed { detail } => "Failed to boot Lua runtime, "@ + detail@,
        _ => Seq::empty(),
    }
}

/// The line for the log, for every outcome but an answer.
pub open spec fn diagnostic_text(outcome: Outcome) -> Option<Seq<char>> {
    match outcome {
        Outcome::Answered { .. } => None,
        Outcome::NullArgument { argument: Argument::Message } => Some("Handle arg0 is null"@),
        Outcome::NullArgument { argument: Argument::Environment } => Some("Handle arg1 is null"@),
        Outcome::InvalidArgument { argument: Argument::Message, detail } => Some(
            "Handle arg0 is invalid UTF-8 | "@ + detail@,
        ),
        Outcome::InvalidArgument { argument: Argument::Environment, detail } => Some(
            "Handle arg1 is invalid UTF-8 | "@ + detail@,
        ),
        Outcome::BootFailed { detail } => Some("Failed to boot Lua runtime | "@ + detail@),
        Outcome::Unresolved { detail } => Some(
            "Function 'handle' is not defined globally in Lua runtime | "@ + detail@,
        ),
        Outcome::CallFailed { detail } => Some("Failed to call 'handle' function | "@ + detail@),
    }
}

/// Whether an outcome is the refusal of a buffer.
pub open spec fn refuses(outcome: Outcome, refused: Argument) -> bool {
    match outcome {
        Outcome::NullArgument { argument } => argument == refused,
        Outcome::InvalidArgument { argument, .. } => argument == refused,
        _ => false,
    }
}

/// A refused buffer is answered with the empty text.
pub proof fn lemma_refusal_is_empty(outcome: Outcome, refused: Argument)
    requires
        refuses(outcome, refused),
    ensures
        c_text_of(response_text(outcome)) == seq![0u8],
        diagnostic_text(outcome) is Some,
{
    assert(vstd::utf8::encode_utf8(Seq::<char>::empty()) =~= Seq::<u8>::empty());
}

/// Whatever the outcome, the response is a well-formed outgoing buffer.
pub proof fn lemma_response_is_well_formed(outcome: Outcome)
    ensures
        is_c_text(c_text_of(response_text(outcome))),
{
    lemma_c_text_is_well_formed(response_text(outcome));
}

impl Outcome {
    /// The outgoing buffer: always a well-formed text, whatever happened.
    pub fn response(&self) -> (buffer: Vec<u8>)
        ensures
            buffer@ == c_text_of(response_text(*self)),
            is_c_text(buffer@),
    {
        let text = match self {
            Outcome::Answered { text } => text.clone(),
            Outcome::BootFailed { detail } => "Failed to boot Lua runtime, ".to_string().concat(
                detail.as_str(),
            ),
            _ => String::new(),
        };
        to_c_string(text)
    }

    /// The line for the log, if the outcome calls for one.
    pub fn diagnostic(&self) -> (line: Option<String>)
        ensures
            match line {
                Some(text) => diagnostic_text(*self) == Some(text@),
                None => diagnostic_text(*self) is None,
            },
    {
        match self {
            Outcome::Answered { .. } => None,
            Outcome::NullArgument { argument: Argument::Message } => Some(
                "Handle arg0 is null".to_string(),
            ),
            Outcome::NullArgument { argument: Argument::Environment } => Some(
                "Handle arg1 is null".to_string(),
            ),
            Outcome::InvalidArgument { argument: Argument::Message, detail } => Some(
                "Handle arg0 is invalid UTF-8 | ".to_string().concat(detail.as_str()),
            ),
            Outcome::InvalidArgument { argument: Argument::Environment, detail } => Some(
                "Handle arg1 is invalid UTF-8 | ".to_string().concat(detail.as_str()),
            ),
            Outcome::BootFailed { detail } => Some(
                "Failed to boot Lua runtime | ".to_string().concat(detail.as_str()),
            ),
            Outcome::Unresolved { detail } => Some(
                "Function 'handle' is not defined globally in Lua runtime | ".to_string().concat(
                    detail.as_str(),
                ),
            ),
            Outcome::CallFailed { detail } => Some(
                "Failed to call 'handle' function | ".to_string().concat(detail.as_str()),
            ),
        }
    }
}

/// The outcome for a buffer that is no text.
pub fn refuse(argument: Argument, error: DecodeError) -> (outcome: Outcome)
    ensures
        refuses(outcome, argument),
        outcome is NullArgument <==> error is Null,
        match error {
            DecodeError::Null => outcome == (Outcome::NullArgument { argument }),
            DecodeError::InvalidUtf8 { detail } => outcome == (Outcome::InvalidArgument {
                argument,
                detail,
            }),
        },
{
    match error {
        DecodeError::Null => Outcome::NullArgument { argument },
        DecodeError::InvalidUtf8 { detail } => Outcome::InvalidArgument { argument, detail },
    }
}

/// The outcome of the call of the dispatch function, from what the
/// interpreter returned: the text, or its account of the failure.
pub fn conclude(returned: Result<String, String>) -> (outcome: Outcome)
    ensures
        match returned {
            Ok(text) => outcome == (Outcome::Answered { text }),
            Err(detail) => outcome == (Outcome::CallFailed { detail }),
        },
{
    match returned {
        Ok(text) => Outcome::Answered { text },
        Err(detail) => Outcome::CallFailed { detail },
    }
}

/// What a dispatch gave. The globals are asked for the function under the
/// well-known name `.loader`. Where they have none, the outcome is
/// `Unresolved`, with the description of that failure. Otherwise the function
/// is called with the message as its first and the environment as its second
/// argument: the outcome is `Answered` with the text that it returned, or
/// `CallFailed` with the description of its error.
pub open spec fn dispatched<'lua>(
    lua: &'lua mlua::Lua,
    message: Seq<char>,
    environment: Seq<char>,
    outcome: Outcome,
) -> bool {
    exists|globals: mlua::Table<'lua>, found: Result<mlua::Function<'lua>, mlua::Error>|
        is_globals(lua, globals) && got_function(&globals, ".loader"@, found) && match found {
            Err(cause) => outcome matches Outcome::Unresolved { detail } && describes(
                cause,
                detail,
            ),
            Ok(function) => exists|returned: Result<String, mlua::Error>|
                called_with_texts(&function, message, environment, returned) && match returned {
                    Ok(text) => outcome == (Outcome::Answered { text }),
                    Err(cause) => outcome matches Outcome::CallFailed { detail } && describes(
                        cause,
                        detail,
                    ),
                },
        }
}

/// Hands the two texts to the guest's dispatch function, which is looked up
/// under its well-known global name at every call.
pub fn dispatch(lua: &mlua::Lua, message: &str, environment: &str) -> (outcome: Outcome)
    ensures
        dispatched(lua, message@, environment@, outcome),
        outcome is Answered || outcome is Unresolved || outcome is CallFailed,
{
    let function = match get_function(&globals(lua), ".loader") {
        Ok(function) => function,
        Err(cause) => { return Outcome::Unresolved { detail: cause.to_string() }; },
    };
    match call_with_texts(&function, message, environment) {
        Ok(text) => conclude(Ok(text)),
        Err(cause) => conclude(Err(cause.to_string())),
    }
}

/// The buffer that ends a call before it reaches the guest: the first of
/// the two, message before environment, that holds no text.
pub open spec fn first_fault(message: Option<&[u8]>, environment: Option<&[u8]>) -> Option<
    Argument,
> {
    if decoded(message) is None {
        Some(Argument::Message)
    } else if decoded(environment) is None {
        Some(Argument::Environment)
    } else {
        None
    }
}

/// Serves one call. The buffers are read first, the message before the
/// environment: a buffer that is missing or is not UTF-8 ends the call with
/// its refusal, and the runtime is not touched. Then the runtime is booted
/// if it is not yet: a boot that fails ends the call and leaves the runtime
/// empty. Then the guest's dispatch function gets the two texts. A runtime
/// that is booted keeps its interpreter, so that what the guest leaves in it
/// is there at the next call. Whatever happens, the response is a
/// well-formed outgoing buffer.
pub fn handle<F: FnOnce(&mlua::Lua) -> Result<(), LoadError>>(
    runtime: &mut Runtime,
    message: Option<&[u8]>,
    environment: Option<&[u8]>,
    extensions: F,
    steps: &Vec<BootStep>,
) -> (outcome: Outcome)
    requires
        forall|lua: &mlua::Lua| call_requires(extensions, (lua,)),
    ensures
        is_c_text(c_text_of(response_text(outcome))),
        match first_fault(message, environment) {
            Some(argument) => {
                &&& refuses(outcome, argument)
                &&& outcome is NullArgument <==> (match argument {
                    Argument::Message => message is None,
                    Argument::Environment => environment is None,
                })
                &&& c_text_of(response_text(outcome)) == seq![0u8]
                &&& *final(runtime) == *old(runtime)
            },
            None => {
                &&& outcome is Answered || outcome is BootFailed || outcome is Unresolved
                    || outcome is CallFailed
                &&& outcome is BootFailed <==> !final(runtime).is_booted()
                &&& old(runtime).is_booted() ==> *final(runtime) == *old(runtime)
                &&& !final(runtime).is_booted() ==> *final(runtime) == *old(runtime)
                &&& !old(runtime).is_booted() ==> exists|fresh: mlua::Lua, attempt: Result<(), BootError>|
                    boot_attempted(extensions, &fresh, steps@, attempt) && match attempt {
                        Ok(_) => final(runtime).instance() == Some(fresh),
                        Err(error) => outcome == (Outcome::BootFailed { detail: error.message }),
                    }
                &&& outcome !is BootFailed ==> exists|lua: mlua::Lua|
                    final(runtime).instance() == Some(lua) && dispatched(
                        &lua,
                        decoded(message)->0,
                        decoded(environment)->0,
                        outcome,
                    )
            },
        },
{
    let message_text = match decode(message) {
        Ok(text) => text,
        Err(error) => {
            let outcome = refuse(Argument::Message, error);
            proof {
                lemma_refusal_is_empty(outcome, Argument::Message);
                lemma_c_text_is_well_formed(response_text(outcome));
            }
            return outcome;
        },
    };
    let environment_text = match decode(environment) {
        Ok(text) => text,
        Err(error) => {
            let outcome = refuse(Argument::Environment, error);
            proof {
                lemma_refusal_is_empty(outcome, Argument::Environment);
                lemma_c_text_is_well_formed(response_text(outcome));
            }
            return outcome;
        },
    };
    let booted = runtime.ensure_booted(extensions, steps);
    match booted {
        Ok(()) => {},
        Err(error) => {
            let outcome = Outcome::BootFailed { detail: error.message };
            proof {
                lemma_c_text_is_well_formed(response_text(outcome));
            }
            return outcome;
        },
    }
    let lua = runtime.interpreter().expect("Lua state is not initialized");
    let outcome = dispatch(lua, message_text, environment_text);
    proof {
        lemma_c_text_is_well_formed(response_text(outcome));
        assert(runtime.instance() == Some(*lua) && dispatched(
            lua,
            decoded(message)->0,
            decoded(environment)->0,
            outcome,
        ));
    }
    outcome
}

} // verus!
