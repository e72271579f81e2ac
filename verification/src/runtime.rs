//! The life of the interpreter: made once, on first use, and kept.

use vstd::prelude::*;
use crate::lua::new_state;
use crate::preloader::{perform_sequence, sequence_performed, BootStep, LoadError, PreloadError};

verus! {

/// A boot that failed.
#[derive(Clone, Debug)]
pub struct BootError {
    /// The position of the step of the boot sequence that failed, or `None`
    /// where the extensions could not be installed.
    pub step: Option<usize>,
    /// The interpreter's account of the failure.
    pub message: String,
}

/// The place of the one interpreter. It is empty until a boot succeeds and
/// holds the same interpreter from then on. Two runtimes are equal when they
/// hold the same interpreter or none: what the guest has stored inside the
/// interpreter is no part of the comparison.
pub struct Runtime {
    lua: Option<mlua::Lua>,
}

impl Runtime {
    /// The interpreter that is installed, if any.
    pub closed spec fn instance(&self) -> Option<mlua::Lua> {
        self.lua
    }

    /// Whether a boot has succeeded.
    pub open spec fn is_booted(&self) -> bool {
        self.instance() is Some
    }

    /// A runtime without an interpreter.
    pub fn new() -> (runtime: Runtime)
        ensures
            !runtime.is_booted(),
    {
        Runtime { lua: None }
    }

    /// Whether a boot has succeeded.
    pub fn booted(&self) -> (booted: bool)
        ensures
            booted == self.is_booted(),
    {
        self.lua.is_some()
    }

    /// The interpreter, once a boot has succeeded.
    pub fn interpreter(&self) -> (lua: Option<&mlua::Lua>)
        ensures
            match lua {
                Some(installed) => self.instance() == Some(*installed),
                None => !self.is_booted(),
            },
    {
        self.lua.as_ref()
    }

    /// Closes a boot attempt on an empty runtime: installs the interpreter
    /// where the attempt succeeded, and drops it where it failed, so that the
    /// runtime is as empty as before and a later call starts from scratch.
    pub fn settle(&mut self, fresh: mlua::Lua, attempt: Result<(), BootError>) -> (result: Result<
        (),
        BootError,
    >)
        requires
            !old(self).is_booted(),
        ensures
            match attempt {
                Ok(_) => result is Ok && final(self).instance() == Some(fresh),
                Err(error) => result == Err::<(), BootError>(error) && *final(self) == *old(self),
            },
    {
        match attempt {
            Ok(()) => {
                self.lua = Some(fresh);
                Ok(())
            },
            Err(error) => Err(error),
        }
    }

    /// Boots on first use. On a runtime that is booted this does nothing and
    /// succeeds: the interpreter, and with it all that the guest has left in
    /// it, stays as it is. On an empty runtime it makes an interpreter, lets
    /// `extensions` install the native functions, then performs `steps` in
    /// their order. Only if all of that succeeds is the interpreter
    /// installed; otherwise the runtime stays empty.
    pub fn ensure_booted<F: FnOnce(&mlua::Lua) -> Result<(), LoadError>>(
        &mut self,
        extensions: F,
        steps: &Vec<BootStep>,
    ) -> (result: Result<(), BootError>)
        requires
            forall|lua: &mlua::Lua| call_requires(extensions, (lua,)),
        ensures
            old(self).is_booted() ==> result is Ok && *final(self) == *old(self),
            result is Ok <==> final(self).is_booted(),
            result is Err ==> *final(self) == *old(self),
            result matches Err(error) ==> (error.step matches Some(at) ==> at < steps@.len()),
            !old(self).is_booted() ==> exists|fresh: mlua::Lua|
                boot_attempted(extensions, &fresh, steps@, result) && (result is Ok
                    ==> final(self).instance() == Some(fresh)),
    {
        if self.lua.is_some() {
            return Ok(());
        }
        let fresh = new_state();
        let attempt = boot(&fresh, extensions, steps);
        let ghost made = fresh;
        let result = self.settle(fresh, attempt);
        assert(boot_attempted(extensions, &made, steps@, result));
        result
    }
}

/// The boot sequence on a fresh interpreter: the extensions first, so that
/// no guest code runs without them, then the steps.
fn boot<F: FnOnce(&mlua::Lua) -> Result<(), LoadError>>(
    lua: &mlua::Lua,
    extensions: F,
    steps: &Vec<BootStep>,
) -> (result: Result<(), BootError>)
    requires
        call_requires(extensions, (lua,)),
    ensures
        boot_attempted(extensions, lua, steps@, result),
        result matches Err(error) ==> (error.step matches Some(at) ==> at < steps@.len()),
{
    let extended = extensions(lua);
    match extended {
        Ok(()) => {},
        Err(cause) => { return Err(BootError { step: None, message: cause.message }); },
    }
    assert(installed(extensions, lua));
    let sequence = perform_sequence(lua, steps);
    match sequence {
        Ok(()) => Ok(()),
        Err(error) => Err(BootError { step: Some(error.step), message: error.cause.message }),
    }
}

/// What a boot attempt on the interpreter `lua` gave. The extensions are
/// installed first: where that fails, the error holds the message of the
/// failure and no step. Then the steps are performed as a boot sequence:
/// where that stops, the error holds the position of the step that failed
/// and the message of its failure.
pub open spec fn boot_attempted<F: FnOnce(&mlua::Lua) -> Result<(), LoadError>>(
    extensions: F,
    lua: &mlua::Lua,
    steps: Seq<BootStep>,
    result: Result<(), BootError>,
) -> bool {
    match result {
        Ok(_) => installed(extensions, lua) && exists|sequence: Result<(), PreloadError>|
            sequence is Ok && sequence_performed(lua, steps, sequence),
        Err(error) => match error.step {
            None => exists|cause: LoadError|
                call_ensures(extensions, (lua,), Err::<(), LoadError>(cause)) && error.message
                    == cause.message,
            Some(at) => installed(extensions, lua) && exists|stopped: PreloadError|
                sequence_performed(lua, steps, Err::<(), PreloadError>(stopped)) && stopped.step
                    == at && error.message == stopped.cause.message,
        },
    }
}

/// That `extensions` was called on `lua` and succeeded.
pub open spec fn installed<F: FnOnce(&mlua::Lua) -> Result<(), LoadError>>(
    extensions: F,
    lua: &mlua::Lua,
) -> bool {
    exists|done: Result<(), LoadError>| done is Ok && call_ensures(extensions, (lua,), done)
}

} // verus!
