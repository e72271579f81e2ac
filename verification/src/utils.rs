//! The codec between guest tables and JSON text, offered to the guest as the
//! module `serde_json`.

use vstd::prelude::*;
use crate::lua::{home_of_lua, home_of_table, create_decoder, create_encoder, create_table, json_error, json_of_table, json_to_value, made_decoder, made_encoder, made_table, parse_json, json_parsed, guest_error, set_function, set_table, stored_function, stored_table, table_json, value_of_json};
use crate::preloader::{ends_with, failed, fails_with, finish, loaded_found, loaded_modules, LoadError, LoadStage};

verus! {

/// The encoder, `serde_json.from_table`: the JSON text of a table. A table
/// without a JSON form is an error for the guest.
pub(crate) fn from_table<'lua>(table: mlua::Table<'lua>) -> (text: Result<String, mlua::Error>)
    ensures
        table_encoded(table, text),
{
    match table_json(&table) {
        Ok(text) => Ok(text),
        Err(cause) => Err(json_error(cause)),
    }
}

/// The decoder, `serde_json.to_table`: the guest value that a JSON text
/// stands for. A text that is not JSON is an error for the guest.
pub(crate) fn to_table<'lua>(lua: &'lua mlua::Lua, text: String) -> (value: Result<
    mlua::Value<'lua>,
    mlua::Error,
>)
    ensures
        text_decoded(lua, text@, value),
{
    match parse_json(text.as_str()) {
        Ok(json) => json_to_value(lua, &json),
        Err(cause) => Err(json_error(cause)),
    }
}

/// Registers the codec under `serde_json` in `package.loaded`: a table with
/// the functions `from_table` and `to_table`.
pub fn preload_serde_json(lua: &mlua::Lua) -> (result: Result<(), LoadError>)
    ensures
        codec_registered(lua, result),
        result matches Err(error) ==> error.stage != LoadStage::Evaluate,
{
    let module = match create_table(lua) {
        Ok(table) => table,
        Err(cause) => { return Err(failed(LoadStage::Create, cause)); },
    };
    match fill_codec(lua, &module) {
        Ok(()) => {},
        Err(error) => { return Err(error); },
    }
    let loaded = match loaded_modules(lua) {
        Ok(table) => table,
        Err(error) => { return Err(error); },
    };
    finish(LoadStage::Store, set_table(&loaded, "serde_json", module))
}

/// What the encoding of a table gave: its JSON text, or the error of the
/// encoding as the guest gets it.
pub open spec fn table_encoded<'lua>(
    table: mlua::Table<'lua>,
    result: Result<String, mlua::Error>,
) -> bool {
    exists|text: Result<String, serde_json::Error>|
        json_of_table(&table, text) && match text {
            Ok(json) => result == Ok::<String, mlua::Error>(json),
            Err(cause) => result == Err::<String, mlua::Error>(guest_error(cause)),
        }
}

/// What the decoding of a text gave: the guest value of the JSON value that
/// the text stands for, or the error of the parsing as the guest gets it.
pub open spec fn text_decoded<'lua>(
    lua: &'lua mlua::Lua,
    text: Seq<char>,
    result: Result<mlua::Value<'lua>, mlua::Error>,
) -> bool {
    match json_parsed(text) {
        Ok(json) => value_of_json(lua, &json, result),
        Err(cause) => result == Err::<mlua::Value<'lua>, mlua::Error>(guest_error(cause)),
    }
}

/// What the filling of the codec's table gave: the encoder is made and the
/// table is told to hold it under `from_table`, then the decoder is made and
/// the table is told to hold it under `to_table`. The result is the failure
/// of the first of these calls that failed, and success where none did.
pub open spec fn codec_filled<'lua>(
    lua: &'lua mlua::Lua,
    module: mlua::Table<'lua>,
    result: Result<(), LoadError>,
) -> bool {
    exists|encoder: Result<mlua::Function<'lua>, mlua::Error>|
        made_encoder(lua, encoder) && match encoder {
            Err(cause) => fails_with(result, LoadStage::Create, cause),
            Ok(function) => exists|stored: Result<(), mlua::Error>|
                stored_function(&module, "from_table"@, function, stored) && match stored {
                    Err(cause) => fails_with(result, LoadStage::Store, cause),
                    Ok(_) => decoder_installed(lua, module, result),
                },
        }
}

/// What the installing of the decoder gave: the decoder is made, and the
/// codec's table is told to hold it under `to_table`.
pub open spec fn decoder_installed<'lua>(
    lua: &'lua mlua::Lua,
    module: mlua::Table<'lua>,
    result: Result<(), LoadError>,
) -> bool {
    exists|decoder: Result<mlua::Function<'lua>, mlua::Error>|
        made_decoder(lua, decoder) && match decoder {
            Err(cause) => fails_with(result, LoadStage::Create, cause),
            Ok(function) => exists|stored: Result<(), mlua::Error>|
                stored_function(&module, "to_table"@, function, stored) && ends_with(
                    result,
                    LoadStage::Store,
                    stored,
                ),
        }
}

/// What the registration of the codec gave: a new table is made and filled
/// with the two functions, `package.loaded` is looked up, and the registry
/// is told to hold the table under `serde_json`. The result is the failure
/// of the first part that failed, and success where none did.
pub open spec fn codec_registered<'lua>(lua: &'lua mlua::Lua, result: Result<(), LoadError>) -> bool {
    exists|made: Result<mlua::Table<'lua>, mlua::Error>|
        made_table(lua, made) && match made {
            Err(cause) => fails_with(result, LoadStage::Create, cause),
            Ok(module) => exists|filled: Result<(), LoadError>|
                codec_filled(lua, module, filled) && match filled {
                    Err(error) => result == Err::<(), LoadError>(error),
                    Ok(_) => exists|lookup: Result<mlua::Table<'lua>, LoadError>|
                        loaded_found(lua, lookup) && match lookup {
                            Err(error) => result == Err::<(), LoadError>(error),
                            Ok(loaded) => exists|stored: Result<(), mlua::Error>|
                                stored_table(&loaded, "serde_json"@, module, stored) && ends_with(
                                    result,
                                    LoadStage::Store,
                                    stored,
                                ),
                        },
                },
        }
}

/// Installs the decoder in the codec's table.
fn install_decoder<'lua>(lua: &'lua mlua::Lua, module: &mlua::Table<'lua>) -> (result: Result<
    (),
    LoadError,
>)
    requires
        home_of_table(module) == home_of_lua(lua),
    ensures
        decoder_installed(lua, *module, result),
        result matches Err(error) ==> error.stage != LoadStage::Evaluate,
{
    match create_decoder(lua) {
        Ok(decoder) => finish(LoadStage::Store, set_function(module, "to_table", decoder)),
        Err(cause) => Err(failed(LoadStage::Create, cause)),
    }
}

/// Fills the codec's table with its two functions.
fn fill_codec<'lua>(lua: &'lua mlua::Lua, module: &mlua::Table<'lua>) -> (result: Result<
    (),
    LoadError,
>)
    requires
        home_of_table(module) == home_of_lua(lua),
    ensures
        codec_filled(lua, *module, result),
        result matches Err(error) ==> error.stage != LoadStage::Evaluate,
{
    let encoder = match create_encoder(lua) {
        Ok(function) => function,
        Err(cause) => { return Err(failed(LoadStage::Create, cause)); },
    };
    match set_function(module, "from_table", encoder) {
        Ok(()) => install_decoder(lua, module),
        Err(cause) => Err(failed(LoadStage::Store, cause)),
    }
}

} // verus!
