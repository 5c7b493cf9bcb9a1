//! The scripting host: a Lua state that holds one descriptor.
//!
//! Everything the launcher asks of Lua goes through the functions of this
//! module. What a script answers is the script's business; none of these
//! functions promises anything about it.

use crate::environment::merge_search_path;
use rlua::prelude::LuaError;
use rlua::{Function, Lua, StdLib, Table, Value};
use vstd::prelude::*;

verus! {

/// Global under which the record of the loaded descriptor is kept.
pub const CONFIG_GLOBAL: &'static str = "__config";

/// Global under which the path-merging helper is offered to scripts.
pub const MERGE_GLOBAL: &'static str = "merge_search_path";

/// The libraries of Lua that scripts get: the basic functions, `table`,
/// `string`, `utf8` and `math`. They do not get `io`, `os` or `package`: a
/// descriptor turns values into values and has no business with files or
/// processes.
pub const SANDBOX_LIBRARIES: u32 = 0xE5;

/// The bit of Lua's debug library.
pub const DEBUG_LIBRARY: u32 = 0x200;

/// What scripts get besides Lua's own libraries: `unpack`, which the argument
/// hooks of written descriptors call and which newer versions of Lua keep in
/// `table`; and `add_to_variable(vars, name, dir)`, which puts `dir` in front
/// of the list variable `name` of the table `vars`. The two basic functions
/// that read files are taken away.
pub const BUILTINS: &'static str =
    "dofile = nil\nloadfile = nil\nunpack = unpack or table.unpack\nfunction add_to_variable(vars, name, dir)\n    vars[name] = merge_search_path(vars[name], dir)\nend\n";

#[verifier::external_type_specification]
#[verifier::external_body]
pub struct ExLua(Lua);

#[verifier::external_type_specification]
#[verifier::external_body]
pub struct ExLuaError(LuaError);

/// What a descriptor holds under one name, as far as the launcher tells
/// values apart.
#[derive(Debug, Clone, PartialEq, Eq)]
pub enum Field {
    /// Nothing.
    Absent,
    /// `true` or `false`.
    Flag(bool),
    /// A string.
    Text(String),
    /// A function.
    Hook,
    /// Anything else.
    Other,
}

pub enum FieldView {
    Absent,
    Flag(bool),
    Text(Seq<char>),
    Hook,
    Other,
}

impl View for Field {
    type V = FieldView;

    open spec fn view(&self) -> FieldView {
        match self {
            Field::Absent => FieldView::Absent,
            Field::Flag(flag) => FieldView::Flag(*flag),
            Field::Text(text) => FieldView::Text(text@),
            Field::Hook => FieldView::Hook,
            Field::Other => FieldView::Other,
        }
    }
}

/// `Lua::new_with`: a fresh state with those of Lua's libraries whose bits
/// are set in `libraries`. The call panics where the debug library is asked
/// for, so it is not let in.
#[verifier::external_body]
pub(crate) fn new_state(libraries: u32) -> (lua: Lua)
    requires
        libraries & DEBUG_LIBRARY == 0,
{
    Lua::new_with(StdLib::from_bits_truncate(libraries))
}

/// `Chunk::exec` on `source`: runs the text as a Lua block and drops what it
/// returns. A text that does not compile, or that raises an error, gives `Err`.
#[verifier::external_body]
pub(crate) fn execute(lua: &Lua, source: &str) -> (done: Result<(), LuaError>) {
    lua.context(|ctx| ctx.load(source).exec())
}

/// `Context::create_function`: offers [`merge_search_path`], with `sep` as its
/// separator, to scripts under the name [`MERGE_GLOBAL`].
#[verifier::external_body]
pub(crate) fn install_merge(lua: &Lua, sep: char) -> (done: Result<(), LuaError>) {
    lua.context(|ctx| {
        let merge = ctx.create_function(move |_, (current, dir): (Option<String>, String)| {
            Ok(merge_search_path(current, dir, sep))
        })?;
        ctx.globals().set(MERGE_GLOBAL, merge)
    })
}

/// `Chunk::eval` on `source`, for a table: evaluates the descriptor and keeps
/// the table it yields under [`CONFIG_GLOBAL`]. A text that does not compile,
/// raises an error, or yields something other than a table gives `Err`.
#[verifier::external_body]
pub(crate) fn evaluate(lua: &Lua, source: &str) -> (done: Result<(), LuaError>) {
    lua.context(|ctx| {
        let config: Table = ctx.load(source).eval()?;
        ctx.globals().set(CONFIG_GLOBAL, config)
    })
}

/// `Table::get` on the descriptor's record: what it holds under `name`. A
/// string that is not UTF-8 gives `Err`.
#[verifier::external_body]
pub(crate) fn read_field(lua: &Lua, name: &str) -> (field: Result<Field, LuaError>) {
    lua.context(|ctx| {
        let config: Table = ctx.globals().get(CONFIG_GLOBAL)?;
        Ok(match config.get::<_, Value>(name)? {
            Value::Nil => Field::Absent,
            Value::Boolean(flag) => Field::Flag(flag),
            Value::String(text) => Field::Text(text.to_str()?.to_owned()),
            Value::Function(_) => Field::Hook,
            _ => Field::Other,
        })
    })
}

/// `Function::call` on the hook `name` with a list of strings, for a list of
/// strings. The hook decides what comes back; an error that it raises, or a
/// result that is no list of strings, gives `Err`.
#[verifier::external_body]
pub(crate) fn call_with_arguments(lua: &Lua, name: &str, args: Vec<String>) -> (returned: Result<
    Vec<String>,
    LuaError,
>) {
    lua.context(|ctx| {
        let config: Table = ctx.globals().get(CONFIG_GLOBAL)?;
        let hook: Function = config.get(name)?;
        hook.call(args)
    })
}

/// `Function::call` on the hook `name` with an exit status, for a list of
/// strings or nothing. The hook decides what comes back.
#[verifier::external_body]
pub(crate) fn call_with_status(lua: &Lua, name: &str, status: i32) -> (returned: Result<
    Option<Vec<String>>,
    LuaError,
>) {
    lua.context(|ctx| {
        let config: Table = ctx.globals().get(CONFIG_GLOBAL)?;
        let hook: Function = config.get(name)?;
        hook.call(status)
    })
}

/// `Function::call` on the hook `name` with a table made of `vars`, which the
/// hook may change as it likes; the pairs of the table afterwards come back,
/// in no particular order.
#[verifier::external_body]
pub(crate) fn call_with_environment(lua: &Lua, name: &str, vars: Vec<(String, String)>) -> (returned:
    Result<Vec<(String, String)>, LuaError>) {
    lua.context(|ctx| {
        let config: Table = ctx.globals().get(CONFIG_GLOBAL)?;
        let hook: Function = config.get(name)?;
        let table = ctx.create_table_from(vars)?;
        hook.call::<_, ()>(table.clone())?;
        table.pairs::<String, String>().collect()
    })
}

/// The `Display` text of a Lua error.
#[verifier::external_body]
pub(crate) fn fault_message(fault: &LuaError) -> (message: String) {
    fault.to_string()
}

} // verus!
