//! The loaded descriptor of an alias, and typed access to what it holds.

use crate::environment::{
    env_map, list_separator, with_directory, with_program_directory, LIST_SEPARATOR_UNIX,
    LIST_SEPARATOR_WINDOWS,
};
use crate::error::{Error, ErrorView};
use crate::host::{
    call_with_arguments, call_with_environment, call_with_status, evaluate, execute, fault_message,
    install_merge, new_state, read_field, Field, FieldView, BUILTINS, DEBUG_LIBRARY,
    SANDBOX_LIBRARIES,
};
use crate::paths::{
    main_separator, metadata_path, parent, parent_of, with_extension_of, DESCRIPTOR_EXTENSION,
};
use rlua::prelude::LuaError;
use rlua::Lua;
use vstd::prelude::*;
use vstd::string::*;

verus! {

/// Field that holds the path of the program to start.
pub const PROGRAM_FIELD: &'static str = "prog_path";

/// Field that holds the hook from the caller's arguments to the program's.
pub const ARGUMENTS_HOOK: &'static str = "gen_args";

/// Field that may hold the hook from an exit status to the arguments of a
/// restart.
pub const RESTART_HOOK: &'static str = "restart_args";

/// Field that may hold the hook that changes the child's environment.
pub const ENVIRONMENT_HOOK: &'static str = "modify_envvars";

/// Field that says whether the program has a window of its own.
pub const GUI_FIELD: &'static str = "gui";

/// Field that says whether the program runs detached from the caller.
pub const BACKGROUND_FIELD: &'static str = "background";

/// Name under which a fault in the descriptor itself is reported.
pub const DESCRIPTOR_ORIGIN: &'static str = "descriptor";

/// Name under which a fault in the builtin helpers is reported.
pub const BUILTINS_ORIGIN: &'static str = "builtins";

/// A descriptor, evaluated and held in a Lua state of its own.
#[derive(Debug)]
pub struct Metadata {
    lua: Lua,
    separator: char,
    prog_path: String,
    gui: Field,
    background: Field,
    restart_hook: Field,
    environment_hook: Field,
}

/// What a descriptor held when it was loaded. Its fields are read once, then,
/// and stand for the whole invocation.
pub struct MetadataView {
    /// The character that separates the entries of a list variable.
    pub separator: char,
    pub prog_path: Seq<char>,
    pub gui: FieldView,
    pub background: FieldView,
    pub restart_hook: FieldView,
    pub environment_hook: FieldView,
}

impl View for Metadata {
    type V = MetadataView;

    closed spec fn view(&self) -> MetadataView {
        MetadataView {
            separator: self.separator,
            prog_path: self.prog_path@,
            gui: self.gui@,
            background: self.background@,
            restart_hook: self.restart_hook@,
            environment_hook: self.environment_hook@,
        }
    }
}

/// The fault raised by the script `hook`.
pub open spec fn is_script_fault(e: ErrorView, hook: Seq<char>) -> bool {
    e matches ErrorView::ScriptError { hook: h, .. } && h == hook
}

/// The failures that reading or calling the field `name` can end in.
pub open spec fn is_field_fault(e: ErrorView, name: Seq<char>) -> bool {
    ||| e == (ErrorView::MissingField { name })
    ||| e == (ErrorView::WrongType { name })
    ||| is_script_fault(e, name)
}

/// The failures that loading a descriptor that could be read can end in.
pub open spec fn is_load_fault(e: ErrorView) -> bool {
    ||| is_script_fault(e, BUILTINS_ORIGIN@)
    ||| is_script_fault(e, DESCRIPTOR_ORIGIN@)
    ||| is_field_fault(e, PROGRAM_FIELD@)
    ||| is_field_fault(e, ARGUMENTS_HOOK@)
    ||| is_script_fault(e, GUI_FIELD@)
    ||| is_script_fault(e, BACKGROUND_FIELD@)
    ||| is_script_fault(e, RESTART_HOOK@)
    ||| is_script_fault(e, ENVIRONMENT_HOOK@)
}

/// What a field that must hold a string gives.
pub open spec fn text_field_spec(name: Seq<char>, field: FieldView) -> Result<Seq<char>, ErrorView> {
    match field {
        FieldView::Text(text) => Ok(text),
        FieldView::Absent => Err(ErrorView::MissingField { name }),
        _ => Err(ErrorView::WrongType { name }),
    }
}

/// What a field that must hold `true` or `false` gives.
pub open spec fn flag_field_spec(name: Seq<char>, field: FieldView) -> Result<bool, ErrorView> {
    match field {
        FieldView::Flag(flag) => Ok(flag),
        FieldView::Absent => Err(ErrorView::MissingField { name }),
        _ => Err(ErrorView::WrongType { name }),
    }
}

/// Whether there is a hook to call: yes for a function; no for nothing,
/// unless the hook is `required`, which makes its absence a failure; a
/// failure for any other value.
pub open spec fn hook_field_spec(name: Seq<char>, field: FieldView, required: bool) -> Result<
    bool,
    ErrorView,
> {
    match field {
        FieldView::Hook => Ok(true),
        FieldView::Absent => if required {
            Err(ErrorView::MissingField { name })
        } else {
            Ok(false)
        },
        _ => Err(ErrorView::WrongType { name }),
    }
}

/// Whether a record with `program` and `arguments` under the two names that
/// every descriptor must have is a descriptor: the program path is looked at
/// first.
pub open spec fn shape_spec(program: FieldView, arguments: FieldView) -> Result<
    Seq<char>,
    ErrorView,
> {
    match text_field_spec(PROGRAM_FIELD@, program) {
        Err(e) => Err(e),
        Ok(path) => match hook_field_spec(ARGUMENTS_HOOK@, arguments, true) {
            Err(e) => Err(e),
            Ok(_) => Ok(path),
        },
    }
}

/// The string that a field must hold.
pub fn text_field(name: &str, field: Field) -> (r: Result<String, Error>)
    ensures
        match text_field_spec(name@, field@) {
            Ok(text) => r matches Ok(t) && t@ == text,
            Err(fault) => r matches Err(e) && e@ == fault,
        },
{
    match field {
        Field::Text(text) => Ok(text),
        Field::Absent => Err(Error::MissingField { name: String::from_str(name) }),
        _ => Err(Error::WrongType { name: String::from_str(name) }),
    }
}

/// The flag that a field must hold.
pub fn flag_field(name: &str, field: &Field) -> (r: Result<bool, Error>)
    ensures
        match flag_field_spec(name@, field@) {
            Ok(flag) => r == Ok::<bool, Error>(flag),
            Err(fault) => r matches Err(e) && e@ == fault,
        },
{
    match field {
        Field::Flag(flag) => Ok(*flag),
        Field::Absent => Err(Error::MissingField { name: String::from_str(name) }),
        _ => Err(Error::WrongType { name: String::from_str(name) }),
    }
}

/// Whether a field holds a hook to call.
pub fn hook_field(name: &str, field: &Field, required: bool) -> (r: Result<bool, Error>)
    ensures
        match hook_field_spec(name@, field@, required) {
            Ok(present) => r == Ok::<bool, Error>(present),
            Err(fault) => r matches Err(e) && e@ == fault,
        },
{
    match field {
        Field::Hook => Ok(true),
        Field::Absent => {
            if required {
                Err(Error::MissingField { name: String::from_str(name) })
            } else {
                Ok(false)
            }
        },
        _ => Err(Error::WrongType { name: String::from_str(name) }),
    }
}

/// Checks the two fields that every descriptor must have, and gives the
/// program path.
pub fn check_shape(program: Field, arguments: Field) -> (r: Result<String, Error>)
    ensures
        match shape_spec(program@, arguments@) {
            Ok(path) => r matches Ok(p) && p@ == path,
            Err(fault) => r matches Err(e) && e@ == fault,
        },
{
    match text_field(PROGRAM_FIELD, program) {
        Err(e) => Err(e),
        Ok(path) => match hook_field(ARGUMENTS_HOOK, &arguments, true) {
            Err(e) => Err(e),
            Ok(_) => Ok(path),
        },
    }
}

/// What an accessor makes of the outcome of a call to the hook `hook`: what
/// the hook returned, as it is, or the failure that stands for its fault. No
/// fault of a hook is ever passed over.
pub fn hook_outcome<T>(hook: &str, outcome: Result<T, LuaError>) -> (r: Result<T, Error>)
    ensures
        match outcome {
            Ok(returned) => r == Ok::<T, Error>(returned),
            Err(_) => r matches Err(e) && is_script_fault(e@, hook@),
        },
{
    match outcome {
        Ok(returned) => Ok(returned),
        Err(fault) => Err(script_error(hook, &fault)),
    }
}

/// The failure that stands for a Lua error raised under the name `hook`.
fn script_error(hook: &str, fault: &LuaError) -> (e: Error)
    ensures
        is_script_fault(e@, hook@),
{
    Error::ScriptError { hook: String::from_str(hook), message: fault_message(fault) }
}

/// Makes the builtin helpers known to the scripts of `lua`; `sep` separates
/// the entries of the list variables that they merge.
fn register_builtins(lua: &Lua, sep: char) -> (r: Result<(), Error>)
    ensures
        r matches Err(e) ==> is_script_fault(e@, BUILTINS_ORIGIN@),
{
    match install_merge(lua, sep) {
        Err(fault) => Err(script_error(BUILTINS_ORIGIN, &fault)),
        Ok(_) => match execute(lua, BUILTINS) {
            Err(fault) => Err(script_error(BUILTINS_ORIGIN, &fault)),
            Ok(_) => Ok(()),
        },
    }
}

/// What the restart hook of a descriptor that holds `hook` under its name
/// may return for any status: nothing where there is no hook, whatever the
/// hook says where there is one, a failure where the field holds anything
/// else.
pub open spec fn restart_allows(hook: FieldView, r: Result<Option<Vec<String>>, Error>) -> bool {
    match hook_field_spec(RESTART_HOOK@, hook, false) {
        Ok(false) => r matches Ok(None),
        Ok(true) => r matches Err(e) ==> is_script_fault(e@, RESTART_HOOK@),
        Err(fault) => r matches Err(e) && e@ == fault,
    }
}

/// What the environment hook of a descriptor that holds `hook` under its
/// name may make of `vars`: the same where there is no hook, whatever the hook
/// leaves where there is one, a failure where the field holds anything else.
pub open spec fn environment_allows(
    hook: FieldView,
    vars: Seq<(Seq<char>, Seq<char>)>,
    r: Result<Vec<(String, String)>, Error>,
) -> bool {
    match hook_field_spec(ENVIRONMENT_HOOK@, hook, false) {
        Ok(false) => r matches Ok(same) && same.deep_view() == vars,
        Ok(true) => r matches Err(e) ==> is_script_fault(e@, ENVIRONMENT_HOOK@),
        Err(fault) => r matches Err(e) && e@ == fault,
    }
}

/// Whether `vars` is the environment of a child of the program at
/// `program`, made from `base` with no hook at work: `base` with the
/// program's directory in front of its search path.
pub open spec fn is_child_environment(
    vars: Seq<(Seq<char>, Seq<char>)>,
    base: Seq<(Seq<char>, Seq<char>)>,
    program: Seq<char>,
    sep: char,
) -> bool {
    is_assembled(vars, base, parent_of(program), sep)
}

/// Whether `sep` separates the entries of a list variable on some platform.
pub open spec fn is_list_separator(sep: char) -> bool {
    sep == LIST_SEPARATOR_WINDOWS || sep == LIST_SEPARATOR_UNIX
}

/// Whether `vars` is `base` with the directory `dir` in front of its search
/// path.
pub open spec fn is_assembled(
    vars: Seq<(Seq<char>, Seq<char>)>,
    base: Seq<(Seq<char>, Seq<char>)>,
    dir: Option<Seq<char>>,
    sep: char,
) -> bool {
    env_map(vars) == with_directory(env_map(base), dir, sep)
}

impl Metadata {
    /// The character that separates the entries of a list variable for this
    /// descriptor: that of the platform on which it was loaded.
    pub open spec fn separator(&self) -> char {
        self@.separator
    }

    /// Loads the descriptor of the alias `exe`. `source` is the text of the
    /// file at [`metadata_path`] of `exe`, or `None` where that file is absent
    /// or cannot be read.
    pub fn load(exe: &str, source: Option<&str>) -> (r: Result<Metadata, Error>)
        ensures
            source is None ==> (r matches Err(e) && e@ matches ErrorView::MetadataNotFound { path }
                && path == with_extension_of(exe@, DESCRIPTOR_EXTENSION@)),
            source is Some ==> (r matches Err(e) ==> is_load_fault(e@)),
            r matches Ok(loaded) ==> is_list_separator(loaded.separator()),
    {
        Metadata::parse(metadata_path(exe), source)
    }

    /// Evaluates the text of the descriptor that lies at `metadata_path`.
    /// `source` is `None` where the file is absent or cannot be read.
    ///
    /// The record that the text yields must hold a program path and an
    /// argument hook. Its fields are read here, once: what they hold then
    /// stands for as long as the descriptor is in use.
    pub fn parse(metadata_path: String, source: Option<&str>) -> (r: Result<Metadata, Error>)
        ensures
            source is None ==> (r matches Err(e) && e@ == (ErrorView::MetadataNotFound {
                path: metadata_path@,
            })),
            source is Some ==> (r matches Err(e) ==> is_load_fault(e@)),
            r matches Ok(loaded) ==> is_list_separator(loaded.separator()),
    {
        let source = match source {
            None => {
                return Err(Error::MetadataNotFound { path: metadata_path });
            },
            Some(source) => source,
        };
        proof {
            assert(SANDBOX_LIBRARIES & DEBUG_LIBRARY == 0) by (bit_vector);
        }
        let lua = new_state(SANDBOX_LIBRARIES);
        let separator = list_separator(main_separator());
        match register_builtins(&lua, separator) {
            Err(e) => {
                return Err(e);
            },
            Ok(_) => {},
        }
        match evaluate(&lua, source) {
            Err(fault) => {
                return Err(script_error(DESCRIPTOR_ORIGIN, &fault));
            },
            Ok(_) => {},
        }
        let program = match field_of(&lua, PROGRAM_FIELD) {
            Err(e) => {
                return Err(e);
            },
            Ok(field) => field,
        };
        let arguments = match field_of(&lua, ARGUMENTS_HOOK) {
            Err(e) => {
                return Err(e);
            },
            Ok(field) => field,
        };
        let prog_path = match check_shape(program, arguments) {
            Err(e) => {
                return Err(e);
            },
            Ok(path) => path,
        };
        let gui = match field_of(&lua, GUI_FIELD) {
            Err(e) => {
                return Err(e);
            },
            Ok(field) => field,
        };
        let background = match field_of(&lua, BACKGROUND_FIELD) {
            Err(e) => {
                return Err(e);
            },
            Ok(field) => field,
        };
        let restart_hook = match field_of(&lua, RESTART_HOOK) {
            Err(e) => {
                return Err(e);
            },
            Ok(field) => field,
        };
        let environment_hook = match field_of(&lua, ENVIRONMENT_HOOK) {
            Err(e) => {
                return Err(e);
            },
            Ok(field) => field,
        };
        Ok(Metadata { lua, separator, prog_path, gui, background, restart_hook, environment_hook })
    }

    /// What the record of the descriptor holds under `name` now.
    pub fn field(&self, name: &str) -> (r: Result<Field, Error>)
        ensures
            r matches Err(e) ==> is_script_fault(e@, name@),
    {
        field_of(&self.lua, name)
    }

    /// The path of the program to start, as the descriptor gave it when it
    /// was loaded.
    pub fn prog_path(&self) -> (r: Result<String, Error>)
        ensures
            r matches Ok(path) && path@ == self@.prog_path,
    {
        Ok(self.prog_path.clone())
    }

    /// Whether the program has a window of its own and needs no console. A
    /// descriptor that does not say so, or says it with anything but `true` or
    /// `false`, gives a failure.
    pub fn gui(&self) -> (r: Result<bool, Error>)
        ensures
            match flag_field_spec(GUI_FIELD@, self@.gui) {
                Ok(flag) => r == Ok::<bool, Error>(flag),
                Err(fault) => r matches Err(e) && e@ == fault,
            },
    {
        flag_field(GUI_FIELD, &self.gui)
    }

    /// Whether the program runs detached from the caller. A descriptor that
    /// does not say so, or says it with anything but `true` or `false`, gives a
    /// failure.
    pub fn background(&self) -> (r: Result<bool, Error>)
        ensures
            match flag_field_spec(BACKGROUND_FIELD@, self@.background) {
                Ok(flag) => r == Ok::<bool, Error>(flag),
                Err(fault) => r matches Err(e) && e@ == fault,
            },
    {
        flag_field(BACKGROUND_FIELD, &self.background)
    }

    /// The arguments for the program, made by the descriptor's hook from the
    /// arguments that the launcher got.
    pub fn gen_args(&self, args: Vec<String>) -> (r: Result<Vec<String>, Error>)
        ensures
            r matches Err(e) ==> is_script_fault(e@, ARGUMENTS_HOOK@),
    {
        self.gen_args_with(Field::Hook, args)
    }

    /// [`Metadata::gen_args`] for a descriptor that holds `field` under the
    /// hook's name: nothing but a function will do.
    pub fn gen_args_with(&self, field: Field, args: Vec<String>) -> (r: Result<Vec<String>, Error>)
        ensures
            match hook_field_spec(ARGUMENTS_HOOK@, field@, true) {
                Ok(_) => r matches Err(e) ==> is_script_fault(e@, ARGUMENTS_HOOK@),
                Err(fault) => r matches Err(e) && e@ == fault,
            },
    {
        match hook_field(ARGUMENTS_HOOK, &field, true) {
            Err(e) => Err(e),
            Ok(_) => hook_outcome(
                ARGUMENTS_HOOK,
                call_with_arguments(&self.lua, ARGUMENTS_HOOK, args),
            ),
        }
    }

    /// The arguments to start the program with once more after it ended with
    /// `status`, or `None` to leave it at that. A descriptor without restart
    /// hook never asks for a restart.
    pub fn restart_args(&self, status: i32) -> (r: Result<Option<Vec<String>>, Error>)
        ensures
            restart_allows(self@.restart_hook, r),
    {
        self.restart_with(&self.restart_hook, status)
    }

    /// [`Metadata::restart_args`] for a descriptor that holds `field` under
    /// the hook's name. Without a hook there is no restart; a hook that is
    /// there decides, and its fault is a failure.
    pub fn restart_args_with(&self, field: Field, status: i32) -> (r: Result<
        Option<Vec<String>>,
        Error,
    >)
        ensures
            restart_allows(field@, r),
    {
        self.restart_with(&field, status)
    }

    fn restart_with(&self, field: &Field, status: i32) -> (r: Result<Option<Vec<String>>, Error>)
        ensures
            restart_allows(field@, r),
    {
        match hook_field(RESTART_HOOK, field, false) {
            Err(e) => Err(e),
            Ok(false) => Ok(None),
            Ok(true) => hook_outcome(
                RESTART_HOOK,
                call_with_status(&self.lua, RESTART_HOOK, status),
            ),
        }
    }

    /// The environment `vars` as the descriptor's hook leaves it: unchanged
    /// where the descriptor has no such hook.
    pub fn modify_envvars(&self, vars: Vec<(String, String)>) -> (r: Result<
        Vec<(String, String)>,
        Error,
    >)
        ensures
            environment_allows(self@.environment_hook, vars.deep_view(), r),
    {
        self.modify_with(&self.environment_hook, vars)
    }

    /// [`Metadata::modify_envvars`] for a descriptor that holds `field` under
    /// the hook's name. Without a hook the environment stays as it is.
    pub fn modify_envvars_with(&self, field: Field, vars: Vec<(String, String)>) -> (r: Result<
        Vec<(String, String)>,
        Error,
    >)
        ensures
            environment_allows(field@, vars.deep_view(), r),
    {
        self.modify_with(&field, vars)
    }

    fn modify_with(&self, field: &Field, vars: Vec<(String, String)>) -> (r: Result<
        Vec<(String, String)>,
        Error,
    >)
        ensures
            environment_allows(field@, vars.deep_view(), r),
    {
        match hook_field(ENVIRONMENT_HOOK, field, false) {
            Err(e) => Err(e),
            Ok(false) => Ok(vars),
            Ok(true) => hook_outcome(
                ENVIRONMENT_HOOK,
                call_with_environment(&self.lua, ENVIRONMENT_HOOK, vars),
            ),
        }
    }

    /// The environment of the child: `base_env` with the program's directory
    /// in front of the search path, as the descriptor's hook leaves it. Which
    /// directory that is, if any, the platform says; without a hook nothing
    /// else changes.
    pub fn get_envvars(&self, base_env: &Vec<(String, String)>) -> (r: Result<
        Vec<(String, String)>,
        Error,
    >)
        ensures
            match hook_field_spec(ENVIRONMENT_HOOK@, self@.environment_hook, false) {
                Ok(false) => r matches Ok(vars) && is_child_environment(
                    vars.deep_view(),
                    base_env.deep_view(),
                    self@.prog_path,
                    self.separator(),
                ),
                Ok(true) => r matches Err(e) ==> is_script_fault(e@, ENVIRONMENT_HOOK@),
                Err(fault) => r matches Err(e) && e@ == fault,
            },
    {
        let dir = parent(self.prog_path.as_str());
        let ghost chosen = dir.deep_view();
        let assembled = with_program_directory(base_env, dir, self.separator);
        let r = self.modify_with(&self.environment_hook, assembled);
        proof {
            if hook_field_spec(ENVIRONMENT_HOOK@, self@.environment_hook, false) == Ok::<
                bool,
                ErrorView,
            >(false) {
                assert(is_assembled(
                    r->Ok_0.deep_view(),
                    base_env.deep_view(),
                    chosen,
                    self.separator(),
                ));
            }
        }
        r
    }

    /// [`Metadata::get_envvars`] for a program that lies in `dir` and a
    /// descriptor that holds `field` under the name of the environment hook.
    /// Without a hook the result is `base_env` with `dir` in front of its
    /// search path, and nothing else.
    pub fn get_envvars_with(
        &self,
        base_env: &Vec<(String, String)>,
        dir: Option<String>,
        field: Field,
    ) -> (r: Result<Vec<(String, String)>, Error>)
        ensures
            match hook_field_spec(ENVIRONMENT_HOOK@, field@, false) {
                Ok(false) => r matches Ok(vars) && is_assembled(
                    vars.deep_view(),
                    base_env.deep_view(),
                    dir.deep_view(),
                    self.separator(),
                ),
                Ok(true) => r matches Err(e) ==> is_script_fault(e@, ENVIRONMENT_HOOK@),
                Err(fault) => r matches Err(e) && e@ == fault,
            },
    {
        let assembled = with_program_directory(base_env, dir, self.separator);
        self.modify_with(&field, assembled)
    }
}

/// What the record held by `lua` holds under `name`.
fn field_of(lua: &Lua, name: &str) -> (r: Result<Field, Error>)
    ensures
        r matches Err(e) ==> is_script_fault(e@, name@),
{
    match read_field(lua, name) {
        Err(fault) => Err(script_error(name, &fault)),
        Ok(field) => Ok(field),
    }
}

} // verus!
