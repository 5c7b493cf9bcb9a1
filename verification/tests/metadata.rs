use cmdlink::environment::lookup;
use cmdlink::error::exit_code;
use cmdlink::host::Field;
use cmdlink::metadata::{check_shape, flag_field, hook_field, hook_outcome, text_field};
use cmdlink::paths::metadata_path;
use cmdlink::{Error, Metadata};

fn words(items: &[&str]) -> Vec<String> {
    items.iter().map(|s| s.to_string()).collect()
}

fn parse(source: &str) -> Result<Metadata, Error> {
    Metadata::parse("tool.meta".to_string(), Some(source))
}

fn list_separator() -> char {
    if std::path::MAIN_SEPARATOR == '\\' {
        ';'
    } else {
        ':'
    }
}

const FULL: &str = r#"return {
    prog_path = "/opt/tools/bin/tool",
    gen_args = function(args)
        local out = { "--quiet" }
        for _, arg in ipairs(args) do
            out[#out + 1] = arg
        end
        return out
    end,
    modify_envvars = function(env)
        env.TOOL_HOME = "/opt/tools"
        env.HOME = nil
        add_to_variable(env, "PATH", "/opt/tools/lib")
    end,
    restart_args = function(status)
        if status == 75 then
            return { "--retry" }
        end
        return nil
    end,
    gui = true,
    background = false,
}"#;

#[test]
fn missing_descriptor_is_reported_and_exits_with_one() {
    let outcome = Metadata::load("/apps/bin/tool.exe", None);
    let expected = metadata_path("/apps/bin/tool.exe");
    assert_eq!(expected, "/apps/bin/tool.meta");
    match outcome {
        Err(Error::MetadataNotFound { path }) => assert_eq!(path, expected),
        other => panic!("unexpected outcome {:?}", other.map(|_| ())),
    }
    let failed: Result<i32, Error> =
        Err(Error::MetadataNotFound { path: "/apps/bin/tool.meta".to_string() });
    assert_eq!(exit_code(&failed), 1);
}

#[test]
fn parse_without_source_names_the_path() {
    let outcome = Metadata::parse("some/where.meta".to_string(), None);
    assert_eq!(
        outcome.map(|_| ()),
        Err(Error::MetadataNotFound { path: "some/where.meta".to_string() })
    );
}

#[test]
fn load_reads_the_fields() {
    let metadata = Metadata::load("/apps/bin/tool.exe", Some(FULL)).unwrap();
    assert_eq!(metadata.prog_path(), Ok("/opt/tools/bin/tool".to_string()));
    assert_eq!(metadata.gui(), Ok(true));
    assert_eq!(metadata.background(), Ok(false));
}

#[test]
fn gen_args_runs_the_hook() {
    let metadata = parse(FULL).unwrap();
    assert_eq!(metadata.gen_args(words(&["a", "", "b"])), Ok(words(&["--quiet", "a", "", "b"])));
    assert_eq!(metadata.gen_args(words(&[])), Ok(words(&["--quiet"])));
}

#[test]
fn restart_args_runs_the_hook() {
    let metadata = parse(FULL).unwrap();
    assert_eq!(metadata.restart_args(75), Ok(Some(words(&["--retry"]))));
    assert_eq!(metadata.restart_args(0), Ok(None));
}

#[test]
fn restart_args_without_hook_is_none() {
    let metadata = parse(
        r#"return { prog_path = "p", gen_args = function(a) return a end, gui = false, background = false }"#,
    )
    .unwrap();
    assert_eq!(metadata.restart_args(1), Ok(None));
    assert_eq!(metadata.restart_args_with(Field::Absent, 1), Ok(None));
}

#[test]
fn restart_args_that_is_no_function_is_a_wrong_type() {
    let metadata = parse(
        r#"return { prog_path = "p", gen_args = function(a) return a end, restart_args = "always", gui = false, background = false }"#,
    )
    .unwrap();
    assert_eq!(
        metadata.restart_args(1),
        Err(Error::WrongType { name: "restart_args".to_string() })
    );
}

#[test]
fn restart_hook_fault_is_propagated() {
    let metadata = parse(
        r#"return { prog_path = "p", gen_args = function(a) return a end, restart_args = function(s) error("boom") end, gui = false, background = false }"#,
    )
    .unwrap();
    match metadata.restart_args(1) {
        Err(Error::ScriptError { hook, message }) => {
            assert_eq!(hook, "restart_args");
            assert!(message.contains("boom"));
        }
        other => panic!("unexpected outcome {:?}", other),
    }
}

#[test]
fn descriptor_that_does_not_compile_is_a_script_error() {
    match parse("return {") {
        Err(Error::ScriptError { hook, .. }) => assert_eq!(hook, "descriptor"),
        other => panic!("unexpected outcome {:?}", other.map(|_| ())),
    }
}

#[test]
fn descriptor_that_is_no_record_is_a_script_error() {
    match parse("return 42") {
        Err(Error::ScriptError { hook, .. }) => assert_eq!(hook, "descriptor"),
        other => panic!("unexpected outcome {:?}", other.map(|_| ())),
    }
}

#[test]
fn descriptor_without_program_path_does_not_load() {
    let outcome = parse(r#"return { gen_args = function(a) return a end, gui = false, background = false }"#);
    assert_eq!(
        outcome.map(|_| ()),
        Err(Error::MissingField { name: "prog_path".to_string() })
    );
}

#[test]
fn descriptor_with_mistyped_program_path_does_not_load() {
    let outcome = parse(r#"return { prog_path = true, gen_args = function(a) return a end, gui = false, background = false }"#);
    assert_eq!(outcome.map(|_| ()), Err(Error::WrongType { name: "prog_path".to_string() }));
}

#[test]
fn descriptor_without_argument_hook_does_not_load() {
    let outcome = parse(r#"return { prog_path = "p", gui = false, background = false }"#);
    assert_eq!(outcome.map(|_| ()), Err(Error::MissingField { name: "gen_args".to_string() }));
    let outcome = parse(r#"return { prog_path = "p", gen_args = { "a" }, gui = false, background = false }"#);
    assert_eq!(outcome.map(|_| ()), Err(Error::WrongType { name: "gen_args".to_string() }));
}

#[test]
fn flags_have_no_default() {
    let metadata = parse(r#"return { prog_path = "p", gen_args = function(a) return a end }"#).unwrap();
    assert_eq!(metadata.gui(), Err(Error::MissingField { name: "gui".to_string() }));
    assert_eq!(
        metadata.background(),
        Err(Error::MissingField { name: "background".to_string() })
    );
}

#[test]
fn flags_must_be_booleans() {
    let metadata = parse(
        r#"return { prog_path = "p", gen_args = function(a) return a end, gui = "yes", background = 0 }"#,
    )
    .unwrap();
    assert_eq!(metadata.gui(), Err(Error::WrongType { name: "gui".to_string() }));
    assert_eq!(metadata.background(), Err(Error::WrongType { name: "background".to_string() }));
}

#[test]
fn field_tells_the_kinds_apart() {
    let metadata = parse(
        r#"return { prog_path = "p", gen_args = function(a) return a end, gui = false, count = 3, nested = {} }"#,
    )
    .unwrap();
    assert_eq!(metadata.field("prog_path"), Ok(Field::Text("p".to_string())));
    assert_eq!(metadata.field("gen_args"), Ok(Field::Hook));
    assert_eq!(metadata.field("gui"), Ok(Field::Flag(false)));
    assert_eq!(metadata.field("background"), Ok(Field::Absent));
    assert_eq!(metadata.field("count"), Ok(Field::Other));
    assert_eq!(metadata.field("nested"), Ok(Field::Other));
}

#[test]
fn typed_fields_follow_the_kind() {
    assert_eq!(text_field("k", Field::Text("v".to_string())), Ok("v".to_string()));
    assert_eq!(text_field("k", Field::Absent), Err(Error::MissingField { name: "k".to_string() }));
    assert_eq!(text_field("k", Field::Hook), Err(Error::WrongType { name: "k".to_string() }));
    assert_eq!(flag_field("k", &Field::Flag(true)), Ok(true));
    assert_eq!(flag_field("k", &Field::Absent), Err(Error::MissingField { name: "k".to_string() }));
    assert_eq!(
        flag_field("k", &Field::Text("true".to_string())),
        Err(Error::WrongType { name: "k".to_string() })
    );
    assert_eq!(hook_field("k", &Field::Hook, true), Ok(true));
    assert_eq!(hook_field("k", &Field::Absent, false), Ok(false));
    assert_eq!(
        hook_field("k", &Field::Absent, true),
        Err(Error::MissingField { name: "k".to_string() })
    );
    assert_eq!(
        hook_field("k", &Field::Other, false),
        Err(Error::WrongType { name: "k".to_string() })
    );
}

#[test]
fn shape_check_looks_at_the_program_path_first() {
    assert_eq!(check_shape(Field::Text("p".to_string()), Field::Hook), Ok("p".to_string()));
    assert_eq!(
        check_shape(Field::Absent, Field::Absent),
        Err(Error::MissingField { name: "prog_path".to_string() })
    );
    assert_eq!(
        check_shape(Field::Text("p".to_string()), Field::Flag(true)),
        Err(Error::WrongType { name: "gen_args".to_string() })
    );
}

#[test]
fn environment_without_hook_only_gains_the_program_directory() {
    let metadata = parse(
        r#"return { prog_path = "/opt/tools/bin/tool", gen_args = function(a) return a end, gui = false, background = false }"#,
    )
    .unwrap();
    let base = vec![
        ("HOME".to_string(), "/home/me".to_string()),
        ("PATH".to_string(), format!("/usr/bin{}/bin", list_separator())),
    ];
    let env = metadata.get_envvars(&base).unwrap();
    assert_eq!(lookup(&env, "HOME"), Some("/home/me".to_string()));
    assert_eq!(
        lookup(&env, "PATH"),
        Some(format!("/opt/tools/bin{0}/usr/bin{0}/bin", list_separator()))
    );
    assert_eq!(lookup(&env, "TOOL_HOME"), None);
}

#[test]
fn environment_hook_changes_the_assembled_environment() {
    let metadata = parse(FULL).unwrap();
    let base = vec![
        ("HOME".to_string(), "/home/me".to_string()),
        ("PATH".to_string(), "/usr/bin".to_string()),
    ];
    let env = metadata.get_envvars(&base).unwrap();
    assert_eq!(lookup(&env, "TOOL_HOME"), Some("/opt/tools".to_string()));
    assert_eq!(lookup(&env, "HOME"), None);
    assert_eq!(
        lookup(&env, "PATH"),
        Some(format!("/opt/tools/lib{0}/opt/tools/bin{0}/usr/bin", list_separator()))
    );
    assert_eq!(env.len(), 2);
}

#[test]
fn environment_of_a_bare_program_name_is_unchanged() {
    let metadata = parse(
        r#"return { prog_path = "tool", gen_args = function(a) return a end, gui = false, background = false }"#,
    )
    .unwrap();
    let base = vec![("PATH".to_string(), "/usr/bin".to_string())];
    let env = metadata.get_envvars(&base).unwrap();
    assert_eq!(env, base);
}

#[test]
fn modify_envvars_without_hook_returns_its_argument() {
    let metadata = parse(
        r#"return { prog_path = "p", gen_args = function(a) return a end, gui = false, background = false }"#,
    )
    .unwrap();
    let vars = vec![
        ("B".to_string(), "2".to_string()),
        ("A".to_string(), "1".to_string()),
        ("B".to_string(), "3".to_string()),
    ];
    assert_eq!(metadata.modify_envvars(vars.clone()), Ok(vars));
}

#[test]
fn environment_hook_fault_is_propagated() {
    let metadata = parse(
        r#"return { prog_path = "p", gen_args = function(a) return a end, modify_envvars = function(env) error("no env") end, gui = false, background = false }"#,
    )
    .unwrap();
    match metadata.get_envvars(&vec![]) {
        Err(Error::ScriptError { hook, message }) => {
            assert_eq!(hook, "modify_envvars");
            assert!(message.contains("no env"));
        }
        other => panic!("unexpected outcome {:?}", other),
    }
}

#[test]
fn scripts_can_merge_search_paths() {
    let metadata = parse(
        r#"return {
            prog_path = "p",
            gen_args = function(args)
                local env = { LIBS = args[1] }
                add_to_variable(env, "LIBS", args[2])
                add_to_variable(env, "FRESH", args[2])
                return { env.LIBS, env.FRESH }
            end,
            gui = false,
            background = false,
        }"#,
    )
    .unwrap();
    let sep = list_separator();
    let current = format!("/a{0}/b{0}/c", sep);
    assert_eq!(
        metadata.gen_args(vec![current, "/b".to_string()]),
        Ok(vec![format!("/b{0}/a{0}/c", sep), "/b".to_string()])
    );
}

#[test]
fn each_descriptor_has_a_state_of_its_own() {
    let first = parse(
        r#"shared = "first"
        return { prog_path = "p", gen_args = function(a) return { shared } end, gui = false, background = false }"#,
    )
    .unwrap();
    let second = parse(
        r#"return { prog_path = "p", gen_args = function(a) return { tostring(shared) } end, gui = false, background = false }"#,
    )
    .unwrap();
    assert_eq!(first.gen_args(vec![]), Ok(words(&["first"])));
    assert_eq!(second.gen_args(vec![]), Ok(words(&["nil"])));
}

#[test]
fn fields_stand_as_they_were_loaded() {
    let metadata = parse(
        r#"local record = { prog_path = "/opt/a/tool", gen_args = nil, gui = false, background = true }
        record.gen_args = function(args)
            record.gui = true
            record.prog_path = "/elsewhere/tool"
            record.restart_args = function(status) return { "again" } end
            return args
        end
        return record"#,
    )
    .unwrap();
    assert_eq!(metadata.gen_args(words(&["x"])), Ok(words(&["x"])));
    assert_eq!(metadata.field("gui"), Ok(Field::Flag(true)));
    assert_eq!(metadata.gui(), Ok(false));
    assert_eq!(metadata.background(), Ok(true));
    assert_eq!(metadata.prog_path(), Ok("/opt/a/tool".to_string()));
    assert_eq!(metadata.restart_args(3), Ok(None));
}

#[test]
fn hook_outcome_passes_no_fault_over() {
    assert_eq!(hook_outcome("gen_args", Ok(words(&["a", ""]))), Ok(words(&["a", ""])));
    assert_eq!(hook_outcome::<Option<Vec<String>>>("restart_args", Ok(None)), Ok(None));
    let fault = rlua::Error::RuntimeError("boom".to_string());
    match hook_outcome::<Vec<String>>("gen_args", Err(fault)) {
        Err(Error::ScriptError { hook, message }) => {
            assert_eq!(hook, "gen_args");
            assert!(message.contains("boom"));
        }
        other => panic!("unexpected outcome {:?}", other),
    }
}

#[test]
fn scripts_have_no_access_to_files_or_processes() {
    let metadata = parse(
        r#"return {
            prog_path = "p",
            gen_args = function(args)
                return {
                    tostring(io), tostring(os), tostring(package), tostring(require),
                    tostring(dofile), tostring(loadfile), tostring(debug),
                    type(string.format), type(table.concat), type(math.floor), type(unpack),
                }
            end,
            gui = false,
            background = false,
        }"#,
    )
    .unwrap();
    assert_eq!(
        metadata.gen_args(vec![]),
        Ok(words(&[
            "nil", "nil", "nil", "nil", "nil", "nil", "nil", "function", "function", "function",
            "function",
        ]))
    );
}
