use cmdlink::error::exit_code;
use cmdlink::launch::{
    exit_status, mark_for_background, split_marker, step, BACKGROUND_CHILD_MARKER,
    DETACHED_EXIT_CODE, FAILURE_EXIT_CODE,
};
use cmdlink::{run, Error, Event, Metadata, Phase, Request, SpawnRequest};

fn strings(items: &[&str]) -> Vec<String> {
    items.iter().map(|s| s.to_string()).collect()
}

fn descriptor(source: &str) -> Metadata {
    Metadata::parse("alias.meta".to_string(), Some(source)).unwrap()
}

fn base_env() -> Vec<(String, String)> {
    vec![("HOME".to_string(), "/root".to_string())]
}

fn spawned(request: Result<Request, Error>) -> SpawnRequest {
    match request {
        Ok(Request::Spawn { request }) => request,
        other => panic!("no spawn request: {:?}", other),
    }
}

const ECHO: &str = r#"return {
    prog_path = "/bin/echo",
    gen_args = function(args) return args end,
    gui = false,
    background = false,
}"#;

const WINDOWED: &str = r#"return {
    prog_path = "/opt/app/viewer",
    gen_args = function(args) return { "--open", unpack(args) } end,
    gui = true,
    background = false,
}"#;

const DETACHED: &str = r#"return {
    prog_path = "/opt/app/daemon",
    gen_args = function(args) return args end,
    gui = false,
    background = true,
}"#;

const RESTART_TWICE: &str = r#"
local restarts = 0
return {
    prog_path = "/opt/app/worker",
    gen_args = function(args) return args end,
    restart_args = function(status)
        if restarts < 2 then
            restarts = restarts + 1
            return { "--resume", tostring(status) }
        end
    end,
    gui = false,
    background = false,
}"#;

#[test]
fn echo_scenario_spawns_once_and_exits_with_zero() {
    let metadata = descriptor(ECHO);
    let env = base_env();
    let (phase, request) =
        run(&metadata, Phase::Entry, Event::Invoked { raw_args: strings(&["hello"]) }, &env);
    let request = spawned(request);
    assert_eq!(request.program, "/bin/echo");
    assert_eq!(request.args, strings(&["hello"]));
    assert!(request.inherit_stdio);
    assert_eq!(phase, Phase::Running { program: "/bin/echo".to_string() });
    let (phase, request) = run(&metadata, phase, Event::ChildExited { code: Some(0) }, &env);
    assert_eq!(request, Ok(Request::Exit { code: 0 }));
    assert_eq!(phase, Phase::Terminal { code: 0 });
}

#[test]
fn foreground_without_restart_hook_exits_with_the_childs_code() {
    let metadata = descriptor(ECHO);
    let env = base_env();
    let (phase, request) =
        run(&metadata, Phase::Entry, Event::Invoked { raw_args: strings(&[]) }, &env);
    assert!(spawned(request).args.is_empty());
    let (phase, request) = run(&metadata, phase, Event::ChildExited { code: Some(42) }, &env);
    assert_eq!(request, Ok(Request::Exit { code: 42 }));
    assert_eq!(phase, Phase::Terminal { code: 42 });
    assert_eq!(exit_code(&Ok(42)), 42);
}

#[test]
fn child_without_exit_code_counts_as_failed() {
    let metadata = descriptor(ECHO);
    let env = base_env();
    let (phase, _) =
        run(&metadata, Phase::Entry, Event::Invoked { raw_args: strings(&["x"]) }, &env);
    let (phase, request) = run(&metadata, phase, Event::ChildExited { code: None }, &env);
    assert_eq!(request, Ok(Request::Exit { code: 1 }));
    assert_eq!(phase, Phase::Terminal { code: 1 });
    assert_eq!(exit_status(None), FAILURE_EXIT_CODE);
    assert_eq!(exit_status(Some(-3)), -3);
}

#[test]
fn background_descriptor_detaches_a_direct_invocation() {
    let metadata = descriptor(DETACHED);
    let env = base_env();
    let (phase, request) =
        run(&metadata, Phase::Entry, Event::Invoked { raw_args: strings(&["a", "", "b"]) }, &env);
    assert_eq!(
        request,
        Ok(Request::Detach { args: strings(&[BACKGROUND_CHILD_MARKER, "a", "", "b"]) })
    );
    assert_eq!(phase, Phase::Detaching);
    let (phase, request) = run(&metadata, phase, Event::Detached, &env);
    assert_eq!(request, Ok(Request::Exit { code: 0 }));
    assert_eq!(phase, Phase::Terminal { code: DETACHED_EXIT_CODE });
    let (phase, request) = run(&metadata, phase, Event::ChildExited { code: Some(9) }, &env);
    assert_eq!(request, Ok(Request::Exit { code: 0 }));
    assert_eq!(phase, Phase::Terminal { code: 0 });
}

#[test]
fn background_child_runs_the_program_itself() {
    let metadata = descriptor(DETACHED);
    let env = base_env();
    let raw = strings(&[BACKGROUND_CHILD_MARKER, "a", "b"]);
    let (phase, request) = run(&metadata, Phase::Entry, Event::Invoked { raw_args: raw }, &env);
    let request = spawned(request);
    assert_eq!(request.program, "/opt/app/daemon");
    assert_eq!(request.args, strings(&["a", "b"]));
    assert_eq!(phase, Phase::Running { program: "/opt/app/daemon".to_string() });
}

#[test]
fn marker_counts_only_in_first_place() {
    let metadata = descriptor(DETACHED);
    let env = base_env();
    let raw = strings(&["a", BACKGROUND_CHILD_MARKER]);
    let (_, request) = run(&metadata, Phase::Entry, Event::Invoked { raw_args: raw }, &env);
    assert_eq!(
        request,
        Ok(Request::Detach {
            args: strings(&[BACKGROUND_CHILD_MARKER, "a", BACKGROUND_CHILD_MARKER])
        })
    );
}

#[test]
fn restart_hook_that_fires_twice_gives_three_children() {
    let metadata = descriptor(RESTART_TWICE);
    let env = base_env();
    let mut spawns = Vec::new();
    let (mut phase, mut request) =
        run(&metadata, Phase::Entry, Event::Invoked { raw_args: strings(&["first"]) }, &env);
    let mut code = 10;
    let last = loop {
        match request {
            Ok(Request::Spawn { request: spawn }) => {
                assert_eq!(phase, Phase::Running { program: "/opt/app/worker".to_string() });
                spawns.push(spawn.args);
                let next = run(&metadata, phase, Event::ChildExited { code: Some(code) }, &env);
                phase = next.0;
                request = next.1;
                code += 1;
            }
            Ok(Request::Exit { code }) => break code,
            other => panic!("unexpected request {:?}", other),
        }
    };
    assert_eq!(
        spawns,
        vec![strings(&["first"]), strings(&["--resume", "10"]), strings(&["--resume", "11"])]
    );
    assert_eq!(last, 12);
    assert_eq!(phase, Phase::Terminal { code: 12 });
}

#[test]
fn gui_flag_keeps_the_streams_apart() {
    let env = base_env();
    let windowed = descriptor(WINDOWED);
    let (_, request) =
        run(&windowed, Phase::Entry, Event::Invoked { raw_args: strings(&["f"]) }, &env);
    let request = spawned(request);
    assert!(!request.inherit_stdio);
    assert_eq!(request.args, strings(&["--open", "f"]));
    let console = descriptor(ECHO);
    let (_, request) =
        run(&console, Phase::Entry, Event::Invoked { raw_args: strings(&["f"]) }, &env);
    assert!(spawned(request).inherit_stdio);
}

#[test]
fn empty_arguments_reach_the_child() {
    let metadata = descriptor(ECHO);
    let env = base_env();
    let raw = strings(&["", "a", "", "", "b", ""]);
    let (_, request) =
        run(&metadata, Phase::Entry, Event::Invoked { raw_args: raw.clone() }, &env);
    assert_eq!(spawned(request).args, raw);
}

#[test]
fn child_environment_has_the_program_directory_in_front() {
    let metadata = descriptor(ECHO);
    let env = vec![
        ("HOME".to_string(), "/root".to_string()),
        ("PATH".to_string(), "/usr/bin".to_string()),
    ];
    let (_, request) =
        run(&metadata, Phase::Entry, Event::Invoked { raw_args: strings(&[]) }, &env);
    let request = spawned(request);
    let sep = if std::path::MAIN_SEPARATOR == '\\' { ';' } else { ':' };
    assert_eq!(
        cmdlink::environment::lookup(&request.env, "PATH"),
        Some(format!("/bin{}/usr/bin", sep))
    );
    assert_eq!(cmdlink::environment::lookup(&request.env, "HOME"), Some("/root".to_string()));
}

#[test]
fn faulting_hook_ends_the_invocation_with_a_failure() {
    let metadata = descriptor(
        r#"return {
            prog_path = "/bin/true",
            gen_args = function(args) error("no arguments today") end,
            gui = false,
            background = false,
        }"#,
    );
    let env = base_env();
    let (phase, request) =
        run(&metadata, Phase::Entry, Event::Invoked { raw_args: strings(&[]) }, &env);
    assert_eq!(phase, Phase::Terminal { code: 1 });
    match request {
        Err(Error::ScriptError { hook, message }) => {
            assert_eq!(hook, "gen_args");
            assert!(message.contains("no arguments today"));
        }
        other => panic!("unexpected outcome {:?}", other),
    }
}

#[test]
fn missing_flag_ends_the_invocation_with_a_failure() {
    let metadata = descriptor(
        r#"return {
            prog_path = "/bin/true",
            gen_args = function(args) return args end,
            background = false,
        }"#,
    );
    let env = base_env();
    let (phase, request) =
        run(&metadata, Phase::Entry, Event::Invoked { raw_args: strings(&[]) }, &env);
    assert_eq!(phase, Phase::Terminal { code: FAILURE_EXIT_CODE });
    assert_eq!(request, Err(Error::MissingField { name: "gui".to_string() }));
}

#[test]
fn faulting_restart_hook_is_a_failure() {
    let metadata = descriptor(
        r#"return {
            prog_path = "/bin/true",
            gen_args = function(args) return args end,
            restart_args = function(status) error("cannot decide") end,
            gui = false,
            background = false,
        }"#,
    );
    let env = base_env();
    let (phase, _) =
        run(&metadata, Phase::Entry, Event::Invoked { raw_args: strings(&[]) }, &env);
    let (phase, request) = run(&metadata, phase, Event::ChildExited { code: Some(0) }, &env);
    assert_eq!(phase, Phase::Terminal { code: 1 });
    assert!(matches!(request, Err(Error::ScriptError { .. })));
}

#[test]
fn spawn_failure_reported_to_the_machine_ends_it() {
    let metadata = descriptor(ECHO);
    let env = base_env();
    let (phase, _) =
        run(&metadata, Phase::Entry, Event::Invoked { raw_args: strings(&[]) }, &env);
    let (phase, request) = run(&metadata, phase, Event::Failed, &env);
    assert_eq!(request, Ok(Request::Exit { code: 1 }));
    assert_eq!(phase, Phase::Terminal { code: 1 });
}

#[test]
fn step_strips_marker_and_asks_for_background() {
    let raw = strings(&[BACKGROUND_CHILD_MARKER, "x"]);
    let (phase, request) = step(Phase::Entry, Event::Invoked { raw_args: raw });
    assert_eq!(phase, Phase::AwaitBackground { is_child: true, args: strings(&["x"]) });
    assert_eq!(request, Request::ReadBackground);
}

#[test]
fn step_follows_the_questions_in_order() {
    let (phase, request) = step(Phase::Entry, Event::Invoked { raw_args: strings(&["x"]) });
    assert_eq!(phase, Phase::AwaitBackground { is_child: false, args: strings(&["x"]) });
    assert_eq!(request, Request::ReadBackground);
    let (phase, request) = step(phase, Event::Background { value: false });
    assert_eq!(phase, Phase::AwaitProgram { args: strings(&["x"]) });
    assert_eq!(request, Request::ReadProgram);
    let (phase, request) = step(phase, Event::Program { path: "p".to_string() });
    assert_eq!(phase, Phase::AwaitArguments { program: "p".to_string() });
    assert_eq!(request, Request::GenerateArguments { raw_args: strings(&["x"]) });
    let (phase, request) = step(phase, Event::Arguments { args: strings(&["y", "z"]) });
    assert_eq!(phase, Phase::AwaitGui { program: "p".to_string(), args: strings(&["y", "z"]) });
    assert_eq!(request, Request::ReadGui);
    let (phase, request) = step(phase, Event::Gui { value: false });
    assert_eq!(
        phase,
        Phase::AwaitEnvironment {
            program: "p".to_string(),
            args: strings(&["y", "z"]),
            gui: false
        }
    );
    assert_eq!(request, Request::BuildEnvironment);
    let (phase, request) = step(phase, Event::Environment { vars: vec![] });
    assert_eq!(phase, Phase::Running { program: "p".to_string() });
    assert_eq!(
        request,
        Request::Spawn {
            request: SpawnRequest {
                program: "p".to_string(),
                args: strings(&["y", "z"]),
                env: vec![],
                inherit_stdio: true,
            }
        }
    );
    let (phase, request) = step(phase, Event::ChildExited { code: Some(7) });
    assert_eq!(phase, Phase::Deciding { program: "p".to_string(), status: 7 });
    assert_eq!(request, Request::DecideRestart { status: 7 });
    let (phase, request) = step(phase, Event::Restart { decision: Some(strings(&["again"])) });
    assert_eq!(phase, Phase::AwaitGui { program: "p".to_string(), args: strings(&["again"]) });
    assert_eq!(request, Request::ReadGui);
}

#[test]
fn step_ends_when_the_restart_hook_declines() {
    let phase = Phase::Deciding { program: "p".to_string(), status: 3 };
    let (phase, request) = step(phase, Event::Restart { decision: None });
    assert_eq!(phase, Phase::Terminal { code: 3 });
    assert_eq!(request, Request::Exit { code: 3 });
}

#[test]
fn spawn_request_carries_what_the_phase_holds() {
    let phase = Phase::AwaitEnvironment {
        program: "p".to_string(),
        args: strings(&["", "a", ""]),
        gui: true,
    };
    let vars = vec![("K".to_string(), "V".to_string())];
    let (phase, request) = step(phase, Event::Environment { vars: vars.clone() });
    assert_eq!(phase, Phase::Running { program: "p".to_string() });
    assert_eq!(
        request,
        Request::Spawn {
            request: SpawnRequest {
                program: "p".to_string(),
                args: strings(&["", "a", ""]),
                env: vars,
                inherit_stdio: false,
            }
        }
    );
}

#[test]
fn event_out_of_turn_is_a_failure() {
    let (phase, request) = step(Phase::Entry, Event::ChildExited { code: Some(0) });
    assert_eq!(phase, Phase::Terminal { code: 1 });
    assert_eq!(request, Request::Exit { code: 1 });
    let running = Phase::Running { program: "p".to_string() };
    let (phase, request) = step(running, Event::Environment { vars: vec![] });
    assert_eq!(phase, Phase::Terminal { code: 1 });
    assert_eq!(request, Request::Exit { code: 1 });
}

#[test]
fn terminal_phase_repeats_its_exit_code() {
    let (phase, request) =
        step(Phase::Terminal { code: 5 }, Event::Invoked { raw_args: strings(&["x"]) });
    assert_eq!(phase, Phase::Terminal { code: 5 });
    assert_eq!(request, Request::Exit { code: 5 });
    let (phase, request) = step(phase, Event::Failed);
    assert_eq!(phase, Phase::Terminal { code: 5 });
    assert_eq!(request, Request::Exit { code: 5 });
}

#[test]
fn split_marker_leaves_other_arguments_alone() {
    assert_eq!(split_marker(strings(&[])), (false, strings(&[])));
    assert_eq!(split_marker(strings(&["a", "b"])), (false, strings(&["a", "b"])));
    assert_eq!(
        split_marker(strings(&[BACKGROUND_CHILD_MARKER])),
        (true, strings(&[]))
    );
    assert_eq!(
        split_marker(strings(&[BACKGROUND_CHILD_MARKER, BACKGROUND_CHILD_MARKER])),
        (true, strings(&[BACKGROUND_CHILD_MARKER]))
    );
}

#[test]
fn marking_and_splitting_give_the_arguments_back() {
    let args = strings(&["one", "", "three"]);
    let marked = mark_for_background(args.clone());
    assert_eq!(marked.len(), 4);
    assert_eq!(marked[0], "____MARKER__RUN_IN_BACKGROUND_a1a11601____");
    assert_eq!(split_marker(marked), (true, args));
}
