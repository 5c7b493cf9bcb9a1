//! The launch protocol as a state machine.
//!
//! One invocation of an alias walks through a fixed sequence of questions to
//! its descriptor and of effects on the operating system. The machine in this
//! module decides, for every phase and every event, what happens next; it
//! performs nothing itself. Whoever drives it answers each [`Request`] with the
//! matching [`Event`].

use vstd::prelude::*;
use vstd::string::*;

verus! {

/// First argument of a launcher that was re-executed in the background.
pub const BACKGROUND_CHILD_MARKER: &'static str = "____MARKER__RUN_IN_BACKGROUND_a1a11601____";

/// Exit code of an invocation that failed, and the status assumed for a child
/// whose status the platform cannot report.
pub const FAILURE_EXIT_CODE: i32 = 1;

/// Exit code of a direct invocation that handed over to a background child.
pub const DETACHED_EXIT_CODE: i32 = 0;

/// Everything needed to start the target program once.
#[derive(Debug, Clone, PartialEq, Eq)]
pub struct SpawnRequest {
    pub program: String,
    pub args: Vec<String>,
    pub env: Vec<(String, String)>,
    /// Whether the child shares the launcher's standard input, output and error.
    pub inherit_stdio: bool,
}

pub struct SpawnRequestView {
    pub program: Seq<char>,
    pub args: Seq<Seq<char>>,
    pub env: Seq<(Seq<char>, Seq<char>)>,
    pub inherit_stdio: bool,
}

impl View for SpawnRequest {
    type V = SpawnRequestView;

    open spec fn view(&self) -> SpawnRequestView {
        SpawnRequestView {
            program: self.program@,
            args: self.args.deep_view(),
            env: self.env.deep_view(),
            inherit_stdio: self.inherit_stdio,
        }
    }
}

/// Where an invocation stands.
#[derive(Debug, Clone, PartialEq, Eq)]
pub enum Phase {
    /// Nothing has happened yet.
    Entry,
    /// The arguments are known; the descriptor's `background` flag was asked for.
    AwaitBackground { is_child: bool, args: Vec<String> },
    /// The launcher is being re-executed in the background.
    Detaching,
    /// The program path was asked for.
    AwaitProgram { args: Vec<String> },
    /// The argument hook is running.
    AwaitArguments { program: String },
    /// The `gui` flag was asked for; `args` is the current argument vector.
    AwaitGui { program: String, args: Vec<String> },
    /// The child's environment is being assembled.
    AwaitEnvironment { program: String, args: Vec<String>, gui: bool },
    /// A child is alive.
    Running { program: String },
    /// The child ended with `status`; the restart hook was asked.
    Deciding { program: String, status: i32 },
    /// The invocation is over.
    Terminal { code: i32 },
}

pub enum PhaseView {
    Entry,
    AwaitBackground { is_child: bool, args: Seq<Seq<char>> },
    Detaching,
    AwaitProgram { args: Seq<Seq<char>> },
    AwaitArguments { program: Seq<char> },
    AwaitGui { program: Seq<char>, args: Seq<Seq<char>> },
    AwaitEnvironment { program: Seq<char>, args: Seq<Seq<char>>, gui: bool },
    Running { program: Seq<char> },
    Deciding { program: Seq<char>, status: i32 },
    Terminal { code: i32 },
}

impl View for Phase {
    type V = PhaseView;

    open spec fn view(&self) -> PhaseView {
        match self {
            Phase::Entry => PhaseView::Entry,
            Phase::AwaitBackground { is_child, args } => PhaseView::AwaitBackground {
                is_child: *is_child,
                args: args.deep_view(),
            },
            Phase::Detaching => PhaseView::Detaching,
            Phase::AwaitProgram { args } => PhaseView::AwaitProgram { args: args.deep_view() },
            Phase::AwaitArguments { program } => PhaseView::AwaitArguments { program: program@ },
            Phase::AwaitGui { program, args } => PhaseView::AwaitGui {
                program: program@,
                args: args.deep_view(),
            },
            Phase::AwaitEnvironment { program, args, gui } => PhaseView::AwaitEnvironment {
                program: program@,
                args: args.deep_view(),
                gui: *gui,
            },
            Phase::Running { program } => PhaseView::Running { program: program@ },
            Phase::Deciding { program, status } => PhaseView::Deciding {
                program: program@,
                status: *status,
            },
            Phase::Terminal { code } => PhaseView::Terminal { code: *code },
        }
    }
}

/// What the machine is told.
#[derive(Debug, Clone, PartialEq, Eq)]
pub enum Event {
    /// The launcher was started with these arguments (its own name left out).
    Invoked { raw_args: Vec<String> },
    /// The descriptor's `background` flag.
    Background { value: bool },
    /// The descriptor's program path.
    Program { path: String },
    /// What the argument hook returned.
    Arguments { args: Vec<String> },
    /// The descriptor's `gui` flag.
    Gui { value: bool },
    /// The assembled environment of the child.
    Environment { vars: Vec<(String, String)> },
    /// The background launcher was started.
    Detached,
    /// The child ended; `code` is `None` where the platform reports none.
    ChildExited { code: Option<i32> },
    /// What the restart hook returned.
    Restart { decision: Option<Vec<String>> },
    /// The last request could not be served.
    Failed,
}

pub enum EventView {
    Invoked { raw_args: Seq<Seq<char>> },
    Background { value: bool },
    Program { path: Seq<char> },
    Arguments { args: Seq<Seq<char>> },
    Gui { value: bool },
    Environment { vars: Seq<(Seq<char>, Seq<char>)> },
    Detached,
    ChildExited { code: Option<i32> },
    Restart { decision: Option<Seq<Seq<char>>> },
    Failed,
}

impl View for Event {
    type V = EventView;

    open spec fn view(&self) -> EventView {
        match self {
            Event::Invoked { raw_args } => EventView::Invoked { raw_args: raw_args.deep_view() },
            Event::Background { value } => EventView::Background { value: *value },
            Event::Program { path } => EventView::Program { path: path@ },
            Event::Arguments { args } => EventView::Arguments { args: args.deep_view() },
            Event::Gui { value } => EventView::Gui { value: *value },
            Event::Environment { vars } => EventView::Environment { vars: vars.deep_view() },
            Event::Detached => EventView::Detached,
            Event::ChildExited { code } => EventView::ChildExited { code: *code },
            Event::Restart { decision } => EventView::Restart { decision: decision.deep_view() },
            Event::Failed => EventView::Failed,
        }
    }
}

/// What the machine asks for next.
#[derive(Debug, Clone, PartialEq, Eq)]
pub enum Request {
    /// Read the descriptor's `background` flag.
    ReadBackground,
    /// Read the descriptor's program path.
    ReadProgram,
    /// Run the argument hook on `raw_args`.
    GenerateArguments { raw_args: Vec<String> },
    /// Read the descriptor's `gui` flag.
    ReadGui,
    /// Assemble the child's environment.
    BuildEnvironment,
    /// Start this launcher again with `args`, and do not wait for it.
    Detach { args: Vec<String> },
    /// Start the target program and wait for it to end.
    Spawn { request: SpawnRequest },
    /// Ask the restart hook about `status`.
    DecideRestart { status: i32 },
    /// End the process with `code`.
    Exit { code: i32 },
}

pub enum RequestView {
    ReadBackground,
    ReadProgram,
    GenerateArguments { raw_args: Seq<Seq<char>> },
    ReadGui,
    BuildEnvironment,
    Detach { args: Seq<Seq<char>> },
    Spawn { request: SpawnRequestView },
    DecideRestart { status: i32 },
    Exit { code: i32 },
}

impl View for Request {
    type V = RequestView;

    open spec fn view(&self) -> RequestView {
        match self {
            Request::ReadBackground => RequestView::ReadBackground,
            Request::ReadProgram => RequestView::ReadProgram,
            Request::GenerateArguments { raw_args } => RequestView::GenerateArguments {
                raw_args: raw_args.deep_view(),
            },
            Request::ReadGui => RequestView::ReadGui,
            Request::BuildEnvironment => RequestView::BuildEnvironment,
            Request::Detach { args } => RequestView::Detach { args: args.deep_view() },
            Request::Spawn { request } => RequestView::Spawn { request: request@ },
            Request::DecideRestart { status } => RequestView::DecideRestart { status: *status },
            Request::Exit { code } => RequestView::Exit { code: *code },
        }
    }
}

/// The status to act on for a finished child: its own code when the platform
/// reports one, and [`FAILURE_EXIT_CODE`] otherwise.
pub open spec fn effective_status(code: Option<i32>) -> i32 {
    match code {
        Some(c) => c,
        None => FAILURE_EXIT_CODE,
    }
}

/// Whether an argument list is that of a background child.
pub open spec fn has_marker(raw_args: Seq<Seq<char>>) -> bool {
    raw_args.len() > 0 && raw_args[0] == BACKGROUND_CHILD_MARKER@
}

/// The arguments meant for the descriptor: the list without the marker.
pub open spec fn strip_marker(raw_args: Seq<Seq<char>>) -> Seq<Seq<char>> {
    if has_marker(raw_args) {
        raw_args.drop_first()
    } else {
        raw_args
    }
}

/// The arguments of the background child: the marker, then the arguments as given.
pub open spec fn detach_args(args: Seq<Seq<char>>) -> Seq<Seq<char>> {
    seq![BACKGROUND_CHILD_MARKER@] + args
}

/// Where every failure leads.
pub open spec fn failure() -> (PhaseView, RequestView) {
    (
        PhaseView::Terminal { code: FAILURE_EXIT_CODE },
        RequestView::Exit { code: FAILURE_EXIT_CODE },
    )
}

/// The transition relation: the phase that follows `phase` on `event`, and the
/// request that goes out.
///
/// An event that the phase does not wait for counts as a failure. A terminal
/// phase stays as it is and repeats its exit code.
pub open spec fn step_spec(phase: PhaseView, event: EventView) -> (PhaseView, RequestView) {
    match phase {
        PhaseView::Terminal { code } => (phase, RequestView::Exit { code }),
        PhaseView::Entry => match event {
            EventView::Invoked { raw_args } => (
                PhaseView::AwaitBackground {
                    is_child: has_marker(raw_args),
                    args: strip_marker(raw_args),
                },
                RequestView::ReadBackground,
            ),
            _ => failure(),
        },
        PhaseView::AwaitBackground { is_child, args } => match event {
            EventView::Background { value } => if value && !is_child {
                (PhaseView::Detaching, RequestView::Detach { args: detach_args(args) })
            } else {
                (PhaseView::AwaitProgram { args }, RequestView::ReadProgram)
            },
            _ => failure(),
        },
        PhaseView::Detaching => match event {
            EventView::Detached => (
                PhaseView::Terminal { code: DETACHED_EXIT_CODE },
                RequestView::Exit { code: DETACHED_EXIT_CODE },
            ),
            _ => failure(),
        },
        PhaseView::AwaitProgram { args } => match event {
            EventView::Program { path } => (
                PhaseView::AwaitArguments { program: path },
                RequestView::GenerateArguments { raw_args: args },
            ),
            _ => failure(),
        },
        PhaseView::AwaitArguments { program } => match event {
            EventView::Arguments { args } => (
                PhaseView::AwaitGui { program, args },
                RequestView::ReadGui,
            ),
            _ => failure(),
        },
        PhaseView::AwaitGui { program, args } => match event {
            EventView::Gui { value } => (
                PhaseView::AwaitEnvironment { program, args, gui: value },
                RequestView::BuildEnvironment,
            ),
            _ => failure(),
        },
        PhaseView::AwaitEnvironment { program, args, gui } => match event {
            EventView::Environment { vars } => (
                PhaseView::Running { program },
                RequestView::Spawn {
                    request: SpawnRequestView { program, args, env: vars, inherit_stdio: !gui },
                },
            ),
            _ => failure(),
        },
        PhaseView::Running { program } => match event {
            EventView::ChildExited { code } => (
                PhaseView::Deciding { program, status: effective_status(code) },
                RequestView::DecideRestart { status: effective_status(code) },
            ),
            _ => failure(),
        },
        PhaseView::Deciding { program, status } => match event {
            EventView::Restart { decision: Some(args) } => (
                PhaseView::AwaitGui { program, args },
                RequestView::ReadGui,
            ),
            EventView::Restart { decision: None } => (
                PhaseView::Terminal { code: status },
                RequestView::Exit { code: status },
            ),
            _ => failure(),
        },
    }
}

/// The status to act on for a finished child.
pub fn exit_status(code: Option<i32>) -> (status: i32)
    ensures
        status == effective_status(code),
{
    match code {
        Some(c) => c,
        None => FAILURE_EXIT_CODE,
    }
}

/// Splits the launcher's own arguments into the background-child flag and the
/// arguments meant for the descriptor.
pub fn split_marker(raw_args: Vec<String>) -> (r: (bool, Vec<String>))
    ensures
        r.0 == has_marker(raw_args.deep_view()),
        r.1.deep_view() == strip_marker(raw_args.deep_view()),
{
    let mut args = raw_args;
    if args.len() == 0 {
        return (false, args);
    }
    let marker = String::from_str(BACKGROUND_CHILD_MARKER);
    if args[0] == marker {
        let ghost before = args.deep_view();
        args.remove(0);
        assert(args.deep_view() =~= before.drop_first());
        (true, args)
    } else {
        (false, args)
    }
}

/// The arguments to re-execute the launcher with.
pub fn mark_for_background(args: Vec<String>) -> (r: Vec<String>)
    ensures
        r.deep_view() == detach_args(args.deep_view()),
{
    let mut r = args;
    let ghost before = r.deep_view();
    r.insert(0, String::from_str(BACKGROUND_CHILD_MARKER));
    assert(r.deep_view() =~= detach_args(before));
    r
}

fn fail() -> (r: (Phase, Request))
    ensures
        (r.0@, r.1@) == failure(),
{
    (Phase::Terminal { code: FAILURE_EXIT_CODE }, Request::Exit { code: FAILURE_EXIT_CODE })
}

/// Advances the machine by one event.
pub fn step(phase: Phase, event: Event) -> (r: (Phase, Request))
    ensures
        (r.0@, r.1@) == step_spec(phase@, event@),
{
    match phase {
        Phase::Terminal { code } => (Phase::Terminal { code }, Request::Exit { code }),
        Phase::Entry => match event {
            Event::Invoked { raw_args } => {
                let (is_child, args) = split_marker(raw_args);
                (Phase::AwaitBackground { is_child, args }, Request::ReadBackground)
            },
            _ => fail(),
        },
        Phase::AwaitBackground { is_child, args } => match event {
            Event::Background { value } => {
                if value && !is_child {
                    (Phase::Detaching, Request::Detach { args: mark_for_background(args) })
                } else {
                    (Phase::AwaitProgram { args }, Request::ReadProgram)
                }
            },
            _ => fail(),
        },
        Phase::Detaching => match event {
            Event::Detached => (
                Phase::Terminal { code: DETACHED_EXIT_CODE },
                Request::Exit { code: DETACHED_EXIT_CODE },
            ),
            _ => fail(),
        },
        Phase::AwaitProgram { args } => match event {
            Event::Program { path } => (
                Phase::AwaitArguments { program: path },
                Request::GenerateArguments { raw_args: args },
            ),
            _ => fail(),
        },
        Phase::AwaitArguments { program } => match event {
            Event::Arguments { args } => (Phase::AwaitGui { program, args }, Request::ReadGui),
            _ => fail(),
        },
        Phase::AwaitGui { program, args } => match event {
            Event::Gui { value } => (
                Phase::AwaitEnvironment { program, args, gui: value },
                Request::BuildEnvironment,
            ),
            _ => fail(),
        },
        Phase::AwaitEnvironment { program, args, gui } => match event {
            Event::Environment { vars } => {
                let running = Phase::Running { program: program.clone() };
                let request = SpawnRequest { program, args, env: vars, inherit_stdio: !gui };
                (running, Request::Spawn { request })
            },
            _ => fail(),
        },
        Phase::Running { program } => match event {
            Event::ChildExited { code } => {
                let status = exit_status(code);
                (Phase::Deciding { program, status }, Request::DecideRestart { status })
            },
            _ => fail(),
        },
        Phase::Deciding { program, status } => match event {
            Event::Restart { decision: Some(args) } => (
                Phase::AwaitGui { program, args },
                Request::ReadGui,
            ),
            Event::Restart { decision: None } => (
                Phase::Terminal { code: status },
                Request::Exit { code: status },
            ),
            _ => fail(),
        },
    }
}

} // verus!
