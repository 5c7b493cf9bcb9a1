//! Runs the launch machine against a loaded descriptor.

use crate::error::{Error, ErrorView};
use crate::launch::{
    detach_args, effective_status, has_marker, step, step_spec, Event, EventView, Phase,
    PhaseView, Request, RequestView, FAILURE_EXIT_CODE,
};
use crate::metadata::{
    flag_field_spec, hook_field_spec, is_child_environment, is_script_fault, Metadata,
    MetadataView, ARGUMENTS_HOOK, BACKGROUND_FIELD, ENVIRONMENT_HOOK, GUI_FIELD, RESTART_HOOK,
};
use crate::trace::{agrees, is_outward, law_request_names_phase};
use vstd::prelude::*;

verus! {

/// How many questions to the descriptor can still follow in `phase` before
/// the machine turns to the operating system.
pub open spec fn questions_left(phase: PhaseView) -> nat {
    match phase {
        PhaseView::AwaitBackground { .. } => 5,
        PhaseView::AwaitProgram { .. } => 4,
        PhaseView::AwaitArguments { .. } => 3,
        PhaseView::Deciding { .. } => 3,
        PhaseView::AwaitGui { .. } => 2,
        PhaseView::AwaitEnvironment { .. } => 1,
        _ => 0,
    }
}

/// How a run ended, in terms of views.
pub open spec fn outcome_view(outcome: Result<Request, Error>) -> Result<RequestView, ErrorView> {
    match outcome {
        Ok(request) => Ok(request@),
        Err(e) => Err(e@),
    }
}

/// The request that stands at the end of a run: the one that came back, or
/// the exit that a failure leads to.
pub open spec fn last_request(outcome: Result<RequestView, ErrorView>) -> RequestView {
    match outcome {
        Ok(request) => request,
        Err(_) => RequestView::Exit { code: FAILURE_EXIT_CODE },
    }
}

/// Whether `reply` is the answer of the descriptor to `request`, where the
/// child's environment is made from `base`.
///
/// The flags and the program path are those that the descriptor held when it
/// was loaded. The argument hook answers as it likes. Without restart hook the
/// answer is never to restart; without environment hook the environment is
/// `base` with nothing but the program's directory put in front of the search
/// path. Requests to the operating system have no answer here.
pub open spec fn is_reply(
    descriptor: MetadataView,
    base: Seq<(Seq<char>, Seq<char>)>,
    request: RequestView,
    reply: EventView,
) -> bool {
    match request {
        RequestView::ReadBackground => flag_field_spec(BACKGROUND_FIELD@, descriptor.background)
            matches Ok(value) && reply == (EventView::Background { value }),
        RequestView::ReadProgram => reply == (EventView::Program { path: descriptor.prog_path }),
        RequestView::GenerateArguments { .. } => reply is Arguments,
        RequestView::ReadGui => flag_field_spec(GUI_FIELD@, descriptor.gui) matches Ok(value)
            && reply == (EventView::Gui { value }),
        RequestView::BuildEnvironment => reply matches EventView::Environment { vars }
            && match hook_field_spec(ENVIRONMENT_HOOK@, descriptor.environment_hook, false) {
            Ok(false) => is_child_environment(
                vars,
                base,
                descriptor.prog_path,
                descriptor.separator,
            ),
            Ok(true) => true,
            Err(_) => false,
        },
        RequestView::DecideRestart { .. } => reply matches EventView::Restart { decision }
            && match hook_field_spec(RESTART_HOOK@, descriptor.restart_hook, false) {
            Ok(false) => decision is None,
            Ok(true) => true,
            Err(_) => false,
        },
        _ => false,
    }
}

/// Whether `e` is a failure of the descriptor to answer `request`: a flag
/// that is missing or no flag, a hook that is no function, or the fault
/// that a hook raised. The program path, checked when the descriptor was
/// loaded, never fails.
pub open spec fn is_fault(descriptor: MetadataView, request: RequestView, e: ErrorView) -> bool {
    match request {
        RequestView::ReadBackground => flag_field_spec(BACKGROUND_FIELD@, descriptor.background)
            == Err::<bool, ErrorView>(e),
        RequestView::ReadGui => flag_field_spec(GUI_FIELD@, descriptor.gui) == Err::<
            bool,
            ErrorView,
        >(e),
        RequestView::GenerateArguments { .. } => is_script_fault(e, ARGUMENTS_HOOK@),
        RequestView::BuildEnvironment => match hook_field_spec(
            ENVIRONMENT_HOOK@,
            descriptor.environment_hook,
            false,
        ) {
            Ok(false) => false,
            Ok(true) => is_script_fault(e, ENVIRONMENT_HOOK@),
            Err(fault) => e == fault,
        },
        RequestView::DecideRestart { .. } => match hook_field_spec(
            RESTART_HOOK@,
            descriptor.restart_hook,
            false,
        ) {
            Ok(false) => false,
            Ok(true) => is_script_fault(e, RESTART_HOOK@),
            Err(fault) => e == fault,
        },
        _ => false,
    }
}

/// Whether the machine, standing in `phase` with `request` gone out, settles
/// in `last` with `outcome` when the descriptor gives `replies`, in turn, to
/// the questions that it is asked.
///
/// A request to the operating system ends the run at once, with no reply. A
/// question that the descriptor fails to answer ends it with that failure.
/// Every other reply is the descriptor's own answer to the question before
/// it, and takes the machine one step on.
pub open spec fn settles(
    descriptor: MetadataView,
    base: Seq<(Seq<char>, Seq<char>)>,
    phase: PhaseView,
    request: RequestView,
    replies: Seq<EventView>,
    last: PhaseView,
    outcome: Result<RequestView, ErrorView>,
) -> bool
    decreases replies.len(),
{
    if is_outward(request) {
        replies.len() == 0 && last == phase && outcome == Ok::<RequestView, ErrorView>(request)
    } else if replies.len() == 0 {
        false
    } else if replies[0] is Failed {
        &&& replies.len() == 1
        &&& last == step_spec(phase, EventView::Failed).0
        &&& outcome matches Err(e)
        &&& is_fault(descriptor, request, e)
    } else {
        &&& is_reply(descriptor, base, request, replies[0])
        &&& settles(
            descriptor,
            base,
            step_spec(phase, replies[0]).0,
            step_spec(phase, replies[0]).1,
            replies.drop_first(),
            last,
            outcome,
        )
    }
}

/// What holds of the request to start the program `program`, or of the
/// failure to get that far, once its arguments are known: the program is
/// the one named, the child shares the launcher's streams if and only if the
/// descriptor's `gui` flag is not set, and without environment hook its
/// environment is `base` with nothing but the program's directory put in
/// front. The failures are a `gui` flag that is missing or no flag, an
/// environment hook that is no function, and the fault of that hook.
pub open spec fn spawns(
    descriptor: MetadataView,
    base: Seq<(Seq<char>, Seq<char>)>,
    program: Seq<char>,
    last: PhaseView,
    outcome: Result<RequestView, ErrorView>,
) -> bool {
    match outcome {
        Ok(asked) => {
            &&& last == (PhaseView::Running { program })
            &&& asked matches RequestView::Spawn { request }
            &&& request.program == program
            &&& flag_field_spec(GUI_FIELD@, descriptor.gui) == Ok::<bool, ErrorView>(
                !request.inherit_stdio,
            )
            &&& hook_field_spec(ENVIRONMENT_HOOK@, descriptor.environment_hook, false) == Ok::<
                bool,
                ErrorView,
            >(false) ==> is_child_environment(
                request.env,
                base,
                descriptor.prog_path,
                descriptor.separator,
            )
        },
        Err(e) => {
            &&& last == (PhaseView::Terminal { code: FAILURE_EXIT_CODE })
            &&& is_fault(descriptor, RequestView::ReadGui, e) || is_fault(
                descriptor,
                RequestView::BuildEnvironment,
                e,
            )
        },
    }
}

/// What a launcher that was started with `raw_args` comes to.
///
/// A `background` flag that is missing or no flag is a failure. A descriptor
/// that asks for the background makes a launcher without the marker ask for
/// its own restart with the marker in front of its arguments. Every other
/// launcher asks for the program to be started, as [`spawns`] says, unless
/// the argument hook fails.
pub open spec fn started(
    descriptor: MetadataView,
    base: Seq<(Seq<char>, Seq<char>)>,
    raw_args: Seq<Seq<char>>,
    last: PhaseView,
    outcome: Result<RequestView, ErrorView>,
) -> bool {
    match flag_field_spec(BACKGROUND_FIELD@, descriptor.background) {
        Err(fault) => last == (PhaseView::Terminal { code: FAILURE_EXIT_CODE }) && outcome == Err::<
            RequestView,
            ErrorView,
        >(fault),
        Ok(background) => if background && !has_marker(raw_args) {
            last == PhaseView::Detaching && outcome == Ok::<RequestView, ErrorView>(
                RequestView::Detach { args: detach_args(raw_args) },
            )
        } else {
            ||| spawns(descriptor, base, descriptor.prog_path, last, outcome)
            ||| last == (PhaseView::Terminal { code: FAILURE_EXIT_CODE }) && (outcome matches Err(e)
                && is_script_fault(e, ARGUMENTS_HOOK@))
        },
    }
}

/// What a launcher comes to whose child, the program `program`, ended with
/// `code`.
///
/// Without restart hook it exits with the child's status. A restart hook
/// that is no function is a failure. A restart hook that is there decides
/// between the exit with that status and another start of the same program,
/// as [`spawns`] says, unless it fails.
pub open spec fn ended(
    descriptor: MetadataView,
    base: Seq<(Seq<char>, Seq<char>)>,
    program: Seq<char>,
    code: Option<i32>,
    last: PhaseView,
    outcome: Result<RequestView, ErrorView>,
) -> bool {
    let status = effective_status(code);
    let exits = last == (PhaseView::Terminal { code: status }) && outcome == Ok::<
        RequestView,
        ErrorView,
    >(RequestView::Exit { code: status });
    match hook_field_spec(RESTART_HOOK@, descriptor.restart_hook, false) {
        Ok(false) => exits,
        Err(fault) => last == (PhaseView::Terminal { code: FAILURE_EXIT_CODE }) && outcome == Err::<
            RequestView,
            ErrorView,
        >(fault),
        Ok(true) => {
            ||| exits
            ||| spawns(descriptor, base, program, last, outcome)
            ||| last == (PhaseView::Terminal { code: FAILURE_EXIT_CODE }) && (outcome matches Err(e)
                && is_script_fault(e, RESTART_HOOK@))
        },
    }
}

/// A run that starts where the machine asks for the `gui` flag ends as
/// [`spawns`] says.
proof fn lemma_settles_spawn(
    descriptor: MetadataView,
    base: Seq<(Seq<char>, Seq<char>)>,
    program: Seq<char>,
    args: Seq<Seq<char>>,
    replies: Seq<EventView>,
    last: PhaseView,
    outcome: Result<RequestView, ErrorView>,
)
    requires
        settles(
            descriptor,
            base,
            PhaseView::AwaitGui { program, args },
            RequestView::ReadGui,
            replies,
            last,
            outcome,
        ),
    ensures
        spawns(descriptor, base, program, last, outcome),
{
    reveal_with_fuel(settles, 4);
    if !(replies[0] is Failed) {
        let rest = replies.drop_first();
        if !(rest[0] is Failed) {
            let end = rest.drop_first();
            assert(end.len() == 0);
        }
    }
}

/// A run that starts with the launcher's own start ends as [`started`] says.
proof fn lemma_settles_start(
    descriptor: MetadataView,
    base: Seq<(Seq<char>, Seq<char>)>,
    raw_args: Seq<Seq<char>>,
    replies: Seq<EventView>,
    last: PhaseView,
    outcome: Result<RequestView, ErrorView>,
)
    requires
        settles(
            descriptor,
            base,
            step_spec(PhaseView::Entry, EventView::Invoked { raw_args }).0,
            step_spec(PhaseView::Entry, EventView::Invoked { raw_args }).1,
            replies,
            last,
            outcome,
        ),
    ensures
        started(descriptor, base, raw_args, last, outcome),
{
    reveal_with_fuel(settles, 4);
    if !(replies[0] is Failed) {
        let r1 = replies.drop_first();
        let background = replies[0]->Background_value;
        if !(background && !has_marker(raw_args)) {
            if !(r1[0] is Failed) {
                let r2 = r1.drop_first();
                if !(r2[0] is Failed) {
                    let r3 = r2.drop_first();
                    let args = r2[0]->Arguments_args;
                    lemma_settles_spawn(
                        descriptor,
                        base,
                        descriptor.prog_path,
                        args,
                        r3,
                        last,
                        outcome,
                    );
                }
            }
        }
    }
}

/// A run that starts with the end of a child ends as [`ended`] says.
proof fn lemma_settles_end(
    descriptor: MetadataView,
    base: Seq<(Seq<char>, Seq<char>)>,
    program: Seq<char>,
    code: Option<i32>,
    replies: Seq<EventView>,
    last: PhaseView,
    outcome: Result<RequestView, ErrorView>,
)
    requires
        settles(
            descriptor,
            base,
            step_spec(PhaseView::Running { program }, EventView::ChildExited { code }).0,
            step_spec(PhaseView::Running { program }, EventView::ChildExited { code }).1,
            replies,
            last,
            outcome,
        ),
    ensures
        ended(descriptor, base, program, code, last, outcome),
{
    reveal_with_fuel(settles, 3);
    if !(replies[0] is Failed) {
        let r1 = replies.drop_first();
        match replies[0]->Restart_decision {
            Some(args) => {
                lemma_settles_spawn(descriptor, base, program, args, r1, last, outcome);
            },
            None => {
                assert(r1.len() == 0);
            },
        }
    }
}

/// Asks the descriptor what `request` asks for, and goes on until the
/// machine turns to the operating system or the descriptor fails.
fn settle(metadata: &Metadata, base_env: &Vec<(String, String)>, phase: Phase, request: Request) -> (r:
    (Phase, Result<Request, Error>))
    requires
        agrees(phase@, request@),
    ensures
        r.1 matches Ok(asked) ==> is_outward(asked@),
        r.1 is Err ==> r.0@ == (PhaseView::Terminal { code: FAILURE_EXIT_CODE }),
        agrees(r.0@, last_request(outcome_view(r.1))),
        exists|replies: Seq<EventView>| #[trigger]
            settles(
                metadata@,
                base_env.deep_view(),
                phase@,
                request@,
                replies,
                r.0@,
                outcome_view(r.1),
            ),
    decreases questions_left(phase@),
{
    let ghost descriptor = metadata@;
    let ghost base = base_env.deep_view();
    let ghost from = phase@;
    let ghost asked = request@;
    let answer: Result<Event, Error> = match request {
        Request::ReadBackground => match metadata.background() {
            Ok(value) => Ok(Event::Background { value }),
            Err(e) => Err(e),
        },
        Request::ReadProgram => match metadata.prog_path() {
            Ok(path) => Ok(Event::Program { path }),
            Err(e) => Err(e),
        },
        Request::GenerateArguments { raw_args } => match metadata.gen_args(raw_args) {
            Ok(args) => Ok(Event::Arguments { args }),
            Err(e) => Err(e),
        },
        Request::ReadGui => match metadata.gui() {
            Ok(value) => Ok(Event::Gui { value }),
            Err(e) => Err(e),
        },
        Request::BuildEnvironment => match metadata.get_envvars(base_env) {
            Ok(vars) => Ok(Event::Environment { vars }),
            Err(e) => Err(e),
        },
        Request::DecideRestart { status } => match metadata.restart_args(status) {
            Ok(decision) => Ok(Event::Restart { decision }),
            Err(e) => Err(e),
        },
        outward => {
            proof {
                assert(outward@ == asked);
                assert(is_outward(asked));
                assert(settles(
                    descriptor,
                    base,
                    from,
                    asked,
                    Seq::<EventView>::empty(),
                    from,
                    Ok::<RequestView, ErrorView>(asked),
                ));
            }
            return (phase, Ok(outward));
        },
    };
    match answer {
        Ok(reply) => {
            let ghost given = reply@;
            let next = step(phase, reply);
            let ghost onward = next.0@;
            let ghost then = next.1@;
            proof {
                law_request_names_phase(from, given);
                assert(is_reply(descriptor, base, asked, given));
            }
            let r = settle(metadata, base_env, next.0, next.1);
            proof {
                let rest = choose|rest: Seq<EventView>|
                    settles(descriptor, base, onward, then, rest, r.0@, outcome_view(r.1));
                let all = seq![given] + rest;
                assert(all.drop_first() =~= rest);
                assert(all[0] == given);
                assert(settles(descriptor, base, from, asked, all, r.0@, outcome_view(r.1)));
            }
            r
        },
        Err(e) => {
            let ghost fault = e@;
            let next = step(phase, Event::Failed);
            proof {
                assert(is_fault(descriptor, asked, fault));
                assert(settles(
                    descriptor,
                    base,
                    from,
                    asked,
                    seq![EventView::Failed],
                    next.0@,
                    Err::<RequestView, ErrorView>(fault),
                ));
            }
            (next.0, Err(e))
        },
    }
}

/// Takes the machine from `phase` by `event`, and on through every question
/// that the descriptor can answer, up to the next request that only the
/// caller can serve: to start the launcher in the background, to start the
/// program and wait for it, or to exit.
///
/// The descriptor's flags and program path are those it held when it was
/// loaded; its hooks answer as they like. A question that the descriptor
/// cannot answer ends the invocation: the failure comes back, and the phase is
/// terminal with the failure exit code.
///
/// `base_env` is the environment that the child's is made from.
pub fn run(metadata: &Metadata, phase: Phase, event: Event, base_env: &Vec<(String, String)>) -> (r:
    (Phase, Result<Request, Error>))
    ensures
        r.1 matches Ok(request) ==> is_outward(request@),
        r.1 is Err ==> r.0@ == (PhaseView::Terminal { code: FAILURE_EXIT_CODE }),
        agrees(r.0@, last_request(outcome_view(r.1))),
        exists|replies: Seq<EventView>| #[trigger]
            settles(
                metadata@,
                base_env.deep_view(),
                step_spec(phase@, event@).0,
                step_spec(phase@, event@).1,
                replies,
                r.0@,
                outcome_view(r.1),
            ),
        is_outward(step_spec(phase@, event@).1) ==> r.0@ == step_spec(phase@, event@).0
            && outcome_view(r.1) == Ok::<RequestView, ErrorView>(step_spec(phase@, event@).1),
        phase@ is Entry ==> (event@ matches EventView::Invoked { raw_args } ==> started(
            metadata@,
            base_env.deep_view(),
            raw_args,
            r.0@,
            outcome_view(r.1),
        )),
        phase@ matches PhaseView::Running { program } ==> (event@ matches EventView::ChildExited {
            code,
        } ==> ended(metadata@, base_env.deep_view(), program, code, r.0@, outcome_view(r.1))),
{
    let ghost from = phase@;
    let ghost given = event@;
    let first = step(phase, event);
    proof {
        law_request_names_phase(from, given);
    }
    let r = settle(metadata, base_env, first.0, first.1);
    proof {
        let descriptor = metadata@;
        let base = base_env.deep_view();
        let onward = step_spec(from, given).0;
        let then = step_spec(from, given).1;
        let replies = choose|replies: Seq<EventView>|
            settles(descriptor, base, onward, then, replies, r.0@, outcome_view(r.1));
        if from is Entry {
            if let EventView::Invoked { raw_args } = given {
                lemma_settles_start(descriptor, base, raw_args, replies, r.0@, outcome_view(r.1));
            }
        }
        if let PhaseView::Running { program } = from {
            if let EventView::ChildExited { code } = given {
                lemma_settles_end(
                    descriptor,
                    base,
                    program,
                    code,
                    replies,
                    r.0@,
                    outcome_view(r.1),
                );
            }
        }
    }
    r
}

} // verus!
