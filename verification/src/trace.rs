//! Runs of the launch machine, and what holds of all of them.

use crate::launch::{
    effective_status, failure, has_marker, step_spec, strip_marker, EventView, PhaseView,
    RequestView, SpawnRequestView, BACKGROUND_CHILD_MARKER, DETACHED_EXIT_CODE,
};
use vstd::prelude::*;

verus! {

/// The phase that the machine is in after it took `events`, one by one, from
/// `phase`.
pub open spec fn phase_after(phase: PhaseView, events: Seq<EventView>) -> PhaseView
    decreases events.len(),
{
    if events.len() == 0 {
        phase
    } else {
        step_spec(phase_after(phase, events.drop_last()), events.last()).0
    }
}

/// The requests that went out on the way, one for each event.
pub open spec fn requests(phase: PhaseView, events: Seq<EventView>) -> Seq<RequestView>
    decreases events.len(),
{
    if events.len() == 0 {
        Seq::empty()
    } else {
        requests(phase, events.drop_last()).push(
            step_spec(phase_after(phase, events.drop_last()), events.last()).1,
        )
    }
}

/// How many of `requests` start the target program.
pub open spec fn spawn_count(requests: Seq<RequestView>) -> nat
    decreases requests.len(),
{
    if requests.len() == 0 {
        0
    } else if requests.last() is Spawn {
        spawn_count(requests.drop_last()) + 1
    } else {
        spawn_count(requests.drop_last())
    }
}

/// How many of `requests` start the launcher again in the background.
pub open spec fn detach_count(requests: Seq<RequestView>) -> nat
    decreases requests.len(),
{
    if requests.len() == 0 {
        0
    } else if requests.last() is Detach {
        detach_count(requests.drop_last()) + 1
    } else {
        detach_count(requests.drop_last())
    }
}

/// The phase in which `request` goes out.
pub open spec fn agrees(phase: PhaseView, request: RequestView) -> bool {
    match request {
        RequestView::ReadBackground => phase is AwaitBackground,
        RequestView::ReadProgram => phase is AwaitProgram,
        RequestView::GenerateArguments { .. } => phase is AwaitArguments,
        RequestView::ReadGui => phase is AwaitGui,
        RequestView::BuildEnvironment => phase is AwaitEnvironment,
        RequestView::Detach { .. } => phase is Detaching,
        RequestView::Spawn { request } => phase == (PhaseView::Running { program: request.program }),
        RequestView::DecideRestart { status } => phase matches PhaseView::Deciding { status: s, .. }
            && s == status,
        RequestView::Exit { code } => phase == (PhaseView::Terminal { code }),
    }
}

/// Whether `request` is for the operating system rather than for the
/// descriptor.
pub open spec fn is_outward(request: RequestView) -> bool {
    request is Detach || request is Spawn || request is Exit
}

/// One turn of the restart loop, as the outside world and the descriptor
/// shape it.
pub struct Round {
    /// The descriptor's `gui` flag.
    pub gui: bool,
    /// The environment assembled for the child.
    pub vars: Seq<(Seq<char>, Seq<char>)>,
    /// How the child ended.
    pub code: Option<i32>,
    /// What the restart hook made of it.
    pub decision: Option<Seq<Seq<char>>>,
}

/// The events of one turn of the restart loop.
pub open spec fn round_events(round: Round) -> Seq<EventView> {
    seq![
        EventView::Gui { value: round.gui },
        EventView::Environment { vars: round.vars },
        EventView::ChildExited { code: round.code },
        EventView::Restart { decision: round.decision },
    ]
}

/// The events of several turns, one after the other.
pub open spec fn rounds_events(rounds: Seq<Round>) -> Seq<EventView>
    decreases rounds.len(),
{
    if rounds.len() == 0 {
        Seq::empty()
    } else {
        rounds_events(rounds.drop_last()) + round_events(rounds.last())
    }
}

/// The events that lead a launcher from its start to the restart loop.
pub open spec fn entry_events(
    raw_args: Seq<Seq<char>>,
    background: bool,
    program: Seq<char>,
    args: Seq<Seq<char>>,
) -> Seq<EventView> {
    seq![
        EventView::Invoked { raw_args },
        EventView::Background { value: background },
        EventView::Program { path: program },
        EventView::Arguments { args },
    ]
}

/// Whether a launcher with these arguments and this `background` flag runs
/// the program itself, rather than hand over to a background child.
pub open spec fn runs_in_foreground(raw_args: Seq<Seq<char>>, background: bool) -> bool {
    !background || has_marker(raw_args)
}

proof fn lemma_push(phase: PhaseView, events: Seq<EventView>, event: EventView)
    ensures
        phase_after(phase, events.push(event)) == step_spec(phase_after(phase, events), event).0,
        requests(phase, events.push(event)) == requests(phase, events).push(
            step_spec(phase_after(phase, events), event).1,
        ),
        spawn_count(requests(phase, events.push(event))) == spawn_count(requests(phase, events))
            + if step_spec(phase_after(phase, events), event).1 is Spawn {
            1nat
        } else {
            0nat
        },
        detach_count(requests(phase, events.push(event))) == detach_count(requests(phase, events))
            + if step_spec(phase_after(phase, events), event).1 is Detach {
            1nat
        } else {
            0nat
        },
{
    assert(events.push(event).drop_last() =~= events);
    let asked = step_spec(phase_after(phase, events), event).1;
    assert(requests(phase, events).push(asked).drop_last() =~= requests(phase, events));
}

proof fn lemma_requests_len(phase: PhaseView, events: Seq<EventView>)
    ensures
        requests(phase, events).len() == events.len(),
    decreases events.len(),
{
    if events.len() > 0 {
        lemma_requests_len(phase, events.drop_last());
    }
}

proof fn lemma_concat(phase: PhaseView, first: Seq<EventView>, second: Seq<EventView>)
    ensures
        phase_after(phase, first + second) == phase_after(phase_after(phase, first), second),
        requests(phase, first + second) == requests(phase, first) + requests(
            phase_after(phase, first),
            second,
        ),
    decreases second.len(),
{
    if second.len() == 0 {
        assert(first + second =~= first);
        assert(requests(phase, first) + Seq::<RequestView>::empty() =~= requests(phase, first));
    } else {
        lemma_concat(phase, first, second.drop_last());
        assert((first + second).drop_last() =~= first + second.drop_last());
        assert((first + second).last() == second.last());
        let middle = phase_after(phase, first);
        assert(requests(phase, first + second) =~= requests(phase, first) + requests(
            middle,
            second,
        ));
    }
}

proof fn lemma_spawn_count_add(first: Seq<RequestView>, second: Seq<RequestView>)
    ensures
        spawn_count(first + second) == spawn_count(first) + spawn_count(second),
    decreases second.len(),
{
    if second.len() == 0 {
        assert(first + second =~= first);
    } else {
        lemma_spawn_count_add(first, second.drop_last());
        assert((first + second).drop_last() =~= first + second.drop_last());
        assert((first + second).last() == second.last());
    }
}

proof fn lemma_detach_count_add(first: Seq<RequestView>, second: Seq<RequestView>)
    ensures
        detach_count(first + second) == detach_count(first) + detach_count(second),
    decreases second.len(),
{
    if second.len() == 0 {
        assert(first + second =~= first);
    } else {
        lemma_detach_count_add(first, second.drop_last());
        assert((first + second).drop_last() =~= first + second.drop_last());
        assert((first + second).last() == second.last());
    }
}

proof fn lemma_take(phase: PhaseView, events: Seq<EventView>, n: int)
    requires
        0 <= n <= events.len(),
    ensures
        requests(phase, events).take(n) == requests(phase, events.take(n)),
    decreases events.len(),
{
    lemma_requests_len(phase, events);
    if n == events.len() {
        assert(events.take(n) =~= events);
        assert(requests(phase, events).take(n) =~= requests(phase, events));
    } else {
        lemma_take(phase, events.drop_last(), n);
        lemma_requests_len(phase, events.drop_last());
        assert(events.drop_last().take(n) =~= events.take(n));
        assert(requests(phase, events).take(n) =~= requests(phase, events.drop_last()).take(n));
    }
}

/// The request that goes out on the event at `i` is the machine's answer to
/// that event in the phase that the events before it led to.
pub proof fn lemma_request_at(phase: PhaseView, events: Seq<EventView>, i: int)
    requires
        0 <= i < events.len(),
    ensures
        requests(phase, events).len() == events.len(),
        requests(phase, events)[i] == step_spec(phase_after(phase, events.take(i)), events[i]).1,
        phase_after(phase, events.take(i + 1)) == step_spec(
            phase_after(phase, events.take(i)),
            events[i],
        ).0,
{
    lemma_requests_len(phase, events);
    lemma_take(phase, events, i + 1);
    let upto = events.take(i + 1);
    assert(upto.drop_last() =~= events.take(i));
    assert(upto.last() == events[i]);
    lemma_requests_len(phase, upto);
    assert(requests(phase, events).take(i + 1)[i] == requests(phase, events)[i]);
}

/// Each request goes out in the phase that waits for its answer.
pub proof fn law_request_names_phase(phase: PhaseView, event: EventView)
    ensures
        agrees(step_spec(phase, event).0, step_spec(phase, event).1),
{
}

/// A terminal phase is final: whatever happens afterwards, the exit code
/// stays, and neither the program nor a background launcher is started.
pub proof fn law_terminal_is_final(code: i32, events: Seq<EventView>)
    ensures
        phase_after(PhaseView::Terminal { code }, events) == (PhaseView::Terminal { code }),
        spawn_count(requests(PhaseView::Terminal { code }, events)) == 0,
        detach_count(requests(PhaseView::Terminal { code }, events)) == 0,
    decreases events.len(),
{
    if events.len() > 0 {
        law_terminal_is_final(code, events.drop_last());
        let reqs = requests(PhaseView::Terminal { code }, events);
        assert(reqs.drop_last() =~= requests(PhaseView::Terminal { code }, events.drop_last()));
    }
}

/// A failure at any point ends the invocation with the failure exit code,
/// and starts nothing.
pub proof fn law_failure_ends_invocation(phase: PhaseView)
    requires
        !(phase is Terminal),
    ensures
        step_spec(phase, EventView::Failed) == failure(),
        spawn_count(requests(phase, seq![EventView::Failed])) == 0,
        detach_count(requests(phase, seq![EventView::Failed])) == 0,
{
    lemma_push(phase, Seq::<EventView>::empty(), EventView::Failed);
    assert(Seq::<EventView>::empty().push(EventView::Failed) =~= seq![EventView::Failed]);
}

/// From its start to the restart loop a launcher in the foreground asks the
/// descriptor four questions and starts nothing.
proof fn lemma_entry(
    raw_args: Seq<Seq<char>>,
    background: bool,
    program: Seq<char>,
    args: Seq<Seq<char>>,
)
    requires
        runs_in_foreground(raw_args, background),
    ensures
        phase_after(PhaseView::Entry, entry_events(raw_args, background, program, args)) == (
        PhaseView::AwaitGui { program, args }),
        requests(PhaseView::Entry, entry_events(raw_args, background, program, args)) == seq![
            RequestView::ReadBackground,
            RequestView::ReadProgram,
            RequestView::GenerateArguments { raw_args: strip_marker(raw_args) },
            RequestView::ReadGui,
        ],
        spawn_count(requests(PhaseView::Entry, entry_events(raw_args, background, program, args)))
            == 0,
        detach_count(requests(PhaseView::Entry, entry_events(raw_args, background, program, args)))
            == 0,
{
    let e0 = EventView::Invoked { raw_args };
    let e1 = EventView::Background { value: background };
    let e2 = EventView::Program { path: program };
    let e3 = EventView::Arguments { args };
    let s0 = Seq::<EventView>::empty();
    let s1 = s0.push(e0);
    let s2 = s1.push(e1);
    let s3 = s2.push(e2);
    let s4 = s3.push(e3);
    lemma_push(PhaseView::Entry, s0, e0);
    lemma_push(PhaseView::Entry, s1, e1);
    lemma_push(PhaseView::Entry, s2, e2);
    lemma_push(PhaseView::Entry, s3, e3);
    assert(s4 =~= entry_events(raw_args, background, program, args));
    let reqs = requests(PhaseView::Entry, s4);
    let expected = seq![
        RequestView::ReadBackground,
        RequestView::ReadProgram,
        RequestView::GenerateArguments { raw_args: strip_marker(raw_args) },
        RequestView::ReadGui,
    ];
    assert(reqs =~= expected);
}

/// One turn of the restart loop starts the program exactly once, with the
/// arguments of the turn, and ends where the restart hook sends it.
proof fn lemma_round(program: Seq<char>, args: Seq<Seq<char>>, round: Round)
    ensures
        ({
            let from = PhaseView::AwaitGui { program, args };
            let status = effective_status(round.code);
            let reqs = requests(from, round_events(round));
            &&& reqs.len() == 4
            &&& reqs[0] == RequestView::BuildEnvironment
            &&& reqs[1] == (RequestView::Spawn {
                request: SpawnRequestView {
                    program,
                    args,
                    env: round.vars,
                    inherit_stdio: !round.gui,
                },
            })
            &&& reqs[2] == (RequestView::DecideRestart { status })
            &&& spawn_count(reqs) == 1
            &&& detach_count(reqs) == 0
            &&& match round.decision {
                Some(next) => {
                    &&& reqs[3] == RequestView::ReadGui
                    &&& phase_after(from, round_events(round)) == (PhaseView::AwaitGui {
                        program,
                        args: next,
                    })
                },
                None => {
                    &&& reqs[3] == (RequestView::Exit { code: status })
                    &&& phase_after(from, round_events(round)) == (PhaseView::Terminal {
                        code: status,
                    })
                },
            }
        }),
{
    let from = PhaseView::AwaitGui { program, args };
    let e0 = EventView::Gui { value: round.gui };
    let e1 = EventView::Environment { vars: round.vars };
    let e2 = EventView::ChildExited { code: round.code };
    let e3 = EventView::Restart { decision: round.decision };
    let s0 = Seq::<EventView>::empty();
    let s1 = s0.push(e0);
    let s2 = s1.push(e1);
    let s3 = s2.push(e2);
    let s4 = s3.push(e3);
    lemma_push(from, s0, e0);
    lemma_push(from, s1, e1);
    lemma_push(from, s2, e2);
    lemma_push(from, s3, e3);
    assert(s4 =~= round_events(round));
}

/// While every turn ends in a restart, the loop starts the program once per
/// turn and stands ready for the next turn.
proof fn lemma_restarting_rounds(program: Seq<char>, args: Seq<Seq<char>>, rounds: Seq<Round>)
    requires
        forall|i: int| 0 <= i < rounds.len() ==> (#[trigger] rounds[i]).decision is Some,
    ensures
        spawn_count(requests(PhaseView::AwaitGui { program, args }, rounds_events(rounds)))
            == rounds.len(),
        phase_after(PhaseView::AwaitGui { program, args }, rounds_events(rounds)) == (
        PhaseView::AwaitGui {
            program,
            args: if rounds.len() == 0 {
                args
            } else {
                rounds.last().decision->0
            },
        }),
    decreases rounds.len(),
{
    let from = PhaseView::AwaitGui { program, args };
    if rounds.len() > 0 {
        let before = rounds.drop_last();
        let last = rounds.last();
        lemma_restarting_rounds(program, args, before);
        let current = if before.len() == 0 {
            args
        } else {
            before.last().decision->0
        };
        lemma_concat(from, rounds_events(before), round_events(last));
        lemma_round(program, current, last);
        lemma_spawn_count_add(
            requests(from, rounds_events(before)),
            requests(phase_after(from, rounds_events(before)), round_events(last)),
        );
    }
}

/// A launcher that runs in the foreground, and whose restart hook declines
/// at once, starts the program exactly once and ends with the status of
/// that one child.
pub proof fn law_single_cycle(
    raw_args: Seq<Seq<char>>,
    background: bool,
    program: Seq<char>,
    args: Seq<Seq<char>>,
    round: Round,
)
    requires
        runs_in_foreground(raw_args, background),
        round.decision is None,
    ensures
        ({
            let events = entry_events(raw_args, background, program, args) + round_events(round);
            let reqs = requests(PhaseView::Entry, events);
            &&& spawn_count(reqs) == 1
            &&& detach_count(reqs) == 0
            &&& reqs.len() == 8
            &&& reqs[5] == (RequestView::Spawn {
                request: SpawnRequestView {
                    program,
                    args,
                    env: round.vars,
                    inherit_stdio: !round.gui,
                },
            })
            &&& reqs[7] == (RequestView::Exit { code: effective_status(round.code) })
            &&& phase_after(PhaseView::Entry, events) == (PhaseView::Terminal {
                code: effective_status(round.code),
            })
        }),
{
    let entry = entry_events(raw_args, background, program, args);
    let turn = round_events(round);
    let from = PhaseView::AwaitGui { program, args };
    lemma_entry(raw_args, background, program, args);
    lemma_round(program, args, round);
    lemma_concat(PhaseView::Entry, entry, turn);
    lemma_spawn_count_add(requests(PhaseView::Entry, entry), requests(from, turn));
    lemma_detach_count_add(requests(PhaseView::Entry, entry), requests(from, turn));
}

/// A descriptor that does not ask for the background and has no restart
/// hook makes the launcher start one child and exit with that child's code.
pub proof fn law_foreground_without_restart(
    raw_args: Seq<Seq<char>>,
    program: Seq<char>,
    args: Seq<Seq<char>>,
    round: Round,
)
    requires
        round.decision is None,
    ensures
        ({
            let events = entry_events(raw_args, false, program, args) + round_events(round);
            &&& spawn_count(requests(PhaseView::Entry, events)) == 1
            &&& requests(PhaseView::Entry, events).last() == (RequestView::Exit {
                code: effective_status(round.code),
            })
            &&& round.code matches Some(code) ==> phase_after(PhaseView::Entry, events) == (
            PhaseView::Terminal { code })
        }),
{
    law_single_cycle(raw_args, false, program, args, round);
}

/// A descriptor that asks for the background makes a launcher that was
/// started directly start itself once more, with the marker in front of the
/// arguments it got, and exit with [`DETACHED_EXIT_CODE`] as soon as that is
/// done. It does not start the program, and nothing that happens later
/// changes its exit code.
pub proof fn law_background_detaches(raw_args: Seq<Seq<char>>, later: Seq<EventView>)
    requires
        !has_marker(raw_args),
    ensures
        ({
            let events = seq![
                EventView::Invoked { raw_args },
                EventView::Background { value: true },
                EventView::Detached,
            ];
            let reqs = requests(PhaseView::Entry, events);
            &&& reqs == seq![
                RequestView::ReadBackground,
                RequestView::Detach { args: seq![BACKGROUND_CHILD_MARKER@] + raw_args },
                RequestView::Exit { code: DETACHED_EXIT_CODE },
            ]
            &&& detach_count(reqs) == 1
            &&& spawn_count(reqs) == 0
            &&& phase_after(PhaseView::Entry, events) == (PhaseView::Terminal {
                code: DETACHED_EXIT_CODE,
            })
            &&& phase_after(PhaseView::Entry, events + later) == (PhaseView::Terminal {
                code: DETACHED_EXIT_CODE,
            })
            &&& spawn_count(requests(PhaseView::Entry, events + later)) == 0
        }),
{
    let e0 = EventView::Invoked { raw_args };
    let e1 = EventView::Background { value: true };
    let e2 = EventView::Detached;
    let s0 = Seq::<EventView>::empty();
    let s1 = s0.push(e0);
    let s2 = s1.push(e1);
    let s3 = s2.push(e2);
    lemma_push(PhaseView::Entry, s0, e0);
    lemma_push(PhaseView::Entry, s1, e1);
    lemma_push(PhaseView::Entry, s2, e2);
    let events = seq![e0, e1, e2];
    assert(s3 =~= events);
    let reqs = requests(PhaseView::Entry, s3);
    let expected = seq![
        RequestView::ReadBackground,
        RequestView::Detach { args: seq![BACKGROUND_CHILD_MARKER@] + raw_args },
        RequestView::Exit { code: DETACHED_EXIT_CODE },
    ];
    assert(reqs =~= expected);
    lemma_concat(PhaseView::Entry, events, later);
    law_terminal_is_final(DETACHED_EXIT_CODE, later);
    lemma_spawn_count_add(
        reqs,
        requests(PhaseView::Terminal { code: DETACHED_EXIT_CODE }, later),
    );
}

/// A launcher in the foreground whose restart hook asks for a restart after
/// each turn but the last starts the program once per turn: one time more
/// than the hook asked for a restart. It ends with the status of the last
/// child.
pub proof fn law_restart_loop(
    raw_args: Seq<Seq<char>>,
    background: bool,
    program: Seq<char>,
    args: Seq<Seq<char>>,
    rounds: Seq<Round>,
)
    requires
        runs_in_foreground(raw_args, background),
        rounds.len() >= 1,
        forall|i: int| 0 <= i < rounds.len() - 1 ==> (#[trigger] rounds[i]).decision is Some,
        rounds.last().decision is None,
    ensures
        ({
            let events = entry_events(raw_args, background, program, args) + rounds_events(
                rounds,
            );
            &&& spawn_count(requests(PhaseView::Entry, events)) == rounds.len()
            &&& phase_after(PhaseView::Entry, events) == (PhaseView::Terminal {
                code: effective_status(rounds.last().code),
            })
        }),
{
    let entry = entry_events(raw_args, background, program, args);
    let from = PhaseView::AwaitGui { program, args };
    let before = rounds.drop_last();
    let last = rounds.last();
    let current = if before.len() == 0 {
        args
    } else {
        before.last().decision->0
    };
    lemma_entry(raw_args, background, program, args);
    assert forall|i: int| 0 <= i < before.len() implies (#[trigger] before[i]).decision is Some by {
        assert(before[i] == rounds[i]);
    }
    lemma_restarting_rounds(program, args, before);
    lemma_round(program, current, last);
    lemma_concat(from, rounds_events(before), round_events(last));
    lemma_spawn_count_add(
        requests(from, rounds_events(before)),
        requests(phase_after(from, rounds_events(before)), round_events(last)),
    );
    lemma_concat(PhaseView::Entry, entry, rounds_events(rounds));
    lemma_spawn_count_add(requests(PhaseView::Entry, entry), requests(from, rounds_events(rounds)));
}

/// The turn at `i` of the restart loop starts the program with the
/// arguments that the argument hook made, if it is the first, and with those
/// that the restart hook gave at the end of the turn before, if it is not.
pub proof fn law_restart_arguments(
    program: Seq<char>,
    args: Seq<Seq<char>>,
    rounds: Seq<Round>,
    i: int,
)
    requires
        0 <= i < rounds.len(),
        forall|j: int| 0 <= j < i ==> (#[trigger] rounds[j]).decision is Some,
    ensures
        ({
            let from = PhaseView::AwaitGui { program, args };
            let reqs = requests(from, rounds_events(rounds.take(i + 1)));
            &&& reqs.len() == 4 * (i + 1)
            &&& reqs[4 * i + 1] == (RequestView::Spawn {
                request: SpawnRequestView {
                    program,
                    args: if i == 0 {
                        args
                    } else {
                        rounds[i - 1].decision->0
                    },
                    env: rounds[i].vars,
                    inherit_stdio: !rounds[i].gui,
                },
            })
        }),
{
    let from = PhaseView::AwaitGui { program, args };
    let upto = rounds.take(i + 1);
    let before = upto.drop_last();
    assert(before =~= rounds.take(i));
    assert(upto.last() == rounds[i]);
    assert forall|j: int| 0 <= j < before.len() implies (#[trigger] before[j]).decision is Some by {
        assert(before[j] == rounds[j]);
    }
    lemma_restarting_rounds(program, args, before);
    let current = if i == 0 {
        args
    } else {
        rounds[i - 1].decision->0
    };
    if i > 0 {
        assert(before.last() == rounds[i - 1]);
    }
    lemma_round(program, current, rounds[i]);
    lemma_concat(from, rounds_events(before), round_events(rounds[i]));
    lemma_requests_len(from, rounds_events(before));
    lemma_rounds_events_len(before);
}

proof fn lemma_rounds_events_len(rounds: Seq<Round>)
    ensures
        rounds_events(rounds).len() == 4 * rounds.len(),
    decreases rounds.len(),
{
    if rounds.len() > 0 {
        lemma_rounds_events_len(rounds.drop_last());
    }
}

/// While no child has ended, a machine with a child alive stays as it is or
/// has failed.
proof fn lemma_alive_until_exit(phase: PhaseView, events: Seq<EventView>, i: int, j: int)
    requires
        0 <= i < j <= events.len(),
        requests(phase, events)[i] is Spawn,
        forall|k: int| i < k < j ==> !(#[trigger] events[k] is ChildExited),
    ensures
        phase_after(phase, events.take(j)) is Running || phase_after(phase, events.take(j))
            is Terminal,
    decreases j - i,
{
    if j == i + 1 {
        lemma_request_at(phase, events, i);
        law_request_names_phase(phase_after(phase, events.take(i)), events[i]);
    } else {
        lemma_alive_until_exit(phase, events, i, j - 1);
        lemma_request_at(phase, events, j - 1);
    }
}

/// Children never overlap: between two starts of the program the child of
/// the first has ended.
pub proof fn law_children_in_sequence(phase: PhaseView, events: Seq<EventView>, i: int, j: int)
    requires
        0 <= i < j < events.len(),
        requests(phase, events)[i] is Spawn,
        requests(phase, events)[j] is Spawn,
    ensures
        exists|k: int| i < k < j && #[trigger] events[k] is ChildExited,
{
    if forall|k: int| i < k < j ==> !(#[trigger] events[k] is ChildExited) {
        lemma_alive_until_exit(phase, events, i, j);
        lemma_request_at(phase, events, j);
        assert(false);
    }
}

/// The program is started only once its environment is assembled, and the
/// child is alive from then on; a child that is alive is waited for before
/// anything else; the restart hook is asked only about a child that has
/// ended.
pub proof fn law_order_within_turn(phase: PhaseView, event: EventView)
    ensures
        step_spec(phase, event).1 is Spawn ==> phase is AwaitEnvironment && event is Environment
            && step_spec(phase, event).0 is Running,
        phase is Running ==> step_spec(phase, event).0 is Deciding || step_spec(phase, event).0
            is Terminal,
        step_spec(phase, event).1 is DecideRestart ==> phase is Running && event is ChildExited,
        step_spec(phase, event).1 is BuildEnvironment ==> phase is AwaitGui,
        step_spec(phase, event).0 is AwaitGui ==> phase is AwaitArguments || phase is Deciding,
{
}

/// What the argument hook or the restart hook returned reaches the child
/// as it is: as many arguments, in the same order, each of them unchanged,
/// the empty ones too.
pub proof fn law_arguments_unchanged(
    phase: PhaseView,
    returned: Seq<Seq<char>>,
    gui: bool,
    vars: Seq<(Seq<char>, Seq<char>)>,
)
    requires
        phase is AwaitArguments || phase is Deciding,
    ensures
        ({
            let hook_result = if phase is AwaitArguments {
                EventView::Arguments { args: returned }
            } else {
                EventView::Restart { decision: Some(returned) }
            };
            let events = seq![
                hook_result,
                EventView::Gui { value: gui },
                EventView::Environment { vars },
            ];
            &&& requests(phase, events).len() == 3
            &&& requests(phase, events)[2] matches RequestView::Spawn { request }
            &&& request.args == returned
            &&& request.args.len() == returned.len()
            &&& forall|i: int| 0 <= i < returned.len() ==> request.args[i] == #[trigger] returned[i]
        }),
{
    let hook_result = if phase is AwaitArguments {
        EventView::Arguments { args: returned }
    } else {
        EventView::Restart { decision: Some(returned) }
    };
    let e1 = EventView::Gui { value: gui };
    let e2 = EventView::Environment { vars };
    let s0 = Seq::<EventView>::empty();
    let s1 = s0.push(hook_result);
    let s2 = s1.push(e1);
    let s3 = s2.push(e2);
    lemma_push(phase, s0, hook_result);
    lemma_push(phase, s1, e1);
    lemma_push(phase, s2, e2);
    assert(s3 =~= seq![hook_result, e1, e2]);
}

/// The `gui` flag alone decides whether the child shares the launcher's
/// standard streams: it does if and only if the flag is not set.
pub proof fn law_gui_decides_streams(
    program: Seq<char>,
    args: Seq<Seq<char>>,
    gui: bool,
    vars: Seq<(Seq<char>, Seq<char>)>,
)
    ensures
        ({
            let events = seq![EventView::Gui { value: gui }, EventView::Environment { vars }];
            let reqs = requests(PhaseView::AwaitGui { program, args }, events);
            &&& reqs.len() == 2
            &&& reqs[1] matches RequestView::Spawn { request }
            &&& request.inherit_stdio == !gui
        }),
{
    let from = PhaseView::AwaitGui { program, args };
    let e0 = EventView::Gui { value: gui };
    let e1 = EventView::Environment { vars };
    let s0 = Seq::<EventView>::empty();
    let s1 = s0.push(e0);
    let s2 = s1.push(e1);
    lemma_push(from, s0, e0);
    lemma_push(from, s1, e1);
    assert(s2 =~= seq![e0, e1]);
}

} // verus!
