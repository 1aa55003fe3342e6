//! The run of a sequencer that never meets a fault, and what holds of it at
//! every step: the order of the log lines, the dwell between them, and the
//! state of the lamps.

use crate::action::{spec_color_line, Action, ActionView, Outcome};
use crate::lamp::{Lamp, Outputs};
use crate::phase::Phase;
use crate::sequencer::{lemma_program_shape, program, Sequencer, SequencerView};
use crate::trace::{elapsed_ms, emitted, lemma_trace_push, outputs_after};
use vstd::prelude::*;

verus! {

/// The state of a sequencer once the first `k` actions after power-on were
/// all reported done.
pub open spec fn state_after(k: nat) -> SequencerView
    decreases k,
{
    if k == 0 {
        SequencerView::start()
    } else {
        state_after((k - 1) as nat).advance()
    }
}

/// The first `k` actions that a sequencer issues after power-on while every
/// action is reported done.
pub open spec fn issued(k: nat) -> Seq<ActionView> {
    Seq::new(k, |i: int| state_after(i as nat).in_flight())
}

/// The programs of the first `m` phases of the cycle, one after the other.
pub open spec fn run(m: nat) -> Seq<ActionView>
    decreases m,
{
    if m == 0 {
        Seq::empty()
    } else {
        run((m - 1) as nat) + program(Phase::at((m - 1) as nat))
    }
}

/// The dwell of the first `m` phases of the cycle altogether, in
/// milliseconds.
pub open spec fn dwell_before(m: nat) -> nat
    decreases m,
{
    if m == 0 {
        0
    } else {
        dwell_before((m - 1) as nat) + Phase::at((m - 1) as nat).spec_duration_ms() as nat
    }
}

/// The log line of the `j`-th phase of the cycle, counted from zero.
pub open spec fn line_of(j: nat) -> Seq<char> {
    spec_color_line(Phase::at(j).spec_label())
}

/// The log lines of the first `m` phases of the cycle.
pub open spec fn lines_before(m: nat) -> Seq<Seq<char>> {
    Seq::new(m, |j: int| line_of(j as nat))
}

/// The names of the colours in the order in which one cycle announces them.
pub open spec fn cycle_labels() -> Seq<Seq<char>> {
    seq!["Red"@, "Orange"@, "Green"@, "Orange"@]
}

/// The number of actions issued before the log line of the `j`-th phase.
pub open spec fn emit_step(j: nat) -> nat {
    (run(j).len() + program(Phase::at(j)).len() - 2) as nat
}

/// The state of a sequencer that was given `reports` since power-on, one
/// for each action in turn.
pub open spec fn state_after_reports(reports: Seq<Outcome>) -> SequencerView
    decreases reports.len(),
{
    if reports.len() == 0 {
        SequencerView::start()
    } else {
        state_after_reports(reports.drop_last()).react(reports.last())
    }
}

/// Runs a sequencer from power-on, reports every action done, and returns
/// the first `steps` actions it asks for.
pub fn first_actions(steps: usize) -> (actions: Vec<Action>)
    ensures
        actions@.len() == steps,
        forall|i: int| 0 <= i < steps ==> (#[trigger] actions@[i])@ == issued(steps as nat)[i],
{
    let mut seq = Sequencer::new();
    let mut action = seq.in_flight();
    let mut actions: Vec<Action> = Vec::new();
    let mut n: usize = 0;
    while n < steps
        invariant
            n <= steps,
            actions@.len() == n,
            seq@ == state_after(n as nat),
            action@ == seq@.in_flight(),
            forall|i: int|
                0 <= i < n ==> (#[trigger] actions@[i])@ == state_after(i as nat).in_flight(),
        decreases steps - n,
    {
        actions.push(action);
        action = seq.step(Outcome::Done);
        n = n + 1;
    }
    actions
}

/// Every step of the run lies in one phase: the result names the phase, by
/// its count from power-on, and the position in its program.
pub proof fn lemma_locate(k: nat) -> (place: (nat, nat))
    ensures
        place.1 < program(Phase::at(place.0)).len(),
        k == run(place.0).len() + place.1,
    decreases k,
{
    if k == 0 {
        lemma_program_shape(Phase::at(0));
        (0, 0)
    } else {
        let (m, i) = lemma_locate((k - 1) as nat);
        lemma_program_shape(Phase::at(m));
        lemma_program_shape(Phase::at(m + 1));
        if i + 1 < program(Phase::at(m)).len() {
            (m, i + 1)
        } else {
            lemma_run_len(m + 1);
            (m + 1, 0)
        }
    }
}

/// The step before action `i` of the `m`-th phase: the phase it belongs to
/// and its position there.
spec fn step_before(m: nat, i: nat) -> (nat, nat) {
    if i == 0 {
        ((m - 1) as nat, (program(Phase::at((m - 1) as nat)).len() - 1) as nat)
    } else {
        (m, (i - 1) as nat)
    }
}

/// The levels of the lines when action `i` of the `m`-th phase is about to
/// be carried out, on lines that stood at `init` at power-on.
spec fn outputs_in_phase(init: Outputs, m: nat, i: nat) -> Outputs {
    let lamp = Phase::at(m).spec_lamp();
    if m == 0 {
        if i == 0 {
            init
        } else if i == 1 {
            init.with_level(Lamp::Red, true)
        } else if i == 2 {
            init.with_level(Lamp::Red, true).with_level(Lamp::Orange, false)
        } else {
            Outputs::only(Lamp::Red)
        }
    } else {
        let before = Outputs::only(Phase::at((m - 1) as nat).spec_lamp());
        if i == 0 {
            before
        } else if i == 1 {
            before.with_level(lamp, true)
        } else {
            Outputs::only(lamp)
        }
    }
}

/// The lines logged when action `i` of the `m`-th phase is about to be
/// carried out.
spec fn log_in_phase(m: nat, i: nat) -> Seq<Seq<char>> {
    if i + 1 == program(Phase::at(m)).len() {
        lines_before(m).push(line_of(m))
    } else {
        lines_before(m)
    }
}

/// The run grows by one program with each phase, and the phases follow
/// the table.
proof fn lemma_run_len(m: nat)
    requires
        m > 0,
    ensures
        run(m).len() == run((m - 1) as nat).len() + program(Phase::at((m - 1) as nat)).len(),
        Phase::at(m) == Phase::at((m - 1) as nat).spec_next(),
{
}

/// Where the sequencer stands when action `i` of the `m`-th phase is in
/// flight.
proof fn lemma_state_in_phase(m: nat, i: nat)
    requires
        i < program(Phase::at(m)).len(),
    ensures
        state_after(run(m).len() + i) == (SequencerView {
            phase: Phase::at(m),
            pos: i,
            halted: false,
        }),
    decreases m, i,
{
    if m > 0 || i > 0 {
        let (pm, pi) = step_before(m, i);
        lemma_program_shape(Phase::at(pm));
        if i == 0 {
            lemma_run_len(m);
        }
        lemma_state_in_phase(pm, pi);
        assert(run(pm).len() + pi == run(m).len() + i - 1);
    }
}

/// What one action does to the lines.
proof fn lemma_outputs_step(init: Outputs, m: nat, i: nat)
    requires
        i < program(Phase::at(m)).len(),
        m > 0 || i > 0,
    ensures
        ({
            let (pm, pi) = step_before(m, i);
            program(Phase::at(pm))[pi as int].apply_to(outputs_in_phase(init, pm, pi))
                == outputs_in_phase(init, m, i)
        }),
{
    let (pm, pi) = step_before(m, i);
    let before = Phase::at(pm);
    lemma_program_shape(before);
    if i == 0 {
        lemma_run_len(m);
    }
    if pm > 0 {
        lemma_run_len(pm);
    }
    if 1 <= pi <= before.spec_clears().len() {
        assert(program(before)[pi as int] == (ActionView::SetOutput {
            lamp: before.spec_clears()[pi - 1],
            on: false,
        }));
    }
}

/// What one action adds to the log and to the time spent.
proof fn lemma_log_step(m: nat, i: nat)
    requires
        i < program(Phase::at(m)).len(),
        m > 0 || i > 0,
    ensures
        ({
            let (pm, pi) = step_before(m, i);
            let last = program(Phase::at(pm))[pi as int];
            &&& log_in_phase(pm, pi) + last.logs() =~= log_in_phase(m, i)
            &&& dwell_before(pm) + last.blocks_ms() == dwell_before(m)
        }),
{
    let (pm, pi) = step_before(m, i);
    let before = Phase::at(pm);
    lemma_program_shape(before);
    lemma_program_shape(Phase::at(m));
    if 1 <= pi <= before.spec_clears().len() {
        assert(program(before)[pi as int] == (ActionView::SetOutput {
            lamp: before.spec_clears()[pi - 1],
            on: false,
        }));
    }
    if i == 0 {
        assert(lines_before(m) =~= lines_before(pm).push(line_of(pm)));
    }
}

/// All that is known when action `i` of the `m`-th phase is in flight.
spec fn in_phase(init: Outputs, m: nat, i: nat) -> bool {
    let k = run(m).len() + i;
    &&& issued(k) == run(m) + program(Phase::at(m)).take(i as int)
    &&& outputs_after(init, issued(k)) == outputs_in_phase(init, m, i)
    &&& elapsed_ms(issued(k)) == dwell_before(m)
    &&& emitted(issued(k)) == log_in_phase(m, i)
}

/// By induction over the steps of the run, each adding one action to the
/// trace.
proof fn lemma_in_phase(init: Outputs, m: nat, i: nat)
    requires
        i < program(Phase::at(m)).len(),
    ensures
        in_phase(init, m, i),
    decreases m, i,
{
    let k = run(m).len() + i;
    if m == 0 && i == 0 {
        assert(issued(0) =~= Seq::<ActionView>::empty());
        assert(run(0) + program(Phase::at(0)).take(0) =~= Seq::<ActionView>::empty());
        assert(lines_before(0) =~= Seq::<Seq<char>>::empty());
        lemma_program_shape(Phase::at(0));
    } else {
        let (pm, pi) = step_before(m, i);
        let before = Phase::at(pm);
        let last = program(before)[pi as int];
        lemma_program_shape(before);
        if i == 0 {
            lemma_run_len(m);
        }
        lemma_in_phase(init, pm, pi);
        lemma_state_in_phase(pm, pi);
        assert(run(pm).len() + pi == k - 1);
        assert(issued(k) =~= issued((k - 1) as nat).push(last));
        lemma_trace_push(init, issued((k - 1) as nat), last);
        lemma_outputs_step(init, m, i);
        lemma_log_step(m, i);
        assert(run(m) + program(Phase::at(m)).take(i as int) =~= (run(pm) + program(before).take(
            pi as int,
        )).push(last));
    }
}

/// A sequencer that meets no fault works through the phase table in order,
/// over and over: while action `i` of the `m`-th phase is in flight, it has
/// issued the whole programs of the `m` phases before and the first `i`
/// actions of this one, and nothing else.
pub proof fn law_run_follows_table(m: nat, i: nat)
    requires
        i < program(Phase::at(m)).len(),
    ensures
        state_after(run(m).len() + i) == (SequencerView {
            phase: Phase::at(m),
            pos: i,
            halted: false,
        }),
        state_after(run(m).len() + i).in_flight() == program(Phase::at(m))[i as int],
        issued(run(m).len() + i) == run(m) + program(Phase::at(m)).take(i as int),
        i == 0 ==> issued(run(m).len()) == run(m),
{
    lemma_state_in_phase(m, i);
    lemma_in_phase(Outputs::dark(), m, i);
    if i == 0 {
        assert(run(m) + program(Phase::at(m)).take(0) =~= run(m));
    }
}

/// The log repeats the four labels for ever: however long the sequencer has
/// run, the `j`-th line it has logged, counted from zero, announces the
/// label at position `j mod 4` of the cycle.
pub proof fn law_log_repeats_labels(k: nat, j: nat)
    requires
        j < emitted(issued(k)).len(),
    ensures
        emitted(issued(k))[j as int] == line_of(j),
        line_of(j) == spec_color_line(cycle_labels()[(j % 4) as int]),
{
    let (m, i) = lemma_locate(k);
    lemma_in_phase(Outputs::dark(), m, i);
}

/// The log never stops growing: once the first `m` phases are complete,
/// exactly their `m` lines have been logged.
pub proof fn law_one_line_per_phase(m: nat)
    ensures
        emitted(issued(run(m).len())) == lines_before(m),
        emitted(issued(run(m).len())).len() == m,
{
    lemma_program_shape(Phase::at(m));
    lemma_in_phase(Outputs::dark(), m, 0);
}

/// One cycle is seventeen actions and seven seconds of dwell.
proof fn lemma_cycle_totals(n: nat)
    ensures
        run(4 * n).len() == 17 * n,
        dwell_before(4 * n) == 7000 * n,
    decreases n,
{
    if n > 0 {
        lemma_cycle_totals((n - 1) as nat);
        let base = (4 * (n - 1)) as nat;
        lemma_program_shape(Phase::at(base));
        lemma_program_shape(Phase::at(base + 1));
        lemma_program_shape(Phase::at(base + 2));
        lemma_program_shape(Phase::at(base + 3));
        lemma_run_len(base + 1);
        lemma_run_len(base + 2);
        lemma_run_len(base + 3);
        lemma_run_len(base + 4);
        assert(dwell_before(base + 1) == dwell_before(base) + 2000);
        assert(dwell_before(base + 2) == dwell_before(base + 1) + 1000);
        assert(dwell_before(base + 3) == dwell_before(base + 2) + 3000);
        assert(dwell_before(base + 4) == dwell_before(base + 3) + 1000);
    }
}

/// Whole cycles do not drift: `n` cycles from power-on are `17 * n` actions,
/// they are the phase table run through `n` times, they log `4 * n` lines,
/// the four labels in order `n` times over, and they hold for `7000 * n`
/// milliseconds.
pub proof fn law_full_cycles(n: nat)
    ensures
        run(4 * n).len() == 17 * n,
        issued(17 * n) == run(4 * n),
        state_after(17 * n) == SequencerView::start(),
        emitted(issued(17 * n)) == lines_before(4 * n),
        forall|j: nat|
            j < 4 * n ==> #[trigger] emitted(issued(17 * n))[j as int] == spec_color_line(
                cycle_labels()[(j % 4) as int],
            ),
        elapsed_ms(issued(17 * n)) == 7000 * n,
{
    lemma_cycle_totals(n);
    lemma_program_shape(Phase::at(4 * n));
    law_run_follows_table(4 * n, 0);
    lemma_in_phase(Outputs::dark(), 4 * n, 0);
    assert forall|j: nat| j < 4 * n implies #[trigger] emitted(issued(17 * n))[j as int]
        == spec_color_line(cycle_labels()[(j % 4) as int]) by {
        law_log_repeats_labels(17 * n, j);
    }
}

/// Each phase is held for its configured time: the log line of the `j`-th
/// phase is issued when exactly the lines of the phases before it have been
/// logged, and between it and the next log line the sequencer blocks for the
/// duration of the `j`-th phase, no more and no less.
pub proof fn law_dwell_between_emissions(j: nat)
    ensures
        state_after(emit_step(j)).in_flight() == (ActionView::Emit { line: line_of(j) }),
        state_after(emit_step(j) + 1).in_flight() == (ActionView::Delay {
            ms: Phase::at(j).spec_duration_ms(),
        }),
        emitted(issued(emit_step(j))) == lines_before(j),
        emit_step(j) < emit_step(j + 1),
        elapsed_ms(issued(emit_step(j + 1))) - elapsed_ms(issued(emit_step(j))) == Phase::at(
            j,
        ).spec_duration_ms(),
{
    let here = Phase::at(j);
    let next = Phase::at(j + 1);
    lemma_program_shape(here);
    lemma_program_shape(next);
    lemma_run_len(j + 1);
    let i = (program(here).len() - 2) as nat;
    let i_next = (program(next).len() - 2) as nat;
    lemma_state_in_phase(j, i);
    lemma_state_in_phase(j, i + 1);
    lemma_in_phase(Outputs::dark(), j, i);
    lemma_in_phase(Outputs::dark(), j + 1, i_next);
}

/// While a phase is announced and while it is held, the three lines stand
/// exactly as the table says for that phase, whatever their levels were at
/// power-on.
pub proof fn law_outputs_match_table(init: Outputs, k: nat)
    requires
        state_after(k).in_flight() is Emit || state_after(k).in_flight() is Delay,
    ensures
        outputs_after(init, issued(k)) == state_after(k).phase.spec_outputs(),
        outputs_after(init, issued(k)).lit_count() == 1,
{
    let (m, i) = lemma_locate(k);
    lemma_state_in_phase(m, i);
    lemma_in_phase(init, m, i);
    lemma_program_shape(Phase::at(m));
    if i >= 1 && i <= Phase::at(m).spec_clears().len() {
        assert(program(Phase::at(m))[i as int] is SetOutput);
    }
}

/// No dark gap: from the first write on, some lamp is lit at every step,
/// whatever the levels were at power-on. Once the first phase stands, no
/// more than two lamps are ever lit, and two only between the write that
/// lights the lamp of a new phase and the write that clears the old one.
pub proof fn law_never_dark(init: Outputs, k: nat)
    requires
        k >= 1,
    ensures
        outputs_after(init, issued(k)).lit_count() >= 1,
        k >= 3 ==> outputs_after(init, issued(k)).lit_count() <= 2,
        k >= 3 && state_after(k).pos != 1 ==> outputs_after(init, issued(k)).lit_count() == 1,
{
    let (m, i) = lemma_locate(k);
    lemma_state_in_phase(m, i);
    lemma_in_phase(init, m, i);
    lemma_program_shape(Phase::at(0));
    if m > 0 {
        lemma_run_len(m);
    }
}

/// While every report is `Done`, the sequencer is on the run described
/// here, and is not halted.
pub proof fn law_run_without_fault(reports: Seq<Outcome>)
    requires
        forall|i: int| 0 <= i < reports.len() ==> reports[i] == Outcome::Done,
    ensures
        state_after_reports(reports) == state_after(reports.len()),
        !state_after_reports(reports).halted,
        state_after_reports(reports).wf(),
    decreases reports.len(),
{
    if reports.len() > 0 {
        law_run_without_fault(reports.drop_last());
    }
    let (m, i) = lemma_locate(reports.len());
    lemma_state_in_phase(m, i);
}

/// After the first `Fault` the sequencer is halted for good: whatever is
/// reported later, it asks for `Abort`.
pub proof fn law_run_with_fault(reports: Seq<Outcome>)
    requires
        exists|i: int| 0 <= i < reports.len() && reports[i] == Outcome::Fault,
    ensures
        state_after_reports(reports).halted,
        state_after_reports(reports).in_flight() == ActionView::Abort,
    decreases reports.len(),
{
    let f = choose|i: int| 0 <= i < reports.len() && reports[i] == Outcome::Fault;
    if f < reports.len() - 1 {
        assert(reports.drop_last()[f] == Outcome::Fault);
        law_run_with_fault(reports.drop_last());
    }
}

/// The four log lines of one cycle, letter by letter.
pub proof fn law_lines_spelled_out()
    ensures
        line_of(0) == "Color: Red"@,
        line_of(1) == "Color: Orange"@,
        line_of(2) == "Color: Green"@,
        line_of(3) == "Color: Orange"@,
{
    reveal_strlit("Color: ");
    reveal_strlit("Red");
    reveal_strlit("Orange");
    reveal_strlit("Green");
    reveal_strlit("Color: Red");
    reveal_strlit("Color: Orange");
    reveal_strlit("Color: Green");
    assert("Color: "@ + "Red"@ =~= "Color: Red"@);
    assert("Color: "@ + "Orange"@ =~= "Color: Orange"@);
    assert("Color: "@ + "Green"@ =~= "Color: Green"@);
}

} // verus!
