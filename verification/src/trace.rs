//! Traces: sequences of actions, and what carrying one out amounts to on the
//! lines, on the log and on the clock.

use crate::action::ActionView;
use crate::lamp::Outputs;
use vstd::prelude::*;

verus! {

/// The levels of the lines after the actions of `trace` were carried out in
/// order on lines that stood at `start`.
pub open spec fn outputs_after(start: Outputs, trace: Seq<ActionView>) -> Outputs
    decreases trace.len(),
{
    if trace.len() == 0 {
        start
    } else {
        trace.last().apply_to(outputs_after(start, trace.drop_last()))
    }
}

/// The time that the actions of `trace` block for altogether, in
/// milliseconds.
pub open spec fn elapsed_ms(trace: Seq<ActionView>) -> nat
    decreases trace.len(),
{
    if trace.len() == 0 {
        0
    } else {
        elapsed_ms(trace.drop_last()) + trace.last().blocks_ms()
    }
}

/// The lines that the actions of `trace` hand to the log sink, in order.
pub open spec fn emitted(trace: Seq<ActionView>) -> Seq<Seq<char>>
    decreases trace.len(),
{
    if trace.len() == 0 {
        Seq::empty()
    } else {
        emitted(trace.drop_last()) + trace.last().logs()
    }
}

/// One more action at the end of a trace adds its own effect to that of the
/// trace.
pub proof fn lemma_trace_push(start: Outputs, trace: Seq<ActionView>, action: ActionView)
    ensures
        outputs_after(start, trace.push(action)) == action.apply_to(outputs_after(start, trace)),
        elapsed_ms(trace.push(action)) == elapsed_ms(trace) + action.blocks_ms(),
        emitted(trace.push(action)) == emitted(trace) + action.logs(),
{
    assert(trace.push(action).drop_last() =~= trace);
}

} // verus!
