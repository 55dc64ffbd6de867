//! What holds of a whole iteration, from start to the end of the process.
use vstd::prelude::*;
use vstd::utf8::valid_utf8;

use crate::lifecycle::{transition, ActionView, EventView, Exit, InputView, Outcome, Phase, Variant};

verus! {

/// What the supervising fuzzer can tell of one iteration: the input the
/// target was called with, if it was called, and how the process ended.
pub ghost struct Run {
    pub invoked: Option<InputView>,
    pub exit: Exit,
}

/// One iteration driven to its end: the driver starts it, reads standard
/// input when asked (`read` is what that read gave, `None` on failure), calls
/// the target when asked (`outcome` is how that call ended), and stops at the
/// first `Finish`.
pub open spec fn run_iteration(variant: Variant, read: Option<Seq<u8>>, outcome: Outcome) -> Run {
    let (p1, a1) = transition(variant, Phase::Idle, EventView::Begin);
    let (p2, a2) = match a1 {
        ActionView::ReadAll => transition(variant, p1, EventView::ReadFinished(read)),
        _ => (p1, a1),
    };
    match a2 {
        ActionView::Invoke(input) => Run {
            invoked: Some(input),
            exit: match transition(variant, p2, EventView::TargetFinished(outcome)).1 {
                ActionView::Finish(x) => x,
                _ => Exit::ForcedAbort,
            },
        },
        ActionView::Finish(x) => Run { invoked: None, exit: x },
        ActionView::ReadAll => Run { invoked: None, exit: Exit::ForcedAbort },
    }
}

/// When the target returns normally, or is never called, the process exits
/// cleanly.
pub proof fn normal_return_exits_cleanly(variant: Variant, read: Option<Seq<u8>>)
    ensures
        run_iteration(variant, read, Outcome::CompletedNormally).exit == Exit::Clean,
{
}

/// When the target raises a fault, the process is aborted; and an abort comes
/// only from such a fault.
pub proof fn fault_forces_abort(variant: Variant, read: Option<Seq<u8>>, outcome: Outcome)
    ensures
        run_iteration(variant, read, outcome).exit == Exit::ForcedAbort <==> (run_iteration(
            variant,
            read,
            outcome,
        ).invoked is Some && outcome == Outcome::AbnormalTermination),
{
}

/// When standard input cannot be read in full, the variants that read it
/// never call the target.
pub proof fn read_failure_never_invokes(variant: Variant, outcome: Outcome)
    requires
        variant != Variant::Handle,
    ensures
        run_iteration(variant, None, outcome).invoked is None,
{
}

/// Bytes that are not well-formed text never reach a target that takes
/// text, though one that takes bytes gets them unchanged.
pub proof fn undecodable_input_skips_text_target(bytes: Seq<u8>, outcome: Outcome)
    requires
        !valid_utf8(bytes),
    ensures
        run_iteration(Variant::Text, Some(bytes), outcome).invoked is None,
        run_iteration(Variant::Bytes, Some(bytes), outcome).invoked == Some(InputView::Bytes(bytes)),
{
}

/// Two iterations of one variant on the same input, whose targets end the
/// same way, end the same way.
pub proof fn same_input_same_end(
    variant: Variant,
    read1: Option<Seq<u8>>,
    read2: Option<Seq<u8>>,
    outcome1: Outcome,
    outcome2: Outcome,
)
    requires
        read1 == read2,
        outcome1 == outcome2,
    ensures
        run_iteration(variant, read1, outcome1) == run_iteration(variant, read2, outcome2),
{
}

} // verus!
