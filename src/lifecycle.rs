//! The per-iteration state machine: which input the target gets, whether it
//! runs at all, and how the process must end.
use vstd::prelude::*;

use crate::text::{decoded_text, string_from_utf8};

verus! {

/// The shape in which the target takes its input.
#[derive(Clone, Copy, Debug, PartialEq, Eq, Structural)]
pub enum Variant {
    /// The whole of standard input, as raw bytes.
    Bytes,
    /// The whole of standard input, decoded strictly as text.
    Text,
    /// Standard input itself, read by the target as it likes.
    Handle,
}

/// How the single call of the target ended.
#[derive(Clone, Copy, Debug, PartialEq, Eq, Structural)]
pub enum Outcome {
    CompletedNormally,
    AbnormalTermination,
}

/// How the process ends, as the supervising fuzzer observes it.
#[derive(Clone, Copy, Debug, PartialEq, Eq, Structural)]
pub enum Exit {
    /// A normal exit: no crash on this input.
    Clean,
    /// An immediate abort that bypasses unwinding: a crash on this input.
    ForcedAbort,
}

/// Where one iteration stands. Having an input ready and having seen a fault
/// are not phases of their own: the first leads at once to calling the
/// target, the second to the abort.
#[derive(Clone, Copy, Debug, PartialEq, Eq, Structural)]
pub enum Phase {
    Idle,
    ReadingInput,
    InvokingTarget,
    /// No usable input was had; the target was never called.
    NoInput,
    CompletedNormally,
    ForcedAbort,
}

/// The value handed to the target.
#[derive(Debug, PartialEq, Eq)]
pub enum Input {
    Bytes(Vec<u8>),
    Text(String),
    /// The target gets a borrowed handle on standard input.
    Handle,
}

pub ghost enum InputView {
    Bytes(Seq<u8>),
    Text(Seq<char>),
    Handle,
}

impl View for Input {
    type V = InputView;

    open spec fn view(&self) -> InputView {
        match self {
            Input::Bytes(b) => InputView::Bytes(b@),
            Input::Text(s) => InputView::Text(s@),
            Input::Handle => InputView::Handle,
        }
    }
}

/// What the driver reports back after doing what was asked.
#[derive(Debug, PartialEq, Eq)]
pub enum Event {
    /// The iteration starts.
    Begin,
    /// Reading all of standard input ended: the bytes, or `None` when the
    /// read failed.
    ReadFinished(Option<Vec<u8>>),
    /// The target was called once and ended this way.
    TargetFinished(Outcome),
}

pub ghost enum EventView {
    Begin,
    ReadFinished(Option<Seq<u8>>),
    TargetFinished(Outcome),
}

impl View for Event {
    type V = EventView;

    open spec fn view(&self) -> EventView {
        match self {
            Event::Begin => EventView::Begin,
            Event::ReadFinished(Some(b)) => EventView::ReadFinished(Some(b@)),
            Event::ReadFinished(None) => EventView::ReadFinished(None),
            Event::TargetFinished(o) => EventView::TargetFinished(*o),
        }
    }
}

/// What the driver is asked to do next.
#[derive(Debug, PartialEq, Eq)]
pub enum Action {
    /// Read all of standard input, then report `Event::ReadFinished`.
    ReadAll,
    /// Call the target once with this input, catching any fault, then report
    /// `Event::TargetFinished`.
    Invoke(Input),
    /// End the process this way.
    Finish(Exit),
}

pub ghost enum ActionView {
    ReadAll,
    Invoke(InputView),
    Finish(Exit),
}

impl View for Action {
    type V = ActionView;

    open spec fn view(&self) -> ActionView {
        match self {
            Action::ReadAll => ActionView::ReadAll,
            Action::Invoke(i) => ActionView::Invoke(i@),
            Action::Finish(x) => ActionView::Finish(*x),
        }
    }
}

/// An event that the current phase does not expect is a misuse of the
/// isolation boundary, and fatal.
pub open spec fn fatal() -> (Phase, ActionView) {
    (Phase::ForcedAbort, ActionView::Finish(Exit::ForcedAbort))
}

/// No valid input this iteration: the target is skipped and the process
/// exits cleanly, so that the fuzzer sees no crash.
pub open spec fn no_input() -> (Phase, ActionView) {
    (Phase::NoInput, ActionView::Finish(Exit::Clean))
}

/// The step taken once all of standard input was read, or failed to be.
pub open spec fn after_read(variant: Variant, read: Option<Seq<u8>>) -> (Phase, ActionView) {
    match (variant, read) {
        (_, None) => no_input(),
        (Variant::Bytes, Some(b)) => (Phase::InvokingTarget, ActionView::Invoke(InputView::Bytes(b))),
        (Variant::Text, Some(b)) => match decoded_text(b) {
            Some(s) => (Phase::InvokingTarget, ActionView::Invoke(InputView::Text(s))),
            None => no_input(),
        },
        (Variant::Handle, Some(_)) => fatal(),
    }
}

/// The step taken once the target returned or raised a fault.
pub open spec fn after_target(outcome: Outcome) -> (Phase, ActionView) {
    match outcome {
        Outcome::CompletedNormally => (Phase::CompletedNormally, ActionView::Finish(Exit::Clean)),
        Outcome::AbnormalTermination => (Phase::ForcedAbort, ActionView::Finish(Exit::ForcedAbort)),
    }
}

/// The next phase and the action asked of the driver, given the variant,
/// the current phase and the event reported.
pub open spec fn transition(variant: Variant, phase: Phase, event: EventView) -> (Phase, ActionView) {
    match (phase, event) {
        (Phase::Idle, EventView::Begin) => match variant {
            Variant::Handle => (Phase::InvokingTarget, ActionView::Invoke(InputView::Handle)),
            _ => (Phase::ReadingInput, ActionView::ReadAll),
        },
        (Phase::ReadingInput, EventView::ReadFinished(read)) => after_read(variant, read),
        (Phase::InvokingTarget, EventView::TargetFinished(outcome)) => after_target(outcome),
        _ => fatal(),
    }
}

/// A phase in which the iteration is over.
pub open spec fn is_terminal(phase: Phase) -> bool {
    phase is NoInput || phase is CompletedNormally || phase is ForcedAbort
}

/// One fuzzing iteration of a given variant.
pub struct Iteration {
    variant: Variant,
    phase: Phase,
}

pub ghost struct IterationView {
    pub variant: Variant,
    pub phase: Phase,
}

impl View for Iteration {
    type V = IterationView;

    closed spec fn view(&self) -> IterationView {
        IterationView { variant: self.variant, phase: self.phase }
    }
}

impl Iteration {
    /// A new iteration, not yet started.
    pub fn new(variant: Variant) -> (r: Iteration)
        ensures
            r@ == (IterationView { variant, phase: Phase::Idle }),
    {
        Iteration { variant, phase: Phase::Idle }
    }

    /// The shape in which this iteration's target takes its input.
    pub fn variant(&self) -> (r: Variant)
        ensures
            r == self@.variant,
    {
        self.variant
    }

    /// Where this iteration stands.
    pub fn phase(&self) -> (r: Phase)
        ensures
            r == self@.phase,
    {
        self.phase
    }

    /// Whether the iteration is over.
    pub fn is_finished(&self) -> (r: bool)
        ensures
            r == is_terminal(self@.phase),
    {
        matches!(self.phase, Phase::NoInput | Phase::CompletedNormally | Phase::ForcedAbort)
    }

    /// Takes in what the driver reports and says what it must do next.
    pub fn step(&mut self, event: Event) -> (a: Action)
        ensures
            final(self)@.variant == old(self)@.variant,
            (final(self)@.phase, a@) == transition(old(self)@.variant, old(self)@.phase, event@),
    {
        let (phase, action) = match event {
            Event::Begin => {
                if matches!(self.phase, Phase::Idle) {
                    match self.variant {
                        Variant::Handle => (Phase::InvokingTarget, Action::Invoke(Input::Handle)),
                        _ => (Phase::ReadingInput, Action::ReadAll),
                    }
                } else {
                    (Phase::ForcedAbort, Action::Finish(Exit::ForcedAbort))
                }
            },
            Event::ReadFinished(read) => {
                if matches!(self.phase, Phase::ReadingInput) {
                    Self::on_read(self.variant, read)
                } else {
                    (Phase::ForcedAbort, Action::Finish(Exit::ForcedAbort))
                }
            },
            Event::TargetFinished(outcome) => {
                if matches!(self.phase, Phase::InvokingTarget) {
                    match outcome {
                        Outcome::CompletedNormally => (Phase::CompletedNormally, Action::Finish(Exit::Clean)),
                        Outcome::AbnormalTermination => (Phase::ForcedAbort, Action::Finish(Exit::ForcedAbort)),
                    }
                } else {
                    (Phase::ForcedAbort, Action::Finish(Exit::ForcedAbort))
                }
            },
        };
        self.phase = phase;
        action
    }

    /// The step taken on the result of reading all of standard input.
    fn on_read(variant: Variant, read: Option<Vec<u8>>) -> (r: (Phase, Action))
        ensures
            (r.0, r.1@) == after_read(
                variant,
                match read {
                    Some(b) => Some(b@),
                    None => None,
                },
            ),
    {
        match read {
            None => (Phase::NoInput, Action::Finish(Exit::Clean)),
            Some(bytes) => match variant {
                Variant::Bytes => (Phase::InvokingTarget, Action::Invoke(Input::Bytes(bytes))),
                Variant::Text => match string_from_utf8(bytes) {
                    Some(s) => (Phase::InvokingTarget, Action::Invoke(Input::Text(s))),
                    None => (Phase::NoInput, Action::Finish(Exit::Clean)),
                },
                Variant::Handle => (Phase::ForcedAbort, Action::Finish(Exit::ForcedAbort)),
            },
        }
    }
}

} // verus!
