//! How the terminal is taken and given back.
//!
//! A session takes the terminal when it starts and gives it back on every way
//! out. Both happen in a fixed order, one step after the other. A step of
//! taking that fails ends the program before the session begins; a step of
//! giving back that fails is passed over, since the program is leaving anyway.

use vstd::prelude::*;

verus! {

/// One thing done to the terminal.
#[derive(Clone, Copy, Debug, PartialEq, Eq, Structural)]
pub enum TerminalStep {
    EnableRawMode,
    EnterAlternateScreen,
    HideCursor,
    DisableRawMode,
    LeaveAlternateScreen,
    ShowCursor,
}

impl TerminalStep {
    /// Whether the step belongs to taking the terminal.
    pub open spec fn acquires(self) -> bool {
        self == TerminalStep::EnableRawMode || self == TerminalStep::EnterAlternateScreen || self
            == TerminalStep::HideCursor
    }

    /// The step that gives back what this step took; a step of giving back
    /// stands for itself.
    pub open spec fn released_by(self) -> TerminalStep {
        match self {
            TerminalStep::EnableRawMode => TerminalStep::DisableRawMode,
            TerminalStep::EnterAlternateScreen => TerminalStep::LeaveAlternateScreen,
            TerminalStep::HideCursor => TerminalStep::ShowCursor,
            other => other,
        }
    }

    /// Whether a failure of the step ends the program: true of taking, false
    /// of giving back.
    pub fn failure_is_fatal(&self) -> (fatal: bool)
        ensures
            fatal == self.acquires(),
    {
        match self {
            TerminalStep::EnableRawMode => true,
            TerminalStep::EnterAlternateScreen => true,
            TerminalStep::HideCursor => true,
            _ => false,
        }
    }
}

/// The steps that take the terminal, in order.
pub open spec fn setup_plan() -> Seq<TerminalStep> {
    seq![
        TerminalStep::EnableRawMode,
        TerminalStep::EnterAlternateScreen,
        TerminalStep::HideCursor,
    ]
}

/// The steps that give the terminal back, in order.
pub open spec fn teardown_plan() -> Seq<TerminalStep> {
    seq![
        TerminalStep::DisableRawMode,
        TerminalStep::LeaveAlternateScreen,
        TerminalStep::ShowCursor,
    ]
}

/// The steps that take the terminal, in order.
pub fn setup_steps() -> (steps: Vec<TerminalStep>)
    ensures
        steps@ == setup_plan(),
{
    let mut steps: Vec<TerminalStep> = Vec::new();
    steps.push(TerminalStep::EnableRawMode);
    steps.push(TerminalStep::EnterAlternateScreen);
    steps.push(TerminalStep::HideCursor);
    steps
}

/// The steps that give the terminal back, in order.
pub fn teardown_steps() -> (steps: Vec<TerminalStep>)
    ensures
        steps@ == teardown_plan(),
{
    let mut steps: Vec<TerminalStep> = Vec::new();
    steps.push(TerminalStep::DisableRawMode);
    steps.push(TerminalStep::LeaveAlternateScreen);
    steps.push(TerminalStep::ShowCursor);
    steps
}

/// Giving back releases all that was taken, in the order in which it was
/// taken, and no step of giving back is fatal.
pub proof fn lemma_teardown_releases_setup()
    ensures
        teardown_plan() == setup_plan().map_values(|step: TerminalStep| step.released_by()),
        forall|i: int| 0 <= i < setup_plan().len() ==> (#[trigger] setup_plan()[i]).acquires(),
        forall|i: int| 0 <= i < teardown_plan().len() ==> !(#[trigger] teardown_plan()[i]).acquires(),
{
}

} // verus!
