//! The initialization sequencer: the steps of start-up in the one order in
//! which each finds done what it depends on.

use vstd::prelude::*;

verus! {

/// How often the periodic timer ticks, in ticks per second.
pub const TICK_HZ: u32 = 1;

/// One step of start-up, performed by the caller on the hardware.
#[derive(Clone, Copy, Debug, PartialEq, Eq, Structural)]
pub enum InitStep {
    /// Configure the clock peripheral and store its handle.
    Clock,
    /// Configure the display transport and controller, clear and dim the
    /// display, and store its handle.
    Display,
    /// Render the initial page, while no interrupt source is enabled yet.
    InitialRender,
    /// Configure the button input, store its handle and arm its edge
    /// detection.
    Button,
    /// Register the interrupt handler for the button line and the timer.
    RegisterHandler,
    /// Configure the periodic timer to tick `TICK_HZ` times a second and to
    /// reload by itself, store its handle and start it.
    Timer,
}

impl InitStep {
    /// The step arms an interrupt source or lets interrupts reach the
    /// handler.
    pub open spec fn touches_interrupts(self) -> bool {
        self == InitStep::Button || self == InitStep::RegisterHandler || self == InitStep::Timer
    }
}

/// The steps of start-up, first to last.
pub open spec fn sequence() -> Seq<InitStep> {
    seq![
        InitStep::Clock,
        InitStep::Display,
        InitStep::InitialRender,
        InitStep::Button,
        InitStep::RegisterHandler,
        InitStep::Timer,
    ]
}

/// Hands out the steps of start-up one by one.
pub struct Sequencer {
    handed_out: u8,
}

impl Sequencer {
    #[verifier::type_invariant]
    spec fn within_sequence(self) -> bool {
        self.handed_out <= 6
    }

    /// How many steps have been handed out.
    pub closed spec fn progress(&self) -> nat {
        self.handed_out as nat
    }

    /// A sequencer that has handed out nothing yet.
    pub fn new() -> (sequencer: Sequencer)
        ensures
            sequencer.progress() == 0,
    {
        Sequencer { handed_out: 0 }
    }

    /// Tells whether every step has been handed out.
    pub fn is_complete(&self) -> (yes: bool)
        ensures
            yes == (self.progress() >= sequence().len()),
    {
        self.handed_out >= 6
    }

    /// Hands out the next step, or nothing once all six are out. The steps
    /// come in the order of the sequence, each once.
    pub fn next_step(&mut self) -> (step: Option<InitStep>)
        ensures
            old(self).progress() < sequence().len() ==> step == Some(
                sequence()[old(self).progress() as int],
            ) && final(self).progress() == old(self).progress() + 1,
            old(self).progress() >= sequence().len() ==> step is None && final(self).progress()
                == old(self).progress(),
            final(self).progress() <= sequence().len(),
    {
        proof {
            use_type_invariant(&*self);
        }
        let step = if self.handed_out == 0 {
            InitStep::Clock
        } else if self.handed_out == 1 {
            InitStep::Display
        } else if self.handed_out == 2 {
            InitStep::InitialRender
        } else if self.handed_out == 3 {
            InitStep::Button
        } else if self.handed_out == 4 {
            InitStep::RegisterHandler
        } else if self.handed_out == 5 {
            InitStep::Timer
        } else {
            return None;
        };
        self.handed_out = self.handed_out + 1;
        Some(step)
    }
}

/// `first` stands before `then` in the sequence.
pub open spec fn precedes(first: InitStep, then: InitStep) -> bool {
    exists|i: int, j: int|
        0 <= i < j < sequence().len() && #[trigger] sequence()[i] == first
            && #[trigger] sequence()[j] == then
}

/// Every step stands in the sequence once. The initial render comes after
/// the clock and the display are up and before every step that touches
/// interrupts, and the handler is registered before the timer is started.
pub proof fn sequence_is_ordered()
    ensures
        sequence().len() == 6,
        sequence().no_duplicates(),
        precedes(InitStep::Clock, InitStep::InitialRender),
        precedes(InitStep::Display, InitStep::InitialRender),
        forall|step: InitStep|
            step.touches_interrupts() ==> #[trigger] precedes(InitStep::InitialRender, step),
        precedes(InitStep::RegisterHandler, InitStep::Timer),
{
    let s = sequence();
    assert(s[0] == InitStep::Clock);
    assert(s[1] == InitStep::Display);
    assert(s[2] == InitStep::InitialRender);
    assert(s[3] == InitStep::Button);
    assert(s[4] == InitStep::RegisterHandler);
    assert(s[5] == InitStep::Timer);
}

} // verus!
