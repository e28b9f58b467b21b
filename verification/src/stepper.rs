use vstd::prelude::*;

verus! {

/// Direction of one mechanical step. The drum mechanism is unidirectional by
/// design: the controller only ever steps in `Reverse`, the single direction
/// the gearing allows; `Forward` exists because the stepper interface offers it.
#[derive(Clone, Copy, Debug)]
pub enum StepperDirection {
    Forward,
    Reverse,
}

/// Phase index after one step of the four-phase full-step sequence.
pub open spec fn spec_stepped_phase(phase: u8, dir: StepperDirection) -> u8 {
    match dir {
        StepperDirection::Forward => if phase >= 3 { 0 } else { (phase + 1) as u8 },
        StepperDirection::Reverse => if phase == 0 { 3 } else { (phase - 1) as u8 },
    }
}

/// Buffered coil state of one unipolar stepper: which of the four full-step
/// phases is energised, and whether the coils are driven at all. Like the
/// lines of a shift register, the values only reach the physical outputs when
/// the whole frame is committed, once per tick.
#[derive(Clone, Copy, Debug)]
pub struct StepperState {
    pub enabled: bool,
    pub phase: u8,
}

impl StepperState {
    pub fn new() -> (s: StepperState)
        ensures
            s == (StepperState { enabled: false, phase: 0u8 }),
    {
        StepperState { enabled: false, phase: 0 }
    }

    pub fn set_enabled(&mut self, enabled: bool)
        ensures
            *final(self) == (StepperState { enabled: enabled, phase: old(self).phase }),
    {
        self.enabled = enabled;
    }

    pub fn step(&mut self, dir: StepperDirection)
        ensures
            *final(self) == (StepperState {
                enabled: old(self).enabled,
                phase: spec_stepped_phase(old(self).phase, dir),
            }),
    {
        self.phase = match dir {
            StepperDirection::Forward => if self.phase >= 3 { 0 } else { self.phase + 1 },
            StepperDirection::Reverse => if self.phase == 0 { 3 } else { self.phase - 1 },
        };
    }
}

} // verus!
