use crate::stepper::{spec_stepped_phase, StepperDirection, StepperState};
use vstd::prelude::*;

verus! {

/// First index of `c` in `letters`; meaningful only when `c` occurs.
pub open spec fn spec_symbol_index(letters: Seq<char>, c: char) -> nat
    decreases letters.len(),
{
    if letters.len() == 0 {
        0
    } else if letters[0] == c {
        0
    } else {
        1 + spec_symbol_index(letters.drop_first(), c)
    }
}

/// The step position a unit aims at to show symbol `c`: the symbol's slot on
/// the drum, scaled to steps and shifted by the unit's calibration offset,
/// wrapped to one rotation.
pub open spec fn spec_target_position(
    letters: Seq<char>,
    steps_per_rotation: int,
    offset: int,
    c: char,
) -> int {
    (spec_symbol_index(letters, c) * steps_per_rotation / (letters.len() as int) + offset)
        % steps_per_rotation
}

/// Retargeting a well-formed unit leaves it well formed: the fresh target is
/// wrapped into one rotation, and the slip count stays under its ceiling or
/// is reset.
pub proof fn lemma_retargeted_wf(u: SplitFlap, c: char)
    requires
        u.wf(),
    ensures
        spec_retargeted(u, c).wf(),
        spec_retargeted(u, c).index == u.index,
{
    vstd::arithmetic::div_mod::lemma_mod_bound(
        spec_symbol_index(u.letters@, c) * (u.steps_per_rotation as int) / (u.letters@.len() as int)
            + u.offset,
        u.steps_per_rotation as int,
    );
}

/// When `c` occurs in `letters`, `spec_symbol_index` is the first occurrence.
pub proof fn lemma_symbol_index(letters: Seq<char>, c: char)
    requires
        exists|k: int| 0 <= k < letters.len() && letters[k] == c,
    ensures
        spec_symbol_index(letters, c) < letters.len(),
        letters[spec_symbol_index(letters, c) as int] == c,
        forall|j: int| 0 <= j < spec_symbol_index(letters, c) ==> letters[j] != c,
    decreases letters.len(),
{
    if letters.len() == 0 {
    } else if letters[0] == c {
    } else {
        let k = choose|k: int| 0 <= k < letters.len() && letters[k] == c;
        assert(letters.drop_first()[k - 1] == c);
        lemma_symbol_index(letters.drop_first(), c);
        let i = spec_symbol_index(letters.drop_first(), c);
        assert(forall|j: int| 1 <= j < i + 1 ==> letters[j] == letters.drop_first()[j - 1]);
    }
}

/// One module of the display: the per-unit control state for a single drum.
/// The stepper coils and the sensing-select line are buffered output state,
/// committed to the hardware in one batch per tick by the controller.
#[derive(Clone, Copy, Debug)]
pub struct SplitFlap {
    /// Identity among the modules; also this unit's place in the sensing rota.
    pub index: usize,
    /// Buffered coil state of this unit's stepper.
    pub stepper: StepperState,
    /// Buffered state of the line that exposes this unit's hall sensor to the
    /// shared sensing input.
    pub hall_enabled: bool,
    /// The ordered alphabet of displayable symbols, shared by all units.
    pub letters: &'static str,
    /// Steps of the stepper for one full rotation of the drum.
    pub steps_per_rotation: usize,
    /// Calibration offset of this unit, in steps, below `steps_per_rotation`.
    pub offset: usize,
    /// Nominal delay between two physical steps, in nanoseconds.
    pub delay_nanos: u64,
    /// Absolute step position this unit seeks, or none when idle.
    pub target: Option<usize>,
    /// Steps taken since the last homing; authoritative only while `homed`.
    pub position: usize,
    /// Whether `position` is anchored to a homing edge.
    pub homed: bool,
    /// Time left before the next physical step is due, in nanoseconds.
    pub step_countdown: u64,
    /// Last sensor reading delivered to this unit, or none before the first.
    pub previous_hall: Option<bool>,
    /// Target reassignments since the last homing.
    pub slips: usize,
    /// Ceiling on `slips`; reaching it forces a recalibration reset.
    pub max_slips: usize,
}

/// A unit has reached its goal: it is idle, or its anchored position equals
/// its target.
pub open spec fn spec_settled(u: SplitFlap) -> bool {
    match u.target {
        Option::None => true,
        Option::Some(t) => u.homed && u.position == t,
    }
}

/// `position` after one physical step: monotone, stopping at the type's
/// maximum rather than wrapping (out of reach in any physical run).
pub open spec fn spec_bumped(p: usize) -> usize {
    if p < usize::MAX {
        (p + 1) as usize
    } else {
        p
    }
}

/// State after `advance_nanos(nanos)`: settled units only release their
/// coils; otherwise the countdown burns down, and when it runs out the unit
/// takes exactly one step.
pub open spec fn spec_advanced(u: SplitFlap, nanos: u64) -> SplitFlap {
    if spec_settled(u) {
        SplitFlap { stepper: StepperState { enabled: false, phase: u.stepper.phase }, ..u }
    } else if u.step_countdown >= nanos {
        SplitFlap { step_countdown: (u.step_countdown - nanos) as u64, ..u }
    } else {
        SplitFlap {
            step_countdown: u.delay_nanos,
            position: spec_bumped(u.position),
            stepper: StepperState {
                enabled: u.stepper.enabled,
                phase: spec_stepped_phase(u.stepper.phase, StepperDirection::Reverse),
            },
            ..u
        }
    }
}

/// State after `set_hall_value(value)`: a falling edge homes the unit, and
/// the reading is recorded either way.
pub open spec fn spec_hall_applied(u: SplitFlap, value: bool) -> SplitFlap {
    if u.previous_hall == Option::Some(true) && !value {
        SplitFlap { slips: 0, homed: true, position: 0, previous_hall: Option::Some(value), ..u }
    } else {
        SplitFlap { previous_hall: Option::Some(value), ..u }
    }
}

/// State after `set_target(c)`: the target is recomputed, the countdown is
/// reloaded, and the slip count grows by one unless it has reached its
/// ceiling, in which case the unit is forced back to an unhomed origin.
pub open spec fn spec_retargeted(u: SplitFlap, c: char) -> SplitFlap {
    let t = spec_target_position(
        u.letters@,
        u.steps_per_rotation as int,
        u.offset as int,
        c,
    ) as usize;
    if u.slips + 1 >= u.max_slips {
        SplitFlap {
            step_countdown: u.delay_nanos,
            target: Option::Some(t),
            position: 0,
            homed: false,
            slips: 0,
            ..u
        }
    } else {
        SplitFlap {
            step_countdown: u.delay_nanos,
            target: Option::Some(t),
            slips: (u.slips + 1) as usize,
            ..u
        }
    }
}

/// The state of a freshly constructed unit.
pub open spec fn spec_initial_flap(
    index: usize,
    letters: &'static str,
    steps_per_rotation: usize,
    offset: usize,
    delay_nanos: u64,
    max_slips: usize,
) -> SplitFlap {
    SplitFlap {
        index,
        stepper: StepperState { enabled: false, phase: 0 },
        hall_enabled: false,
        letters,
        steps_per_rotation,
        offset,
        delay_nanos,
        target: Option::None,
        position: 0,
        homed: false,
        step_countdown: 0,
        previous_hall: Option::None,
        slips: 0,
        max_slips,
    }
}

impl SplitFlap {
    /// Configuration and state invariant: the static configuration is a
    /// setup-time obligation, targets lie within one rotation, and the slip
    /// count never lingers at or above its ceiling.
    pub open spec fn wf(self) -> bool {
        &&& self.steps_per_rotation >= 1
        &&& self.offset < self.steps_per_rotation
        &&& self.letters@.len() >= 1
        &&& self.letters@.len() * (self.steps_per_rotation as nat) <= usize::MAX as nat
        &&& (self.slips == 0 || self.slips < self.max_slips)
        &&& match self.target {
            Option::None => true,
            Option::Some(t) => t < self.steps_per_rotation,
        }
        &&& self.stepper.phase < 4
    }

    /// Whether the configured alphabet offers symbol `c`.
    pub open spec fn accepts(self, c: char) -> bool {
        exists|k: int| 0 <= k < self.letters@.len() && self.letters@[k] == c
    }

    /// Configuration fields agree with `other`'s.
    pub open spec fn same_config(self, other: SplitFlap) -> bool {
        &&& self.index == other.index
        &&& self.letters == other.letters
        &&& self.steps_per_rotation == other.steps_per_rotation
        &&& self.offset == other.offset
        &&& self.delay_nanos == other.delay_nanos
        &&& self.max_slips == other.max_slips
    }

    pub fn new(
        index: usize,
        letters: &'static str,
        steps_per_rotation: usize,
        offset: usize,
        delay_nanos: u64,
        max_slips: usize,
    ) -> (u: SplitFlap)
        requires
            steps_per_rotation >= 1,
            offset < steps_per_rotation,
            letters@.len() >= 1,
            letters@.len() * (steps_per_rotation as nat) <= usize::MAX as nat,
        ensures
            u == spec_initial_flap(index, letters, steps_per_rotation, offset, delay_nanos, max_slips),
            u.wf(),
    {
        SplitFlap {
            index,
            stepper: StepperState::new(),
            hall_enabled: false,
            letters,
            steps_per_rotation,
            offset,
            delay_nanos,
            target: None,
            position: 0,
            homed: false,
            step_countdown: 0,
            previous_hall: None,
            slips: 0,
            max_slips,
        }
    }

    /// Advance this unit by one tick of `nanos` nanoseconds. Returns whether
    /// the unit is settled. An idle or settled unit releases its coils and
    /// takes no step; otherwise at most one physical step is issued per call,
    /// however large `nanos` is, in the single direction the mechanism allows.
    pub fn advance_nanos(&mut self, nanos: u64) -> (settled: bool)
        ensures
            settled == spec_settled(*old(self)),
            *final(self) == spec_advanced(*old(self), nanos),
            settled ==> final(self).position == old(self).position
                && final(self).stepper.phase == old(self).stepper.phase,
            old(self).wf() ==> final(self).wf(),
    {
        let target = match self.target {
            Some(t) => t,
            None => {
                self.stepper.set_enabled(false);
                return true;
            },
        };
        if self.homed && self.position == target {
            self.stepper.set_enabled(false);
            return true;
        }
        if self.step_countdown >= nanos {
            self.step_countdown = self.step_countdown - nanos;
        } else {
            self.step_countdown = self.delay_nanos;
            self.stepper.step(StepperDirection::Reverse);
            if self.position < usize::MAX {
                self.position = self.position + 1;
            }
        }
        false
    }

    /// Aim this unit at symbol `c`. Reloads the step countdown so the unit is
    /// immediately eligible to step, counts the reassignment as one slip, and
    /// on reaching the slip ceiling forces the unit back to an unhomed
    /// origin, all within this call. A symbol outside the alphabet is a
    /// configuration error, ruled out at setup time.
    #[verifier::loop_isolation(false)]
    pub fn set_target(&mut self, c: char)
        requires
            old(self).wf(),
            old(self).accepts(c),
        ensures
            *final(self) == spec_retargeted(*old(self), c),
            final(self).step_countdown == old(self).delay_nanos,
            old(self).slips + 1 < old(self).max_slips ==> final(self).slips == old(self).slips + 1
                && final(self).position == old(self).position
                && final(self).homed == old(self).homed,
            old(self).slips + 1 >= old(self).max_slips ==> final(self).slips == 0
                && final(self).position == 0
                && !final(self).homed,
            final(self).wf(),
    {
        proof {
            lemma_symbol_index(old(self).letters@, c);
        }
        self.step_countdown = self.delay_nanos;
        let n = self.letters.unicode_len();
        let mut i: usize = 0;
        while self.letters.get_char(i) != c
            invariant
                i < n,
                forall|j: int| 0 <= j < i ==> self.letters@[j] != c,
            decreases n - i,
        {
            i = i + 1;
            proof {
                let s = spec_symbol_index(self.letters@, c);
                assert(i <= s);
            }
        }
        proof {
            assert(i == spec_symbol_index(self.letters@, c)) by {
                let s = spec_symbol_index(self.letters@, c);
                if i < s {
                    assert(self.letters@[i as int] == c);
                } else if s < i {
                    assert(self.letters@[s as int] != c);
                }
            }
            assert(i * self.steps_per_rotation <= self.letters@.len() * self.steps_per_rotation)
                by (nonlinear_arith)
                requires
                    i < self.letters@.len(),
                    self.steps_per_rotation >= 0,
            ;
        }
        let scaled = i * self.steps_per_rotation;
        let quotient = scaled / n;
        proof {
            assert(quotient < self.steps_per_rotation) by (nonlinear_arith)
                requires
                    quotient == (i * self.steps_per_rotation) as int / (n as int),
                    i < n,
                    n >= 1,
                    self.steps_per_rotation >= 1,
            ;
            if n >= 2 {
                assert(self.steps_per_rotation + self.steps_per_rotation <= self.letters@.len()
                    * self.steps_per_rotation) by (nonlinear_arith)
                    requires
                        self.letters@.len() >= 2,
                        self.steps_per_rotation >= 1,
                ;
            } else {
                assert(i == 0);
                assert(quotient == 0) by (nonlinear_arith)
                    requires
                        i == 0,
                        scaled == i * self.steps_per_rotation,
                        quotient == scaled as int / (n as int),
                        n >= 1,
                ;
            }
        }
        self.target = Some((quotient + self.offset) % self.steps_per_rotation);
        self.slips = self.slips + 1;
        if self.slips >= self.max_slips {
            self.position = 0;
            self.homed = false;
            self.slips = 0;
        }
    }

    /// Mark whether this unit's sensing output is exposed to the shared
    /// sensor line. A pure signal-state setter.
    pub fn set_hall_enabled(&mut self, enabled: bool)
        ensures
            *final(self) == (SplitFlap { hall_enabled: enabled, ..*old(self) }),
    {
        self.hall_enabled = enabled;
    }

    /// Record one sensor reading. A falling edge against the previously
    /// recorded reading is the home marker passing the sensor: it anchors the
    /// unit at the origin and clears the slip count. Any other pair of
    /// readings leaves position, homing and slips untouched. The reading is
    /// recorded either way.
    pub fn set_hall_value(&mut self, value: bool)
        ensures
            *final(self) == spec_hall_applied(*old(self), value),
            (old(self).previous_hall == Option::Some(true) && !value) ==> final(self).position == 0
                && final(self).homed
                && final(self).slips == 0,
            !(old(self).previous_hall == Option::Some(true) && !value)
                ==> final(self).position == old(self).position
                && final(self).homed == old(self).homed
                && final(self).slips == old(self).slips,
            final(self).previous_hall == Option::Some(value),
            old(self).wf() ==> final(self).wf(),
    {
        let was_high = match self.previous_hall {
            Some(p) => p,
            None => false,
        };
        if was_high && !value {
            self.slips = 0;
            self.homed = true;
            self.position = 0;
        }
        self.previous_hall = Some(value);
    }
}

} // verus!
