use crate::split_flap::SplitFlap;
use vstd::prelude::*;

verus! {

/// The buffered output lines of one module, as handed to the output sink:
/// everything the hardware needs to drive the unit's coils and its
/// sensing-select line.
#[derive(Clone, Copy, Debug)]
pub struct ModuleLines {
    pub stepper_enabled: bool,
    pub phase: u8,
    pub hall_enabled: bool,
}

/// The output lines a unit currently presents.
pub open spec fn spec_lines_of(u: SplitFlap) -> ModuleLines {
    ModuleLines {
        stepper_enabled: u.stepper.enabled,
        phase: u.stepper.phase,
        hall_enabled: u.hall_enabled,
    }
}

/// The shared home-position sensor: one synchronous boolean read of the one
/// physical line. No buffering and no edge detection live here; all edge
/// logic belongs to the unit the reading is delivered to.
pub trait HomeSensor {
    fn read(&mut self) -> bool;
}

/// The batched output sink: takes every module's buffered lines and flushes
/// them to the physical outputs in one transaction.
pub trait OutputSink {
    fn commit(&mut self, frame: &Vec<ModuleLines>);
}

/// The host's stop channel: a non-blocking poll, true when input is pending.
pub trait TerminatePoll {
    fn poll(&mut self) -> bool;
}

/// The wall-clock pacing gate: blocks until the next absolute tick deadline,
/// `tick_micros` microseconds after the previous one, so the loop's cadence
/// does not drift however long an iteration took.
pub trait TickPacer {
    fn wait_next_tick(&mut self, tick_micros: u32);
}

/// A simulated sensor backend: replays a fixed script of readings, then
/// holds the line low.
pub struct ScriptedSensor {
    pub readings: Vec<bool>,
    pub cursor: usize,
}

impl ScriptedSensor {
    pub fn new(readings: Vec<bool>) -> (s: ScriptedSensor)
        ensures
            s.readings == readings,
            s.cursor == 0,
    {
        ScriptedSensor { readings, cursor: 0 }
    }
}

impl HomeSensor for ScriptedSensor {
    fn read(&mut self) -> bool {
        if self.cursor < self.readings.len() {
            let value = self.readings[self.cursor];
            self.cursor = self.cursor + 1;
            value
        } else {
            false
        }
    }
}

/// A simulated sink backend: keeps every committed frame, so a test can see
/// exactly what would have reached the hardware, and when.
pub struct RecordingSink {
    pub frames: Vec<Vec<ModuleLines>>,
}

impl RecordingSink {
    pub fn new() -> (s: RecordingSink)
        ensures
            s.frames@.len() == 0,
    {
        RecordingSink { frames: Vec::new() }
    }
}

impl OutputSink for RecordingSink {
    fn commit(&mut self, frame: &Vec<ModuleLines>) {
        let mut copy: Vec<ModuleLines> = Vec::new();
        let mut i: usize = 0;
        while i < frame.len()
            invariant
                i <= frame@.len(),
                copy@.len() == i,
            decreases frame@.len() - i,
        {
            copy.push(frame[i]);
            i = i + 1;
        }
        self.frames.push(copy);
    }
}

/// A simulated stop channel: reports nothing pending for a fixed number of
/// polls, then a stop request on every poll after that.
pub struct CountdownPoll {
    pub remaining: u64,
}

impl CountdownPoll {
    pub fn new(remaining: u64) -> (p: CountdownPoll)
        ensures
            p.remaining == remaining,
    {
        CountdownPoll { remaining }
    }
}

impl TerminatePoll for CountdownPoll {
    fn poll(&mut self) -> bool {
        if self.remaining == 0 {
            true
        } else {
            self.remaining = self.remaining - 1;
            false
        }
    }
}

/// A pacer backend that does not wait at all, for tests and simulation.
pub struct NoWait;

impl TickPacer for NoWait {
    fn wait_next_tick(&mut self, _tick_micros: u32) {
    }
}

} // verus!
