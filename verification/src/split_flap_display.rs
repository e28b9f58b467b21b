use crate::ports::{spec_lines_of, HomeSensor, ModuleLines, OutputSink, TerminatePoll, TickPacer};
use crate::split_flap::{
    spec_advanced, spec_hall_applied, spec_retargeted, spec_settled, spec_target_position,
    SplitFlap,
};
use crate::terminate::{check_terminate, Terminate, TerminateResult};
use vstd::arithmetic::div_mod::{lemma_fundamental_div_mod, lemma_fundamental_div_mod_converse};
use vstd::arithmetic::mul::lemma_mul_is_commutative;
use vstd::prelude::*;

verus! {

/// The module holding exclusive sensing rights at tick `tick`: sensing
/// dwells on one module for `dwell_ticks` consecutive ticks, then moves to
/// the next of the `n` modules, round-robin. Deterministic in the tick count
/// alone.
pub open spec fn active_module(tick: nat, dwell_ticks: nat, n: nat) -> nat
    recommends
        dwell_ticks >= 1,
        n >= 1,
{
    (tick / dwell_ticks) % n
}

/// Law of the sensing rota: counting ticks one at a time moves the pair
/// (tick % dwell_ticks, active module) exactly as the incremental counters
/// in the controller do — the dwell counter grows until it has run a full
/// slot, and at that moment the sensing right passes to the next module,
/// wrapping after the last.
pub proof fn lemma_round_robin_advance(tick: nat, dwell_ticks: nat, n: nat)
    requires
        dwell_ticks >= 1,
        n >= 1,
    ensures
        tick % dwell_ticks + 1 < dwell_ticks ==> (tick + 1) % dwell_ticks == tick % dwell_ticks
            + 1 && active_module(tick + 1, dwell_ticks, n) == active_module(tick, dwell_ticks, n),
        tick % dwell_ticks + 1 == dwell_ticks ==> (tick + 1) % dwell_ticks == 0 && active_module(
            tick + 1,
            dwell_ticks,
            n,
        ) == (if active_module(tick, dwell_ticks, n) + 1 == n {
            0
        } else {
            active_module(tick, dwell_ticks, n) + 1
        }),
        tick % dwell_ticks < dwell_ticks,
        active_module(tick, dwell_ticks, n) < n,
{
    let t = tick as int;
    let d = dwell_ticks as int;
    let nn = n as int;
    lemma_fundamental_div_mod(t, d);
    let q = t / d;
    let r = t % d;
    lemma_fundamental_div_mod(q, nn);
    let a = q % nn;
    lemma_mul_is_commutative(d, q);
    lemma_mul_is_commutative(nn, q / nn);
    assert((q + 1) * d == d * q + d) by (nonlinear_arith);
    assert((q / nn + 1) * nn == nn * (q / nn) + nn) by (nonlinear_arith);
    if r + 1 < d {
        lemma_fundamental_div_mod_converse(t + 1, d, q, r + 1);
    } else {
        lemma_fundamental_div_mod_converse(t + 1, d, q + 1, 0);
        lemma_fundamental_div_mod(t + 1, d);
        if a + 1 < nn {
            lemma_fundamental_div_mod_converse(q + 1, nn, q / nn, a + 1);
        } else {
            lemma_fundamental_div_mod_converse(q + 1, nn, q / nn + 1, 0);
        }
    }
}

/// The symbol unit `i` is assigned for `message`: the message's `i`th
/// symbol, or the blank symbol for units past the message's end.
pub open spec fn padded_char(message: Seq<char>, i: int) -> char {
    if 0 <= i < message.len() {
        message[i]
    } else {
        ' '
    }
}

/// The display controller: an ordered, fixed collection of units, the
/// incremental state of the sensing rota, and the pacing configuration. The
/// shared sensor, the batched output sink, the host stop channel and the
/// pacing gate are the four hardware capabilities it drives.
pub struct SplitFlapDisplay<HI, K, P, W> {
    /// The units, in display order; fixed in number after construction.
    pub flaps: Vec<SplitFlap>,
    /// The shared home-position sensor input.
    pub hall_input: HI,
    /// The batched output sink all line state is committed to.
    pub sink: K,
    /// The host's stop channel.
    pub terminate: P,
    /// The wall-clock pacing gate.
    pub pacer: W,
    /// Nominal wall-clock duration of one tick, in microseconds.
    pub tick_micros: u32,
    /// Consecutive ticks one module keeps exclusive sensing rights.
    pub hall_ticks: u64,
    /// Ticks spent so far in the current sensing slot; counts up to
    /// `hall_ticks` and wraps.
    pub dwell_count: u64,
    /// The module holding sensing rights during the coming tick.
    pub active: usize,
    /// The module that held sensing rights during the previous tick, or none
    /// before the first tick of a run.
    pub prev_active: Option<usize>,
    /// Ticks processed since the current run began.
    pub tick: Ghost<nat>,
}

impl<HI, K, P, W> SplitFlapDisplay<HI, K, P, W> {
    /// Controller invariant: every unit is well formed and knows its place,
    /// and the incremental rota counters agree with the round-robin formula
    /// on the tick count.
    pub open spec fn wf(self) -> bool {
        &&& self.flaps@.len() >= 1
        &&& self.hall_ticks >= 1
        &&& forall|i: int|
            0 <= i < self.flaps@.len() ==> (#[trigger] self.flaps@[i]).wf()
                && self.flaps@[i].index == i
        &&& self.active < self.flaps@.len()
        &&& match self.prev_active {
            Option::Some(p) => p < self.flaps@.len(),
            Option::None => true,
        }
        &&& self.dwell_count < self.hall_ticks
        &&& self.dwell_count as nat == self.tick@ % (self.hall_ticks as nat)
        &&& self.active as nat == active_module(
            self.tick@,
            self.hall_ticks as nat,
            self.flaps@.len(),
        )
        &&& if self.tick@ == 0 {
            self.prev_active is None
        } else {
            self.prev_active == Option::Some(
                active_module(
                    (self.tick@ - 1) as nat,
                    self.hall_ticks as nat,
                    self.flaps@.len(),
                ) as usize,
            )
        }
    }

    /// The coming tick opens a new sensing slot: the module about to sense
    /// differs from the one that sensed last tick (or there was no last
    /// tick).
    pub open spec fn boundary(self) -> bool {
        self.prev_active != Option::Some(self.active)
    }

    /// The unit the pending sensor reading is delivered to this tick, if
    /// any: exactly the unit whose sensing slot just ended.
    pub open spec fn delivery_target(self) -> Option<usize> {
        if self.boundary() {
            self.prev_active
        } else {
            Option::None
        }
    }

    /// The units after this tick's sensor handoff, had the shared line read
    /// `reading`: at most one unit — the delivery target — sees the reading.
    pub open spec fn units_after_delivery(self, reading: bool) -> Seq<SplitFlap> {
        match self.delivery_target() {
            Option::Some(p) => self.flaps@.update(
                p as int,
                spec_hall_applied(self.flaps@[p as int], reading),
            ),
            Option::None => self.flaps@,
        }
    }

    /// Nanoseconds of drum time one tick stands for.
    pub open spec fn nanos_per_tick(self) -> int {
        self.tick_micros * 1000
    }

    /// Whether this tick finds every unit settled, had the shared line read
    /// `reading`.
    pub open spec fn tick_done(self, reading: bool) -> bool {
        forall|i: int|
            0 <= i < self.flaps@.len() ==> spec_settled(
                #[trigger] self.units_after_delivery(reading)[i],
            )
    }

    /// The units after one whole tick, had the shared line read `reading`:
    /// the handoff, then every unit advanced by one tick of drum time, then
    /// sensing enabled exactly on the active module.
    pub open spec fn units_after_tick(self, reading: bool) -> Seq<SplitFlap> {
        Seq::new(
            self.flaps@.len(),
            |i: int|
                SplitFlap {
                    hall_enabled: i == self.active,
                    ..spec_advanced(
                        self.units_after_delivery(reading)[i],
                        self.nanos_per_tick() as u64,
                    )
                },
        )
    }

    /// How one call of `tick_step` relates the new unit states and the
    /// settled flag to the old controller state, given what the shared
    /// sensor line read.
    pub open spec fn tick_relation(
        self,
        new_flaps: Seq<SplitFlap>,
        done: bool,
        reading: bool,
    ) -> bool {
        &&& new_flaps == self.units_after_tick(reading)
        &&& done == self.tick_done(reading)
    }

    /// Law of sensor attribution: in any one tick at most one unit — the
    /// one whose sensing slot just ended — receives the sensor reading, and
    /// every other unit's edge-detection state is untouched. In particular a
    /// reading is never attributed to the newly active module.
    pub proof fn lemma_exclusive_delivery(self, reading: bool)
        requires
            self.wf(),
        ensures
            forall|i: int|
                0 <= i < self.flaps@.len() && self.delivery_target() != Option::Some(i as usize)
                    ==> self.units_after_delivery(reading)[i] == self.flaps@[i],
            match self.delivery_target() {
                Option::Some(p) => p < self.flaps@.len() && p != self.active
                    && self.units_after_delivery(reading)[p as int] == spec_hall_applied(
                    self.flaps@[p as int],
                    reading,
                ),
                Option::None => self.units_after_delivery(reading) == self.flaps@,
            },
    {
    }

    /// A tick that reports every unit settled leaves every unit settled,
    /// with its coils released: advancing a settled unit only disables its
    /// stepper.
    pub proof fn lemma_done_settled(self, reading: bool)
        requires
            self.tick_done(reading),
        ensures
            forall|i: int|
                0 <= i < self.units_after_tick(reading).len() ==> spec_settled(
                    #[trigger] self.units_after_tick(reading)[i],
                ) && !self.units_after_tick(reading)[i].stepper.enabled,
    {
    }
}

impl<HI: HomeSensor, K: OutputSink, P: TerminatePoll, W: TickPacer> SplitFlapDisplay<HI, K, P, W> {
    /// Build a controller over one unit per calibration offset, all sharing
    /// the alphabet, rotation size and step delay. Configuration errors —
    /// an empty alphabet, an out-of-range offset, a zero rotation, dwell or
    /// module count — are setup-time obligations.
    pub fn new(
        hall_input: HI,
        sink: K,
        terminate: P,
        pacer: W,
        letters: &'static str,
        steps_per_rotation: usize,
        offsets: Vec<usize>,
        tick_micros: u32,
        delay_nanos: u64,
        hall_ticks: u64,
        max_slips: usize,
    ) -> (d: SplitFlapDisplay<HI, K, P, W>)
        requires
            offsets@.len() >= 1,
            hall_ticks >= 1,
            steps_per_rotation >= 1,
            forall|i: int| 0 <= i < offsets@.len() ==> offsets@[i] < steps_per_rotation,
            letters@.len() >= 1,
            letters@.len() * (steps_per_rotation as nat) <= usize::MAX as nat,
        ensures
            d.wf(),
            d.flaps@.len() == offsets@.len(),
            forall|i: int|
                0 <= i < offsets@.len() ==> d.flaps@[i]
                    == crate::split_flap::spec_initial_flap(
                    i as usize,
                    letters,
                    steps_per_rotation,
                    offsets@[i],
                    delay_nanos,
                    max_slips,
                ),
            d.tick_micros == tick_micros,
            d.hall_ticks == hall_ticks,
            d.tick@ == 0,
            d.active == 0,
            d.dwell_count == 0,
            d.prev_active is None,
    {
        let mut flaps: Vec<SplitFlap> = Vec::new();
        let n = offsets.len();
        let mut i: usize = 0;
        #[verifier::loop_isolation(false)]
        while i < n
            invariant
                i <= n,
                flaps@.len() == i,
                forall|j: int|
                    0 <= j < i ==> flaps@[j] == crate::split_flap::spec_initial_flap(
                        j as usize,
                        letters,
                        steps_per_rotation,
                        offsets@[j],
                        delay_nanos,
                        max_slips,
                    ),
            decreases n - i,
        {
            flaps.push(
                SplitFlap::new(i, letters, steps_per_rotation, offsets[i], delay_nanos, max_slips),
            );
            i = i + 1;
        }
        SplitFlapDisplay {
            flaps,
            hall_input,
            sink,
            terminate,
            pacer,
            tick_micros,
            hall_ticks,
            dwell_count: 0,
            active: 0,
            prev_active: None,
            tick: Ghost(0nat),
        }
    }

    /// Assemble the frame of every unit's buffered output lines, in display
    /// order, ready for one batched commit.
    pub fn frame(&self) -> (f: Vec<ModuleLines>)
        ensures
            f@ == self.flaps@.map(|i: int, u: SplitFlap| spec_lines_of(u)),
    {
        let mut f: Vec<ModuleLines> = Vec::new();
        let n = self.flaps.len();
        let mut i: usize = 0;
        #[verifier::loop_isolation(false)]
        while i < n
            invariant
                i <= n,
                f@.len() == i,
                forall|j: int| 0 <= j < i ==> f@[j] == spec_lines_of(self.flaps@[j]),
            decreases n - i,
        {
            let u = self.flaps[i];
            f.push(
                ModuleLines {
                    stepper_enabled: u.stepper.enabled,
                    phase: u.stepper.phase,
                    hall_enabled: u.hall_enabled,
                },
            );
            i = i + 1;
        }
        proof {
            assert(f@ =~= self.flaps@.map(|i: int, u: SplitFlap| spec_lines_of(u)));
        }
        f
    }

    /// One control tick: hand the pending sensor reading to the unit whose
    /// sensing slot just ended (the handoff always precedes regranting), let
    /// every unit advance by one tick of drum time, grant sensing to the
    /// active module alone, commit all buffered line state in one batch, and
    /// move the sensing rota forward. Returns whether every unit is settled.
    #[verifier::rlimit(100)]
    pub fn tick_step(&mut self) -> (done: bool)
        requires
            old(self).wf(),
        ensures
            final(self).wf(),
            final(self).tick@ == old(self).tick@ + 1,
            final(self).tick_micros == old(self).tick_micros,
            final(self).hall_ticks == old(self).hall_ticks,
            final(self).flaps@.len() == old(self).flaps@.len(),
            exists|reading: bool| old(self).tick_relation(final(self).flaps@, done, reading),
            forall|i: int|
                0 <= i < old(self).flaps@.len() ==> (#[trigger] final(self).flaps@[i]).target
                    == old(self).flaps@[i].target && final(self).flaps@[i].same_config(
                    old(self).flaps@[i],
                ),
            forall|i: int|
                0 <= i < old(self).flaps@.len() ==> (#[trigger] final(self).flaps@[i]).hall_enabled
                    == (i == old(self).active),
    {
        let ghost pre = *self;
        let boundary = match self.prev_active {
            None => true,
            Some(p) => p != self.active,
        };
        let mut observed: bool = false;
        if boundary {
            match self.prev_active {
                Some(p) => {
                    let v = self.hall_input.read();
                    observed = v;
                    self.flaps[p].set_hall_value(v);
                },
                None => {},
            }
            self.prev_active = Some(self.active);
        }
        proof {
            assert(self.flaps@ =~= pre.units_after_delivery(observed));
        }
        let nanos = (self.tick_micros as u64) * 1000;
        let n = self.flaps.len();
        let mut done: bool = true;
        let mut i: usize = 0;
        #[verifier::loop_isolation(false)]
        while i < n
            invariant
                i <= n,
                self.flaps@.len() == n,
                self.tick_micros == pre.tick_micros,
                self.hall_ticks == pre.hall_ticks,
                self.dwell_count == pre.dwell_count,
                self.active == pre.active,
                self.prev_active == Option::Some(pre.active),
                self.tick@ == pre.tick@,
                forall|j: int|
                    0 <= j < i ==> self.flaps@[j] == (SplitFlap {
                        hall_enabled: j == pre.active,
                        ..spec_advanced(pre.units_after_delivery(observed)[j], nanos)
                    }),
                forall|j: int|
                    i <= j < n ==> self.flaps@[j] == pre.units_after_delivery(observed)[j],
                done == (forall|j: int|
                    0 <= j < i ==> spec_settled(pre.units_after_delivery(observed)[j])),
            decreases n - i,
        {
            let act = i == self.active;
            let settled = self.flaps[i].advance_nanos(nanos);
            done = done && settled;
            self.flaps[i].set_hall_enabled(act);
            i = i + 1;
        }
        proof {
            assert(self.flaps@ =~= pre.units_after_tick(observed));
            assert(done == pre.tick_done(observed));
            assert(pre.tick_relation(self.flaps@, done, observed));
        }
        let frame = self.frame();
        self.sink.commit(&frame);
        proof {
            lemma_round_robin_advance(pre.tick@, pre.hall_ticks as nat, pre.flaps@.len());
        }
        self.tick = Ghost(self.tick@ + 1);
        self.dwell_count = self.dwell_count + 1;
        if self.dwell_count == self.hall_ticks {
            self.dwell_count = 0;
            self.active = if self.active + 1 == n {
                0
            } else {
                self.active + 1
            };
        }
        done
    }

    /// Drive the display until `message` is shown or the host asks to stop.
    /// Units past the message's end are assigned the blank symbol; a symbol
    /// outside the alphabet is a configuration error, ruled out at setup
    /// time. Each tick polls the stop channel first — a pending stop aborts
    /// at once, with all line state exactly as last committed and no
    /// rollback — then runs one control tick, and on an unfinished tick
    /// waits for the next absolute tick deadline. Returns success once every
    /// unit settles. The targets assigned on entry are never reassigned,
    /// whichever way the run ends.
    #[verifier::rlimit(30)]
    pub fn run(&mut self, message: &str) -> (r: TerminateResult<()>)
        requires
            old(self).wf(),
            message@.len() <= old(self).flaps@.len(),
            forall|i: int|
                0 <= i < old(self).flaps@.len() ==> (#[trigger] old(self).flaps@[i]).accepts(
                    padded_char(message@, i),
                ),
        ensures
            final(self).wf(),
            final(self).flaps@.len() == old(self).flaps@.len(),
            forall|i: int|
                0 <= i < old(self).flaps@.len() ==> (#[trigger] final(self).flaps@[i]).same_config(
                    old(self).flaps@[i],
                ) && final(self).flaps@[i].target == Option::Some(
                    spec_target_position(
                        old(self).flaps@[i].letters@,
                        old(self).flaps@[i].steps_per_rotation as int,
                        old(self).flaps@[i].offset as int,
                        padded_char(message@, i),
                    ) as usize,
                ),
            r is Ok ==> forall|i: int|
                0 <= i < final(self).flaps@.len() ==> spec_settled(#[trigger] final(self).flaps@[i])
                    && !final(self).flaps@[i].stepper.enabled,
    {
        let n = self.flaps.len();
        let msg_len = message.unicode_len();
        let mut i: usize = 0;
        #[verifier::loop_isolation(false)]
        while i < n
            invariant
                i <= n,
                self.flaps@.len() == n,
                self.hall_ticks == old(self).hall_ticks,
                forall|j: int|
                    0 <= j < i ==> self.flaps@[j] == spec_retargeted(
                        old(self).flaps@[j],
                        padded_char(message@, j),
                    ),
                forall|j: int| i <= j < n ==> self.flaps@[j] == old(self).flaps@[j],
            decreases n - i,
        {
            let c = if i < msg_len {
                message.get_char(i)
            } else {
                ' '
            };
            self.flaps[i].set_target(c);
            i = i + 1;
        }
        self.active = 0;
        self.dwell_count = 0;
        self.prev_active = None;
        self.tick = Ghost(0nat);
        proof {
            assert forall|j: int| 0 <= j < n implies (#[trigger] self.flaps@[j]).wf()
                && self.flaps@[j].index == j by {
                crate::split_flap::lemma_retargeted_wf(
                    old(self).flaps@[j],
                    padded_char(message@, j),
                );
            }
            vstd::arithmetic::div_mod::lemma_small_mod(0nat, self.hall_ticks as nat);
            vstd::arithmetic::div_mod::lemma_div_of0(self.hall_ticks as int);
            vstd::arithmetic::div_mod::lemma_small_mod(0nat, self.flaps@.len());
        }
        let mut step: u64 = 0;
        while step < u64::MAX
            invariant
                self.wf(),
                self.flaps@.len() == n,
                n == old(self).flaps@.len(),
                forall|j: int|
                    0 <= j < n ==> (#[trigger] self.flaps@[j]).same_config(old(self).flaps@[j])
                        && self.flaps@[j].target == spec_retargeted(
                        old(self).flaps@[j],
                        padded_char(message@, j),
                    ).target,
            decreases u64::MAX - step,
        {
            let pending = self.terminate.poll();
            match check_terminate(pending) {
                Ok(()) => {},
                Err(t) => {
                    return Err(t);
                },
            }
            let ghost before = *self;
            let done = self.tick_step();
            if done {
                proof {
                    let reading = choose|b: bool| before.tick_relation(self.flaps@, done, b);
                    before.lemma_done_settled(reading);
                }
                return Ok(());
            }
            let tm = self.tick_micros;
            self.pacer.wait_next_tick(tm);
            step = step + 1;
        }
        // a run that exhausts the tick counter aborts as a stop would;
        // at any physical tick rate that bound lies millions of years out
        Err(Terminate)
    }
}

} // verus!
