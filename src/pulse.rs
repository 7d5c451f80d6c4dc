//! The per-tick state machine that debounces the reed switch, times whole
//! revolutions and ages a stale speed out to zero.
use vstd::prelude::*;

verus! {

/// Ticks after a revolution edge during which closures are ignored.
pub const MAX_DEBOUNCE: usize = 50;

/// Once more ticks than this pass without an edge, the speed reads zero.
pub const STALE_TICKS: usize = 2000;

/// Speeds are held in ten-thousandths of a km/h.
pub const SPEED_SCALE: u32 = 10000;

/// Wheel radius, in inches.
pub const RADIUS_INCHES: u32 = 9;

/// The circle constant, in hundredths, as the calibration takes it.
pub const PI_CENTI: u32 = 314;

/// Wheel circumference, in hundredths of an inch.
pub const CIRCUMFERENCE_CENTI: u32 = 2 * PI_CENTI * RADIUS_INCHES;

/// Calibration factor from inches per tick to km/h, in hundredths.
pub const KPH_FACTOR_CENTI: u32 = 9144;

/// Speed, in ten-thousandths of a km/h, of one revolution per tick; a
/// revolution that took `t` ticks gives this divided by `t`.
pub const SPEED_NUMERATOR: u32 = KPH_FACTOR_CENTI * CIRCUMFERENCE_CENTI;

/// The measurement state as numbers.
pub struct TimerModel {
    /// Speed in ten-thousandths of a km/h.
    pub speed: nat,
    /// Ticks since the last revolution edge.
    pub elapsed: nat,
    /// Ticks left before a closure counts as a new edge.
    pub debounce: nat,
}

/// The bounds that every state of the machine keeps.
pub open spec fn model_wf(m: TimerModel) -> bool {
    &&& m.debounce <= MAX_DEBOUNCE
    &&& m.elapsed <= STALE_TICKS + 1
    &&& m.speed <= SPEED_NUMERATOR
}

/// A closure seen while armed is a revolution edge.
pub open spec fn is_edge(m: TimerModel, closed: bool) -> bool {
    closed && m.debounce == 0
}

/// An edge updates the speed only when a whole interval has elapsed.
pub open spec fn updates_speed(m: TimerModel, closed: bool) -> bool {
    is_edge(m, closed) && m.elapsed > 0
}

/// The state after one tick that saw the switch `closed` or open.
pub open spec fn next_model(m: TimerModel, closed: bool) -> TimerModel {
    let speed = if updates_speed(m, closed) {
        SPEED_NUMERATOR as nat / m.elapsed
    } else {
        m.speed
    };
    let elapsed: nat = if is_edge(m, closed) {
        0
    } else {
        m.elapsed
    };
    let debounce: nat = if is_edge(m, closed) {
        MAX_DEBOUNCE as nat
    } else if m.debounce > 0 {
        (m.debounce - 1) as nat
    } else {
        0
    };
    if elapsed > STALE_TICKS {
        TimerModel { speed: 0, elapsed, debounce }
    } else {
        TimerModel { speed, elapsed: elapsed + 1, debounce }
    }
}

/// The state after a run of ticks.
pub open spec fn run_model(m: TimerModel, events: Seq<bool>) -> TimerModel
    decreases events.len(),
{
    if events.len() == 0 {
        m
    } else {
        run_model(next_model(m, events[0]), events.drop_first())
    }
}

/// How many ticks of a run update the speed.
pub open spec fn update_count(m: TimerModel, events: Seq<bool>) -> nat
    decreases events.len(),
{
    if events.len() == 0 {
        0
    } else {
        (if updates_speed(m, events[0]) {
            1nat
        } else {
            0nat
        }) + update_count(next_model(m, events[0]), events.drop_first())
    }
}

/// No tick of the run is a revolution edge.
pub open spec fn quiet_run(m: TimerModel, events: Seq<bool>) -> bool
    decreases events.len(),
{
    events.len() == 0 || (!is_edge(m, events[0]) && quiet_run(
        next_model(m, events[0]),
        events.drop_first(),
    ))
}

/// `n` ticks in a row with the switch closed.
pub open spec fn closed_ticks(n: nat) -> Seq<bool> {
    Seq::new(n, |i: int| true)
}

/// Debounce, revolution timing and staleness, advanced once per tick.
#[derive(Clone, Copy, Debug)]
pub struct PulseTimer {
    speed: u32,
    elapsed_ticks: usize,
    debounce_budget: usize,
}

impl View for PulseTimer {
    type V = TimerModel;

    closed spec fn view(&self) -> TimerModel {
        TimerModel {
            speed: self.speed as nat,
            elapsed: self.elapsed_ticks as nat,
            debounce: self.debounce_budget as nat,
        }
    }
}

impl PulseTimer {
    /// Every timer keeps the bounds of `model_wf`.
    #[verifier::type_invariant]
    spec fn inv(&self) -> bool {
        model_wf(self@)
    }

    /// Well-formed: the bounds of `model_wf` hold.
    pub open spec fn wf(&self) -> bool {
        model_wf(self@)
    }

    /// The power-up state: no speed, no elapsed ticks, cooling down.
    pub fn new() -> (r: PulseTimer)
        ensures
            r.wf(),
            r@ == (TimerModel { speed: 0, elapsed: 0, debounce: MAX_DEBOUNCE as nat }),
    {
        PulseTimer { speed: 0, elapsed_ticks: 0, debounce_budget: MAX_DEBOUNCE }
    }

    /// One timer tick with the switch sampled `closed` or open. Returns whether
    /// the speed was recomputed from a whole revolution.
    pub fn tick(&mut self, closed: bool) -> (updated: bool)
        ensures
            final(self).wf(),
            final(self)@ == next_model(old(self)@, closed),
            updated == updates_speed(old(self)@, closed),
            updated ==> old(self)@.elapsed > 0 && final(self)@.speed == SPEED_NUMERATOR as nat
                / old(self)@.elapsed,
            final(self)@.elapsed > 0,
    {
        proof {
            use_type_invariant(&*self);
        }
        let edge = closed && self.debounce_budget == 0;
        let updated = edge && self.elapsed_ticks > 0;
        if updated {
            self.speed = SPEED_NUMERATOR / (self.elapsed_ticks as u32);
        }
        if edge {
            self.elapsed_ticks = 0;
            self.debounce_budget = MAX_DEBOUNCE;
        } else if self.debounce_budget > 0 {
            self.debounce_budget = self.debounce_budget - 1;
        }
        if self.elapsed_ticks > STALE_TICKS {
            self.speed = 0;
        } else {
            self.elapsed_ticks = self.elapsed_ticks + 1;
        }
        updated
    }

    /// The current speed, in ten-thousandths of a km/h.
    pub fn speed(&self) -> (r: u32)
        ensures
            r as nat == self@.speed,
    {
        self.speed
    }

    /// Ticks since the last revolution edge.
    pub fn elapsed_ticks(&self) -> (r: usize)
        ensures
            r as nat == self@.elapsed,
    {
        self.elapsed_ticks
    }

    /// Ticks left before a closure counts as a new edge.
    pub fn debounce_budget(&self) -> (r: usize)
        ensures
            r as nat == self@.debounce,
    {
        self.debounce_budget
    }
}

/// While the debounce budget lasts, closed ticks update nothing and each one
/// spends one tick of the budget.
proof fn lemma_cooling_pass(m: TimerModel, n: nat)
    requires
        model_wf(m),
        n <= m.debounce,
    ensures
        update_count(m, closed_ticks(n)) == 0,
    decreases n,
{
    if n > 0 {
        let m1 = next_model(m, true);
        assert(closed_ticks(n).drop_first() =~= closed_ticks((n - 1) as nat));
        lemma_cooling_pass(m1, (n - 1) as nat);
    }
}

/// A single magnet pass that keeps the switch closed for `n` consecutive
/// ticks, fewer than the debounce length, starting from an armed state with
/// time elapsed since the previous edge, updates the speed exactly once.
pub proof fn lemma_single_pass_one_update(m: TimerModel, n: nat)
    requires
        model_wf(m),
        m.debounce == 0,
        m.elapsed > 0,
        0 < n < MAX_DEBOUNCE,
    ensures
        update_count(m, closed_ticks(n)) == 1,
{
    let m1 = next_model(m, true);
    assert(closed_ticks(n).drop_first() =~= closed_ticks((n - 1) as nat));
    lemma_cooling_pass(m1, (n - 1) as nat);
}

/// Over a run without an edge the elapsed count climbs to one past the
/// staleness bound and stays there; once a tick begins past the bound the
/// speed is zero, and a zero speed stays zero.
proof fn lemma_quiet_run(m: TimerModel, events: Seq<bool>)
    requires
        model_wf(m),
        quiet_run(m, events),
    ensures
        model_wf(run_model(m, events)),
        run_model(m, events).elapsed == if m.elapsed + events.len() > STALE_TICKS + 1 {
            (STALE_TICKS + 1) as nat
        } else {
            m.elapsed + events.len()
        },
        m.elapsed + events.len() > STALE_TICKS + 1 ==> run_model(m, events).speed == 0,
        m.speed == 0 ==> run_model(m, events).speed == 0,
    decreases events.len(),
{
    if events.len() > 0 {
        lemma_quiet_run(next_model(m, events[0]), events.drop_first());
    }
}

/// Staleness: from any state with time elapsed since its last edge, a run
/// of more than the staleness bound of ticks without an edge leaves the
/// speed at exactly zero; a longer such run keeps it there.
pub proof fn lemma_stale_speed_is_zero(m: TimerModel, events: Seq<bool>)
    requires
        model_wf(m),
        m.elapsed > 0,
        quiet_run(m, events),
        events.len() > STALE_TICKS,
    ensures
        run_model(m, events).speed == 0,
{
    lemma_quiet_run(m, events);
}

} // verus!
