use vstd::prelude::*;
use crate::dates::{calc_days_since, now_secs, spec_days_between};

verus! {

/// Micro-units of animation time granted per year of elapsed span: one second
/// of animation per year, expressed in millionths of a second.
pub const COUNT_TIME_PER_YEAR_MICROS: u64 = 1000000;

/// Largest tick length, in micro-units, that `update` accepts; anything
/// larger would have no sensible fixed-timestep reading.
pub const MAX_TICK_MICROS: u64 = 1000000000;

/// Floor for the pacing accumulator: draining saturates here instead of
/// falling further. A tick drains at most `MAX_TICK_MICROS * days`, well
/// under 2^94, so reaching the floor from zero would take more than 2^26
/// maximal ticks — the floor exists only to keep the arithmetic bounded,
/// no feasible run touches it.
pub const ACC_FLOOR: i128 = -0x1000000000000000000000000000000;

/// Which of the two presentations of the day count is shown.
#[derive(Clone, Copy, Debug, PartialEq, Eq, Structural)]
pub enum DisplayMode {
    Split,
    Diff,
}

/// A key the controller reacts to: quit, or toggle between the display modes.
#[derive(Clone, Copy, Debug, PartialEq, Eq, Structural)]
pub enum Key {
    Quit,
    Toggle,
}

/// The counter and its animation state.
///
/// The pacing is carried entirely in integers: the accumulator `next_inc`
/// and the per-day refill `next_inc_speed` are both scaled by
/// `days * 1_000_000`, so one micro-unit of wall time spent on one elapsed
/// day equals one unit of accumulator. Each tick drains the accumulator by
/// `tick_micros * days`; each displayed day refills it by `next_inc_speed`,
/// the whole animation budget in micro-units. The animation therefore runs
/// for about one second per year of span, whatever the span, with no
/// floating point and no drift.
pub struct Countup {
    /// True elapsed days as of the last reconciliation.
    pub days: u64,
    /// The formatted start-date label.
    pub start: String,
    /// The start date, in seconds since the Unix epoch.
    pub start_secs: i64,
    /// Set by the quit key; read by `should_exit`.
    pub should_exit: bool,
    /// Days currently shown; counts up toward `days`.
    pub current_days: u64,
    /// Accumulator refill per displayed day: the full animation budget in
    /// micro-units, `max(ceil(days / 365), 1)` seconds' worth.
    pub next_inc_speed: u128,
    /// Animation budget accumulator, scaled by `days`; a day is shown
    /// whenever it drops below zero. Draining saturates at `ACC_FLOOR`;
    /// the toggle key leaves it as it stands.
    pub next_inc: i128,
    /// Which presentation `render_model` produces.
    pub display_mode: DisplayMode,
}

/// The mathematical value of a `Countup`.
pub struct CountView {
    pub days: int,
    pub start: Seq<char>,
    pub start_secs: int,
    pub should_exit: bool,
    pub current_days: int,
    pub next_inc_speed: int,
    pub next_inc: int,
    pub display_mode: DisplayMode,
}

impl View for Countup {
    type V = CountView;

    open spec fn view(&self) -> CountView {
        CountView {
            days: self.days as int,
            start: self.start@,
            start_secs: self.start_secs as int,
            should_exit: self.should_exit,
            current_days: self.current_days as int,
            next_inc_speed: self.next_inc_speed as int,
            next_inc: self.next_inc as int,
            display_mode: self.display_mode,
        }
    }
}

/// The whole animation budget for a span of `days`: one second per started
/// year, at least one second, in micro-units.
pub open spec fn spec_budget(days: int) -> int {
    let years_up = (days + 364) / 365;
    (if years_up < 1 {
        1
    } else {
        years_up
    }) * COUNT_TIME_PER_YEAR_MICROS
}

/// Well-formedness of the controller state: the shown count never passes the
/// true count, the refill is the budget of at least one second, and the
/// accumulator stays in the band that the update arithmetic keeps it in.
pub open spec fn wf(v: CountView) -> bool {
    &&& 0 <= v.current_days <= v.days
    &&& v.days < 0x10000000000000000
    &&& -0x8000000000000000 <= v.start_secs < 0x8000000000000000
    &&& COUNT_TIME_PER_YEAR_MICROS <= v.next_inc_speed < 0x10000000000000000000000
    &&& ACC_FLOOR <= v.next_inc < 0x20000000000000000000000
}

/// The state a fresh controller starts in.
pub open spec fn init_view(days: int, start: Seq<char>, start_secs: int) -> CountView {
    CountView {
        days,
        start,
        start_secs,
        should_exit: false,
        current_days: 0,
        next_inc_speed: spec_budget(days),
        next_inc: 0,
        display_mode: DisplayMode::Split,
    }
}

/// The catching-up loop of one tick: while the accumulator is negative and
/// days remain, show one more day and refill the accumulator.
pub open spec fn catch_up(v: CountView) -> CountView
    decreases v.days - v.current_days,
{
    if v.next_inc < 0 && v.current_days < v.days {
        catch_up(
            CountView {
                current_days: v.current_days + 1,
                next_inc: v.next_inc + v.next_inc_speed,
                ..v
            },
        )
    } else {
        v
    }
}

/// One animation tick: catch up owed days, then drain the accumulator by the
/// tick's worth of budget, saturating at `ACC_FLOOR`. A controller that has
/// caught up is left unchanged.
pub open spec fn anim_step(v: CountView, tick: int) -> CountView {
    if v.current_days < v.days {
        let w = catch_up(v);
        let drained = w.next_inc - tick * w.days;
        CountView {
            next_inc: if drained < ACC_FLOOR {
                ACC_FLOOR as int
            } else {
                drained
            },
            ..w
        }
    } else {
        v
    }
}

/// Reconciliation once the animation has caught up: when the true day count
/// has changed, both counts snap to it, with no re-animation.
pub open spec fn reconcile(v: CountView, day_count: int) -> CountView {
    if day_count != v.days {
        CountView { days: day_count, current_days: day_count, ..v }
    } else {
        v
    }
}

/// One whole `update` call at clock reading `now`: animate while behind,
/// reconcile with the true day count once caught up.
pub open spec fn step(v: CountView, tick: int, now: int) -> CountView {
    if v.current_days < v.days {
        anim_step(v, tick)
    } else {
        reconcile(v, spec_days_between(v.start_secs, now))
    }
}

/// The other display mode.
pub open spec fn other_mode(m: DisplayMode) -> DisplayMode {
    match m {
        DisplayMode::Split => DisplayMode::Diff,
        DisplayMode::Diff => DisplayMode::Split,
    }
}

/// What one key delivery does, each key independently of the other: quit
/// raises the exit flag; toggle restarts the animation and flips the mode,
/// leaving the pacing accumulator as it stands; other deliveries change
/// nothing.
pub open spec fn key_step(v: CountView, keys: Seq<Key>) -> CountView {
    let after_quit = if keys.contains(Key::Quit) {
        CountView { should_exit: true, ..v }
    } else {
        v
    };
    if keys.contains(Key::Toggle) {
        CountView {
            current_days: 0,
            display_mode: other_mode(after_quit.display_mode),
            ..after_quit
        }
    } else {
        after_quit
    }
}

impl Countup {
    /// A controller for `days` elapsed days, labelled `start`, counting from
    /// the date `start_secs`.
    pub fn new(days: u64, start: String, start_secs: i64) -> (r: Countup)
        ensures
            r@ == init_view(days as int, start@, start_secs as int),
            wf(r@),
    {
        let years_up: u128 = (days as u128 + 364) / 365;
        let years: u128 = if years_up < 1 {
            1
        } else {
            years_up
        };
        let next_inc_speed: u128 = years * (COUNT_TIME_PER_YEAR_MICROS as u128);
        proof {
            assert((days as int + 364) / 365 <= days as int + 364) by {
                vstd::arithmetic::div_mod::lemma_div_nonincreasing(days as int + 364, 365);
            }
            assert(years <= days + 365);
            assert(next_inc_speed < 0x10000000000000000000000) by (nonlinear_arith)
                requires
                    next_inc_speed == years * 1000000,
                    0 < years <= 0x10000000000000000 + 364,
            ;
        }
        Countup {
            days,
            start,
            start_secs,
            should_exit: false,
            current_days: 0,
            next_inc_speed,
            next_inc: 0,
            display_mode: DisplayMode::Split,
        }
    }

    /// Advance one fixed tick against the clock reading `now`: animate while
    /// the shown count is behind, reconcile with the true day count once
    /// caught up.
    pub fn update_at(&mut self, tick_micros: u64, now: i64)
        requires
            wf(old(self)@),
            tick_micros <= MAX_TICK_MICROS,
        ensures
            final(self)@ == step(old(self)@, tick_micros as int, now as int),
            wf(final(self)@),
    {
        let ghost v0 = self@;
        if self.current_days < self.days {
            while self.next_inc < 0 && self.current_days < self.days
                invariant
                    self@.days == v0.days,
                    self@.next_inc_speed == v0.next_inc_speed,
                    self@.start == v0.start,
                    self@.start_secs == v0.start_secs,
                    self@.should_exit == v0.should_exit,
                    self@.display_mode == v0.display_mode,
                    self@.current_days <= self@.days,
                    COUNT_TIME_PER_YEAR_MICROS <= self@.next_inc_speed
                        < 0x10000000000000000000000,
                    ACC_FLOOR <= self@.next_inc < 0x20000000000000000000000,
                    catch_up(self@) == catch_up(v0),
                decreases self@.days - self@.current_days,
            {
                let ghost vpre = self@;
                self.current_days = self.current_days + 1;
                self.next_inc = self.next_inc + self.next_inc_speed as i128;
                proof {
                    assert(self@ == CountView {
                        current_days: vpre.current_days + 1,
                        next_inc: vpre.next_inc + vpre.next_inc_speed,
                        ..vpre
                    });
                    assert(catch_up(vpre) == catch_up(self@));
                }
            }
            let ghost w = self@;
            proof {
                assert(catch_up(w) == w);
                assert(w == catch_up(v0));
            }
            proof {
                assert(0 <= (tick_micros as int) * (self@.days as int)
                    < 0x400000000000000000000000) by (nonlinear_arith)
                    requires
                        0 <= (tick_micros as int) <= MAX_TICK_MICROS,
                        0 <= (self@.days as int) < 0x10000000000000000,
                ;
            }
            let d: i128 = (tick_micros as i128) * (self.days as i128);
            let drained = self.next_inc - d;
            self.next_inc = if drained < ACC_FLOOR {
                ACC_FLOOR
            } else {
                drained
            };
            proof {
                assert(self@ == anim_step(v0, tick_micros as int));
                assert(wf(self@));
            }
        } else {
            let day_count = calc_days_since(self.start_secs, now);
            if day_count != self.days {
                self.days = day_count;
                self.current_days = day_count;
            }
            proof {
                assert(self@ == reconcile(v0, spec_days_between(v0.start_secs, now as int)));
            }
        }
    }

    /// Advance one fixed tick: as `update_at`, at whatever the clock reads
    /// now. While the animation is behind, the clock plays no part and the
    /// step is the exact animation tick; once caught up, the controller
    /// reconciles with some clock reading and in either case stays caught up.
    pub fn update(&mut self, tick_micros: u64)
        requires
            wf(old(self)@),
            tick_micros <= MAX_TICK_MICROS,
        ensures
            exists|now: int| final(self)@ == #[trigger] step(old(self)@, tick_micros as int, now),
            old(self)@.current_days < old(self)@.days ==> final(self)@ == anim_step(
                old(self)@,
                tick_micros as int,
            ),
            old(self)@.current_days == old(self)@.days ==> final(self)@.current_days
                == final(self)@.days,
            wf(final(self)@),
    {
        let now = now_secs();
        self.update_at(tick_micros, now);
        proof {
            assert(final(self)@ == step(old(self)@, tick_micros as int, now as int));
        }
    }

    /// Whether the quit key has been seen.
    pub fn should_exit(&self) -> (r: bool)
        ensures
            r == self@.should_exit,
    {
        self.should_exit
    }

    /// React to the keys delivered this frame, each key independently.
    pub fn on_key_pressed(&mut self, keys: Vec<Key>)
        requires
            wf(old(self)@),
        ensures
            final(self)@ == key_step(old(self)@, keys@),
            wf(final(self)@),
    {
        if has_key(&keys, Key::Quit) {
            self.should_exit = true;
        }
        if has_key(&keys, Key::Toggle) {
            self.current_days = 0;
            self.display_mode = match self.display_mode {
                DisplayMode::Split => DisplayMode::Diff,
                DisplayMode::Diff => DisplayMode::Split,
            };
        }
    }
}

/// Whether `keys` holds `key`.
pub fn has_key(keys: &Vec<Key>, key: Key) -> (r: bool)
    ensures
        r == keys@.contains(key),
{
    let mut i: usize = 0;
    while i < keys.len()
        invariant
            0 <= i <= keys@.len(),
            forall|j: int| 0 <= j < i ==> keys@[j] != key,
        decreases keys@.len() - i,
    {
        if keys[i] == key {
            assert(keys@.contains(key));
            return true;
        }
        i = i + 1;
    }
    assert(!keys@.contains(key));
    false
}

} // verus!
