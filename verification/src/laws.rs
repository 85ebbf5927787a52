use vstd::prelude::*;
use crate::countup::{
    anim_step, catch_up, init_view, key_step, other_mode, reconcile, step, wf, CountView, Key,
    ACC_FLOOR, MAX_TICK_MICROS,
};
use crate::dates::spec_days_between;
use crate::render::{spec_render_model, spec_split_rows, RenderModelView};

verus! {

/// Whether the animation has caught up with the true day count.
pub open spec fn animation_done(v: CountView) -> bool {
    v.current_days == v.days
}

/// The state after `n` animation ticks of length `tick`.
pub open spec fn iterate(v: CountView, tick: int, n: nat) -> CountView
    decreases n,
{
    if n == 0 {
        v
    } else {
        anim_step(iterate(v, tick, (n - 1) as nat), tick)
    }
}

/// The animation budget still unspent: the accumulator plus one refill for
/// every day not yet shown. Animation ticks drain it at a fixed rate.
pub open spec fn phi(v: CountView) -> int {
    v.next_inc + (v.days - v.current_days) * v.next_inc_speed
}

/// What the catching-up loop does: it only raises the shown count and the
/// accumulator, adding exactly one refill per day shown, it stops at the
/// true count, and if it stops short the accumulator has been raised to
/// at least zero.
pub proof fn lemma_catch_up(v: CountView)
    requires
        0 <= v.current_days <= v.days,
        v.next_inc_speed >= 1,
    ensures
        catch_up(v).days == v.days,
        catch_up(v).next_inc_speed == v.next_inc_speed,
        catch_up(v).start == v.start,
        catch_up(v).start_secs == v.start_secs,
        catch_up(v).should_exit == v.should_exit,
        catch_up(v).display_mode == v.display_mode,
        v.current_days <= catch_up(v).current_days <= v.days,
        catch_up(v).next_inc == v.next_inc + (catch_up(v).current_days - v.current_days)
            * v.next_inc_speed,
        catch_up(v).current_days < v.days ==> catch_up(v).next_inc >= 0,
        catch_up(v) == v || catch_up(v).next_inc < v.next_inc_speed,
    decreases v.days - v.current_days,
{
    if v.next_inc < 0 && v.current_days < v.days {
        let v1 = CountView {
            current_days: v.current_days + 1,
            next_inc: v.next_inc + v.next_inc_speed,
            ..v
        };
        lemma_catch_up(v1);
        let w = catch_up(v);
        assert(w == catch_up(v1));
        assert(w.next_inc == v.next_inc + (w.current_days - v.current_days) * v.next_inc_speed)
            by (nonlinear_arith)
            requires
                w.next_inc == v1.next_inc + (w.current_days - v1.current_days) * v1.next_inc_speed,
                v1.next_inc == v.next_inc + v.next_inc_speed,
                v1.next_inc_speed == v.next_inc_speed,
                v1.current_days == v.current_days + 1,
        ;
    }
}

/// What one animation tick does while the count is behind: the shown count
/// never falls and never passes the target, the target and the pacing stay as
/// they were, well-formedness is kept, and the unspent budget falls by
/// exactly the tick's worth. When the tick still leaves days to show, the
/// budget was at least one refill.
pub proof fn lemma_anim_step(v: CountView, tick: int)
    requires
        wf(v),
        0 <= tick <= MAX_TICK_MICROS,
        v.current_days < v.days,
    ensures
        anim_step(v, tick).days == v.days,
        anim_step(v, tick).next_inc_speed == v.next_inc_speed,
        anim_step(v, tick).start == v.start,
        anim_step(v, tick).start_secs == v.start_secs,
        anim_step(v, tick).should_exit == v.should_exit,
        anim_step(v, tick).display_mode == v.display_mode,
        v.current_days <= anim_step(v, tick).current_days <= v.days,
        wf(anim_step(v, tick)),
        anim_step(v, tick).current_days < v.days ==> phi(anim_step(v, tick)) == phi(v) - tick
            * v.days,
        anim_step(v, tick).current_days < v.days ==> phi(v) >= v.next_inc_speed,
{
    lemma_catch_up(v);
    let w = catch_up(v);
    let r = anim_step(v, tick);
    assert(0 <= tick * v.days < 0x400000000000000000000000) by (nonlinear_arith)
        requires
            0 <= tick <= MAX_TICK_MICROS,
            0 <= v.days < 0x10000000000000000,
    ;
    assert(w.next_inc >= v.next_inc && phi(w) == phi(v)) by (nonlinear_arith)
        requires
            w.next_inc == v.next_inc + (w.current_days - v.current_days) * v.next_inc_speed,
            phi(w) == w.next_inc + (v.days - w.current_days) * v.next_inc_speed,
            phi(v) == v.next_inc + (v.days - v.current_days) * v.next_inc_speed,
            v.current_days <= w.current_days <= v.days,
            v.next_inc_speed >= 1,
    ;
    let drained = w.next_inc - tick * v.days;
    assert(r == CountView {
        next_inc: if drained < ACC_FLOOR {
            ACC_FLOOR as int
        } else {
            drained
        },
        ..w
    });
    if r.current_days < v.days {
        assert(w.next_inc >= 0);
        assert(drained >= ACC_FLOOR);
        assert(phi(r) == phi(w) - tick * v.days);
        assert(phi(v) == phi(w) >= (v.days - w.current_days) * v.next_inc_speed);
        assert((v.days - w.current_days) * v.next_inc_speed >= v.next_inc_speed)
            by (nonlinear_arith)
            requires
                w.current_days < v.days,
                v.next_inc_speed >= 1,
        ;
    }
    assert(wf(r));
}

/// Running one tick and then `n` more is running `n + 1` from the start.
pub proof fn lemma_iterate_shift(v: CountView, tick: int, n: nat)
    ensures
        iterate(v, tick, (n + 1) as nat) == iterate(anim_step(v, tick), tick, n),
    decreases n,
{
    let w = anim_step(v, tick);
    if n == 0 {
        assert(iterate(v, tick, 1) == anim_step(iterate(v, tick, 0), tick));
        assert(iterate(w, tick, 0) == w);
    } else {
        lemma_iterate_shift(v, tick, (n - 1) as nat);
        assert(iterate(v, tick, (n + 1) as nat) == anim_step(iterate(v, tick, n), tick));
        assert(iterate(w, tick, n) == anim_step(iterate(w, tick, (n - 1) as nat), tick));
    }
}

/// Over any run of animation ticks the target and the pacing never change,
/// the state stays well-formed, and the shown count climbs monotonically
/// without ever passing the target.
pub proof fn lemma_animation_monotonic(v: CountView, tick: int, n: nat)
    requires
        wf(v),
        0 <= tick <= MAX_TICK_MICROS,
    ensures
        wf(iterate(v, tick, n)),
        iterate(v, tick, n).days == v.days,
        v.current_days <= iterate(v, tick, n).current_days <= v.days,
        iterate(v, tick, n).current_days <= iterate(v, tick, (n + 1) as nat).current_days,
    decreases n,
{
    if n > 0 {
        lemma_animation_monotonic(v, tick, (n - 1) as nat);
        let w = iterate(v, tick, (n - 1) as nat);
        if w.current_days < w.days {
            lemma_anim_step(w, tick);
        }
    }
    let u = iterate(v, tick, n);
    if u.current_days < u.days {
        lemma_anim_step(u, tick);
    }
}

/// Repeated ticks of any fixed positive length eventually drive the shown
/// count to exactly the true count: some number of ticks reaches a state
/// where the animation is done.
pub proof fn lemma_animation_completes(v: CountView, tick: int)
    requires
        wf(v),
        1 <= tick <= MAX_TICK_MICROS,
    ensures
        exists|n: nat| animation_done(#[trigger] iterate(v, tick, n)),
    decreases vstd::math::max(phi(v), 0),
{
    if v.current_days == v.days {
        assert(animation_done(iterate(v, tick, 0)));
    } else {
        lemma_anim_step(v, tick);
        let w = anim_step(v, tick);
        assert(iterate(v, tick, 1) == anim_step(iterate(v, tick, 0), tick));
        if w.current_days == w.days {
            assert(animation_done(iterate(v, tick, 1)));
        } else {
            assert(phi(v) >= v.next_inc_speed >= 1);
            assert(tick * v.days >= 1) by (nonlinear_arith)
                requires
                    tick >= 1,
                    v.days >= 1,
            ;
            assert(vstd::math::max(phi(w), 0) < vstd::math::max(phi(v), 0));
            lemma_animation_completes(w, tick);
            let n = choose|n: nat| animation_done(#[trigger] iterate(w, tick, n));
            lemma_iterate_shift(v, tick, n);
            assert(animation_done(iterate(v, tick, (n + 1) as nat)));
        }
    }
}

/// How many ticks of length `tick` at most are needed before the animation
/// of a controller `v` that is still behind has caught up: the unspent
/// budget over one tick's drain, plus two.
pub open spec fn ticks_to_done(v: CountView, tick: int) -> int {
    (if phi(v) < 0 {
        0
    } else {
        phi(v)
    }) / (tick * v.days) + 2
}

/// Bounded liveness: a controller still behind reaches its target within an
/// explicit number of ticks — the unspent budget divided by one tick's
/// drain, plus two.
pub proof fn lemma_animation_completes_within(v: CountView, tick: int)
    requires
        wf(v),
        1 <= tick <= MAX_TICK_MICROS,
        v.current_days < v.days,
    ensures
        exists|n: nat|
            n <= ticks_to_done(v, tick) && animation_done(#[trigger] iterate(v, tick, n)),
    decreases vstd::math::max(phi(v), 0),
{
    let td = tick * v.days;
    assert(td >= 1) by (nonlinear_arith)
        requires
            td == tick * v.days,
            tick >= 1,
            v.days >= 1,
    ;
    vstd::arithmetic::div_mod::lemma_div_pos_is_pos(
        if phi(v) < 0 {
            0
        } else {
            phi(v)
        },
        td,
    );
    lemma_anim_step(v, tick);
    let w = anim_step(v, tick);
    assert(iterate(v, tick, 1) == anim_step(iterate(v, tick, 0), tick));
    if w.current_days == w.days {
        assert(1 <= ticks_to_done(v, tick) && animation_done(iterate(v, tick, 1)));
    } else {
        assert(phi(v) >= v.next_inc_speed >= 1);
        assert(phi(w) == phi(v) - td);
        if phi(w) <= 0 {
            lemma_anim_step(w, tick);
            let u = anim_step(w, tick);
            assert(u.current_days == w.days);
            assert(iterate(v, tick, 2) == anim_step(iterate(v, tick, 1), tick));
            assert(2 <= ticks_to_done(v, tick) && animation_done(iterate(v, tick, 2)));
        } else {
            assert(vstd::math::max(phi(w), 0) < vstd::math::max(phi(v), 0));
            lemma_animation_completes_within(w, tick);
            let n = choose|n: nat|
                n <= ticks_to_done(w, tick) && animation_done(#[trigger] iterate(w, tick, n));
            lemma_iterate_shift(v, tick, n);
            assert(phi(w) / td == -1 + phi(v) / td) by {
                vstd::arithmetic::div_mod::lemma_div_minus_one(phi(v), td);
            }
            assert(n + 1 <= ticks_to_done(v, tick));
            assert(animation_done(iterate(v, tick, (n + 1) as nat)));
        }
    }
}

/// A controller built for zero elapsed days starts with nothing to animate,
/// and while the true day count stays zero an update leaves it untouched:
/// the shown count stays zero and the controller is idle from the start.
pub proof fn lemma_zero_days(v: CountView, tick: int, now: int)
    requires
        wf(v),
        v.days == 0,
        v.current_days == 0,
        spec_days_between(v.start_secs, now) == 0,
    ensures
        step(v, tick, now) == v,
        animation_done(v),
{
}

/// A fresh controller shows zero days, toward whatever target it was built
/// for; with a target of zero it is idle at once.
pub proof fn lemma_init_shows_zero(days: int, start: Seq<char>, start_secs: int)
    ensures
        init_view(days, start, start_secs).current_days == 0,
        init_view(days, start, start_secs).days == days,
        days == 0 ==> animation_done(init_view(days, start, start_secs)),
{
}

/// Rendering is a pure function of the state: two frames produced from the
/// same state, with no update or key handling between them, are identical.
pub proof fn lemma_render_deterministic(v: CountView, m1: RenderModelView, m2: RenderModelView)
    requires
        m1 == spec_render_model(v),
        m2 == spec_render_model(v),
    ensures
        m1 == m2,
{
}

/// The split rows are a true decomposition: the three numbers weigh 365, 28
/// and 1 days and sum back to the shown count, with months below fourteen
/// and days below twenty-eight.
pub proof fn lemma_split_decomposition(d: int)
    requires
        d >= 0,
    ensures
        spec_split_rows(d)[0].value * 365 + spec_split_rows(d)[1].value * 28 + spec_split_rows(
            d,
        )[2].value == d,
        0 <= spec_split_rows(d)[0].value,
        0 <= spec_split_rows(d)[1].value <= 13,
        0 <= spec_split_rows(d)[2].value < 28,
{
    let years = d / 365;
    let after_years = d - years * 365;
    let months = after_years / 28;
    let days = after_years - months * 28;
    vstd::arithmetic::div_mod::lemma_fundamental_div_mod(d, 365);
    vstd::arithmetic::div_mod::lemma_mod_bound(d, 365);
    assert(after_years == d % 365);
    vstd::arithmetic::div_mod::lemma_fundamental_div_mod(after_years, 28);
    vstd::arithmetic::div_mod::lemma_mod_bound(after_years, 28);
    assert(days == after_years % 28);
    vstd::arithmetic::div_mod::lemma_div_pos_is_pos(d, 365);
    vstd::arithmetic::div_mod::lemma_div_pos_is_pos(after_years, 28);
    assert(months <= 364int / 28) by {
        vstd::arithmetic::div_mod::lemma_div_is_ordered(after_years, 364, 28);
    }
}

/// Pressing the toggle key restarts the animation and flips the mode;
/// pressing it again flips the mode back and restarts again. Everything
/// else — the target, the label, the pacing budget and accumulator — is
/// untouched, and a quit key in the same delivery acts independently:
/// it raises the exit flag without blocking the toggle.
pub proof fn lemma_toggle_twice(v: CountView, keys: Seq<Key>)
    requires
        wf(v),
        keys.contains(Key::Toggle),
    ensures
        key_step(v, keys).current_days == 0,
        key_step(v, keys).display_mode == other_mode(v.display_mode),
        key_step(v, keys).days == v.days,
        key_step(v, keys).start == v.start,
        key_step(v, keys).start_secs == v.start_secs,
        key_step(v, keys).next_inc == v.next_inc,
        key_step(v, keys).next_inc_speed == v.next_inc_speed,
        key_step(v, keys).should_exit == (v.should_exit || keys.contains(Key::Quit)),
        wf(key_step(v, keys)),
        key_step(key_step(v, keys), keys).current_days == 0,
        key_step(key_step(v, keys), keys).display_mode == v.display_mode,
{
}

/// An idle controller never starts animating on its own: an update while
/// idle leaves it idle, and moves both counts together to the true day
/// count of the clock reading — day rollover snaps, it does not re-animate.
pub proof fn lemma_idle_stays_idle(v: CountView, tick: int, now: int)
    requires
        wf(v),
        v.current_days == v.days,
        -0x8000000000000000 <= now < 0x8000000000000000,
    ensures
        animation_done(step(v, tick, now)),
        step(v, tick, now).days == spec_days_between(v.start_secs, now),
        step(v, tick, now).display_mode == v.display_mode,
        step(v, tick, now).should_exit == v.should_exit,
        step(v, tick, now).start == v.start,
        step(v, tick, now).start_secs == v.start_secs,
        wf(step(v, tick, now)),
{
    let dc = spec_days_between(v.start_secs, now);
    if now > v.start_secs {
        vstd::arithmetic::div_mod::lemma_div_pos_is_pos(now - v.start_secs, 86400);
        vstd::arithmetic::div_mod::lemma_div_nonincreasing(now - v.start_secs, 86400);
    }
    assert(0 <= dc < 0x10000000000000000);
    if dc != v.days {
        assert(step(v, tick, now) == reconcile(v, dc));
    }
}

} // verus!

