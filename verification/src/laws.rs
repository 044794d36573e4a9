//! What holds of the simulation as a whole.

use crate::object::CSimObjectView;
use crate::scalar::{
    lemma_abs_negation, lemma_add_zero, lemma_div_by_whole, lemma_div_negation,
    lemma_mul_negation, lemma_quotient_bounds, lemma_zero_absorbs, magnitude,
    quotient_toward_zero, saturate, Scalar, RAW_MAX,
};
use crate::simulation::{
    spec_collide_pair, spec_collide_row, spec_collide_rows, spec_collision_pass,
    spec_physics_pass, spec_step_object, ClassicSimulationView, CollisionPass,
};
use crate::stamp::{spec_below_ground, CSObjectStampResult};
use crate::state::{spec_ticks_per_second, spec_time_of, CSObjectState};
use crate::template::{spec_thrown, BasicSimInitObjData};
use crate::vector::{lemma_dot_negation, spec_sum, NVec2};
use vstd::prelude::*;

verus! {

/// Two bodies of equal mass that meet with opposite velocities receive
/// opposite velocity changes: the contact adds no momentum.
pub proof fn lemma_collision_symmetry(a: CSObjectState, b: CSObjectState)
    requires
        a.mass == b.mass,
        b.velocity == a.velocity.spec_neg(),
        a.velocity == b.velocity.spec_neg(),
        a.spec_contact(b) is Some,
    ensures
        a.spec_contact(b).unwrap().obj2_velocity == a.spec_contact(b).unwrap().obj1_velocity.spec_neg(),
        a.spec_contact(b).unwrap().obj1_velocity == a.spec_contact(b).unwrap().obj2_velocity.spec_neg(),
{
    let event = a.spec_contact(b).unwrap();
    let normal = event.contact_normal;
    let tangent = normal.spec_yx();
    let along = tangent.spec_dot(normal);
    let m = a.mass;
    assert(a.velocity.is_symmetric());
    // The momenta are opposite.
    lemma_mul_negation(a.velocity.x, m);
    lemma_mul_negation(a.velocity.y, m);
    let p1 = a.spec_momentum();
    let p2 = b.spec_momentum();
    assert(p2 == p1.spec_neg());
    assert(p1.is_symmetric());
    // So are their measures along the tangent.
    lemma_dot_negation(tangent, p1);
    let d1 = tangent.spec_dot(p1);
    let d2 = tangent.spec_dot(p2);
    assert(d2 == d1.spec_neg());
    lemma_div_negation(d1, along);
    let scale1 = d1.spec_div(along);
    let scale2 = d2.spec_div(along);
    assert(scale2 == scale1.spec_neg());
    lemma_abs_negation(scale1);
    let factor = scale1.spec_abs().spec_div(m);
    assert(scale2.spec_abs().spec_div(m) == factor);
    // The normal can be negated exactly, whichever way it was obtained.
    let delta_pos = a.position.spec_sub(b.position);
    lemma_div_negation(Scalar { raw: 0 }, delta_pos.spec_norm());
    assert(normal.is_symmetric());
    lemma_mul_negation(normal.x, factor);
    lemma_mul_negation(normal.y, factor);
    lemma_mul_negation(normal.x.spec_mul(factor), Scalar { raw: 0 });
    lemma_mul_negation(normal.y.spec_mul(factor), Scalar { raw: 0 });
}

/// Negating the first vector turns the dot product's sign as well.
proof fn lemma_dot_negation_left(t: NVec2, p: NVec2)
    requires
        t.is_symmetric(),
    ensures
        t.spec_neg().spec_dot(p) == t.spec_dot(p).spec_neg(),
{
    lemma_mul_negation(t.x, p.x);
    lemma_mul_negation(t.y, p.y);
    crate::scalar::lemma_add_negation(t.x.spec_mul(p.x), t.y.spec_mul(p.y));
}

/// The order of the two bodies does not matter to a contact: with the bodies
/// exchanged there is a contact exactly when there was one, with the same
/// penetration, the opposite normal, and the two velocity changes exchanged.
pub proof fn lemma_contact_exchange(a: CSObjectState, b: CSObjectState)
    ensures
        b.spec_contact(a) is Some <==> a.spec_contact(b) is Some,
        a.spec_contact(b) is Some ==> {
            let event = a.spec_contact(b).unwrap();
            let exchanged = b.spec_contact(a).unwrap();
            &&& exchanged.penetration == event.penetration
            &&& exchanged.contact_normal == event.contact_normal.spec_neg()
            &&& exchanged.obj1_velocity == event.obj2_velocity
            &&& exchanged.obj2_velocity == event.obj1_velocity
            &&& exchanged.obj1_state == b
            &&& exchanged.obj2_state == a
        },
{
    let delta = a.position.spec_sub(b.position);
    let turned = b.position.spec_sub(a.position);
    crate::scalar::lemma_saturate_negation(a.position.x.raw - b.position.x.raw);
    crate::scalar::lemma_saturate_negation(a.position.y.raw - b.position.y.raw);
    assert(turned == delta.spec_neg());
    assert(delta.is_symmetric());
    assert(turned.x.raw * turned.x.raw == delta.x.raw * delta.x.raw) by (nonlinear_arith)
        requires
            turned.x.raw == -delta.x.raw,
    ;
    assert(turned.y.raw * turned.y.raw == delta.y.raw * delta.y.raw) by (nonlinear_arith)
        requires
            turned.y.raw == -delta.y.raw,
    ;
    let dist = delta.spec_norm();
    assert(turned.spec_norm() == dist);
    if a.spec_contact(b) is Some {
        let event = a.spec_contact(b).unwrap();
        let exchanged = b.spec_contact(a).unwrap();
        let normal = event.contact_normal;
        lemma_div_negation(delta.x, dist);
        lemma_div_negation(delta.y, dist);
        lemma_div_negation(Scalar { raw: 0 }, dist);
        assert(normal.is_symmetric());
        assert(exchanged.contact_normal == normal.spec_neg());
        assert(normal.spec_neg().spec_neg() == normal);
        let tangent = normal.spec_yx();
        assert(exchanged.contact_normal.spec_yx() == tangent.spec_neg());
        // The measure of the tangent along the normal stays.
        let along = tangent.spec_dot(normal);
        lemma_dot_negation_left(tangent, normal.spec_neg());
        lemma_dot_negation(tangent, normal);
        assert(along.is_symmetric());
        assert(tangent.spec_neg().spec_dot(normal.spec_neg()) == along);
        // Each momentum's measure changes its sign.
        let p1 = a.spec_momentum();
        let p2 = b.spec_momentum();
        lemma_dot_negation_left(tangent, p1);
        lemma_dot_negation_left(tangent, p2);
        let d1 = tangent.spec_dot(p1);
        let d2 = tangent.spec_dot(p2);
        lemma_mul_negation(tangent.x, p1.x);
        lemma_mul_negation(tangent.y, p1.y);
        lemma_mul_negation(tangent.x, p2.x);
        lemma_mul_negation(tangent.y, p2.y);
        assert(d1.is_symmetric());
        assert(d2.is_symmetric());
        lemma_div_negation(d1, along);
        lemma_div_negation(d2, along);
        lemma_abs_negation(d1.spec_div(along));
        lemma_abs_negation(d2.spec_div(along));
    }
}

/// Two circles whose centres coincide are in contact as soon as their radii
/// have a positive sum: the normal and both velocity changes are zero, and the
/// penetration is the sum of the radii.
pub proof fn lemma_coincident_contact(a: CSObjectState, b: CSObjectState)
    requires
        a.position == b.position,
        a.shape is Circle,
        b.shape is Circle,
        a.shape->Circle_0.radius.spec_add(b.shape->Circle_0.radius).raw > 0,
    ensures
        a.spec_contact(b) is Some,
        a.spec_contact(b).unwrap().contact_normal == NVec2::spec_zeros(),
        a.spec_contact(b).unwrap().obj1_velocity == NVec2::spec_zeros(),
        a.spec_contact(b).unwrap().obj2_velocity == NVec2::spec_zeros(),
        a.spec_contact(b).unwrap().penetration == a.shape->Circle_0.radius.spec_add(
            b.shape->Circle_0.radius,
        ),
{
    let delta_pos = a.position.spec_sub(b.position);
    assert(delta_pos == NVec2::spec_zeros());
    assert(0 * 0 + 0 * 0 == 0) by (nonlinear_arith);
    assert(0nat * 0nat <= 0nat < (0nat + 1) * (0nat + 1)) by (nonlinear_arith);
    crate::scalar::lemma_int_sqrt_unique(0, 0);
    assert(delta_pos.spec_norm().raw == 0);
    let sum = a.shape->Circle_0.radius.spec_add(b.shape->Circle_0.radius);
    lemma_add_zero(sum);
    let zero = Scalar { raw: 0 };
    let event = a.spec_contact(b).unwrap();
    let f1 = event.obj1_velocity;
    lemma_zero_absorbs(zero);
    let p1 = a.spec_momentum();
    let p2 = b.spec_momentum();
    lemma_zero_absorbs(p1.x);
    lemma_zero_absorbs(p1.y);
    lemma_zero_absorbs(p2.x);
    lemma_zero_absorbs(p2.y);
    let tangent = NVec2::spec_zeros();
    let along = tangent.spec_dot(NVec2::spec_zeros());
    assert(along.raw == 0);
    lemma_zero_absorbs(tangent.spec_dot(p1));
    lemma_zero_absorbs(tangent.spec_dot(p2));
    let scale1 = tangent.spec_dot(p1).spec_div(along);
    let scale2 = tangent.spec_dot(p2).spec_div(along);
    lemma_zero_absorbs(scale2.spec_abs().spec_div(a.mass));
    lemma_zero_absorbs(scale1.spec_abs().spec_div(b.mass));
}

/// The velocity that one tick adds under the global acceleration
/// `global_acc` alone.
pub open spec fn spec_velocity_per_tick(global_acc: NVec2) -> NVec2 {
    NVec2::spec_zeros().spec_add(global_acc).spec_unscale(spec_ticks_per_second())
}

/// While the object's own acceleration is the same as one tick earlier, a
/// tick adds exactly the velocity that its own and the global acceleration
/// give in one tick: the correction for a changing acceleration vanishes.
pub proof fn lemma_constant_acceleration(
    state: CSObjectState,
    previous: CSObjectState,
    global_acc: NVec2,
)
    requires
        state.spec_acceleration() == previous.spec_acceleration(),
    ensures
        state.spec_integrate(previous, global_acc).velocity == state.velocity.spec_add(
            state.spec_acceleration().spec_add(global_acc).spec_unscale(spec_ticks_per_second()),
        ),
        state.spec_integrate(previous, global_acc).position == state.position.spec_add(
            state.velocity.spec_unscale(spec_ticks_per_second()).spec_add(
                state.spec_acceleration().spec_add(global_acc).spec_unscale(
                    spec_ticks_per_second(),
                ).spec_unscale(spec_ticks_per_second()).spec_unscale(Scalar::spec_from_int(2)),
            ),
        ),
        state.spec_integrate(previous, global_acc).last_velocity == state.velocity,
        state.spec_integrate(previous, global_acc).acc_list == state.acc_list,
        state.spec_integrate(previous, global_acc).mass == state.mass,
        state.spec_integrate(previous, global_acc).shape == state.shape,
{
    let ticks = spec_ticks_per_second();
    let two = Scalar::spec_from_int(2);
    lemma_zero_absorbs(ticks);
    lemma_zero_absorbs(two);
    let sum_acc = state.spec_acceleration().spec_add(global_acc);
    lemma_div_negation(sum_acc.x, ticks);
    lemma_div_negation(sum_acc.y, ticks);
    lemma_add_zero(sum_acc.spec_unscale(ticks).x);
    lemma_add_zero(sum_acc.spec_unscale(ticks).y);
}

/// Adding `c` to a sum of `k` times `c` that is held inside the range gives
/// the sum of `k + 1` times `c`, held inside the range.
pub proof fn lemma_saturated_sum(k: nat, c: int)
    requires
        -crate::scalar::RAW_MAX <= c <= crate::scalar::RAW_MAX,
    ensures
        saturate(saturate(k * c) + c) == saturate((k + 1) * c),
{
    assert((k + 1) * c == k * c + c) by (nonlinear_arith);
    if c >= 0 {
        assert(k * c >= 0) by (nonlinear_arith)
            requires
                k >= 0,
                c >= 0,
        ;
    } else {
        assert(k * c <= 0) by (nonlinear_arith)
            requires
                k >= 0,
                c < 0,
        ;
    }
}

/// The object after `k` ticks of its own, with no other object near.
pub open spec fn spec_step_object_times(object: CSimObjectView, global_acc: NVec2, k: nat)
    -> CSimObjectView
    decreases k,
{
    if k == 0 {
        object
    } else {
        spec_step_object(spec_step_object_times(object, global_acc, (k - 1) as nat), global_acc)
    }
}

/// Whether the object falls freely: it is looked at its newest snapshot, it
/// has no behavior, that snapshot has no acceleration of its own, and neither
/// has the snapshot one tick earlier, if there is one.
pub open spec fn spec_falls_freely(object: CSimObjectView) -> bool {
    &&& object.has_current()
    &&& object.is_live()
    &&& object.attached is None
    &&& object.current_state().spec_acceleration() == NVec2::spec_zeros()
    &&& match object.previous_state() {
        Some(previous) => previous.spec_acceleration() == NVec2::spec_zeros(),
        None => true,
    }
}

/// The way that one tick adds under the global acceleration `global_acc`
/// alone, beside the way at the velocity before the tick: half of what the
/// velocity per tick covers in a tick.
pub open spec fn spec_correction_per_tick(global_acc: NVec2) -> NVec2 {
    spec_velocity_per_tick(global_acc).spec_unscale(spec_ticks_per_second()).spec_unscale(
        Scalar::spec_from_int(2),
    )
}

/// One tick of an object that falls freely adds the velocity per tick and
/// leaves the object falling freely.
pub proof fn lemma_free_fall_step(object: CSimObjectView, global_acc: NVec2)
    requires
        spec_falls_freely(object),
        object.init_timestep + object.state_timeline.len() < usize::MAX,
    ensures
        spec_falls_freely(spec_step_object(object, global_acc)),
        spec_step_object(object, global_acc).current_state().velocity
            == object.current_state().velocity.spec_add(spec_velocity_per_tick(global_acc)),
        spec_step_object(object, global_acc).current_state().position
            == object.current_state().position.spec_add(
            object.current_state().velocity.spec_unscale(spec_ticks_per_second()).spec_add(
                spec_correction_per_tick(global_acc),
            ),
        ),
        spec_step_object(object, global_acc).init_timestep == object.init_timestep,
        spec_step_object(object, global_acc).state_timeline.len() == object.state_timeline.len()
            + 1,
        spec_step_object(object, global_acc).timestep == object.timestep + 1,
{
    let current = object.current_state();
    let previous = match object.previous_state() {
        Some(state) => state,
        None => current,
    };
    lemma_constant_acceleration(current, previous, global_acc);
    let integrated = current.spec_integrate(previous, global_acc);
    let written = object.with_current(integrated);
    assert(written.current_state() == integrated);
    let after = written.save_state();
    assert(after == spec_step_object(object, global_acc));
    assert(after.current_state() == integrated);
    assert(after.previous_state() == Some(integrated));
    assert(integrated.spec_acceleration() == current.spec_acceleration());
}

/// Free fall: an object at rest that falls freely has, after `k` ticks, `k`
/// times the velocity per tick, held inside the representable range.
pub proof fn lemma_free_fall(object: CSimObjectView, global_acc: NVec2, k: nat)
    requires
        spec_falls_freely(object),
        object.current_state().velocity == NVec2::spec_zeros(),
        object.init_timestep + object.state_timeline.len() + k <= usize::MAX,
    ensures
        spec_falls_freely(spec_step_object_times(object, global_acc, k)),
        spec_step_object_times(object, global_acc, k).current_state().velocity.x.raw == saturate(
            k * spec_velocity_per_tick(global_acc).x.raw,
        ),
        spec_step_object_times(object, global_acc, k).current_state().velocity.y.raw == saturate(
            k * spec_velocity_per_tick(global_acc).y.raw,
        ),
        spec_step_object_times(object, global_acc, k).init_timestep == object.init_timestep,
        spec_step_object_times(object, global_acc, k).state_timeline.len()
            == object.state_timeline.len() + k,
        spec_step_object_times(object, global_acc, k).timestep == object.timestep + k,
    decreases k,
{
    let per_tick = spec_velocity_per_tick(global_acc);
    if k == 0 {
        assert(0 * per_tick.x.raw == 0) by (nonlinear_arith);
        assert(0 * per_tick.y.raw == 0) by (nonlinear_arith);
    } else {
        let m = (k - 1) as nat;
        let before = spec_step_object_times(object, global_acc, m);
        lemma_free_fall(object, global_acc, m);
        lemma_free_fall_step(before, global_acc);
        let after = spec_step_object_times(object, global_acc, k);
        assert(after == spec_step_object(before, global_acc));
        assert(after.current_state().velocity == before.current_state().velocity.spec_add(
            per_tick,
        ));
        lemma_div_negation(NVec2::spec_zeros().spec_add(global_acc).x, spec_ticks_per_second());
        lemma_div_negation(NVec2::spec_zeros().spec_add(global_acc).y, spec_ticks_per_second());
        lemma_saturated_sum(m, per_tick.x.raw as int);
        lemma_saturated_sum(m, per_tick.y.raw as int);
        assert(m + 1 == k);
        assert(after.current_state().velocity.x.raw == saturate(
            saturate(m * per_tick.x.raw) + per_tick.x.raw,
        ));
        assert(after.current_state().velocity.y.raw == saturate(
            saturate(m * per_tick.y.raw) + per_tick.y.raw,
        ));
    }
}

/// Under gravity, one tick adds nothing to the horizontal velocity and
/// 9.8 / 240, rounded toward zero at the twelfth decimal, downward to the
/// vertical one.
pub proof fn lemma_gravity_per_tick()
    ensures
        spec_velocity_per_tick(crate::simulation::spec_gravity()).x.raw == 0,
        spec_velocity_per_tick(crate::simulation::spec_gravity()).y.raw == -40_833_333_333,
        -9_800_000_000_000 <= 240 * spec_velocity_per_tick(crate::simulation::spec_gravity()).y.raw
            < -9_800_000_000_000 + 240,
{
    lemma_zero_absorbs(spec_ticks_per_second());
    assert(240int * 1_000_000_000_000int == 240_000_000_000_000int) by (nonlinear_arith);
    assert(9_800_000_000_000int * 1_000_000_000_000int == 9_800_000_000_000_000_000_000_000int)
        by (nonlinear_arith);
    assert(9_800_000_000_000_000_000_000_000int / 240_000_000_000_000int == 40_833_333_333);
}

/// Under gravity, an object at rest that falls freely has after `k` ticks
/// no horizontal velocity and a vertical one that is within `k` steps of the
/// twelfth decimal of `-9.8 · k / 240`, whatever its mass.
pub proof fn lemma_free_fall_under_gravity(object: CSimObjectView, k: nat)
    requires
        spec_falls_freely(object),
        object.current_state().velocity == NVec2::spec_zeros(),
        object.init_timestep + object.state_timeline.len() + k <= usize::MAX,
        k <= 100_000_000,
    ensures
        ({
            let velocity = spec_step_object_times(
                object,
                crate::simulation::spec_gravity(),
                k,
            ).current_state().velocity;
            &&& velocity.x.raw == 0
            &&& velocity.y.raw == -(k * 40_833_333_333)
            &&& -9_800_000_000_000 * k <= 240 * velocity.y.raw <= -9_800_000_000_000 * k + 240 * k
        }),
{
    lemma_free_fall(object, crate::simulation::spec_gravity(), k);
    lemma_gravity_per_tick();
    assert(k * 0 == 0) by (nonlinear_arith);
    assert(k * (-40_833_333_333) == -(k * 40_833_333_333)) by (nonlinear_arith);
    assert(0 <= k * 40_833_333_333 <= 100_000_000 * 40_833_333_333) by (nonlinear_arith)
        requires
            0 <= k <= 100_000_000,
    ;
    assert(240 * (k * 40_833_333_333) == k * 9_799_999_999_920) by (nonlinear_arith);
    assert(-9_800_000_000_000 * k == -(k * 9_800_000_000_000)) by (nonlinear_arith);
    assert(k * 9_800_000_000_000 - k * 9_799_999_999_920 == k * 80) by (nonlinear_arith);
    assert(0 <= k * 80 <= 240 * k) by (nonlinear_arith)
        requires
            0 <= k,
    ;
}

/// The velocity of one component after `n` ticks of free flight: the
/// velocity `v0` at the start and `n` times the gain `c` per tick.
pub open spec fn spec_flight_velocity(v0: int, c: int, n: nat) -> int {
    v0 + n * c
}

/// The place of one component after `n` ticks of free flight from `p0`: each
/// tick adds a 240th of the velocity before it, rounded toward zero, and the
/// correction `h`.
pub open spec fn spec_flight_position(p0: int, v0: int, c: int, h: int, n: nat) -> int
    decreases n,
{
    if n == 0 {
        p0
    } else {
        spec_flight_position(p0, v0, c, h, (n - 1) as nat) + quotient_toward_zero(
            spec_flight_velocity(v0, c, (n - 1) as nat),
            240,
        ) + h
    }
}

/// Whether `n` ticks of free flight stay inside the representable range.
pub open spec fn spec_flight_in_range(p0: int, v0: int, c: int, h: int, n: nat) -> bool
    decreases n,
{
    if n == 0 {
        magnitude(p0) <= RAW_MAX && magnitude(v0) <= RAW_MAX
    } else {
        &&& spec_flight_in_range(p0, v0, c, h, (n - 1) as nat)
        &&& magnitude(spec_flight_velocity(v0, c, n)) <= RAW_MAX
        &&& magnitude(
            quotient_toward_zero(spec_flight_velocity(v0, c, (n - 1) as nat), 240) + h,
        ) <= RAW_MAX
        &&& magnitude(spec_flight_position(p0, v0, c, h, n)) <= RAW_MAX
    }
}

/// One tick of free flight in one component: where the velocity `v` and the
/// place `p` are those of free flight after `m` ticks, and the next tick
/// stays inside the representable range, the sums of the tick are those of
/// free flight after `m + 1` ticks.
pub proof fn lemma_flight_component(
    p: Scalar,
    v: Scalar,
    c: Scalar,
    h: Scalar,
    p0: int,
    v0: int,
    m: nat,
)
    requires
        p.raw == spec_flight_position(p0, v0, c.raw as int, h.raw as int, m),
        v.raw == spec_flight_velocity(v0, c.raw as int, m),
        spec_flight_in_range(p0, v0, c.raw as int, h.raw as int, m + 1),
    ensures
        v.spec_add(c).raw == spec_flight_velocity(v0, c.raw as int, m + 1),
        p.spec_add(v.spec_div(spec_ticks_per_second()).spec_add(h)).raw == spec_flight_position(
            p0,
            v0,
            c.raw as int,
            h.raw as int,
            m + 1,
        ),
{
    let ci = c.raw as int;
    let hi = h.raw as int;
    assert(spec_flight_in_range(p0, v0, ci, hi, m));
    assert(magnitude(v.raw as int) <= RAW_MAX) by {
        if m > 0 {
            assert(spec_flight_in_range(p0, v0, ci, hi, (m - 1) as nat));
        } else {
            assert(0 * ci == 0) by (nonlinear_arith);
        }
    }
    lemma_div_by_whole(v, 240);
    assert((m + 1) * ci == m * ci + ci) by (nonlinear_arith);
    let q = quotient_toward_zero(v.raw as int, 240);
    assert(v.spec_div(spec_ticks_per_second()).raw == q);
    assert(spec_flight_position(p0, v0, ci, hi, m + 1) == p.raw + q + hi);
}

/// Free flight: while it stays inside the representable range, an object
/// that falls freely has after `n` ticks, in each component, the velocity
/// and the place of free flight.
pub proof fn lemma_free_flight(object: CSimObjectView, global_acc: NVec2, n: nat)
    requires
        spec_falls_freely(object),
        object.init_timestep + object.state_timeline.len() + n <= usize::MAX,
        spec_flight_in_range(
            object.current_state().position.x.raw as int,
            object.current_state().velocity.x.raw as int,
            spec_velocity_per_tick(global_acc).x.raw as int,
            spec_correction_per_tick(global_acc).x.raw as int,
            n,
        ),
        spec_flight_in_range(
            object.current_state().position.y.raw as int,
            object.current_state().velocity.y.raw as int,
            spec_velocity_per_tick(global_acc).y.raw as int,
            spec_correction_per_tick(global_acc).y.raw as int,
            n,
        ),
    ensures
        spec_falls_freely(spec_step_object_times(object, global_acc, n)),
        spec_step_object_times(object, global_acc, n).init_timestep == object.init_timestep,
        spec_step_object_times(object, global_acc, n).state_timeline.len()
            == object.state_timeline.len() + n,
        spec_step_object_times(object, global_acc, n).timestep == object.timestep + n,
        spec_step_object_times(object, global_acc, n).current_state().velocity.x.raw
            == spec_flight_velocity(
            object.current_state().velocity.x.raw as int,
            spec_velocity_per_tick(global_acc).x.raw as int,
            n,
        ),
        spec_step_object_times(object, global_acc, n).current_state().velocity.y.raw
            == spec_flight_velocity(
            object.current_state().velocity.y.raw as int,
            spec_velocity_per_tick(global_acc).y.raw as int,
            n,
        ),
        spec_step_object_times(object, global_acc, n).current_state().position.x.raw
            == spec_flight_position(
            object.current_state().position.x.raw as int,
            object.current_state().velocity.x.raw as int,
            spec_velocity_per_tick(global_acc).x.raw as int,
            spec_correction_per_tick(global_acc).x.raw as int,
            n,
        ),
        spec_step_object_times(object, global_acc, n).current_state().position.y.raw
            == spec_flight_position(
            object.current_state().position.y.raw as int,
            object.current_state().velocity.y.raw as int,
            spec_velocity_per_tick(global_acc).y.raw as int,
            spec_correction_per_tick(global_acc).y.raw as int,
            n,
        ),
    decreases n,
{
    let c = spec_velocity_per_tick(global_acc);
    if n == 0 {
        assert(0 * c.x.raw == 0) by (nonlinear_arith);
        assert(0 * c.y.raw == 0) by (nonlinear_arith);
    } else {
        let m = (n - 1) as nat;
        let h = spec_correction_per_tick(global_acc);
        let start = object.current_state();
        lemma_free_flight(object, global_acc, m);
        let before = spec_step_object_times(object, global_acc, m);
        lemma_free_fall_step(before, global_acc);
        let state = before.current_state();
        lemma_flight_component(
            state.position.x,
            state.velocity.x,
            c.x,
            h.x,
            start.position.x.raw as int,
            start.velocity.x.raw as int,
            m,
        );
        lemma_flight_component(
            state.position.y,
            state.velocity.y,
            c.y,
            h.y,
            start.position.y.raw as int,
            start.velocity.y.raw as int,
            m,
        );
    }
}

/// Where free flight leads: after `n` ticks the place is, up to `n` steps of
/// the last decimal, the start, `n` corrections, and a 240th of the sum of
/// the velocities before each tick, which is `n·v0 + c·n·(n - 1)/2`.
pub proof fn lemma_flight_bounds(p0: int, v0: int, c: int, h: int, n: nat)
    ensures
        2 * n * v0 + c * n * (n - 1) - 480 * n <= 480 * (spec_flight_position(p0, v0, c, h, n)
            - p0 - n * h),
        480 * (spec_flight_position(p0, v0, c, h, n) - p0 - n * h) <= 2 * n * v0 + c * n * (n - 1)
            + 480 * n,
    decreases n,
{
    if n == 0 {
        assert(2 * n * v0 + c * n * (n - 1) == 0) by (nonlinear_arith)
            requires
                n == 0,
        ;
        assert(n * h == 0) by (nonlinear_arith)
            requires
                n == 0,
        ;
    } else {
        let m = (n - 1) as nat;
        lemma_flight_bounds(p0, v0, c, h, m);
        let v = spec_flight_velocity(v0, c, m);
        let q = quotient_toward_zero(v, 240);
        lemma_quotient_bounds(v, 240);
        let before = spec_flight_position(p0, v0, c, h, m);
        let after = spec_flight_position(p0, v0, c, h, n);
        assert(after == before + q + h);
        assert(n * h == m * h + h) by (nonlinear_arith)
            requires
                n == m + 1,
        ;
        assert(2 * n * v0 + c * n * (n - 1) == 2 * m * v0 + c * m * (m - 1) + 2 * (v0 + m * c))
            by (nonlinear_arith)
            requires
                n == m + 1,
        ;
        assert(2 * v - 480 <= 480 * q <= 2 * v + 480);
    }
}

/// The pairs `(i, i + 1)` to `(i, j_end - 1)`, in this order.
pub open spec fn spec_row_pairs(i: int, j_end: int) -> Seq<(int, int)>
    decreases j_end - i,
{
    if j_end <= i + 1 {
        Seq::empty()
    } else {
        spec_row_pairs(i, j_end - 1).push((i, j_end - 1))
    }
}

/// The pairs `(i, j)` with `i < i_end` and `i < j < n`, ordered by `i` and
/// then by `j`.
pub open spec fn spec_all_pairs(i_end: int, n: int) -> Seq<(int, int)>
    decreases i_end,
{
    if i_end <= 0 {
        Seq::empty()
    } else {
        spec_all_pairs(i_end - 1, n) + spec_row_pairs(i_end - 1, n)
    }
}

/// Whether pair `p` comes before pair `q`: by the first index, then by the
/// second.
pub open spec fn spec_pair_before(p: (int, int), q: (int, int)) -> bool {
    p.0 < q.0 || (p.0 == q.0 && p.1 < q.1)
}

/// Whether the pair `(a, b)` is among `pairs`.
pub open spec fn spec_holds_pair(pairs: Seq<(int, int)>, a: int, b: int) -> bool {
    exists|t: int| 0 <= t < pairs.len() && #[trigger] pairs[t] == (a, b)
}

/// A row of pairs holds `(i, i + 1 + t)` at place `t`.
pub proof fn lemma_row_pairs(i: int, j_end: int)
    ensures
        spec_row_pairs(i, j_end).len() == if j_end <= i + 1 {
            0
        } else {
            j_end - i - 1
        },
        forall|t: int|
            0 <= t < spec_row_pairs(i, j_end).len() ==> #[trigger] spec_row_pairs(i, j_end)[t] == (
                i,
                i + 1 + t,
            ),
    decreases j_end - i,
{
    if j_end > i + 1 {
        lemma_row_pairs(i, j_end - 1);
    }
}

/// The pairs of the first `i_end` rows: how many there are, that each joins
/// a lower index to a higher one below `n`, that they come in order, and that
/// none is missing.
pub proof fn lemma_all_pairs(i_end: int, n: int)
    requires
        0 <= i_end <= n,
    ensures
        2 * spec_all_pairs(i_end, n).len() == i_end * (2 * n - i_end - 1),
        forall|t: int|
            0 <= t < spec_all_pairs(i_end, n).len() ==> {
                let p = #[trigger] spec_all_pairs(i_end, n)[t];
                0 <= p.0 < p.1 < n && p.0 < i_end
            },
        forall|t: int, u: int|
            0 <= t < u < spec_all_pairs(i_end, n).len() ==> spec_pair_before(
                #[trigger] spec_all_pairs(i_end, n)[t],
                #[trigger] spec_all_pairs(i_end, n)[u],
            ),
        forall|a: int, b: int|
            0 <= a < i_end && a < b < n ==> #[trigger] spec_holds_pair(
                spec_all_pairs(i_end, n),
                a,
                b,
            ),
    decreases i_end,
{
    if i_end > 0 {
        let i = i_end - 1;
        lemma_all_pairs(i, n);
        lemma_row_pairs(i, n);
        let head = spec_all_pairs(i, n);
        let row = spec_row_pairs(i, n);
        let all = spec_all_pairs(i_end, n);
        assert(all == head + row);
        assert(all.len() == head.len() + row.len());
        assert(2 * all.len() == i_end * (2 * n - i_end - 1)) by (nonlinear_arith)
            requires
                2 * head.len() == i * (2 * n - i - 1),
                all.len() == head.len() + row.len(),
                row.len() == n - i - 1,
                i_end == i + 1,
        ;
        assert forall|t: int| 0 <= t < all.len() implies {
            let p = #[trigger] all[t];
            0 <= p.0 < p.1 < n && p.0 < i_end
        } by {
            if t < head.len() {
                assert(all[t] == head[t]);
            } else {
                assert(all[t] == row[t - head.len()]);
            }
        }
        assert forall|t: int, u: int| 0 <= t < u < all.len() implies spec_pair_before(
            #[trigger] all[t],
            #[trigger] all[u],
        ) by {
            if u < head.len() {
                assert(all[t] == head[t]);
                assert(all[u] == head[u]);
            } else if t < head.len() {
                assert(all[t] == head[t]);
                assert(all[u] == row[u - head.len()]);
            } else {
                assert(all[t] == row[t - head.len()]);
                assert(all[u] == row[u - head.len()]);
            }
        }
        assert forall|a: int, b: int| 0 <= a < i_end && a < b < n implies #[trigger] spec_holds_pair(
            all,
            a,
            b,
        ) by {
            if a < i {
                assert(spec_holds_pair(head, a, b));
                let t = choose|t: int| 0 <= t < head.len() && #[trigger] head[t] == (a, b);
                assert(all[t] == head[t]);
            } else {
                let t = head.len() + (b - a - 1);
                assert(all[t] == row[b - a - 1]);
            }
        }
    } else {
        assert(i_end * (2 * n - i_end - 1) == 0) by (nonlinear_arith)
            requires
                i_end == 0,
        ;
    }
}

/// Testing a row of pairs keeps the number of objects and appends the row
/// to the pairs that were tested.
pub proof fn lemma_row_tested(pass: CollisionPass, i: int, j_end: int)
    requires
        0 <= i,
        j_end <= pass.objects.len(),
    ensures
        spec_collide_row(pass, i, j_end).tested == pass.tested + spec_row_pairs(i, j_end),
        spec_collide_row(pass, i, j_end).objects.len() == pass.objects.len(),
    decreases j_end - i,
{
    if j_end > i + 1 {
        lemma_row_tested(pass, i, j_end - 1);
        let before = spec_collide_row(pass, i, j_end - 1);
        assert(spec_collide_pair(before, i, j_end - 1).tested == before.tested.push(
            (i, j_end - 1),
        ));
        assert(before.tested.push((i, j_end - 1)) =~= pass.tested + spec_row_pairs(i, j_end));
    } else {
        assert(pass.tested + spec_row_pairs(i, j_end) =~= pass.tested);
    }
}

/// Testing the first rows appends their pairs to the pairs that were tested.
pub proof fn lemma_rows_tested(pass: CollisionPass, i_end: int, n: int)
    requires
        i_end <= n <= pass.objects.len(),
    ensures
        spec_collide_rows(pass, i_end, n).tested == pass.tested + spec_all_pairs(i_end, n),
        spec_collide_rows(pass, i_end, n).objects.len() == pass.objects.len(),
    decreases i_end,
{
    if i_end > 0 {
        lemma_rows_tested(pass, i_end - 1, n);
        let before = spec_collide_rows(pass, i_end - 1, n);
        lemma_row_tested(before, i_end - 1, n);
        assert(before.tested + spec_row_pairs(i_end - 1, n) =~= pass.tested + spec_all_pairs(
            i_end,
            n,
        ));
    } else {
        assert(pass.tested + spec_all_pairs(i_end, n) =~= pass.tested);
    }
}

/// No pair is tested twice and none is left out: among `n` objects a tick
/// tests `n * (n - 1) / 2` pairs, each of a lower index with a higher one,
/// in strictly rising order, and every such pair is among them.
pub proof fn lemma_pairs_tested_once(objects: Seq<CSimObjectView>)
    ensures
        2 * spec_collision_pass(objects).tested.len() == objects.len() * (objects.len() - 1),
        spec_collision_pass(objects).objects.len() == objects.len(),
        forall|t: int|
            0 <= t < spec_collision_pass(objects).tested.len() ==> {
                let p = #[trigger] spec_collision_pass(objects).tested[t];
                0 <= p.0 < p.1 < objects.len()
            },
        forall|t: int, u: int|
            0 <= t < u < spec_collision_pass(objects).tested.len() ==> {
                &&& spec_pair_before(
                    #[trigger] spec_collision_pass(objects).tested[t],
                    #[trigger] spec_collision_pass(objects).tested[u],
                )
                &&& spec_collision_pass(objects).tested[t] != spec_collision_pass(
                    objects,
                ).tested[u]
            },
        forall|a: int, b: int|
            0 <= a < b < objects.len() ==> #[trigger] spec_holds_pair(
                spec_collision_pass(objects).tested,
                a,
                b,
            ),
{
    let n = objects.len() as int;
    let start = CollisionPass { objects, events: Seq::empty(), tested: Seq::empty() };
    lemma_rows_tested(start, n, n);
    lemma_all_pairs(n, n);
    let tested = spec_collision_pass(objects).tested;
    assert(tested =~= spec_all_pairs(n, n));
    assert(n * (2 * n - n - 1) == n * (n - 1)) by (nonlinear_arith);
}

/// Whether every object of `sim` is looked at tick `step`.
pub open spec fn spec_looked_at(sim: ClassicSimulationView, step: usize) -> bool {
    forall|k: int|
        0 <= k < sim.objects.len() ==> {
            &&& (#[trigger] sim.objects[k]).timestep == step
            &&& sim.objects[k].hide == (step < sim.objects[k].init_timestep)
        }
}

/// Scrubbing changes no timeline, and scrubbing to the same tick twice is
/// the same as scrubbing to it once.
pub proof fn lemma_scrub_idempotent(sim: ClassicSimulationView, step: usize)
    ensures
        sim.at_time_step(step).at_time_step(step) == sim.at_time_step(step),
        spec_looked_at(sim.at_time_step(step), step),
        sim.at_time_step(step).objects.len() == sim.objects.len(),
        forall|k: int|
            0 <= k < sim.objects.len() ==> (#[trigger] sim.at_time_step(step).objects[k]).state_timeline
                == sim.objects[k].state_timeline,
        sim.wf() ==> sim.at_time_step(step).wf(),
{
    assert(sim.at_time_step(step).at_time_step(step).objects =~= sim.at_time_step(step).objects);
    if sim.wf() {
        assert forall|k: int| 0 <= k < sim.objects.len() implies (#[trigger] sim.at_time_step(
            step,
        ).objects[k]).wf() by {
            assert(sim.objects[k].wf());
        }
    }
}

/// Scrubbing away and back restores the simulation exactly: a simulation
/// that is looked at tick `current` and scrubbed to any tick and then to
/// `current` again is what it was.
pub proof fn lemma_scrub_returns(sim: ClassicSimulationView, step: usize, current: usize)
    requires
        spec_looked_at(sim, current),
    ensures
        sim.at_time_step(step).at_time_step(current) == sim,
{
    assert(sim.at_time_step(step).at_time_step(current).objects =~= sim.objects);
}

/// Scrubbing away and back changes nothing of what follows: the next tick
/// is the one that would have been made without the scrubbing.
pub proof fn lemma_scrub_keeps_future(
    sim: ClassicSimulationView,
    step: usize,
    current: usize,
    change: Option<bool>,
)
    requires
        spec_looked_at(sim, current),
    ensures
        sim.at_time_step(step).at_time_step(current).step(change) == sim.step(change),
{
    lemma_scrub_returns(sim, step, current);
}

/// An object is hidden at every tick before the one at which it came into
/// being, and visible with its first snapshot at that tick.
pub proof fn lemma_visibility_boundary(object: CSimObjectView, step: usize)
    requires
        object.state_timeline.len() >= 1,
    ensures
        object.at_timestep(step).hide == (step < object.init_timestep),
        step < object.init_timestep ==> object.at_timestep(step).state_at(step as int) is None,
        step == object.init_timestep ==> object.at_timestep(step).state_at(step as int) == Some(
            object.state_timeline[0],
        ) && object.at_timestep(step).current_state() == object.state_timeline[0],
        object.at_timestep(step).state_timeline == object.state_timeline,
{
}

/// Whether two objects agree in everything but the content of their
/// snapshots.
pub open spec fn spec_same_frame(a: CSimObjectView, b: CSimObjectView) -> bool {
    &&& a.state_timeline.len() == b.state_timeline.len()
    &&& a.init_timestep == b.init_timestep
    &&& a.timestep == b.timestep
    &&& a.hide == b.hide
    &&& a.attached == b.attached
}

/// Whether two lists of objects agree, object by object, in everything but
/// the content of their snapshots.
pub open spec fn spec_same_frames(a: Seq<CSimObjectView>, b: Seq<CSimObjectView>) -> bool {
    &&& a.len() == b.len()
    &&& forall|k: int| 0 <= k < a.len() ==> spec_same_frame(#[trigger] a[k], b[k])
}

/// A test of one pair changes snapshots only.
pub proof fn lemma_pair_keeps_frames(pass: CollisionPass, i: int, j: int)
    requires
        0 <= i < j < pass.objects.len(),
        forall|k: int| 0 <= k < pass.objects.len() ==> (#[trigger] pass.objects[k]).has_current(),
    ensures
        spec_same_frames(spec_collide_pair(pass, i, j).objects, pass.objects),
        forall|k: int|
            0 <= k < pass.objects.len() ==> (#[trigger] spec_collide_pair(
                pass,
                i,
                j,
            ).objects[k]).has_current(),
        spec_collide_pair(pass, i, j).events.len() <= pass.events.len() + 1,
{
    assert(pass.objects[i].has_current());
    assert(pass.objects[j].has_current());
}

/// A row of tests changes snapshots only.
pub proof fn lemma_row_keeps_frames(pass: CollisionPass, i: int, j_end: int)
    requires
        0 <= i,
        j_end <= pass.objects.len(),
        forall|k: int| 0 <= k < pass.objects.len() ==> (#[trigger] pass.objects[k]).has_current(),
    ensures
        spec_same_frames(spec_collide_row(pass, i, j_end).objects, pass.objects),
        forall|k: int|
            0 <= k < pass.objects.len() ==> (#[trigger] spec_collide_row(
                pass,
                i,
                j_end,
            ).objects[k]).has_current(),
    decreases j_end - i,
{
    if j_end > i + 1 {
        lemma_row_keeps_frames(pass, i, j_end - 1);
        let before = spec_collide_row(pass, i, j_end - 1);
        lemma_pair_keeps_frames(before, i, j_end - 1);
        let after = spec_collide_pair(before, i, j_end - 1);
        assert forall|k: int| 0 <= k < after.objects.len() implies spec_same_frame(
            #[trigger] after.objects[k],
            pass.objects[k],
        ) by {
            assert(spec_same_frame(after.objects[k], before.objects[k]));
            assert(spec_same_frame(before.objects[k], pass.objects[k]));
        }
    }
}

/// The whole collision pass changes snapshots only.
pub proof fn lemma_rows_keep_frames(pass: CollisionPass, i_end: int, n: int)
    requires
        i_end <= n <= pass.objects.len(),
        forall|k: int| 0 <= k < pass.objects.len() ==> (#[trigger] pass.objects[k]).has_current(),
    ensures
        spec_same_frames(spec_collide_rows(pass, i_end, n).objects, pass.objects),
        forall|k: int|
            0 <= k < pass.objects.len() ==> (#[trigger] spec_collide_rows(
                pass,
                i_end,
                n,
            ).objects[k]).has_current(),
    decreases i_end,
{
    if i_end > 0 {
        lemma_rows_keep_frames(pass, i_end - 1, n);
        let before = spec_collide_rows(pass, i_end - 1, n);
        lemma_row_keeps_frames(before, i_end - 1, n);
        let after = spec_collide_row(before, i_end - 1, n);
        assert forall|k: int| 0 <= k < after.objects.len() implies spec_same_frame(
            #[trigger] after.objects[k],
            pass.objects[k],
        ) by {
            assert(spec_same_frame(after.objects[k], before.objects[k]));
            assert(spec_same_frame(before.objects[k], pass.objects[k]));
        }
    }
}

/// What a tick does to the shape of the history: every object gains exactly
/// one snapshot and is looked at one tick later, no object is added or
/// dropped, and the event log gains one entry. A simulation that is well
/// formed stays so, and one whose objects are all looked at their newest
/// snapshot stays so.
pub proof fn lemma_step_extends_timelines(sim: ClassicSimulationView, change: Option<bool>)
    requires
        sim.can_step(),
        sim.global_acc_list.len() == crate::simulation::GLOBAL_FORCE_SLOTS,
    ensures
        sim.step(change).objects.len() == sim.objects.len(),
        sim.step(change).events.len() == sim.events.len() + 1,
        sim.step(change).global_acc_list.len() == sim.global_acc_list.len(),
        forall|k: int|
            0 <= k < sim.objects.len() ==> {
                let before = sim.objects[k];
                let after = #[trigger] sim.step(change).objects[k];
                &&& after.state_timeline.len() == before.state_timeline.len() + 1
                &&& after.timestep == before.timestep + 1
                &&& after.init_timestep == before.init_timestep
                &&& after.hide == before.hide
                &&& after.attached == before.attached
                &&& after.has_current()
                &&& before.wf() ==> after.wf()
                &&& before.is_live() ==> after.is_live()
            },
        sim.wf() ==> sim.step(change).wf(),
        sim.is_live() ==> sim.step(change).is_live(),
{
    let global_acc_list = crate::simulation::spec_global_after(sim.global_acc_list, change);
    let global_acc = spec_sum(global_acc_list);
    let integrated = spec_physics_pass(sim.objects, global_acc);
    let start = CollisionPass { objects: integrated, events: Seq::empty(), tested: Seq::empty() };
    let n = sim.objects.len() as int;
    assert forall|k: int| 0 <= k < n implies {
        let before = sim.objects[k];
        let after = #[trigger] integrated[k];
        &&& after.state_timeline.len() == before.state_timeline.len() + 1
        &&& after.timestep == before.timestep + 1
        &&& after.init_timestep == before.init_timestep
        &&& after.hide == before.hide
        &&& after.attached == before.attached
        &&& after.has_current()
    } by {
        assert(sim.objects[k].has_current());
    }
    lemma_rows_keep_frames(start, n, n);
    let after_all = sim.step(change).objects;
    assert(after_all == spec_collide_rows(start, n, n).objects);
    assert forall|k: int| 0 <= k < n implies {
        let before = sim.objects[k];
        let after = #[trigger] after_all[k];
        &&& after.state_timeline.len() == before.state_timeline.len() + 1
        &&& after.timestep == before.timestep + 1
        &&& after.init_timestep == before.init_timestep
        &&& after.hide == before.hide
        &&& after.attached == before.attached
        &&& after.has_current()
        &&& before.wf() ==> after.wf()
        &&& before.is_live() ==> after.is_live()
    } by {
        assert(sim.objects[k].has_current());
        assert(spec_same_frame(after_all[k], integrated[k]));
    }
    if sim.wf() {
        assert forall|k: int| 0 <= k < sim.step(change).objects.len() implies (
        #[trigger] sim.step(change).objects[k]).wf() by {
            assert(sim.objects[k].wf());
        }
    }
    if sim.is_live() {
        assert forall|k: int| 0 <= k < sim.step(change).objects.len() implies (
        #[trigger] sim.step(change).objects[k]).is_live() by {
            assert(sim.objects[k].is_live());
        }
    }
}

/// An object that is alone in the simulation meets nothing: a tick is its
/// own part of the tick and no event.
pub proof fn lemma_lone_object_step(sim: ClassicSimulationView, change: Option<bool>)
    requires
        sim.objects.len() == 1,
    ensures
        sim.step(change).objects =~= seq![
            spec_step_object(
                sim.objects[0],
                spec_sum(crate::simulation::spec_global_after(sim.global_acc_list, change)),
            ),
        ],
        sim.step(change).events.last() =~= Seq::<crate::event::SimulationEvent>::empty(),
{
    let global_acc_list = crate::simulation::spec_global_after(sim.global_acc_list, change);
    let integrated = spec_physics_pass(sim.objects, spec_sum(global_acc_list));
    let start = CollisionPass { objects: integrated, events: Seq::empty(), tested: Seq::empty() };
    assert(spec_collide_rows(start, 0, 1) == start);
    assert(spec_collide_row(start, 0, 1) == start);
    assert(spec_collide_rows(start, 1, 1) == start);
}

/// Whether the history of every object reaches exactly to tick `newest`:
/// the object came into being at or before that tick and holds one snapshot
/// for each tick from then to `newest`.
pub open spec fn spec_covers(sim: ClassicSimulationView, newest: usize) -> bool {
    forall|k: int|
        0 <= k < sim.objects.len() ==> {
            &&& (#[trigger] sim.objects[k]).init_timestep <= newest
            &&& sim.objects[k].init_timestep + sim.objects[k].state_timeline.len() == newest + 1
        }
}

/// One entry per tick: a simulation whose histories reach to the newest
/// tick, and which is looked at that tick, can make the next tick, and
/// afterwards its histories reach to that next tick, at which it is looked.
pub proof fn lemma_step_covers(sim: ClassicSimulationView, newest: usize, change: Option<bool>)
    requires
        spec_covers(sim, newest),
        spec_looked_at(sim, newest),
        newest + 1 < usize::MAX,
        sim.global_acc_list.len() == crate::simulation::GLOBAL_FORCE_SLOTS,
    ensures
        sim.can_step(),
        sim.is_live(),
        spec_covers(sim.step(change), (newest + 1) as usize),
        spec_looked_at(sim.step(change), (newest + 1) as usize),
        sim.step(change).is_live(),
{
    assert forall|k: int| 0 <= k < sim.objects.len() implies {
        &&& (#[trigger] sim.objects[k]).has_current()
        &&& sim.objects[k].init_timestep + sim.objects[k].state_timeline.len() < usize::MAX
        &&& sim.objects[k].is_live()
    } by {
        assert(sim.objects[k].timestep == newest);
    }
    lemma_step_extends_timelines(sim, change);
    assert forall|k: int| 0 <= k < sim.step(change).objects.len() implies {
        let after = #[trigger] sim.step(change).objects[k];
        &&& after.init_timestep <= newest + 1
        &&& after.init_timestep + after.state_timeline.len() == newest + 2
        &&& after.timestep == newest + 1
        &&& after.hide == (newest + 1 < after.init_timestep)
    } by {
        assert(sim.objects[k].timestep == newest);
    }
}

/// Scrubbing inside the recorded ticks finds every object either hidden or
/// with a snapshot for the tick looked at, and leaves the histories as they
/// reach.
pub proof fn lemma_scrub_inside_history(sim: ClassicSimulationView, newest: usize, step: usize)
    requires
        spec_covers(sim, newest),
        step <= newest,
    ensures
        spec_covers(sim.at_time_step(step), newest),
        spec_looked_at(sim.at_time_step(step), step),
        forall|k: int|
            0 <= k < sim.objects.len() ==> {
                let object = #[trigger] sim.at_time_step(step).objects[k];
                object.hide != object.has_current()
            },
{
    assert forall|k: int| 0 <= k < sim.objects.len() implies {
        let object = #[trigger] sim.at_time_step(step).objects[k];
        &&& object.init_timestep <= newest
        &&& object.init_timestep + object.state_timeline.len() == newest + 1
        &&& object.hide != object.has_current()
    } by {
        assert(sim.objects[k].init_timestep <= newest);
    }
}

/// An object that is added while the newest tick is looked at joins the
/// histories: they still reach to that tick.
pub proof fn lemma_added_object_covers(
    sim: ClassicSimulationView,
    newest: usize,
    pos: NVec2,
)
    requires
        spec_covers(sim, newest),
        spec_looked_at(sim, newest),
    ensures
        spec_covers(
            ClassicSimulationView {
                objects: sim.objects.push(crate::simulation::spec_new_object(pos, newest)),
                ..sim
            },
            newest,
        ),
        spec_looked_at(
            ClassicSimulationView {
                objects: sim.objects.push(crate::simulation::spec_new_object(pos, newest)),
                ..sim
            },
            newest,
        ),
{
    let added = sim.objects.push(crate::simulation::spec_new_object(pos, newest));
    assert forall|k: int| 0 <= k < added.len() implies {
        &&& (#[trigger] added[k]).init_timestep <= newest
        &&& added[k].init_timestep + added[k].state_timeline.len() == newest + 1
        &&& added[k].timestep == newest
        &&& added[k].hide == (newest < added[k].init_timestep)
    } by {
        if k < sim.objects.len() {
            assert(added[k] == sim.objects[k]);
        }
    }
}

/// The scan for the object under the pointer works for boxes: a point lies
/// inside the polygon of a rectangle exactly if its height lies between the
/// heights of the lower and the upper side, the upper one included, and it
/// lies left of exactly one of the two upright sides.
pub proof fn lemma_box_containment(rect: crate::shape::Rect, center: NVec2, pos: NVec2)
    ensures
        ({
            let outline = crate::shape::ObjectShape::Rect(rect).spec_outline_at(center);
            let left = outline[0].x;
            let bottom = outline[0].y;
            let right = outline[2].x;
            let top = outline[2].y;
            &&& outline.len() == 4
            &&& outline[1] == (NVec2 { x: right, y: bottom })
            &&& outline[3] == (NVec2 { x: left, y: top })
            &&& crate::polygon::spec_is_inside(pos, outline) == (((pos.y.raw > bottom.raw) != (
            pos.y.raw > top.raw)) && ((right.raw > pos.x.raw) != (left.raw > pos.x.raw)))
        }),
{
    let outline = crate::shape::ObjectShape::Rect(rect).spec_outline_at(center);
    let corners = rect.spec_points();
    assert(corners.len() == 4);
    assert(outline.len() == 4);
    let left = outline[0].x;
    let bottom = outline[0].y;
    let right = outline[2].x;
    let top = outline[2].y;
    assert(outline[0] == corners[0].spec_add(center));
    assert(outline[1] == corners[1].spec_add(center));
    assert(outline[2] == corners[2].spec_add(center));
    assert(outline[3] == corners[3].spec_add(center));
    assert(crate::polygon::spec_next_vertex(outline, 0) == outline[1]);
    assert(crate::polygon::spec_next_vertex(outline, 1) == outline[2]);
    assert(crate::polygon::spec_next_vertex(outline, 2) == outline[3]);
    assert(crate::polygon::spec_next_vertex(outline, 3) == outline[0]);
    // The level sides are never crossed.
    assert(!crate::polygon::spec_crosses(pos, outline[0], outline[1]));
    assert(!crate::polygon::spec_crosses(pos, outline[2], outline[3]));
    // An upright side is crossed at its own place.
    let zero = Scalar { raw: 0 };
    lemma_zero_absorbs(pos.y.spec_sub(bottom));
    lemma_zero_absorbs(pos.y.spec_sub(top));
    lemma_zero_absorbs(top.spec_sub(bottom));
    lemma_zero_absorbs(bottom.spec_sub(top));
    lemma_add_zero(right);
    lemma_add_zero(left);
    assert(right.spec_sub(right) == zero);
    assert(left.spec_sub(left) == zero);
    assert(crate::polygon::spec_crosses(pos, outline[1], outline[2]) == (((pos.y.raw > bottom.raw)
        != (pos.y.raw > top.raw)) && right.raw > pos.x.raw));
    assert(crate::polygon::spec_crosses(pos, outline[3], outline[0]) == (((pos.y.raw > top.raw) != (
    pos.y.raw > bottom.raw)) && left.raw > pos.x.raw));
    // Count the four sides.
    let c0 = crate::polygon::spec_crossings(pos, outline, 0);
    let c1 = crate::polygon::spec_crossings(pos, outline, 1);
    let c2 = crate::polygon::spec_crossings(pos, outline, 2);
    let c3 = crate::polygon::spec_crossings(pos, outline, 3);
    let c4 = crate::polygon::spec_crossings(pos, outline, 4);
    assert(c0 == 0);
    assert(c1 == c0);
    assert(c2 == if crate::polygon::spec_crosses(pos, outline[1], outline[2]) {
        c1 + 1
    } else {
        c1
    });
    assert(c3 == c2);
    assert(c4 == if crate::polygon::spec_crosses(pos, outline[3], outline[0]) {
        c3 + 1
    } else {
        c3
    });
}

/// A gesture leaves a well-formed simulation well formed, as long as the
/// tick looked at is not the last that a machine number can count; it adds
/// at most one object and neither drops nor reorders any.
pub proof fn lemma_input_keeps_well_formed(
    sim: ClassicSimulationView,
    plot: crate::plot::PlotData,
    msg: crate::plot::InputMessage,
    step: usize,
)
    requires
        sim.wf(),
        step < usize::MAX,
    ensures
        ({
            let after = crate::simulation::spec_input(sim.objects, sim.operation, plot, msg, step).0;
            &&& sim.objects.len() <= after.len() <= sim.objects.len() + 1
            &&& forall|k: int| 0 <= k < after.len() ==> (#[trigger] after[k]).wf()
            &&& forall|k: int|
                0 <= k < sim.objects.len() ==> spec_same_frame(#[trigger] after[k], sim.objects[k])
        }),
{
    let after = crate::simulation::spec_input(sim.objects, sim.operation, plot, msg, step).0;
    assert forall|k: int| 0 <= k < after.len() implies (#[trigger] after[k]).wf() && (k
        < sim.objects.len() ==> spec_same_frame(after[k], sim.objects[k])) by {
        if k < sim.objects.len() {
            assert(sim.objects[k].wf());
        }
    }
}

/// Free flight of moderate size stays inside the representable range: from
/// a place and a velocity of at most a thousand, with a gain and a
/// correction per tick of at most one, for at most a thousand ticks.
pub proof fn lemma_flight_stays_in_range(p0: int, v0: int, c: int, h: int, n: nat)
    requires
        magnitude(p0) <= 1_000_000_000_000_000,
        magnitude(v0) <= 1_000_000_000_000_000,
        magnitude(c) <= 1_000_000_000_000,
        magnitude(h) <= 1_000_000_000_000,
        n <= 1000,
    ensures
        spec_flight_in_range(p0, v0, c, h, n),
        magnitude(spec_flight_velocity(v0, c, n)) <= 2_000_000_000_000_000,
        magnitude(spec_flight_position(p0, v0, c, h, n)) <= 1_000_000_000_000_000 + n
            * 3_000_000_000_000_000,
    decreases n,
{
    assert(magnitude(n * c) <= 1000 * 1_000_000_000_000) by (nonlinear_arith)
        requires
            0 <= n <= 1000,
            magnitude(c) <= 1_000_000_000_000,
            magnitude(n * c) == if n * c < 0 {
                -(n * c)
            } else {
                n * c
            },
            magnitude(c) == if c < 0 {
                -c
            } else {
                c
            },
    ;
    if n > 0 {
        let m = (n - 1) as nat;
        lemma_flight_stays_in_range(p0, v0, c, h, m);
        lemma_quotient_bounds(spec_flight_velocity(v0, c, m), 240);
        assert(n * 3_000_000_000_000_000 == m * 3_000_000_000_000_000 + 3_000_000_000_000_000)
            by (nonlinear_arith)
            requires
                n == m + 1,
        ;
        assert(n * 3_000_000_000_000_000 <= 3_000_000_000_000_000_000) by (nonlinear_arith)
            requires
                0 <= n <= 1000,
        ;
    }
}

/// Under gravity the correction per tick is nothing sideways and
/// 0.000085069444 downward.
pub proof fn lemma_gravity_correction_per_tick()
    ensures
        spec_correction_per_tick(crate::simulation::spec_gravity()).x.raw == 0,
        spec_correction_per_tick(crate::simulation::spec_gravity()).y.raw == -85_069_444,
{
    lemma_gravity_per_tick();
    let c = spec_velocity_per_tick(crate::simulation::spec_gravity());
    lemma_div_by_whole(c.x, 240);
    lemma_div_by_whole(c.y, 240);
    let per_tick = c.spec_unscale(spec_ticks_per_second());
    assert(per_tick.y.raw == -170_138_888);
    assert(per_tick.x.raw == 0);
    lemma_div_by_whole(per_tick.x, 2);
    lemma_div_by_whole(per_tick.y, 2);
}

/// The height, under gravity, of `object` after `k` ticks of its own.
pub open spec fn spec_height_after(object: CSimObjectView, k: nat) -> int {
    spec_step_object_times(
        object,
        crate::simulation::spec_gravity(),
        k,
    ).current_state().position.y.raw as int
}

/// A throw lands when the formula says: an object that is thrown from the
/// ground with the upward velocity ten, and then falls freely under gravity,
/// is not below the ground after any of the first 489 ticks and is below it
/// after the 490th. The formula `2·v/g` gives 2.0408 seconds, which lies
/// between the times of these two ticks.
pub proof fn lemma_throw_lands(object: CSimObjectView)
    requires
        spec_falls_freely(object),
        object.current_state().position.y.raw == 0,
        object.current_state().velocity.y.raw == 10_000_000_000_000,
        magnitude(object.current_state().position.x.raw as int) <= 1_000_000_000_000_000,
        magnitude(object.current_state().velocity.x.raw as int) <= 1_000_000_000_000_000,
        object.init_timestep + object.state_timeline.len() + 490 <= usize::MAX,
    ensures
        forall|k: nat| k <= 489 ==> #[trigger] spec_height_after(object, k) >= 0,
        spec_height_after(object, 490) < 0,
        98 * spec_time_of(489).raw < 200 * crate::scalar::SCALE < 98 * spec_time_of(490).raw,
{
    assert forall|k: nat| k <= 489 implies #[trigger] spec_height_after(object, k) >= 0 by {
        lemma_height_in_flight(object, k);
        let height = spec_height_after(object, k);
        assert(k * (32_499_999_896 + 40_833_333_333 * (489 - k)) >= 0) by (nonlinear_arith)
            requires
                0 <= k <= 489,
        ;
        assert(2 * k * 10_000_000_000_000 + (-40_833_333_333) * k * (k - 1) - 480 * k + 480 * (k
            * (-85_069_444)) == k * (32_499_999_896 + 40_833_333_333 * (489 - k)))
            by (nonlinear_arith);
    }
    lemma_height_in_flight(object, 490);
    assert(2 * 490 * 10_000_000_000_000 + (-40_833_333_333) * 490 * (490 - 1) + 480 * 490 + 480
        * (490 * (-85_069_444)) < 0) by (nonlinear_arith);
    assert(489 * crate::scalar::SCALE == 489_000_000_000_000) by (nonlinear_arith)
        requires
            crate::scalar::SCALE == 1_000_000_000_000,
    ;
    assert(490 * crate::scalar::SCALE == 490_000_000_000_000) by (nonlinear_arith)
        requires
            crate::scalar::SCALE == 1_000_000_000_000,
    ;
    assert(crate::state::TICKS_PER_SECOND == 240);
    vstd::arithmetic::div_mod::lemma_fundamental_div_mod_converse(
        489_000_000_000_000,
        240,
        2_037_500_000_000,
        0,
    );
    vstd::arithmetic::div_mod::lemma_fundamental_div_mod_converse(
        490_000_000_000_000,
        240,
        2_041_666_666_666,
        160,
    );
    assert(quotient_toward_zero(489_000_000_000_000, 240) == 2_037_500_000_000);
    assert(quotient_toward_zero(490_000_000_000_000, 240) == 2_041_666_666_666);
    assert(spec_time_of(489) == Scalar::spec_from_ratio(489, 240));
    assert(spec_time_of(490) == Scalar::spec_from_ratio(490, 240));
    assert(Scalar::spec_from_ratio(489, 240).raw == 2_037_500_000_000);
    assert(Scalar::spec_from_ratio(490, 240).raw == 2_041_666_666_666);
}

/// The height of a throw from the ground with the upward velocity ten is,
/// after at most 490 ticks, that of free flight, within its bounds.
pub proof fn lemma_height_in_flight(object: CSimObjectView, k: nat)
    requires
        spec_falls_freely(object),
        object.current_state().position.y.raw == 0,
        object.current_state().velocity.y.raw == 10_000_000_000_000,
        magnitude(object.current_state().position.x.raw as int) <= 1_000_000_000_000_000,
        magnitude(object.current_state().velocity.x.raw as int) <= 1_000_000_000_000_000,
        object.init_timestep + object.state_timeline.len() + 490 <= usize::MAX,
        k <= 490,
    ensures
        2 * k * 10_000_000_000_000 + (-40_833_333_333) * k * (k - 1) - 480 * k <= 480 * (
        spec_height_after(object, k) - k * (-85_069_444)),
        480 * (spec_height_after(object, k) - k * (-85_069_444)) <= 2 * k * 10_000_000_000_000 + (
        -40_833_333_333) * k * (k - 1) + 480 * k,
{
    let gravity = crate::simulation::spec_gravity();
    lemma_gravity_per_tick();
    lemma_gravity_correction_per_tick();
    let start = object.current_state();
    lemma_flight_stays_in_range(start.position.x.raw as int, start.velocity.x.raw as int, 0, 0, k);
    lemma_flight_stays_in_range(0, 10_000_000_000_000, -40_833_333_333, -85_069_444, k);
    lemma_free_flight(object, gravity, k);
    lemma_flight_bounds(0, 10_000_000_000_000, -40_833_333_333, -85_069_444, k);
}

/// A throw at 30 degrees with the speed twenty starts at the origin with the
/// velocity `(17.32050807572, 10)`, whatever its mass.
pub proof fn lemma_thrown_at_thirty_degrees(throw: BasicSimInitObjData)
    requires
        throw.theta == Scalar::spec_from_int(30),
        throw.start_velocity_mul == Scalar::spec_from_int(20),
    ensures
        spec_thrown(throw).velocity == (NVec2 {
            x: Scalar { raw: 17_320_508_075_720 },
            y: Scalar { raw: 10_000_000_000_000 },
        }),
        spec_thrown(throw).position == NVec2::spec_zeros(),
        spec_thrown(throw).mass == throw.mass,
        spec_thrown(throw).spec_acceleration() == NVec2::spec_zeros(),
{
    crate::angle::lemma_direction_at_thirty_degrees();
    crate::scalar::lemma_from_int_value(20);
    let speed = Scalar::spec_from_int(20);
    crate::scalar::lemma_mul_value(Scalar { raw: 866_025_403_786 }, speed, 17_320_508_075_720);
    crate::scalar::lemma_mul_value(Scalar { raw: 500_000_000_000 }, speed, 10_000_000_000_000);
    let first = spec_thrown(throw);
    assert(first.acc_list@ =~= seq![NVec2::spec_zeros(), NVec2::spec_zeros()]);
    let slots = first.acc_list@;
    assert(slots.drop_last() =~= seq![NVec2::spec_zeros()]);
    assert(slots.drop_last().drop_last() =~= Seq::<NVec2>::empty());
    assert(spec_sum(slots.drop_last().drop_last()) == NVec2::spec_zeros());
    assert(spec_sum(slots.drop_last()) == NVec2::spec_zeros());
}

/// The time of flight of the throw at 30 degrees with the speed twenty: a
/// new object without behavior that is thrown so, and then meets nothing, is
/// not below the ground after any of its first 489 ticks and is below it
/// after the 490th, whatever its mass. So the capture below the ground
/// answers nothing up to tick 489 and answers at tick 490, with the time it is
/// asked at; the time `2·10/9.8` of the formula lies between the times of
/// these two ticks.
pub proof fn lemma_time_of_flight(object: CSimObjectView, throw: BasicSimInitObjData)
    requires
        throw.theta == Scalar::spec_from_int(30),
        throw.start_velocity_mul == Scalar::spec_from_int(20),
        object.state_timeline == seq![spec_thrown(throw)],
        object.init_timestep == 0,
        object.timestep == 0,
        object.attached is None,
    ensures
        forall|k: nat, time: Scalar, answer: Option<CSObjectStampResult>|
            k <= 489 && #[trigger] spec_below_ground(
                spec_step_object_times(
                    object,
                    crate::simulation::spec_gravity(),
                    k,
                ).current_state(),
                time,
                answer,
            ) ==> answer is None,
        forall|time: Scalar, answer: Option<CSObjectStampResult>| #[trigger]
            spec_below_ground(
                spec_step_object_times(
                    object,
                    crate::simulation::spec_gravity(),
                    490,
                ).current_state(),
                time,
                answer,
            ) ==> answer is Some && answer.unwrap().time == time,
        98 * spec_time_of(489).raw < 200 * crate::scalar::SCALE < 98 * spec_time_of(490).raw,
{
    lemma_thrown_at_thirty_degrees(throw);
    assert(object.current_state() == spec_thrown(throw));
    assert(object.previous_state() is None);
    lemma_throw_lands(object);
    assert forall|k: nat, time: Scalar, answer: Option<CSObjectStampResult>|
        k <= 489 && #[trigger] spec_below_ground(
            spec_step_object_times(object, crate::simulation::spec_gravity(), k).current_state(),
            time,
            answer,
        ) implies answer is None by {
        assert(spec_height_after(object, k) >= 0);
    }
    assert(spec_height_after(object, 490) < 0);
}

} // verus!
