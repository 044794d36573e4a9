//! The physical state of one object at one tick, the integrator that advances
//! it, and the contact test between two states.

use crate::event::CollisionEvent;
use crate::scalar::Scalar;
use crate::shape::{Circle, ObjectShape, DEFAULT_RADIUS_RAW};
use crate::vector::{spec_sum, NVec2};
use vstd::prelude::*;

verus! {

/// The number of acceleration slots of an object.
pub const FORCE_SLOTS: usize = 2;

/// The number of ticks in a second.
pub const TICKS_PER_SECOND: usize = 240;

/// The raw mass of the default state: ten.
pub const DEFAULT_MASS_RAW: i64 = 10_000_000_000_000;

/// The named acceleration slots of an object.
#[derive(Clone, Copy, Debug, PartialEq, Eq, Structural)]
pub enum ForceIndex {
    /// Written by the object's attached behavior.
    Attached,
    /// Written while the pointer drags the object.
    UserInteraction,
}

impl ForceIndex {
    /// The position of the slot in an acceleration list.
    pub open spec fn spec_index(self) -> int {
        match self {
            ForceIndex::Attached => 0,
            ForceIndex::UserInteraction => 1,
        }
    }

    /// The position of the slot in an acceleration list.
    pub fn index(self) -> (r: usize)
        ensures
            r == self.spec_index(),
            r < FORCE_SLOTS,
    {
        match self {
            ForceIndex::Attached => 0,
            ForceIndex::UserInteraction => 1,
        }
    }
}

/// The number of ticks in a second, as a scalar.
pub open spec fn spec_ticks_per_second() -> Scalar {
    Scalar::spec_from_int(TICKS_PER_SECOND as int)
}

/// The time at which tick `step` is made: `step` 240ths of a second.
pub open spec fn spec_time_of(step: nat) -> Scalar {
    Scalar::spec_from_ratio(step, TICKS_PER_SECOND as nat)
}

/// The time at which tick `step` is made.
pub fn time_of(step: usize) -> (r: Scalar)
    ensures
        r == spec_time_of(step as nat),
{
    Scalar::from_ratio(step, TICKS_PER_SECOND)
}

/// The length of one tick: a 240th of a second, rounded toward zero.
pub fn simulation_tick() -> (r: Scalar)
    ensures
        r == spec_time_of(1),
{
    time_of(1)
}

/// Something that can be tested for contact with the state of an object.
pub trait Collision {
    /// The contact with `ops`, if there is one.
    spec fn contact_with(&self, ops: &CSObjectState) -> Option<CollisionEvent>;

    /// Tests `self` against `ops` for contact.
    fn contact(&self, ops: &CSObjectState) -> (r: Option<CollisionEvent>)
        ensures
            r == self.contact_with(ops),
    ;
}

/// What is known of one object at one tick.
#[derive(Clone, Copy, Debug)]
pub struct CSObjectState {
    pub position: NVec2,
    pub velocity: NVec2,
    /// The velocity one tick earlier.
    pub last_velocity: NVec2,
    pub mass: Scalar,
    /// The object's own accelerations, one per [`ForceIndex`].
    pub acc_list: [NVec2; 2],
    pub shape: ObjectShape,
}

impl CSObjectState {
    /// The mass is positive. Nothing here divides by a mass without it, but
    /// a mass of zero makes every quotient by it zero.
    pub open spec fn wf(self) -> bool {
        self.mass.raw > 0
    }

    /// The state that a new object starts from: at rest at the origin, mass
    /// ten, no acceleration, a circle of radius ten.
    pub open spec fn spec_default() -> CSObjectState {
        CSObjectState {
            position: NVec2::spec_zeros(),
            velocity: NVec2::spec_zeros(),
            last_velocity: NVec2::spec_zeros(),
            mass: Scalar { raw: DEFAULT_MASS_RAW },
            acc_list: [NVec2::spec_zeros(), NVec2::spec_zeros()],
            shape: ObjectShape::Circle(Circle { radius: Scalar { raw: DEFAULT_RADIUS_RAW } }),
        }
    }

    /// Velocity times mass.
    pub open spec fn spec_momentum(self) -> NVec2 {
        self.velocity.spec_scale(self.mass)
    }

    /// The sum of the acceleration slots.
    pub open spec fn spec_acceleration(self) -> NVec2 {
        spec_sum(self.acc_list@)
    }

    /// Acceleration times mass.
    pub open spec fn spec_sigma_force(self) -> NVec2 {
        self.spec_acceleration().spec_scale(self.mass)
    }

    /// Five plus a quarter of the mass.
    pub open spec fn spec_scale(self) -> Scalar {
        Scalar::spec_from_int(5).spec_add(self.mass.spec_div(Scalar::spec_from_int(4)))
    }

    /// This state with slot `slot` holding `value`.
    pub open spec fn spec_with_acceleration(self, slot: ForceIndex, value: NVec2) -> CSObjectState {
        CSObjectState {
            acc_list: vstd::array::spec_array_update(self.acc_list, slot.spec_index(), value),
            ..self
        }
    }

    /// The state one tick after `self`, under the global acceleration
    /// `global_acc`, where `previous` is the state one tick before `self`.
    ///
    /// With `a` the object's own acceleration now and `a'` the one of
    /// `previous`, the velocity grows by `dv = (a + global_acc)·dt + ((a - a')·dt)/2`
    /// and the position by `v·dt + (dv·dt)/2`, where `v` is the velocity before
    /// the tick, which becomes `last_velocity`. The tick `dt` is a 240th of a
    /// second: a product with `dt` is a division by 240.
    pub open spec fn spec_integrate(self, previous: CSObjectState, global_acc: NVec2) -> CSObjectState {
        let ticks = spec_ticks_per_second();
        let two = Scalar::spec_from_int(2);
        let current_acc = self.spec_acceleration();
        let sum_acc = current_acc.spec_add(global_acc);
        let delta_a = current_acc.spec_sub(previous.spec_acceleration());
        let delta_v = sum_acc.spec_unscale(ticks).spec_add(
            delta_a.spec_unscale(ticks).spec_unscale(two),
        );
        let delta_pos = self.velocity.spec_unscale(ticks).spec_add(
            delta_v.spec_unscale(ticks).spec_unscale(two),
        );
        CSObjectState {
            last_velocity: self.velocity,
            velocity: self.velocity.spec_add(delta_v),
            position: self.position.spec_add(delta_pos),
            ..self
        }
    }

    /// The contact between `self` and `ops`, if both are circles that overlap.
    ///
    /// The penetration is the sum of the radii less the distance of the
    /// centres; there is a contact when it is positive. The normal points from
    /// `ops` to `self` and is zero when the centres coincide. With `t` the
    /// normal with its components exchanged, each object's momentum is
    /// measured along `t` and divided by `t · normal`; the first object gains
    /// the magnitude of the second's measure, divided by its own mass, along
    /// the normal, and the second gains the magnitude of the first's measure,
    /// divided by its own mass, against the normal.
    pub open spec fn spec_contact(self, ops: CSObjectState) -> Option<CollisionEvent> {
        match (self.shape, ops.shape) {
            (ObjectShape::Circle(circle), ObjectShape::Circle(circle2)) => {
                let delta_pos = self.position.spec_sub(ops.position);
                let dist = delta_pos.spec_norm();
                let penetration = circle.radius.spec_add(circle2.radius).spec_sub(dist);
                if penetration.raw > 0 {
                    let contact_normal = if dist.raw == 0 {
                        NVec2::spec_zeros()
                    } else {
                        delta_pos.spec_normalize()
                    };
                    let tangent = contact_normal.spec_yx();
                    let along = tangent.spec_dot(contact_normal);
                    let scale1 = tangent.spec_dot(self.spec_momentum()).spec_div(along);
                    let scale2 = tangent.spec_dot(ops.spec_momentum()).spec_div(along);
                    Some(
                        CollisionEvent {
                            contact_point: self.position.spec_sub(
                                contact_normal.spec_scale(circle.radius),
                            ),
                            contact_normal,
                            obj1_velocity: contact_normal.spec_scale(
                                scale2.spec_abs().spec_div(self.mass),
                            ),
                            obj2_velocity: contact_normal.spec_neg().spec_scale(
                                scale1.spec_abs().spec_div(ops.mass),
                            ),
                            obj1_state: self,
                            obj2_state: ops,
                            penetration,
                        },
                    )
                } else {
                    None
                }
            },
            _ => None,
        }
    }

    /// Whether the mass is positive.
    pub fn is_valid(&self) -> (r: bool)
        ensures
            r == self.wf(),
    {
        self.mass.gt(Scalar::zero())
    }

    /// Velocity times mass.
    pub fn momentum(&self) -> (r: NVec2)
        ensures
            r == self.spec_momentum(),
    {
        self.velocity.scale(self.mass)
    }

    /// The net force on the object: its acceleration times its mass.
    pub fn sigma_force(&self) -> (r: NVec2)
        ensures
            r == self.spec_sigma_force(),
    {
        self.acceleration().scale(self.mass)
    }

    /// The object's own acceleration: the sum of its slots.
    pub fn acceleration(&self) -> (r: NVec2)
        ensures
            r == self.spec_acceleration(),
    {
        crate::vector::sum(self.acc_list.as_slice())
    }

    /// The size at which the object is drawn by default.
    pub fn scale(&self) -> (r: Scalar)
        ensures
            r == self.spec_scale(),
    {
        Scalar::from_int(5).add(self.mass.div(Scalar::from_int(4)))
    }

    /// Writes `value` into acceleration slot `slot`.
    pub fn set_acceleration(&mut self, slot: ForceIndex, value: NVec2)
        ensures
            *final(self) == old(self).spec_with_acceleration(slot, value),
    {
        let i = slot.index();
        self.acc_list[i] = value;
        proof {
            assert(self.acc_list =~= vstd::array::spec_array_update(
                old(self).acc_list,
                slot.spec_index(),
                value,
            ));
        }
    }

    /// The state one tick after `self`.
    pub fn integrate(&self, previous: &CSObjectState, global_acc: NVec2) -> (r: CSObjectState)
        ensures
            r == self.spec_integrate(*previous, global_acc),
            r.wf() == self.wf(),
    {
        let ticks = Scalar::from_int(240);
        let two = Scalar::from_int(2);
        let current_acc = self.acceleration();
        let sum_acc = current_acc.add(global_acc);
        let delta_a = current_acc.sub(previous.acceleration());
        let delta_v = sum_acc.unscale(ticks).add(delta_a.unscale(ticks).unscale(two));
        let delta_pos = self.velocity.unscale(ticks).add(delta_v.unscale(ticks).unscale(two));
        CSObjectState {
            position: self.position.add(delta_pos),
            velocity: self.velocity.add(delta_v),
            last_velocity: self.velocity,
            mass: self.mass,
            acc_list: self.acc_list,
            shape: self.shape,
        }
    }
}

impl Collision for CSObjectState {
    open spec fn contact_with(&self, ops: &CSObjectState) -> Option<CollisionEvent> {
        self.spec_contact(*ops)
    }

    fn contact(&self, ops: &CSObjectState) -> (r: Option<CollisionEvent>) {
        match (self.shape, ops.shape) {
            (ObjectShape::Circle(circle), ObjectShape::Circle(circle2)) => {
                let delta_pos = self.position.sub(ops.position);
                let dist = delta_pos.norm();
                let penetration = circle.radius.add(circle2.radius).sub(dist);
                if penetration.gt(Scalar::zero()) {
                    let contact_normal = if dist.is_zero() {
                        NVec2::zeros()
                    } else {
                        delta_pos.normalize()
                    };
                    let tangent = contact_normal.yx();
                    let along = tangent.dot(contact_normal);
                    let scale1 = tangent.dot(self.momentum()).div(along);
                    let scale2 = tangent.dot(ops.momentum()).div(along);
                    Some(
                        CollisionEvent {
                            contact_point: self.position.sub(contact_normal.scale(circle.radius)),
                            contact_normal,
                            obj1_velocity: contact_normal.scale(scale2.abs().div(self.mass)),
                            obj2_velocity: contact_normal.neg().scale(scale1.abs().div(ops.mass)),
                            obj1_state: *self,
                            obj2_state: *ops,
                            penetration,
                        },
                    )
                } else {
                    None
                }
            },
            _ => None,
        }
    }
}

impl Default for CSObjectState {
    fn default() -> (r: CSObjectState)
        ensures
            r == CSObjectState::spec_default(),
            r.wf(),
    {
        CSObjectState {
            position: NVec2::zeros(),
            velocity: NVec2::zeros(),
            last_velocity: NVec2::zeros(),
            mass: Scalar::from_raw(DEFAULT_MASS_RAW),
            acc_list: [NVec2::zeros(), NVec2::zeros()],
            shape: ObjectShape::default(),
        }
    }
}

/// Builds a state field by field, starting from the default state.
pub struct CSObjectStateBuilder {
    pub state: CSObjectState,
}

impl CSObjectStateBuilder {
    /// A builder that holds the default state.
    pub fn new() -> (r: CSObjectStateBuilder)
        ensures
            r.state == CSObjectState::spec_default(),
    {
        CSObjectStateBuilder { state: CSObjectState::default() }
    }

    /// A builder that holds `state`.
    pub fn from_state(state: CSObjectState) -> (r: CSObjectStateBuilder)
        ensures
            r.state == state,
    {
        CSObjectStateBuilder { state }
    }

    /// Sets the position.
    pub fn position(&mut self, position: NVec2) -> (r: &mut CSObjectStateBuilder)
        ensures
            r.state == (CSObjectState { position, ..old(self).state }),
            *final(self) == *final(r),
    {
        self.state.position = position;
        self
    }

    /// Sets the velocity.
    pub fn velocity(&mut self, velocity: NVec2) -> (r: &mut CSObjectStateBuilder)
        ensures
            r.state == (CSObjectState { velocity, ..old(self).state }),
            *final(self) == *final(r),
    {
        self.state.velocity = velocity;
        self
    }

    /// Sets the mass.
    pub fn mass(&mut self, mass: Scalar) -> (r: &mut CSObjectStateBuilder)
        ensures
            r.state == (CSObjectState { mass, ..old(self).state }),
            *final(self) == *final(r),
    {
        self.state.mass = mass;
        self
    }

    /// The state that was built.
    pub fn build(self) -> (r: CSObjectState)
        ensures
            r == self.state,
    {
        self.state
    }
}

} // verus!
