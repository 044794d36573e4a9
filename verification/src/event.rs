//! What happened during one tick.

use crate::graphics::Arrow;
use crate::scalar::Scalar;
use crate::state::CSObjectState;
use crate::vector::NVec2;
use vstd::prelude::*;

verus! {

/// One contact between two objects.
#[derive(Clone, Copy, Debug)]
pub struct CollisionEvent {
    pub contact_point: NVec2,
    /// The unit vector from the second object to the first; zero when their
    /// centres coincide.
    pub contact_normal: NVec2,
    /// The change of the first object's velocity.
    pub obj1_velocity: NVec2,
    /// The change of the second object's velocity.
    pub obj2_velocity: NVec2,
    /// The first object when the contact was found.
    pub obj1_state: CSObjectState,
    /// The second object when the contact was found.
    pub obj2_state: CSObjectState,
    pub penetration: Scalar,
}

impl CollisionEvent {
    /// The three arrows that show the contact: from the second object
    /// against the normal, ten long; and at each object its velocity change.
    pub open spec fn spec_shapes(self) -> Seq<Arrow> {
        seq![
            Arrow::spec_at(
                self.obj2_state.position,
                self.contact_normal.spec_neg().spec_scale(Scalar::spec_from_int(10)),
            ),
            Arrow::spec_at(self.obj1_state.position, self.obj1_velocity),
            Arrow::spec_at(self.obj2_state.position, self.obj2_velocity),
        ]
    }

    /// The arrows that show the contact.
    pub fn get_shapes(&self) -> (r: Vec<Arrow>)
        ensures
            r@ == self.spec_shapes(),
    {
        let mut shapes: Vec<Arrow> = Vec::new();
        shapes.push(
            Arrow::at(
                self.obj2_state.position,
                self.contact_normal.neg().scale(Scalar::from_int(10)),
            ),
        );
        shapes.push(Arrow::at(self.obj1_state.position, self.obj1_velocity));
        shapes.push(Arrow::at(self.obj2_state.position, self.obj2_velocity));
        proof {
            assert(shapes@ =~= self.spec_shapes());
        }
        shapes
    }
}

/// One event of a tick.
#[derive(Clone, Copy, Debug)]
pub enum SimulationEvent {
    Collision(CollisionEvent),
}

impl SimulationEvent {
    /// The arrows that show the event.
    pub open spec fn spec_shapes(self) -> Seq<Arrow> {
        match self {
            SimulationEvent::Collision(event) => event.spec_shapes(),
        }
    }

    /// The arrows that show the event.
    pub fn get_shapes(&self) -> (r: Vec<Arrow>)
        ensures
            r@ == self.spec_shapes(),
    {
        match self {
            SimulationEvent::Collision(event) => event.get_shapes(),
        }
    }
}

/// The arrows of the first `k` events of `events`, in order.
pub open spec fn spec_shapes_of(events: Seq<SimulationEvent>, k: nat) -> Seq<Arrow>
    decreases k,
{
    if k == 0 {
        Seq::empty()
    } else {
        spec_shapes_of(events, (k - 1) as nat) + events[k - 1].spec_shapes()
    }
}

impl From<CollisionEvent> for SimulationEvent {
    fn from(event: CollisionEvent) -> (r: SimulationEvent) {
        SimulationEvent::Collision(event)
    }
}

impl vstd::std_specs::convert::FromSpecImpl<CollisionEvent> for SimulationEvent {
    open spec fn obeys_from_spec() -> bool {
        true
    }

    open spec fn from_spec(event: CollisionEvent) -> SimulationEvent {
        SimulationEvent::Collision(event)
    }
}

/// The events of one tick, in the order in which they occurred.
#[derive(Debug)]
pub struct SimulationEvents(pub Vec<SimulationEvent>);

impl View for SimulationEvents {
    type V = Seq<SimulationEvent>;

    open spec fn view(&self) -> Seq<SimulationEvent> {
        self.0@
    }
}

impl Default for SimulationEvents {
    fn default() -> (r: SimulationEvents)
        ensures
            r@ == Seq::<SimulationEvent>::empty(),
    {
        SimulationEvents(Vec::new())
    }
}

impl SimulationEvents {
    /// Appends `events`, in order.
    pub fn add_events(&mut self, events: Vec<SimulationEvent>)
        ensures
            final(self)@ == old(self)@ + events@,
    {
        let mut i: usize = 0;
        while i < events.len()
            invariant
                i <= events.len(),
                self@ == old(self)@ + events@.take(i as int),
            decreases events.len() - i,
        {
            self.0.push(events[i]);
            proof {
                assert(events@.take(i + 1) =~= events@.take(i as int).push(events@[i as int]));
                assert(self@ =~= old(self)@ + events@.take(i + 1));
            }
            i = i + 1;
        }
        proof {
            assert(events@.take(i as int) =~= events@);
        }
    }

    /// Appends `event`.
    pub fn add_event(&mut self, event: SimulationEvent)
        ensures
            final(self)@ == old(self)@.push(event),
    {
        self.0.push(event);
    }

    /// The arrows that show the events, event by event.
    pub fn get_shapes(&self) -> (r: Vec<Arrow>)
        ensures
            r@ == spec_shapes_of(self@, self@.len()),
    {
        let mut shapes: Vec<Arrow> = Vec::new();
        let mut i: usize = 0;
        while i < self.0.len()
            invariant
                i <= self.0.len(),
                shapes@ == spec_shapes_of(self@, i as nat),
            decreases self.0.len() - i,
        {
            let mut more = self.0[i].get_shapes();
            shapes.append(&mut more);
            i = i + 1;
        }
        shapes
    }

    /// The number of events.
    pub fn len(&self) -> (r: usize)
        ensures
            r == self@.len(),
    {
        self.0.len()
    }

    /// Event `i`.
    pub fn get(&self, i: usize) -> (r: Option<SimulationEvent>)
        ensures
            r == if i < self@.len() {
                Some(self@[i as int])
            } else {
                None
            },
    {
        if i < self.0.len() {
            Some(self.0[i])
        } else {
            None
        }
    }
}

} // verus!
