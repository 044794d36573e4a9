//! The simulation: its objects, the global accelerations, the events of each
//! tick, and the tick itself.

use crate::event::{CollisionEvent, SimulationEvent, SimulationEvents};
use crate::object::{CSimObject, CSimObjectBuilder, CSimObjectView};
use crate::plot::{InputMessage, PlotData};
use crate::polygon::{is_inside, spec_is_inside};
use crate::scalar::Scalar;
use crate::sim_state::SimulationState;
use crate::state::{CSObjectState, Collision, ForceIndex};
use crate::vector::{spec_sum, NVec2};
use vstd::prelude::*;

verus! {

/// The raw vertical component of gravity: minus nine point eight.
pub const GRAVITY_Y_RAW: i64 = -9_800_000_000_000;

/// The number of global acceleration slots.
pub const GLOBAL_FORCE_SLOTS: usize = 1;

/// The named slots of the global acceleration list.
#[derive(Clone, Copy, Debug, PartialEq, Eq, Structural)]
pub enum GlobalForceSlot {
    Gravity,
}

impl GlobalForceSlot {
    /// The position of the slot in the global acceleration list.
    pub open spec fn spec_index(self) -> int {
        match self {
            GlobalForceSlot::Gravity => 0,
        }
    }

    /// The position of the slot in the global acceleration list.
    pub fn index(self) -> (r: usize)
        ensures
            r == self.spec_index(),
            r < GLOBAL_FORCE_SLOTS,
    {
        match self {
            GlobalForceSlot::Gravity => 0,
        }
    }
}

/// How pointer gestures are read.
#[derive(Clone, Copy, Debug, PartialEq, Eq, Hash, Structural)]
pub enum Operation {
    /// A click selects the object under the pointer.
    Navigate,
    /// Dragging pulls the object under the pointer toward the pointer.
    ForceDrag,
    /// Releasing a drag puts a new object under the pointer.
    AddObject,
    /// Reserved; gestures do nothing.
    RemoveObject,
    /// Reserved; gestures do nothing.
    EditObject,
}

impl Default for Operation {
    fn default() -> (r: Operation)
        ensures
            r == Operation::Navigate,
    {
        Operation::Navigate
    }
}

/// The acceleration of gravity.
pub open spec fn spec_gravity() -> NVec2 {
    NVec2 { x: Scalar { raw: 0 }, y: Scalar { raw: GRAVITY_Y_RAW } }
}

/// The acceleration of gravity.
pub fn gravity() -> (r: NVec2)
    ensures
        r == spec_gravity(),
{
    NVec2 { x: Scalar::zero(), y: Scalar::from_raw(GRAVITY_Y_RAW) }
}

/// No acceleration.
pub fn zero_force() -> (r: NVec2)
    ensures
        r == NVec2::spec_zeros(),
{
    NVec2::zeros()
}

/// The views of the objects of `objects`.
pub open spec fn object_views(objects: Seq<CSimObject>) -> Seq<CSimObjectView> {
    Seq::new(objects.len(), |k: int| objects[k]@)
}

/// The views of the event lists of `events`.
pub open spec fn event_views(events: Seq<SimulationEvents>) -> Seq<Seq<SimulationEvent>> {
    Seq::new(events.len(), |k: int| events[k]@)
}

/// `state` with `delta` added to its velocity.
pub open spec fn spec_pushed(state: CSObjectState, delta: NVec2) -> CSObjectState {
    CSObjectState { velocity: state.velocity.spec_add(delta), ..state }
}

/// One object after its part of a tick: the attached behavior, if there is
/// one, writes its acceleration slot in the snapshot for the tick looked at;
/// that snapshot is integrated in place, against the snapshot one tick
/// earlier, or against itself where there is none; and a copy of it is
/// appended as the newest snapshot, which is the one looked at from then on.
pub open spec fn spec_step_object(object: CSimObjectView, global_acc: NVec2) -> CSimObjectView {
    let prepared = match object.attached {
        Some(behavior) => object.with_current(behavior.spec_apply(object.current_state())),
        None => object,
    };
    let previous = match prepared.previous_state() {
        Some(state) => state,
        None => prepared.current_state(),
    };
    prepared.with_current(prepared.current_state().spec_integrate(previous, global_acc)).save_state()
}

/// Where the collision pass stands: the objects, the events found so far,
/// and the pairs of indices that were tested, in the order of the tests.
pub struct CollisionPass {
    pub objects: Seq<CSimObjectView>,
    pub events: Seq<SimulationEvent>,
    pub tested: Seq<(int, int)>,
}

/// The pass after objects `i` and `j` were tested against each other: where
/// their current snapshots are in contact, each gains its velocity change and
/// the event is recorded.
pub open spec fn spec_collide_pair(pass: CollisionPass, i: int, j: int) -> CollisionPass {
    let first = pass.objects[i].current_state();
    let second = pass.objects[j].current_state();
    let tested = pass.tested.push((i, j));
    match first.spec_contact(second) {
        Some(event) => CollisionPass {
            objects: pass.objects.update(
                i,
                pass.objects[i].with_current(spec_pushed(first, event.obj1_velocity)),
            ).update(j, pass.objects[j].with_current(spec_pushed(second, event.obj2_velocity))),
            events: pass.events.push(SimulationEvent::Collision(event)),
            tested,
        },
        None => CollisionPass { tested, ..pass },
    }
}

/// The pass after object `i` was tested against the objects `i + 1` to
/// `j_end - 1`, in this order.
pub open spec fn spec_collide_row(pass: CollisionPass, i: int, j_end: int) -> CollisionPass
    decreases j_end - i,
{
    if j_end <= i + 1 {
        pass
    } else {
        spec_collide_pair(spec_collide_row(pass, i, j_end - 1), i, j_end - 1)
    }
}

/// The pass after each of the objects `0` to `i_end - 1`, in this order, was
/// tested against all objects of higher index among the first `n`.
pub open spec fn spec_collide_rows(pass: CollisionPass, i_end: int, n: int) -> CollisionPass
    decreases i_end,
{
    if i_end <= 0 {
        pass
    } else {
        spec_collide_row(spec_collide_rows(pass, i_end - 1, n), i_end - 1, n)
    }
}

/// The whole collision pass over `objects`: every pair of indices `i < j` is
/// tested once, ordered by `i` and then by `j`.
pub open spec fn spec_collision_pass(objects: Seq<CSimObjectView>) -> CollisionPass {
    spec_collide_rows(
        CollisionPass { objects, events: Seq::empty(), tested: Seq::empty() },
        objects.len() as int,
        objects.len() as int,
    )
}

/// Every object after its part of a tick.
pub open spec fn spec_physics_pass(objects: Seq<CSimObjectView>, global_acc: NVec2) -> Seq<
    CSimObjectView,
> {
    Seq::new(objects.len(), |k: int| spec_step_object(objects[k], global_acc))
}

/// The global acceleration list after a change of the gravity setting was
/// taken in: gravity in its slot when it was switched on, zero when it was
/// switched off, the list as it was when nothing changed.
pub open spec fn spec_global_after(global_acc_list: Seq<NVec2>, change: Option<bool>) -> Seq<
    NVec2,
> {
    match change {
        Some(on) => global_acc_list.update(
            GlobalForceSlot::Gravity.spec_index(),
            if on {
                spec_gravity()
            } else {
                NVec2::spec_zeros()
            },
        ),
        None => global_acc_list,
    }
}

/// Whether `pos` lies on `object` at tick `step`: the object holds a
/// snapshot for that tick, and the polygon of its shape around its position
/// encloses `pos`.
pub open spec fn spec_hit(object: CSimObjectView, pos: NVec2, step: usize) -> bool {
    match object.state_at(step as int) {
        Some(state) => spec_is_inside(pos, state.shape.spec_outline_at(state.position)),
        None => false,
    }
}

/// The lowest index, not below `from`, of an object that `pos` lies on at
/// tick `step`.
pub open spec fn spec_find_from(objects: Seq<CSimObjectView>, pos: NVec2, step: usize, from: int)
    -> Option<int>
    decreases objects.len() - from,
{
    if from < 0 || from >= objects.len() {
        None
    } else if spec_hit(objects[from], pos, step) {
        Some(from)
    } else {
        spec_find_from(objects, pos, step, from + 1)
    }
}

/// The lowest index of an object that `pos` lies on at tick `step`.
pub open spec fn spec_find_object_at(objects: Seq<CSimObjectView>, pos: NVec2, step: usize)
    -> Option<int> {
    spec_find_from(objects, pos, step, 0)
}

/// `objects` with `value` in the `UserInteraction` slot of the current
/// snapshot of object `index`; `objects` itself where there is no such object
/// or it holds no snapshot for the tick it is looked at.
pub open spec fn spec_with_user_acceleration(
    objects: Seq<CSimObjectView>,
    index: usize,
    value: NVec2,
) -> Seq<CSimObjectView> {
    if index < objects.len() && objects[index as int].has_current() {
        objects.update(
            index as int,
            objects[index as int].with_current(
                objects[index as int].current_state().spec_with_acceleration(
                    ForceIndex::UserInteraction,
                    value,
                ),
            ),
        )
    } else {
        objects
    }
}

/// The pull on object `index` while the pointer drags it at `pointer`: from
/// the object's current position to the pointer.
pub open spec fn spec_pull(objects: Seq<CSimObjectView>, index: usize, pointer: NVec2) -> NVec2 {
    if index < objects.len() {
        pointer.spec_sub(objects[index as int].current_state().position)
    } else {
        pointer
    }
}

/// The object that is added at `pos` at tick `step`: one default snapshot
/// moved to `pos`, looked at tick `step`, visible, without behavior.
pub open spec fn spec_new_object(pos: NVec2, step: usize) -> CSimObjectView {
    CSimObjectView {
        state_timeline: seq![CSObjectState { position: pos, ..CSObjectState::spec_default() }],
        init_timestep: step,
        timestep: step,
        hide: false,
        attached: None,
    }
}

/// The objects and the selection after gesture `msg`, read under
/// `operation`, where the simulation is looked at tick `step`.
///
/// `Navigate`: a click on an object selects the first such object.
/// `ForceDrag`: a drag that starts on an object selects the first such
/// object and marks it as dragged; while the drag goes on, the object's
/// `UserInteraction` acceleration is the pull toward the pointer; when no
/// drag goes on any more, that acceleration is zero again and the mark is
/// off. `AddObject`: the end of a drag adds a new object under the pointer.
/// The other operations change nothing.
pub open spec fn spec_input(
    objects: Seq<CSimObjectView>,
    operation: Operation,
    plot: PlotData,
    msg: InputMessage,
    step: usize,
) -> (Seq<CSimObjectView>, PlotData) {
    match operation {
        Operation::Navigate => match msg.pointer_pos {
            Some(pos) if msg.clicked => match spec_find_object_at(objects, pos, step) {
                Some(index) => (objects, PlotData { selected_index: index as usize, ..plot }),
                None => (objects, plot),
            },
            _ => (objects, plot),
        },
        Operation::ForceDrag => {
            if msg.dragged {
                match msg.pointer_pos {
                    Some(pos) => if plot.dragging_object {
                        (
                            spec_with_user_acceleration(
                                objects,
                                plot.selected_index,
                                spec_pull(objects, plot.selected_index, pos),
                            ),
                            plot,
                        )
                    } else {
                        match spec_find_object_at(objects, pos, step) {
                            Some(index) => (
                                objects,
                                PlotData { selected_index: index as usize, dragging_object: true },
                            ),
                            None => (objects, plot),
                        }
                    },
                    None => (objects, plot),
                }
            } else if plot.dragging_object {
                (
                    spec_with_user_acceleration(objects, plot.selected_index, NVec2::spec_zeros()),
                    PlotData { dragging_object: false, ..plot },
                )
            } else {
                (objects, plot)
            }
        },
        Operation::AddObject => match msg.pointer_pos {
            Some(pos) if msg.drag_released => (objects.push(spec_new_object(pos, step)), plot),
            _ => (objects, plot),
        },
        Operation::RemoveObject => (objects, plot),
        Operation::EditObject => (objects, plot),
    }
}

/// The simulation.
pub struct ClassicSimulation {
    /// The objects, in the order in which they were added. An object's index
    /// is its place in this list.
    pub objects: Vec<CSimObject>,
    /// The accelerations that act on every object, one per `GlobalForceSlot`.
    pub global_acc_list: Vec<NVec2>,
    /// The events of each tick: `events[k]` holds those of tick `k + 1`.
    pub events: Vec<SimulationEvents>,
    pub operation: Operation,
}

/// The simulation as contracts see it.
pub struct ClassicSimulationView {
    pub objects: Seq<CSimObjectView>,
    pub global_acc_list: Seq<NVec2>,
    pub events: Seq<Seq<SimulationEvent>>,
    pub operation: Operation,
}

impl View for ClassicSimulation {
    type V = ClassicSimulationView;

    open spec fn view(&self) -> ClassicSimulationView {
        ClassicSimulationView {
            objects: object_views(self.objects@),
            global_acc_list: self.global_acc_list@,
            events: event_views(self.events@),
            operation: self.operation,
        }
    }
}

impl ClassicSimulationView {
    /// The global acceleration list has its one slot and every object is
    /// well formed.
    pub open spec fn wf(self) -> bool {
        &&& self.global_acc_list.len() == GLOBAL_FORCE_SLOTS
        &&& forall|k: int| 0 <= k < self.objects.len() ==> (#[trigger] self.objects[k]).wf()
    }

    /// Every object holds a snapshot for the tick it is looked at, and has
    /// room for one more.
    pub open spec fn can_step(self) -> bool {
        forall|k: int|
            0 <= k < self.objects.len() ==> {
                &&& (#[trigger] self.objects[k]).has_current()
                &&& self.objects[k].init_timestep + self.objects[k].state_timeline.len()
                    < usize::MAX
            }
    }

    /// Every object is looked at the tick of its newest snapshot.
    pub open spec fn is_live(self) -> bool {
        forall|k: int| 0 <= k < self.objects.len() ==> (#[trigger] self.objects[k]).is_live()
    }

    /// The simulation with every object looked at tick `step`.
    pub open spec fn at_time_step(self, step: usize) -> ClassicSimulationView {
        ClassicSimulationView {
            objects: Seq::new(self.objects.len(), |k: int| self.objects[k].at_timestep(step)),
            ..self
        }
    }

    /// The simulation one tick later, where `change` tells whether gravity
    /// was switched since the tick before.
    pub open spec fn step(self, change: Option<bool>) -> ClassicSimulationView {
        let global_acc_list = spec_global_after(self.global_acc_list, change);
        let pass = spec_collision_pass(spec_physics_pass(self.objects, spec_sum(global_acc_list)));
        ClassicSimulationView {
            objects: pass.objects,
            global_acc_list,
            events: self.events.push(pass.events),
            operation: self.operation,
        }
    }

    /// The events of tick `idx`: none for tick 0 and for a tick that was not
    /// made yet.
    pub open spec fn events_at(self, idx: usize) -> Option<Seq<SimulationEvent>> {
        if 1 <= idx <= self.events.len() {
            Some(self.events[idx - 1])
        } else {
            None
        }
    }
}

impl ClassicSimulation {
    /// A simulation of the given objects, under gravity, with no tick made
    /// and gestures read as navigation.
    pub fn from(object: Vec<CSimObject>) -> (r: ClassicSimulation)
        ensures
            r.objects == object,
            r.global_acc_list@ == seq![spec_gravity()],
            r.events@.len() == 0,
            r.operation == Operation::Navigate,
    {
        let mut global_acc_list: Vec<NVec2> = Vec::new();
        global_acc_list.push(gravity());
        ClassicSimulation {
            objects: object,
            global_acc_list,
            events: Vec::new(),
            operation: Operation::Navigate,
        }
    }

    /// Whether `step` may be called: every object holds a snapshot for the
    /// tick it is looked at and has room for one more, and the global
    /// acceleration list has its slot.
    pub fn can_step(&self) -> (r: bool)
        ensures
            r == (self@.can_step() && self.global_acc_list.len() == GLOBAL_FORCE_SLOTS),
    {
        if self.global_acc_list.len() != GLOBAL_FORCE_SLOTS {
            return false;
        }
        let mut k: usize = 0;
        while k < self.objects.len()
            invariant
                k <= self.objects.len(),
                forall|i: int|
                    0 <= i < k ==> {
                        &&& (#[trigger] self@.objects[i]).has_current()
                        &&& self@.objects[i].init_timestep + self@.objects[i].state_timeline.len()
                            < usize::MAX
                    },
            decreases self.objects.len() - k,
        {
            let obj = &self.objects[k];
            let has_current = obj.timestep >= obj.init_timestep && obj.timestep - obj.init_timestep
                < obj.state_timeline.len();
            let has_room = obj.state_timeline.len() < usize::MAX - obj.init_timestep;
            if !has_current || !has_room {
                assert(!(self@.objects[k as int].has_current() && self@.objects[k as int].init_timestep
                    + self@.objects[k as int].state_timeline.len() < usize::MAX));
                return false;
            }
            k = k + 1;
        }
        true
    }

    /// Integrates the snapshot that `obj` is looked at, in place, under the
    /// sum of `global_acc_list`.
    pub fn physics(obj: &mut CSimObject, global_acc_list: &[NVec2])
        requires
            old(obj)@.has_current(),
        ensures
            final(obj)@ == old(obj)@.with_current(
                old(obj)@.current_state().spec_integrate(
                    match old(obj)@.previous_state() {
                        Some(state) => state,
                        None => old(obj)@.current_state(),
                    },
                    spec_sum(global_acc_list@),
                ),
            ),
    {
        let global_acc = crate::vector::sum(global_acc_list);
        let current = obj.current_state();
        let previous_state = match obj.previous_state() {
            Some(state) => state,
            None => current,
        };
        let state = obj.current_state_mut();
        *state = current.integrate(&previous_state, global_acc);
    }

    /// Tests objects `i` and `j` against each other and, where they are in
    /// contact, adds to each its velocity change.
    pub fn collision(objects: &mut Vec<CSimObject>, i: usize, j: usize) -> (r: Option<
        CollisionEvent,
    >)
        requires
            i < j < old(objects).len(),
            old(objects)[i as int]@.has_current(),
            old(objects)[j as int]@.has_current(),
        ensures
            r == old(objects)[i as int]@.current_state().spec_contact(
                old(objects)[j as int]@.current_state(),
            ),
            final(objects).len() == old(objects).len(),
            forall|k: int|
                0 <= k < old(objects).len() && k != i && k != j ==> final(objects)[k] == old(
                    objects,
                )[k],
            final(objects)[i as int]@ == match r {
                Some(event) => old(objects)[i as int]@.with_current(
                    spec_pushed(old(objects)[i as int]@.current_state(), event.obj1_velocity),
                ),
                None => old(objects)[i as int]@,
            },
            final(objects)[j as int]@ == match r {
                Some(event) => old(objects)[j as int]@.with_current(
                    spec_pushed(old(objects)[j as int]@.current_state(), event.obj2_velocity),
                ),
                None => old(objects)[j as int]@,
            },
    {
        let obj_state = objects[i].current_state();
        let obj2_state = objects[j].current_state();
        match obj_state.contact(&obj2_state) {
            Some(contact) => {
                let first = &mut objects[i];
                let state = first.current_state_mut();
                state.velocity = state.velocity.add(contact.obj1_velocity);
                let second = &mut objects[j];
                let state2 = second.current_state_mut();
                state2.velocity = state2.velocity.add(contact.obj2_velocity);
                Some(contact)
            },
            None => None,
        }
    }

    /// One object's part of a tick: its attached behavior, the integration
    /// of its current snapshot, and the saving of that snapshot.
    pub fn step_object(obj: &mut CSimObject, global_acc_list: &[NVec2])
        requires
            old(obj)@.has_current(),
            old(obj).init_timestep + old(obj).state_timeline.len() < usize::MAX,
        ensures
            final(obj)@ == spec_step_object(old(obj)@, spec_sum(global_acc_list@)),
    {
        match obj.attached {
            Some(attached_fn) => {
                let state = obj.current_state_mut();
                attached_fn.apply(state);
            },
            None => {},
        }
        Self::physics(obj, global_acc_list);
        obj.save_state();
    }

    /// Makes one tick.
    ///
    /// A change of the gravity setting is taken in first. Then every object,
    /// in index order, runs its attached behavior, is integrated and saves
    /// its state. Only then every pair of objects is tested for contact, each
    /// pair once, ordered by the lower index and then by the higher, and the
    /// events of the tick, which may be none, are appended to the event log.
    pub fn step(&mut self, state: &mut SimulationState)
        requires
            old(self)@.can_step(),
            old(self).global_acc_list.len() == GLOBAL_FORCE_SLOTS,
        ensures
            final(self)@ == old(self)@.step(old(state).settings.specific.gravity_change()),
            *final(state) == (SimulationState {
                settings: crate::sim_state::SimulationSettings {
                    specific: old(state).settings.specific.gravity_read(),
                    ..old(state).settings
                },
                ..*old(state)
            }),
    {
        let mut event = SimulationEvents::default();
        let change = state.settings.specific.take_gravity_change();
        match change {
            Some(is_grav) => {
                let slot = GlobalForceSlot::Gravity.index();
                if is_grav {
                    self.global_acc_list[slot] = gravity();
                } else {
                    self.global_acc_list[slot] = zero_force();
                }
            },
            None => {},
        }
        assert(self.global_acc_list@ =~= spec_global_after(old(self).global_acc_list@, change));
        let ghost global_acc = spec_sum(self.global_acc_list@);
        let ghost start = old(self)@.objects;
        let length = self.objects.len();

        let mut k: usize = 0;
        while k < length
            invariant
                k <= length,
                length == self.objects.len(),
                length == start.len(),
                start == old(self)@.objects,
                old(self)@.can_step(),
                global_acc == spec_sum(self.global_acc_list@),
                self.global_acc_list@ == spec_global_after(old(self).global_acc_list@, change),
                self.events == old(self).events,
                self.operation == old(self).operation,
                forall|m: int|
                    0 <= m < k ==> (#[trigger] self.objects[m])@ == spec_step_object(
                        start[m],
                        global_acc,
                    ),
                forall|m: int| k <= m < length ==> (#[trigger] self.objects[m])@ == start[m],
            decreases length - k,
        {
            assert(start[k as int].has_current());
            let obj = &mut self.objects[k];
            Self::step_object(obj, self.global_acc_list.as_slice());
            k = k + 1;
        }
        let ghost integrated = spec_physics_pass(start, global_acc);
        assert(object_views(self.objects@) =~= integrated);
        let ghost first_pass = CollisionPass {
            objects: integrated,
            events: Seq::empty(),
            tested: Seq::empty(),
        };
        let ghost mut pass = first_pass;
        proof {
            assert forall|m: int| 0 <= m < length implies (#[trigger] pass.objects[m]).has_current() by {
                assert(start[m].has_current());
            }
        }

        let mut i: usize = 0;
        while i < length
            invariant
                i <= length,
                length == self.objects.len(),
                pass == spec_collide_rows(first_pass, i as int, length as int),
                pass.objects == object_views(self.objects@),
                pass.events == event@,
                forall|m: int| 0 <= m < length ==> (#[trigger] pass.objects[m]).has_current(),
                self.global_acc_list@ == spec_global_after(old(self).global_acc_list@, change),
                self.events == old(self).events,
                self.operation == old(self).operation,
            decreases length - i,
        {
            let ghost row_start = pass;
            let mut j: usize = i + 1;
            while j < length
                invariant
                    i < j <= length,
                    length == self.objects.len(),
                    pass == spec_collide_row(row_start, i as int, j as int),
                    pass.objects == object_views(self.objects@),
                    pass.events == event@,
                    forall|m: int| 0 <= m < length ==> (#[trigger] pass.objects[m]).has_current(),
                    self.global_acc_list@ == spec_global_after(old(self).global_acc_list@, change),
                    self.events == old(self).events,
                    self.operation == old(self).operation,
                decreases length - j,
            {
                assert(pass.objects[i as int].has_current());
                assert(pass.objects[j as int].has_current());
                let ghost before = pass;
                match Self::collision(&mut self.objects, i, j) {
                    Some(x) => {
                        event.add_event(SimulationEvent::Collision(x));
                    },
                    None => {},
                }
                proof {
                    pass = spec_collide_pair(before, i as int, j as int);
                    assert(pass.objects =~= object_views(self.objects@));
                    assert forall|m: int| 0 <= m < length implies (#[trigger] pass.objects[m]).has_current() by {
                        assert(before.objects[m].has_current());
                    }
                }
                j = j + 1;
            }
            proof {
                if i + 1 >= length {
                    assert(pass == spec_collide_row(row_start, i as int, length as int));
                }
            }
            i = i + 1;
        }
        self.events.push(event);
        proof {
            assert(event_views(self.events@) =~= old(self)@.events.push(pass.events));
            assert(pass == spec_collision_pass(integrated));
        }
    }

    /// The index of the first object that `pos` lies on at tick `step`.
    pub fn find_object_at(&self, pos: NVec2, step: usize) -> (r: Option<usize>)
        ensures
            match r {
                Some(index) => spec_find_object_at(self@.objects, pos, step) == Some(index as int),
                None => spec_find_object_at(self@.objects, pos, step) is None,
            },
            r is Some ==> r.unwrap() < self.objects.len(),
    {
        let mut index: usize = 0;
        while index < self.objects.len()
            invariant
                index <= self.objects.len(),
                spec_find_object_at(self@.objects, pos, step) == spec_find_from(
                    self@.objects,
                    pos,
                    step,
                    index as int,
                ),
            decreases self.objects.len() - index,
        {
            match self.objects[index].state_at_timestep(step) {
                Some(obj_state) => {
                    let outline = obj_state.shape.outline_at(obj_state.position);
                    if is_inside(pos, &outline) {
                        return Some(index);
                    }
                },
                None => {},
            }
            index = index + 1;
        }
        None
    }

    /// Writes `value` into the `UserInteraction` slot of the current
    /// snapshot of object `index`, if there is such an object and snapshot.
    fn set_user_acceleration(&mut self, index: usize, value: NVec2)
        ensures
            final(self)@.objects == spec_with_user_acceleration(old(self)@.objects, index, value),
            final(self).global_acc_list == old(self).global_acc_list,
            final(self).events == old(self).events,
            final(self).operation == old(self).operation,
    {
        if index < self.objects.len() {
            let obj = &mut self.objects[index];
            if obj.timestep >= obj.init_timestep && obj.timestep - obj.init_timestep
                < obj.state_timeline.len() {
                let state = obj.current_state_mut();
                state.set_acceleration(ForceIndex::UserInteraction, value);
            }
        }
        proof {
            assert(self@.objects =~= spec_with_user_acceleration(old(self)@.objects, index, value));
        }
    }

    /// Takes in one pointer gesture, read under the simulation's operation.
    pub fn input(&mut self, plot: &mut PlotData, msg: InputMessage, state: &SimulationState)
        ensures
            final(self)@.objects == spec_input(
                old(self)@.objects,
                old(self).operation,
                *old(plot),
                msg,
                state.current_step,
            ).0,
            *final(plot) == spec_input(
                old(self)@.objects,
                old(self).operation,
                *old(plot),
                msg,
                state.current_step,
            ).1,
            final(self).global_acc_list == old(self).global_acc_list,
            final(self).events == old(self).events,
            final(self).operation == old(self).operation,
    {
        match self.operation {
            Operation::Navigate => {
                match msg.pointer_pos {
                    Some(pointer_pos) => {
                        if msg.clicked {
                            match self.find_object_at(pointer_pos, state.current_step) {
                                Some(index) => {
                                    plot.selected_index = index;
                                },
                                None => {},
                            }
                        }
                    },
                    None => {},
                }
            },
            Operation::ForceDrag => {
                if msg.dragged {
                    match msg.pointer_pos {
                        Some(pointer_pos) => {
                            if plot.dragging_object {
                                let user_vec = if plot.selected_index < self.objects.len() {
                                    let pos = self.objects[plot.selected_index].current_state().position;
                                    pointer_pos.sub(pos)
                                } else {
                                    pointer_pos
                                };
                                self.set_user_acceleration(plot.selected_index, user_vec);
                            } else {
                                match self.find_object_at(pointer_pos, state.current_step) {
                                    Some(index) => {
                                        plot.selected_index = index;
                                        plot.dragging_object = true;
                                    },
                                    None => {},
                                }
                            }
                        },
                        None => {},
                    }
                } else if plot.dragging_object {
                    self.set_user_acceleration(plot.selected_index, zero_force());
                    plot.dragging_object = false;
                }
            },
            Operation::AddObject => {
                match msg.pointer_pos {
                    Some(pointer_pos) => {
                        if msg.drag_released {
                            let mut first = CSObjectState::default();
                            first.position = pointer_pos;
                            let object = CSimObjectBuilder::new(first).init_timestep(
                                state.current_step,
                            ).build();
                            self.objects.push(object);
                            proof {
                                assert(self@.objects =~= old(self)@.objects.push(
                                    spec_new_object(pointer_pos, state.current_step),
                                ));
                            }
                        }
                    },
                    None => {},
                }
            },
            Operation::RemoveObject => {},
            Operation::EditObject => {},
        }
    }

    /// Looks at tick `step`: every object is looked at that tick. No
    /// timeline changes.
    pub fn at_time_step(&mut self, step: usize)
        ensures
            final(self)@ == old(self)@.at_time_step(step),
            forall|k: int|
                0 <= k < old(self).objects.len() ==> (#[trigger] final(self).objects[k]).state_timeline
                    == old(self).objects[k].state_timeline,
            final(self).objects.len() == old(self).objects.len(),
            final(self).global_acc_list == old(self).global_acc_list,
            final(self).events == old(self).events,
    {
        let mut i: usize = 0;
        while i < self.objects.len()
            invariant
                i <= self.objects.len(),
                self.objects.len() == old(self).objects.len(),
                self.global_acc_list == old(self).global_acc_list,
                self.events == old(self).events,
                self.operation == old(self).operation,
                forall|k: int|
                    0 <= k < i ==> {
                        &&& (#[trigger] self.objects[k])@ == old(self).objects[k]@.at_timestep(step)
                        &&& self.objects[k].state_timeline == old(self).objects[k].state_timeline
                    },
                forall|k: int|
                    i <= k < self.objects.len() ==> #[trigger] self.objects[k] == old(
                        self,
                    ).objects[k],
            decreases self.objects.len() - i,
        {
            let obj = &mut self.objects[i];
            obj.at_timestep(step);
            i = i + 1;
        }
        proof {
            assert(self@.objects =~= old(self)@.at_time_step(step).objects);
        }
    }

    /// The objects, in index order.
    pub fn get_children(&self) -> (r: &Vec<CSimObject>)
        ensures
            *r == self.objects,
    {
        &self.objects
    }

    /// The events of tick `idx`: `None` for tick 0 and for a tick that was
    /// not made yet.
    pub fn get_events(&self, idx: usize) -> (r: Option<&SimulationEvents>)
        ensures
            match r {
                Some(events) => self@.events_at(idx) == Some(events@),
                None => self@.events_at(idx) is None,
            },
    {
        if idx == 0 || idx > self.events.len() {
            None
        } else {
            Some(&self.events[idx - 1])
        }
    }
}

} // verus!
