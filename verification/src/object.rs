//! One object of the simulation: its recorded history and the tick it is
//! looked at.

use crate::shape::ObjectShape;
use crate::state::{CSObjectState, ForceIndex};
use crate::vector::NVec2;
use vstd::prelude::*;

verus! {

/// The largest number of snapshots that a trace line shows.
pub const MAX_TRACE_LENGTH: usize = 5000;

/// What an object does to its own `Attached` acceleration before each tick.
#[derive(Clone, Copy, Debug, PartialEq, Eq, Structural)]
pub enum AttachedFn {
    /// Accelerate at right angles to the velocity, to the right of it: the
    /// acceleration is the velocity with its components exchanged and the new
    /// second component negated.
    Orbit,
}

impl AttachedFn {
    /// The state after the behavior has written its acceleration slot.
    pub open spec fn spec_apply(self, state: CSObjectState) -> CSObjectState {
        match self {
            AttachedFn::Orbit => state.spec_with_acceleration(
                ForceIndex::Attached,
                NVec2 { x: state.velocity.y, y: state.velocity.x.spec_neg() },
            ),
        }
    }

    /// Writes the behavior's acceleration into the `Attached` slot of `state`.
    pub fn apply(&self, state: &mut CSObjectState)
        ensures
            *final(state) == self.spec_apply(*old(state)),
    {
        match self {
            AttachedFn::Orbit => {
                let turned = NVec2 { x: state.velocity.y, y: state.velocity.x.neg() };
                state.set_acceleration(ForceIndex::Attached, turned);
            },
        }
    }
}

/// An object with its history.
///
/// `state_timeline[k]` is the snapshot for tick `init_timestep + k`.
/// `timestep` is the tick the object is looked at, and `hide` tells that this
/// tick lies before the object came into being.
#[derive(Clone, Debug)]
pub struct CSimObject {
    pub state_timeline: Vec<CSObjectState>,
    pub init_timestep: usize,
    pub timestep: usize,
    pub hide: bool,
    pub attached: Option<AttachedFn>,
}

/// An object as contracts see it: the timeline is a sequence.
pub struct CSimObjectView {
    pub state_timeline: Seq<CSObjectState>,
    pub init_timestep: usize,
    pub timestep: usize,
    pub hide: bool,
    pub attached: Option<AttachedFn>,
}

impl View for CSimObject {
    type V = CSimObjectView;

    open spec fn view(&self) -> CSimObjectView {
        CSimObjectView {
            state_timeline: self.state_timeline@,
            init_timestep: self.init_timestep,
            timestep: self.timestep,
            hide: self.hide,
            attached: self.attached,
        }
    }
}

impl CSimObjectView {
    /// The object holds at least one snapshot, the tick after its last
    /// snapshot is a machine number, and `hide` says whether the tick looked
    /// at lies before the first snapshot.
    pub open spec fn wf(self) -> bool {
        &&& self.state_timeline.len() >= 1
        &&& self.init_timestep + self.state_timeline.len() <= usize::MAX
        &&& self.hide == (self.timestep < self.init_timestep)
    }

    /// Whether the object holds a snapshot for tick `timestep`.
    pub open spec fn has_snapshot(self, timestep: int) -> bool {
        self.init_timestep <= timestep < self.init_timestep + self.state_timeline.len()
    }

    /// Whether the object holds a snapshot for the tick looked at.
    pub open spec fn has_current(self) -> bool {
        self.has_snapshot(self.timestep as int)
    }

    /// The snapshot for tick `timestep`, if the object holds one.
    pub open spec fn state_at(self, timestep: int) -> Option<CSObjectState> {
        if self.has_snapshot(timestep) {
            Some(self.state_timeline[timestep - self.init_timestep])
        } else {
            None
        }
    }

    /// The snapshot for the tick looked at, or the default state where the
    /// object holds none for it.
    pub open spec fn current_state(self) -> CSObjectState {
        match self.state_at(self.timestep as int) {
            Some(state) => state,
            None => CSObjectState::spec_default(),
        }
    }

    /// The snapshot for the tick before the one looked at, if the object
    /// holds one.
    pub open spec fn previous_state(self) -> Option<CSObjectState> {
        self.state_at(self.timestep - 1)
    }

    /// Whether the tick looked at is the one of the newest snapshot.
    pub open spec fn is_live(self) -> bool {
        self.timestep + 1 == self.init_timestep + self.state_timeline.len()
    }

    /// The object looked at tick `timestep`.
    pub open spec fn at_timestep(self, timestep: usize) -> CSimObjectView {
        CSimObjectView { timestep, hide: timestep < self.init_timestep, ..self }
    }

    /// The object with `state` in place of the snapshot for the tick looked at.
    pub open spec fn with_current(self, state: CSObjectState) -> CSimObjectView {
        CSimObjectView {
            state_timeline: self.state_timeline.update(self.timestep - self.init_timestep, state),
            ..self
        }
    }

    /// The object after the snapshot for the tick looked at has been appended
    /// as the newest one and the tick looked at has moved on by one.
    pub open spec fn save_state(self) -> CSimObjectView {
        CSimObjectView {
            state_timeline: self.state_timeline.push(self.current_state()),
            timestep: (self.timestep + 1) as usize,
            ..self
        }
    }

    /// The part of the timeline that the trace line shows when the simulation
    /// stands at `current_step`: it ends before the snapshot for that tick, or
    /// at the end of the timeline if that comes first, and is no longer than
    /// `MAX_TRACE_LENGTH`.
    pub open spec fn trace_window(self, current_step: usize) -> (int, int) {
        let age: int = if current_step >= self.init_timestep {
            current_step - self.init_timestep
        } else {
            0
        };
        let line_len: int = if age > MAX_TRACE_LENGTH {
            MAX_TRACE_LENGTH as int
        } else {
            age
        };
        let index_end: int = if age > self.state_timeline.len() {
            self.state_timeline.len() as int
        } else {
            age
        };
        let index_start: int = if index_end >= line_len {
            index_end - line_len
        } else {
            0
        };
        (index_start, index_end)
    }
}

impl CSimObject {
    /// Whether the tick looked at lies before the object came into being.
    pub fn hidden(&self) -> (r: &bool)
        ensures
            *r == self.hide,
    {
        &self.hide
    }

    /// The behavior attached to the object.
    pub fn attached(&self) -> (r: &Option<AttachedFn>)
        ensures
            *r == self.attached,
    {
        &self.attached
    }

    /// Appends a copy of the snapshot for the tick looked at and moves on to
    /// the next tick. Nothing else changes the length of the timeline.
    pub fn save_state(&mut self)
        requires
            old(self)@.has_current(),
            old(self).init_timestep + old(self).state_timeline.len() < usize::MAX,
        ensures
            final(self)@ == old(self)@.save_state(),
            old(self)@.wf() ==> final(self)@.wf(),
            old(self)@.is_live() ==> final(self)@.is_live(),
    {
        let state = self.current_state();
        self.state_timeline.push(state);
        self.timestep = self.timestep + 1;
    }

    /// The number of ticks from the object's first snapshot to `timestep`, if
    /// `timestep` does not lie before it.
    pub fn local_timestep(&self, timestep: usize) -> (r: Option<usize>)
        ensures
            r == if timestep >= self.init_timestep {
                Some((timestep - self.init_timestep) as usize)
            } else {
                None::<usize>
            },
    {
        if timestep >= self.init_timestep {
            Some(timestep - self.init_timestep)
        } else {
            None
        }
    }

    /// Looks at tick `timestep`. The timeline stays as it is.
    pub fn at_timestep(&mut self, timestep: usize)
        ensures
            final(self)@ == old(self)@.at_timestep(timestep),
            final(self).state_timeline == old(self).state_timeline,
            final(self).hide == (timestep < old(self).init_timestep),
            old(self)@.wf() ==> final(self)@.wf(),
    {
        self.hide = timestep < self.init_timestep;
        self.timestep = timestep;
    }

    /// The snapshot for the tick looked at, or the default state where the
    /// object is hidden or holds no snapshot for that tick.
    pub fn current_state(&self) -> (r: CSObjectState)
        ensures
            r == self@.current_state(),
    {
        match self.state_at_timestep(self.timestep) {
            Some(state) => state,
            None => CSObjectState::default(),
        }
    }

    /// The snapshot for the tick looked at, to be changed in place.
    pub fn current_state_mut(&mut self) -> (r: &mut CSObjectState)
        requires
            old(self)@.has_current(),
        ensures
            *r == old(self)@.current_state(),
            final(self)@ == old(self)@.with_current(*final(r)),
    {
        let local = self.timestep - self.init_timestep;
        &mut self.state_timeline[local]
    }

    /// The snapshot for the tick before the one looked at, if there is one.
    pub fn previous_state(&self) -> (r: Option<CSObjectState>)
        ensures
            r == self@.previous_state(),
    {
        if self.timestep >= 1 {
            self.state_at_timestep(self.timestep - 1)
        } else {
            None
        }
    }

    /// The snapshot for tick `current_timestep`, if the object holds one.
    pub fn state_at_timestep(&self, current_timestep: usize) -> (r: Option<CSObjectState>)
        ensures
            r == self@.state_at(current_timestep as int),
    {
        if self.init_timestep <= current_timestep {
            let local = current_timestep - self.init_timestep;
            if local < self.state_timeline.len() {
                Some(self.state_timeline[local])
            } else {
                None
            }
        } else {
            None
        }
    }

    /// The bounds, first inclusive and last exclusive, of the part of the
    /// timeline that the trace line shows at `current_step`.
    pub fn trace_window(&self, current_step: usize) -> (r: (usize, usize))
        ensures
            (r.0 as int, r.1 as int) == self@.trace_window(current_step),
            r.0 <= r.1 <= self.state_timeline.len(),
            r.1 - r.0 <= MAX_TRACE_LENGTH,
    {
        let age: usize = if current_step >= self.init_timestep {
            current_step - self.init_timestep
        } else {
            0
        };
        let line_len: usize = if age > MAX_TRACE_LENGTH {
            MAX_TRACE_LENGTH
        } else {
            age
        };
        let index_end: usize = if age > self.state_timeline.len() {
            self.state_timeline.len()
        } else {
            age
        };
        let index_start: usize = if index_end >= line_len {
            index_end - line_len
        } else {
            0
        };
        (index_start, index_end)
    }

    /// The positions along the trace line at `current_step`, oldest first.
    pub fn trace(&self, current_step: usize) -> (r: Vec<NVec2>)
        ensures
            r.len() == self@.trace_window(current_step).1 - self@.trace_window(current_step).0,
            forall|k: int|
                0 <= k < r.len() ==> r[k] == self.state_timeline[self@.trace_window(
                    current_step,
                ).0 + k].position,
    {
        let (start, end) = self.trace_window(current_step);
        let mut line: Vec<NVec2> = Vec::new();
        let mut i: usize = start;
        while i < end
            invariant
                start <= i <= end <= self.state_timeline.len(),
                line.len() == i - start,
                forall|k: int| 0 <= k < line.len() ==> line[k] == self.state_timeline[start + k].position,
            decreases end - i,
        {
            line.push(self.state_timeline[i].position);
            i = i + 1;
        }
        line
    }
}

/// Builds an object from its first snapshot.
pub struct CSimObjectBuilder {
    pub init_state: Option<CSObjectState>,
    pub init_timestep: Option<usize>,
    pub shape: Option<ObjectShape>,
    pub attached: Option<AttachedFn>,
}

impl CSimObjectBuilder {
    /// The first snapshot of the object that `build` returns.
    pub open spec fn spec_first_state(self) -> CSObjectState {
        let state = match self.init_state {
            Some(state) => state,
            None => CSObjectState::spec_default(),
        };
        match self.shape {
            Some(shape) => CSObjectState { shape, ..state },
            None => state,
        }
    }

    /// The tick at which the object that `build` returns comes into being.
    pub open spec fn spec_first_timestep(self) -> usize {
        match self.init_timestep {
            Some(timestep) => timestep,
            None => 0,
        }
    }

    /// A builder for an object that starts in `state` at tick 0.
    pub fn new(state: CSObjectState) -> (r: CSimObjectBuilder)
        ensures
            r == (CSimObjectBuilder {
                init_state: Some(state),
                init_timestep: None,
                shape: None,
                attached: None,
            }),
    {
        CSimObjectBuilder { init_state: Some(state), init_timestep: None, shape: None, attached: None }
    }

    /// Sets the tick at which the object comes into being.
    pub fn init_timestep(self, init_timestep: usize) -> (r: CSimObjectBuilder)
        ensures
            r == (CSimObjectBuilder { init_timestep: Some(init_timestep), ..self }),
    {
        let mut builder = self;
        builder.init_timestep = Some(init_timestep);
        builder
    }

    /// Sets the shape, in place of the one of the first snapshot.
    pub fn shape(self, shape: ObjectShape) -> (r: CSimObjectBuilder)
        ensures
            r == (CSimObjectBuilder { shape: Some(shape), ..self }),
    {
        let mut builder = self;
        builder.shape = Some(shape);
        builder
    }

    /// Sets the behavior that runs before each tick.
    pub fn attached(self, attached: AttachedFn) -> (r: CSimObjectBuilder)
        ensures
            r == (CSimObjectBuilder { attached: Some(attached), ..self }),
    {
        let mut builder = self;
        builder.attached = Some(attached);
        builder
    }

    /// The object: one snapshot, looked at the tick at which it comes into
    /// being, and visible.
    pub fn build(self) -> (r: CSimObject)
        ensures
            r.state_timeline@ == seq![self.spec_first_state()],
            r.init_timestep == self.spec_first_timestep(),
            r.timestep == self.spec_first_timestep(),
            !r.hide,
            r.attached == self.attached,
            r@.is_live(),
            r@.has_current(),
            self.spec_first_timestep() < usize::MAX ==> r@.wf(),
    {
        let init_timestep = match self.init_timestep {
            Some(timestep) => timestep,
            None => 0,
        };
        let state = match self.init_state {
            Some(state) => state,
            None => CSObjectState::default(),
        };
        let first = match self.shape {
            Some(shape) => CSObjectState {
                position: state.position,
                velocity: state.velocity,
                last_velocity: state.last_velocity,
                mass: state.mass,
                acc_list: state.acc_list,
                shape,
            },
            None => state,
        };
        let mut state_timeline: Vec<CSObjectState> = Vec::new();
        state_timeline.push(first);
        CSimObject {
            state_timeline,
            init_timestep,
            timestep: init_timestep,
            hide: false,
            attached: self.attached,
        }
    }
}

} // verus!
