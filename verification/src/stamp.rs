//! Stamps: one-shot captures of an object's state.
//!
//! A stamp watches the objects whose index lies in its range. Its capture
//! function looks at an object's state, its index and the time, and returns a
//! result or nothing. The first time it returns a result, the stamp keeps it
//! and from then on answers every query in range with that result.

use crate::scalar::Scalar;
use crate::state::CSObjectState;
use vstd::prelude::*;

verus! {

/// What a stamp captured.
#[derive(Debug)]
pub struct CSObjectStampResult {
    pub label: String,
    pub name: String,
    pub time: Scalar,
    pub state: CSObjectState,
}

impl Default for CSObjectStampResult {
    fn default() -> (r: CSObjectStampResult)
        ensures
            r.label@ == Seq::<char>::empty(),
            r.name@ == Seq::<char>::empty(),
            r.time.raw == 0,
            r.state == CSObjectState::spec_default(),
    {
        CSObjectStampResult {
            label: String::new(),
            name: String::new(),
            time: Scalar::zero(),
            state: CSObjectState::default(),
        }
    }
}

impl Clone for CSObjectStampResult {
    fn clone(&self) -> (r: CSObjectStampResult)
        ensures
            r == *self,
    {
        CSObjectStampResult {
            label: self.label.clone(),
            name: self.name.clone(),
            time: self.time,
            state: self.state,
        }
    }
}

impl CSObjectStampResult {
    /// Sets the label.
    pub fn label(self, label: String) -> (r: CSObjectStampResult)
        ensures
            r == (CSObjectStampResult { label, ..self }),
    {
        let mut result = self;
        result.label = label;
        result
    }

    /// Sets the captured state.
    pub fn state(self, state: CSObjectState) -> (r: CSObjectStampResult)
        ensures
            r == (CSObjectStampResult { state, ..self }),
    {
        let mut result = self;
        result.state = state;
        result
    }

    /// Sets the name.
    pub fn name(self, name: String) -> (r: CSObjectStampResult)
        ensures
            r == (CSObjectStampResult { name, ..self }),
    {
        let mut result = self;
        result.name = name;
        result
    }

    /// Sets the time of the capture.
    pub fn time(self, time: Scalar) -> (r: CSObjectStampResult)
        ensures
            r == (CSObjectStampResult { time, ..self }),
    {
        let mut result = self;
        result.time = time;
        result
    }
}

/// Whether `answer` is what the capture below the ground gives for an object
/// in state `state` at time `time`: nothing while the object is not below the
/// ground, and from then on the state and the time, under the label
/// "WHEN pos < 0.1" and without a name.
pub open spec fn spec_below_ground(
    state: CSObjectState,
    time: Scalar,
    answer: Option<CSObjectStampResult>,
) -> bool {
    &&& answer is Some <==> state.position.y.raw < 0
    &&& answer is Some ==> {
        &&& answer.unwrap().state == state
        &&& answer.unwrap().time == time
        &&& answer.unwrap().label@ == "WHEN pos < 0.1"@
        &&& answer.unwrap().name@ == Seq::<char>::empty()
    }
}

/// The capture that goes with a throw: it captures the state and the time
/// once the object is below the ground, under the label "WHEN pos < 0.1",
/// whatever the object's index.
pub fn below_ground(state: &CSObjectState, obj_index: usize, time: Scalar) -> (r: Option<
    CSObjectStampResult,
>)
    ensures
        spec_below_ground(*state, time, r),
{
    if state.position.y.lt(Scalar::zero()) {
        Some(
            CSObjectStampResult::default().label("WHEN pos < 0.1".to_owned()).state(*state).time(
                time,
            ),
        )
    } else {
        None
    }
}

/// What a stamp captures with: a capture of the library, or a function of
/// the caller.
pub enum CSObjectStampFunction<F> {
    /// The capture below the ground.
    BelowGround,
    /// A function of the caller.
    Custom(F),
}

impl<F: Fn(&CSObjectState, usize, Scalar) -> Option<CSObjectStampResult>> CSObjectStampFunction<F> {
    /// Whether the capture may be asked about an object in state `state`
    /// with index `index` at time `time`.
    pub open spec fn callable(self, state: &CSObjectState, index: usize, time: Scalar) -> bool {
        match self {
            CSObjectStampFunction::BelowGround => true,
            CSObjectStampFunction::Custom(function) => call_requires(
                function,
                (state, index, time),
            ),
        }
    }

    /// Whether `answer` is what the capture gives for an object in state
    /// `state` with index `index` at time `time`.
    pub open spec fn captures(
        self,
        state: &CSObjectState,
        index: usize,
        time: Scalar,
        answer: Option<CSObjectStampResult>,
    ) -> bool {
        match self {
            CSObjectStampFunction::BelowGround => spec_below_ground(*state, time, answer),
            CSObjectStampFunction::Custom(function) => call_ensures(
                function,
                (state, index, time),
                answer,
            ),
        }
    }

    /// Asks the capture about an object.
    pub fn capture(&self, state: &CSObjectState, index: usize, time: Scalar) -> (r: Option<
        CSObjectStampResult,
    >)
        requires
            self.callable(state, index, time),
        ensures
            self.captures(state, index, time, r),
    {
        match self {
            CSObjectStampFunction::BelowGround => below_ground(state, index, time),
            CSObjectStampFunction::Custom(function) => function(state, index, time),
        }
    }
}

/// Whether a stamp has fired.
#[derive(Debug)]
pub enum StampState {
    /// The stamp fired and keeps what it captured.
    Stamped(CSObjectStampResult),
    /// The stamp is armed.
    NotStamped,
}

/// A stamp with its capture function and the inclusive range of object
/// indices that it watches.
pub struct CSObjectStamp<F> {
    pub state: StampState,
    pub function: CSObjectStampFunction<F>,
    pub range_start: usize,
    pub range_end: usize,
}

impl<F: Fn(&CSObjectState, usize, Scalar) -> Option<CSObjectStampResult>> CSObjectStamp<F> {
    /// Whether the stamp watches the object with index `obj_index`.
    pub open spec fn in_range(self, obj_index: usize) -> bool {
        self.range_start <= obj_index <= self.range_end
    }

    /// Whether the stamp is armed, captures below the ground, and watches
    /// the objects from `range_start` to `range_end`.
    pub open spec fn is_ground_stamp(self, range_start: usize, range_end: usize) -> bool {
        &&& self.state == StampState::NotStamped
        &&& self.function is BelowGround
        &&& self.range_start == range_start
        &&& self.range_end == range_end
    }

    /// An armed stamp that captures with `function` and watches the objects
    /// from `range_start` to `range_end`, both included.
    pub fn new(function: F, range_start: usize, range_end: usize) -> (r: Self)
        ensures
            r.state == StampState::NotStamped,
            r.function == CSObjectStampFunction::Custom(function),
            r.range_start == range_start,
            r.range_end == range_end,
    {
        CSObjectStamp {
            state: StampState::NotStamped,
            function: CSObjectStampFunction::Custom(function),
            range_start,
            range_end,
        }
    }

    /// An armed stamp that captures below the ground and watches the objects
    /// from `range_start` to `range_end`, both included.
    pub fn below_ground(range_start: usize, range_end: usize) -> (r: Self)
        ensures
            r.is_ground_stamp(range_start, range_end),
    {
        CSObjectStamp {
            state: StampState::NotStamped,
            function: CSObjectStampFunction::BelowGround,
            range_start,
            range_end,
        }
    }

    /// Whether the stamp has fired.
    pub fn is_stamped(&self) -> (r: bool)
        ensures
            r == (self.state is Stamped),
    {
        match &self.state {
            StampState::Stamped(_) => true,
            StampState::NotStamped => false,
        }
    }

    /// What the stamp has to say of object `obj_index`, which is in state
    /// `obj_state` at time `time`.
    ///
    /// Outside the stamp's range the answer is `None` and the capture function
    /// is not asked. A stamp that has fired answers with what it captured,
    /// whatever `obj_state` and `time` are. An armed stamp asks its capture
    /// function: a result makes it fire, `None` leaves it armed.
    pub fn get_data(&mut self, obj_state: &CSObjectState, obj_index: usize, time: Scalar) -> (r:
        Option<CSObjectStampResult>)
        requires
            old(self).state is NotStamped && old(self).in_range(obj_index) ==> old(
                self,
            ).function.callable(obj_state, obj_index, time),
        ensures
            spec_answered(*old(self), *final(self), obj_state, obj_index, time, r),
    {
        if obj_index < self.range_start || obj_index > self.range_end {
            None
        } else {
            match &self.state {
                StampState::Stamped(result) => Some(result.clone()),
                StampState::NotStamped => {
                    let result = self.function.capture(obj_state, obj_index, time);
                    match result {
                        Some(captured) => {
                            let kept = captured.clone();
                            self.state = StampState::Stamped(kept);
                            Some(captured)
                        },
                        None => None,
                    }
                },
            }
        }
    }
}

/// The stamps of a picture.
pub struct CSPlotObjects<F> {
    pub stamps: Vec<CSObjectStamp<F>>,
}

impl<F: Fn(&CSObjectState, usize, Scalar) -> Option<CSObjectStampResult>> CSPlotObjects<F> {
    /// No stamp.
    pub fn new() -> (r: Self)
        ensures
            r.stamps@.len() == 0,
    {
        CSPlotObjects { stamps: Vec::new() }
    }

    /// These stamps and `stamp` after them.
    pub fn add_stamp(self, stamp: CSObjectStamp<F>) -> (r: Self)
        ensures
            r.stamps@ == self.stamps@.push(stamp),
    {
        let mut objects = self;
        objects.stamps.push(stamp);
        objects
    }

    /// The stamps, to be asked and changed in place.
    pub fn get_stamps(&mut self) -> (r: &mut Vec<CSObjectStamp<F>>)
        ensures
            *r == old(self).stamps,
            final(self).stamps == *final(r),
    {
        &mut self.stamps
    }
}

/// Whether `after` and `answer` are what a query about object `obj_index`,
/// in state `obj_state` at time `time`, makes of the stamp `before`.
///
/// The capture function and the range stay. Outside the range the answer is
/// `None` and the stamp stays as it is. Inside, a stamp that has fired
/// answers with what it captured and stays as it is; an armed stamp answers
/// with what its capture function returns, and fires if that is a result.
pub open spec fn spec_answered<F: Fn(&CSObjectState, usize, Scalar) -> Option<CSObjectStampResult>>(
    before: CSObjectStamp<F>,
    after: CSObjectStamp<F>,
    obj_state: &CSObjectState,
    obj_index: usize,
    time: Scalar,
    answer: Option<CSObjectStampResult>,
) -> bool {
    &&& after.function == before.function
    &&& after.range_start == before.range_start
    &&& after.range_end == before.range_end
    &&& !before.in_range(obj_index) ==> answer is None && after.state == before.state
    &&& before.in_range(obj_index) ==> (match before.state {
        StampState::Stamped(result) => answer == Some(result) && after.state == before.state,
        StampState::NotStamped => {
            &&& before.function.captures(obj_state, obj_index, time, answer)
            &&& after.state == match answer {
                Some(result) => StampState::Stamped(result),
                None => StampState::NotStamped,
            }
        },
    })
}

/// Asks every stamp of `stamps` about object `obj_index`. Answer `k` is the
/// one of stamp `k`.
pub fn get_stamp_data<F: Fn(&CSObjectState, usize, Scalar) -> Option<CSObjectStampResult>>(
    stamps: &mut Vec<CSObjectStamp<F>>,
    obj_state: &CSObjectState,
    obj_index: usize,
    time: Scalar,
) -> (r: Vec<Option<CSObjectStampResult>>)
    requires
        forall|k: int|
            0 <= k < old(stamps).len() && (#[trigger] old(stamps)[k]).state is NotStamped && old(
                stamps,
            )[k].in_range(obj_index) ==> old(stamps)[k].function.callable(
                obj_state,
                obj_index,
                time,
            ),
    ensures
        final(stamps).len() == old(stamps).len(),
        r.len() == old(stamps).len(),
        forall|k: int|
            0 <= k < old(stamps).len() ==> spec_answered(
                old(stamps)[k],
                #[trigger] final(stamps)[k],
                obj_state,
                obj_index,
                time,
                r[k],
            ),
{
    let mut answers: Vec<Option<CSObjectStampResult>> = Vec::new();
    let mut i: usize = 0;
    while i < stamps.len()
        invariant
            i <= stamps.len(),
            stamps.len() == old(stamps).len(),
            answers.len() == i,
            forall|k: int| i <= k < stamps.len() ==> #[trigger] stamps[k] == old(stamps)[k],
            forall|k: int|
                0 <= k < old(stamps).len() && (#[trigger] old(stamps)[k]).state is NotStamped
                    && old(stamps)[k].in_range(obj_index) ==> old(stamps)[k].function.callable(
                    obj_state,
                    obj_index,
                    time,
                ),
            forall|k: int|
                0 <= k < i ==> spec_answered(
                    old(stamps)[k],
                    #[trigger] stamps[k],
                    obj_state,
                    obj_index,
                    time,
                    answers[k],
                ),
        decreases stamps.len() - i,
    {
        let stamp = &mut stamps[i];
        let answer = stamp.get_data(obj_state, obj_index, time);
        answers.push(answer);
        i = i + 1;
    }
    answers
}

/// A stamp fires once: after a query that was answered with a result, every
/// later query in range is answered with the same result, whatever the state
/// and the time, and the stamp stays as it is.
pub proof fn lemma_stamp_fires_once<F: Fn(&CSObjectState, usize, Scalar) -> Option<CSObjectStampResult>>(
    armed: CSObjectStamp<F>,
    fired: CSObjectStamp<F>,
    later: CSObjectStamp<F>,
    first_state: &CSObjectState,
    first_index: usize,
    first_time: Scalar,
    first_answer: Option<CSObjectStampResult>,
    later_state: &CSObjectState,
    later_index: usize,
    later_time: Scalar,
    later_answer: Option<CSObjectStampResult>,
)
    requires
        spec_answered(armed, fired, first_state, first_index, first_time, first_answer),
        first_answer is Some,
        spec_answered(fired, later, later_state, later_index, later_time, later_answer),
        fired.in_range(later_index),
    ensures
        later_answer == first_answer,
        later.state == fired.state,
        fired.state is Stamped,
{
}

} // verus!
