//! Ready-made simulations.

use crate::angle::{spec_unit_direction, unit_direction};
use crate::object::{AttachedFn, CSimObject, CSimObjectBuilder};
use crate::scalar::Scalar;
use crate::stamp::{CSObjectStamp, CSObjectStampResult, CSPlotObjects, StampState};
use crate::state::CSObjectState;
use crate::vector::NVec2;
use vstd::prelude::*;

verus! {

/// One object of a throw: the angle of the throw in degrees, the speed, and
/// the mass.
#[derive(Clone, Copy, Debug)]
pub struct BasicSimInitObjData {
    pub theta: Scalar,
    pub start_velocity_mul: Scalar,
    pub mass: Scalar,
}

impl BasicSimInitObjData {
    /// The object that is added to a throw: thrown level, at speed ten, with
    /// mass ten.
    pub open spec fn spec_new() -> BasicSimInitObjData {
        BasicSimInitObjData {
            theta: Scalar { raw: 0 },
            start_velocity_mul: Scalar::spec_from_int(10),
            mass: Scalar::spec_from_int(10),
        }
    }

    /// The object that is added to a throw.
    pub fn new() -> (r: BasicSimInitObjData)
        ensures
            r == BasicSimInitObjData::spec_new(),
    {
        BasicSimInitObjData {
            theta: Scalar::zero(),
            start_velocity_mul: Scalar::from_int(10),
            mass: Scalar::from_int(10),
        }
    }
}

/// The objects of a throw.
#[derive(Debug)]
pub struct ThetaThrowSimInit {
    pub objects: Vec<BasicSimInitObjData>,
}

/// A ready-made simulation.
#[derive(Debug)]
pub enum CSTemplate {
    /// Objects thrown from the origin at given angles.
    ThetaThrowSimInit(ThetaThrowSimInit),
    /// No object.
    DefaultSim,
    /// One object that circles.
    CircleSim,
}

/// What a simulation starts with: its objects and the stamps of its picture.
pub struct CSPreset<F> {
    pub simulation_objects: Vec<CSimObject>,
    pub plot_objects: CSPlotObjects<F>,
}

/// The first snapshot of an object that is thrown as `throw` says: the
/// default state with the throw's mass and with the velocity at the throw's
/// angle and speed.
pub open spec fn spec_thrown(throw: BasicSimInitObjData) -> CSObjectState {
    CSObjectState {
        velocity: spec_unit_direction(throw.theta).spec_scale(throw.start_velocity_mul),
        mass: throw.mass,
        ..CSObjectState::spec_default()
    }
}

/// The first snapshot of the object that circles: mass five, at `(1, 0)`,
/// with velocity `(5, 5)`.
pub open spec fn spec_circling() -> CSObjectState {
    CSObjectState {
        velocity: NVec2 { x: Scalar::spec_from_int(5), y: Scalar::spec_from_int(5) },
        mass: Scalar::spec_from_int(5),
        position: NVec2 { x: Scalar::spec_from_int(1), y: Scalar { raw: 0 } },
        ..CSObjectState::spec_default()
    }
}

/// Whether `object` is new: it holds the one snapshot `first`, came into
/// being at tick 0, is looked at that tick and visible, and has the behavior
/// `attached`.
pub open spec fn spec_is_new_object(
    object: CSimObject,
    first: CSObjectState,
    attached: Option<AttachedFn>,
) -> bool {
    &&& object.state_timeline@ == seq![first]
    &&& object.init_timestep == 0
    &&& object.timestep == 0
    &&& !object.hide
    &&& object.attached == attached
}

impl<F: Fn(&CSObjectState, usize, Scalar) -> Option<CSObjectStampResult>> CSPreset<F> {
    /// Whether this is the preset of the throw `data`: one new object
    /// without behavior per entry, in order, each thrown as its entry says;
    /// and one stamp, armed, that captures below the ground and watches the
    /// first object only.
    pub open spec fn is_throw(self, data: Seq<BasicSimInitObjData>) -> bool {
        &&& self.simulation_objects.len() == data.len()
        &&& forall|k: int|
            0 <= k < data.len() ==> spec_is_new_object(
                #[trigger] self.simulation_objects[k],
                spec_thrown(data[k]),
                None,
            )
        &&& self.plot_objects.stamps.len() == 1
        &&& self.plot_objects.stamps[0].is_ground_stamp(0, 0)
    }

    /// Whether this is the preset of the circling object: that one new
    /// object, whose behavior makes it circle, and no stamp.
    pub open spec fn is_circle(self) -> bool {
        &&& self.simulation_objects.len() == 1
        &&& spec_is_new_object(
            self.simulation_objects[0],
            spec_circling(),
            Some(AttachedFn::Orbit),
        )
        &&& self.plot_objects.stamps.len() == 0
    }

    /// Whether this preset holds no object and no stamp.
    pub open spec fn is_empty(self) -> bool {
        &&& self.simulation_objects.len() == 0
        &&& self.plot_objects.stamps.len() == 0
    }
}

impl<F: Fn(&CSObjectState, usize, Scalar) -> Option<CSObjectStampResult>> Default for CSPreset<F> {
    fn default() -> (r: CSPreset<F>)
        ensures
            r.is_empty(),
    {
        CSPreset { simulation_objects: Vec::new(), plot_objects: CSPlotObjects::new() }
    }
}

/// An object of a throw at `theta` degrees, with speed twenty and mass five.
fn standard_throw(theta: i64) -> (r: BasicSimInitObjData)
    ensures
        r == (BasicSimInitObjData {
            theta: Scalar::spec_from_int(theta as int),
            start_velocity_mul: Scalar::spec_from_int(20),
            mass: Scalar::spec_from_int(5),
        }),
{
    BasicSimInitObjData {
        theta: Scalar::from_int(theta),
        start_velocity_mul: Scalar::from_int(20),
        mass: Scalar::from_int(5),
    }
}

/// The throw on offer: four objects of mass five at speed twenty, at 30, 60,
/// 15 and 75 degrees.
pub open spec fn spec_standard_throws() -> Seq<BasicSimInitObjData> {
    Seq::new(
        4,
        |k: int|
            BasicSimInitObjData {
                theta: Scalar::spec_from_int(
                    if k == 0 {
                        30
                    } else if k == 1 {
                        60
                    } else if k == 2 {
                        15
                    } else {
                        75
                    },
                ),
                start_velocity_mul: Scalar::spec_from_int(20),
                mass: Scalar::spec_from_int(5),
            },
    )
}

/// The simulations on offer: a throw of four objects of mass five at speed
/// twenty, at 30, 60, 15 and 75 degrees; the empty simulation; and the
/// circling object.
pub fn get_sim_list() -> (r: [CSTemplate; 3])
    ensures
        r[0] is ThetaThrowSimInit,
        r[0]->ThetaThrowSimInit_0.objects@ == spec_standard_throws(),
        r[1] is DefaultSim,
        r[2] is CircleSim,
{
    let mut objects: Vec<BasicSimInitObjData> = Vec::new();
    objects.push(standard_throw(30));
    objects.push(standard_throw(60));
    objects.push(standard_throw(15));
    objects.push(standard_throw(75));
    proof {
        assert(objects@ =~= spec_standard_throws());
    }
    [
        CSTemplate::ThetaThrowSimInit(ThetaThrowSimInit { objects }),
        CSTemplate::DefaultSim,
        CSTemplate::CircleSim,
    ]
}

/// The preset of a throw: its objects, one per entry of `data`, in order,
/// and the stamp that captures the first object once it is below the ground.
pub fn theta_throw<F: Fn(&CSObjectState, usize, Scalar) -> Option<CSObjectStampResult>>(
    data: &ThetaThrowSimInit,
) -> (r: CSPreset<F>)
    ensures
        r.is_throw(data.objects@),
{
    let mut simulation_objects: Vec<CSimObject> = Vec::new();
    let mut i: usize = 0;
    while i < data.objects.len()
        invariant
            i <= data.objects.len(),
            simulation_objects.len() == i,
            forall|k: int|
                0 <= k < i ==> spec_is_new_object(
                    #[trigger] simulation_objects[k],
                    spec_thrown(data.objects[k]),
                    None,
                ),
        decreases data.objects.len() - i,
    {
        let obj = data.objects[i];
        let mut first = CSObjectState::default();
        first.velocity = unit_direction(obj.theta).scale(obj.start_velocity_mul);
        first.mass = obj.mass;
        simulation_objects.push(CSimObjectBuilder::new(first).build());
        i = i + 1;
    }
    let stamp = CSObjectStamp::below_ground(0, 0);
    let plot_objects = CSPlotObjects::new().add_stamp(stamp);
    CSPreset { simulation_objects, plot_objects }
}

/// The preset of the one object that circles: its behavior accelerates it at
/// right angles to its velocity.
pub fn circle_sim<F: Fn(&CSObjectState, usize, Scalar) -> Option<CSObjectStampResult>>() -> (r:
    CSPreset<F>)
    ensures
        r.is_circle(),
{
    let mut first = CSObjectState::default();
    first.velocity = NVec2 { x: Scalar::from_int(5), y: Scalar::from_int(5) };
    first.mass = Scalar::from_int(5);
    first.position = NVec2 { x: Scalar::from_int(1), y: Scalar::zero() };
    let mut simulation_objects: Vec<CSimObject> = Vec::new();
    simulation_objects.push(CSimObjectBuilder::new(first).attached(AttachedFn::Orbit).build());
    CSPreset { simulation_objects, plot_objects: CSPlotObjects::new() }
}

/// The preset without objects and stamps.
pub fn default_sim<F: Fn(&CSObjectState, usize, Scalar) -> Option<CSObjectStampResult>>() -> (r:
    CSPreset<F>)
    ensures
        r.is_empty(),
{
    CSPreset::default()
}

impl CSTemplate {
    /// The name of the template.
    pub fn get_name(&self) -> (r: String)
        ensures
            r@ == match *self {
                CSTemplate::ThetaThrowSimInit(_) => "ThetaThrowSimInit"@,
                CSTemplate::DefaultSim => "DefaultSim"@,
                CSTemplate::CircleSim => "CircleSim"@,
            },
    {
        match self {
            CSTemplate::ThetaThrowSimInit(_) => "ThetaThrowSimInit".to_owned(),
            CSTemplate::DefaultSim => "DefaultSim".to_owned(),
            CSTemplate::CircleSim => "CircleSim".to_owned(),
        }
    }

    /// What can still be changed before the simulation starts: the objects
    /// of a throw, and nothing for the other templates.
    pub fn get_data(&self) -> (r: Option<&ThetaThrowSimInit>)
        ensures
            r == match *self {
                CSTemplate::ThetaThrowSimInit(data) => Some(&data),
                _ => None::<&ThetaThrowSimInit>,
            },
    {
        match self {
            CSTemplate::ThetaThrowSimInit(data) => Some(data),
            _ => None,
        }
    }

    /// What the template starts with.
    pub fn get_preset_with_ui<F: Fn(&CSObjectState, usize, Scalar) -> Option<CSObjectStampResult>>(
        &self,
    ) -> (r: CSPreset<F>)
        ensures
            match *self {
                CSTemplate::DefaultSim => r.is_empty(),
                CSTemplate::CircleSim => r.is_circle(),
                CSTemplate::ThetaThrowSimInit(data) => r.is_throw(data.objects@),
            },
    {
        match self {
            CSTemplate::DefaultSim => default_sim(),
            CSTemplate::ThetaThrowSimInit(init) => theta_throw(init),
            CSTemplate::CircleSim => circle_sim(),
        }
    }
}

} // verus!
