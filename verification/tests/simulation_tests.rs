use physics::event::SimulationEvent;
use physics::object::{AttachedFn, CSimObject, CSimObjectBuilder};
use physics::plot::{InputMessage, PlotData};
use physics::scalar::Scalar;
use physics::shape::ObjectShape;
use physics::sim_state::{
    CSimSettings, SimulationSettings, SimulationState, SpecificSimulationSettings,
};
use physics::simulation::{gravity, zero_force, ClassicSimulation, GlobalForceSlot, Operation};
use physics::state::{CSObjectState, ForceIndex};
use physics::vector::NVec2;

fn v(x: i64, y: i64) -> NVec2 {
    NVec2::new(Scalar::from_raw(x), Scalar::from_raw(y))
}

fn vi(x: i64, y: i64) -> NVec2 {
    NVec2::new(Scalar::from_int(x), Scalar::from_int(y))
}

fn body(position: NVec2, velocity: NVec2, mass: i64) -> CSimObject {
    let mut state = CSObjectState::default();
    state.position = position;
    state.velocity = velocity;
    state.mass = Scalar::from_int(mass);
    CSimObjectBuilder::new(state).build()
}

fn classic_state() -> SimulationState {
    let mut state = SimulationState::default();
    state.settings =
        SimulationSettings::new(SpecificSimulationSettings::CSimSettings(CSimSettings::default()));
    state
}

fn switch_gravity(state: &mut SimulationState, on: bool) {
    if let SpecificSimulationSettings::CSimSettings(settings) = &mut state.settings.specific {
        *settings.gravity.get_mut() = on;
        settings.gravity.changed();
    }
}

fn tick(simulation: &mut ClassicSimulation, state: &mut SimulationState) {
    assert!(simulation.can_step());
    state.max_step += 1;
    state.current_step = state.max_step;
    simulation.step(state);
}

fn positions(object: &CSimObject) -> Vec<NVec2> {
    object.state_timeline.iter().map(|s| s.position).collect()
}

fn velocities(object: &CSimObject) -> Vec<NVec2> {
    object.state_timeline.iter().map(|s| s.velocity).collect()
}

#[test]
fn new_simulation_is_under_gravity() {
    let simulation = ClassicSimulation::from(vec![body(vi(0, 0), vi(0, 0), 1)]);
    assert_eq!(simulation.global_acc_list, vec![v(0, -9_800_000_000_000)]);
    assert_eq!(simulation.global_acc_list, vec![gravity()]);
    assert!(simulation.events.is_empty());
    assert_eq!(simulation.operation, Operation::Navigate);
    assert_eq!(Operation::default(), Operation::Navigate);
    assert_eq!(simulation.get_children().len(), 1);
    assert_eq!(GlobalForceSlot::Gravity.index(), 0);
    assert_eq!(zero_force(), vi(0, 0));
}

#[test]
fn free_fall_does_not_depend_on_the_mass() {
    let mut light = ClassicSimulation::from(vec![body(vi(0, 0), vi(0, 0), 1)]);
    let mut heavy = ClassicSimulation::from(vec![body(vi(0, 0), vi(0, 0), 1000)]);
    let mut light_state = classic_state();
    let mut heavy_state = classic_state();
    for _ in 0..50 {
        tick(&mut light, &mut light_state);
        tick(&mut heavy, &mut heavy_state);
        let a = light.objects[0].current_state();
        let b = heavy.objects[0].current_state();
        assert_eq!(a.velocity, b.velocity);
        assert_eq!(a.position, b.position);
    }
}

#[test]
fn free_fall_gains_the_same_velocity_every_tick() {
    let mut simulation = ClassicSimulation::from(vec![body(vi(0, 0), vi(0, 0), 5)]);
    let mut state = classic_state();
    for k in 1..=240i64 {
        tick(&mut simulation, &mut state);
        let now = simulation.objects[0].current_state();
        assert_eq!(now.velocity, v(0, -40_833_333_333 * k));
        let expected = -9.8 * (k as f64) / 240.0;
        assert!((now.velocity.y.raw() as f64 / 1e12 - expected).abs() <= 1e-9 * k as f64);
    }
    let end = simulation.objects[0].current_state();
    assert_eq!(end.velocity, v(0, -9_799_999_999_920));
    assert_eq!(end.position, v(0, -4_899_999_999_735));
    // one second of free fall: half of 9.8
    assert!((end.position.y.raw() as f64 / 1e12 + 4.9).abs() < 1e-9);
    assert_eq!(simulation.objects[0].state_timeline.len(), 241);
    assert_eq!(simulation.objects[0].timestep, 240);
    assert_eq!(simulation.events.len(), 240);
}

#[test]
fn step_integrates_saves_and_then_collides() {
    let mut simulation = ClassicSimulation::from(vec![
        body(vi(3, 4), vi(-1, -2), 2),
        body(vi(0, 0), vi(1, 1), 4),
    ]);
    let mut state = classic_state();
    tick(&mut simulation, &mut state);
    // the snapshot that was integrated in place, and its copy with the
    // velocity change of the collision
    assert_eq!(
        positions(&simulation.objects[0]),
        vec![v(2_995_833_333_334, 3_991_581_597_223), v(2_995_833_333_334, 3_991_581_597_223)]
    );
    assert_eq!(
        velocities(&simulation.objects[0]),
        vec![v(-1_000_000_000_000, -2_040_833_333_333), v(719_625_566_006, 251_202_414_115)]
    );
    assert_eq!(
        positions(&simulation.objects[1]),
        vec![v(4_166_666_666, 4_081_597_222), v(4_166_666_666, 4_081_597_222)]
    );
    assert_eq!(
        velocities(&simulation.objects[1]),
        vec![v(1_000_000_000_000, 959_166_666_667), v(367_210_466_737, 115_741_063_139)]
    );
    let events = simulation.get_events(1).unwrap();
    assert_eq!(events.len(), 1);
    match events.get(0).unwrap() {
        SimulationEvent::Collision(event) => {
            assert_eq!(event.penetration.raw(), 15_014_999_930_345);
            assert_eq!(event.contact_normal, v(600_133_726_151, 799_899_687_920));
            assert_eq!(event.contact_point, v(-3_005_503_928_176, -4_007_415_281_977));
            assert_eq!(event.obj1_velocity, v(1_719_625_566_006, 2_292_035_747_448));
            assert_eq!(event.obj2_velocity, v(-632_789_533_263, -843_425_603_528));
            // the states of the event are those after integration, before
            // the collision
            assert_eq!(event.obj1_state.position, v(2_995_833_333_334, 3_991_581_597_223));
            assert_eq!(event.obj1_state.velocity, v(-1_000_000_000_000, -2_040_833_333_333));
            assert_eq!(event.obj2_state.velocity, v(1_000_000_000_000, 959_166_666_667));
        }
    }
    assert!(events.get(1).is_none());
    tick(&mut simulation, &mut state);
    assert_eq!(simulation.objects[0].current_state().position, v(2_998_831_773_192, 3_992_543_204_504));
    assert_eq!(simulation.objects[0].current_state().velocity, v(1_143_056_025_406, 774_549_418_440));
    assert_eq!(simulation.objects[1].current_state().position, v(5_696_710_277, 4_478_782_207));
    assert_eq!(simulation.objects[1].current_state().velocity, v(147_832_353_797, -217_392_493_491));
    assert_eq!(simulation.get_events(2).unwrap().len(), 1);
}

#[test]
fn every_pair_is_tested_exactly_once() {
    for n in 0..7usize {
        let objects: Vec<CSimObject> =
            (0..n).map(|k| body(vi(k as i64, 2 * k as i64), vi(0, 0), 1)).collect();
        let mut simulation = ClassicSimulation::from(objects);
        simulation.global_acc_list[0] = zero_force();
        let mut state = classic_state();
        tick(&mut simulation, &mut state);
        // all circles overlap, so every tested pair leaves one event
        let events = simulation.get_events(1).unwrap();
        assert_eq!(events.len(), n * n.saturating_sub(1) / 2);
        let mut seen: Vec<(i64, i64)> = Vec::new();
        for k in 0..events.len() {
            match events.get(k).unwrap() {
                SimulationEvent::Collision(event) => {
                    let i = event.obj1_state.position.x.raw() / 1_000_000_000_000;
                    let j = event.obj2_state.position.x.raw() / 1_000_000_000_000;
                    assert!(i < j);
                    assert!(!seen.contains(&(i, j)));
                    if let Some(last) = seen.last() {
                        assert!(*last < (i, j));
                    }
                    seen.push((i, j));
                }
            }
        }
    }
}

#[test]
fn pairs_are_tested_in_index_order() {
    let objects: Vec<CSimObject> =
        (0..4).map(|k| body(vi(k, 2 * k), vi(0, 0), 1)).collect();
    let mut simulation = ClassicSimulation::from(objects);
    simulation.global_acc_list[0] = zero_force();
    let mut state = classic_state();
    tick(&mut simulation, &mut state);
    let events = simulation.get_events(1).unwrap();
    let mut order = Vec::new();
    for k in 0..events.len() {
        match events.get(k).unwrap() {
            SimulationEvent::Collision(event) => order.push((
                event.obj1_state.position.x.raw() / 1_000_000_000_000,
                event.obj2_state.position.x.raw() / 1_000_000_000_000,
            )),
        }
    }
    assert_eq!(order, vec![(0, 1), (0, 2), (0, 3), (1, 2), (1, 3), (2, 3)]);
}

#[test]
fn distant_objects_and_boxes_leave_no_event() {
    let mut boxed = CSObjectState::default();
    boxed.shape = ObjectShape::rect(Scalar::from_int(50), Scalar::from_int(50));
    let mut simulation = ClassicSimulation::from(vec![
        body(vi(0, 0), vi(0, 0), 1),
        body(vi(100, 0), vi(0, 0), 1),
        CSimObjectBuilder::new(boxed).build(),
    ]);
    let mut state = classic_state();
    tick(&mut simulation, &mut state);
    assert_eq!(simulation.get_events(1).unwrap().len(), 0);
    assert_eq!(simulation.events.len(), 1);
}

#[test]
fn events_are_found_by_tick() {
    let mut simulation = ClassicSimulation::from(vec![body(vi(0, 0), vi(0, 0), 1)]);
    let mut state = classic_state();
    assert!(simulation.get_events(0).is_none());
    assert!(simulation.get_events(1).is_none());
    tick(&mut simulation, &mut state);
    tick(&mut simulation, &mut state);
    assert!(simulation.get_events(0).is_none());
    assert!(simulation.get_events(1).is_some());
    assert!(simulation.get_events(2).is_some());
    assert!(simulation.get_events(3).is_none());
}

#[test]
fn gravity_follows_the_setting() {
    let mut simulation = ClassicSimulation::from(vec![body(vi(0, 0), vi(0, 0), 1)]);
    let mut state = classic_state();
    tick(&mut simulation, &mut state);
    assert_eq!(simulation.objects[0].current_state().velocity, v(0, -40_833_333_333));
    switch_gravity(&mut state, false);
    tick(&mut simulation, &mut state);
    assert_eq!(simulation.global_acc_list, vec![vi(0, 0)]);
    assert_eq!(simulation.objects[0].current_state().velocity, v(0, -40_833_333_333));
    // the change was taken in: the mark is off
    assert_eq!(state.settings.specific.take_gravity_change(), None);
    tick(&mut simulation, &mut state);
    assert_eq!(simulation.objects[0].current_state().velocity, v(0, -40_833_333_333));
    switch_gravity(&mut state, true);
    tick(&mut simulation, &mut state);
    assert_eq!(simulation.global_acc_list, vec![gravity()]);
    assert_eq!(simulation.objects[0].current_state().velocity, v(0, -81_666_666_666));
}

#[test]
fn attached_behavior_runs_before_integration() {
    let mut state = CSObjectState::default();
    state.velocity = vi(5, 5);
    state.mass = Scalar::from_int(5);
    state.position = vi(1, 0);
    let object = CSimObjectBuilder::new(state).attached(AttachedFn::Orbit).build();
    let mut simulation = ClassicSimulation::from(vec![object]);
    let mut sim_state = classic_state();
    let expected = [
        (v(1_020_876_736_110, 20_704_861_111), v(5_020_833_333_333, 4_938_333_333_334), v(5_000_000_000_000, -5_000_000_000_000)),
        (v(1_041_839_474_824, 41_152_506_510), v(5_041_281_249_999, 4_876_536_458_335), v(4_938_333_333_334, -5_020_833_333_333)),
        (v(1_062_886_876_195, 61_342_489_103), v(5_061_471_408_419, 4_814_655_186_635), v(4_876_536_458_335, -5_041_281_249_999)),
    ];
    for (position, velocity, acceleration) in expected {
        tick(&mut simulation, &mut sim_state);
        let now = simulation.objects[0].current_state();
        assert_eq!(now.position, position);
        assert_eq!(now.velocity, velocity);
        assert_eq!(now.acc_list[ForceIndex::Attached.index()], acceleration);
    }
}

#[test]
fn scrubbing_twice_is_scrubbing_once_and_returning_restores() {
    let mut simulation = ClassicSimulation::from(vec![
        body(vi(3, 4), vi(-1, -2), 2),
        body(vi(0, 0), vi(1, 1), 4),
    ]);
    let mut state = classic_state();
    for _ in 0..6 {
        tick(&mut simulation, &mut state);
    }
    // an object that came into being at tick 4
    simulation.operation = Operation::AddObject;
    let mut plot = PlotData::default();
    simulation.at_time_step(6);
    let snapshot = |simulation: &ClassicSimulation| -> Vec<(Vec<NVec2>, Vec<NVec2>, usize, bool, NVec2)> {
        simulation
            .objects
            .iter()
            .map(|o| (positions(o), velocities(o), o.timestep, *o.hidden(), o.current_state().position))
            .collect()
    };
    let live = snapshot(&simulation);
    simulation.at_time_step(2);
    let once = snapshot(&simulation);
    simulation.at_time_step(2);
    let twice = snapshot(&simulation);
    assert_eq!(once, twice);
    assert_eq!(once[0].2, 2);
    assert_eq!(once[0].4, simulation.objects[0].state_timeline[2].position);
    assert_ne!(once, live);
    simulation.at_time_step(6);
    assert_eq!(snapshot(&simulation), live);
    assert!(simulation.can_step());
    let _ = &mut plot;
}

#[test]
fn scrubbing_back_and_forth_gives_the_same_future() {
    let make = || {
        ClassicSimulation::from(vec![body(vi(3, 4), vi(-1, -2), 2), body(vi(0, 0), vi(1, 1), 4)])
    };
    let mut plain = make();
    let mut plain_state = classic_state();
    let mut scrubbed = make();
    let mut scrubbed_state = classic_state();
    for _ in 0..5 {
        tick(&mut plain, &mut plain_state);
        tick(&mut scrubbed, &mut scrubbed_state);
    }
    scrubbed.at_time_step(1);
    scrubbed.at_time_step(3);
    scrubbed.at_time_step(5);
    for _ in 0..5 {
        tick(&mut plain, &mut plain_state);
        tick(&mut scrubbed, &mut scrubbed_state);
    }
    for k in 0..2 {
        assert_eq!(positions(&plain.objects[k]), positions(&scrubbed.objects[k]));
        assert_eq!(velocities(&plain.objects[k]), velocities(&scrubbed.objects[k]));
    }
}

#[test]
fn a_simulation_scrubbed_before_an_object_cannot_step() {
    let late = CSimObjectBuilder::new(CSObjectState::default()).init_timestep(3).build();
    let mut simulation = ClassicSimulation::from(vec![late]);
    assert!(simulation.can_step());
    simulation.at_time_step(1);
    assert!(*simulation.objects[0].hidden());
    assert!(!simulation.can_step());
    simulation.at_time_step(9);
    assert!(!simulation.can_step());
    simulation.at_time_step(3);
    assert!(simulation.can_step());
    simulation.global_acc_list.clear();
    assert!(!simulation.can_step());
}

fn click(at: NVec2) -> InputMessage {
    InputMessage {
        clicked: true,
        hovered: true,
        dragged: false,
        drag_released: false,
        pointer_pos: Some(at),
    }
}

fn drag(at: NVec2) -> InputMessage {
    InputMessage {
        clicked: false,
        hovered: true,
        dragged: true,
        drag_released: false,
        pointer_pos: Some(at),
    }
}

fn release(at: Option<NVec2>) -> InputMessage {
    InputMessage {
        clicked: false,
        hovered: true,
        dragged: false,
        drag_released: true,
        pointer_pos: at,
    }
}

fn idle(at: Option<NVec2>) -> InputMessage {
    InputMessage {
        clicked: false,
        hovered: false,
        dragged: false,
        drag_released: false,
        pointer_pos: at,
    }
}

fn three_bodies() -> ClassicSimulation {
    ClassicSimulation::from(vec![
        body(vi(0, 0), vi(0, 0), 1),
        body(vi(15, 0), vi(0, 0), 1),
        body(vi(100, 100), vi(0, 0), 1),
    ])
}

#[test]
fn navigate_selects_the_first_object_under_a_click() {
    let mut simulation = three_bodies();
    let state = classic_state();
    let mut plot = PlotData::default();
    simulation.input(&mut plot, click(vi(100, 105)), &state);
    assert_eq!(plot.selected_index, 2);
    // both the first and the second object lie under this point
    simulation.input(&mut plot, click(vi(8, 0)), &state);
    assert_eq!(plot.selected_index, 0);
    simulation.input(&mut plot, click(vi(20, 0)), &state);
    assert_eq!(plot.selected_index, 1);
    // a click on nothing keeps the selection
    simulation.input(&mut plot, click(vi(-50, 50)), &state);
    assert_eq!(plot.selected_index, 1);
    // no click, or no pointer: nothing
    simulation.input(&mut plot, idle(Some(vi(100, 100))), &state);
    assert_eq!(plot.selected_index, 1);
    let mut without_pointer = click(vi(0, 0));
    without_pointer.pointer_pos = None;
    simulation.input(&mut plot, without_pointer, &state);
    assert_eq!(plot.selected_index, 1);
    assert!(!plot.dragging_object);
    assert_eq!(simulation.find_object_at(vi(100, 105), 0), Some(2));
    assert_eq!(simulation.find_object_at(vi(-50, 50), 0), None);
    assert_eq!(simulation.find_object_at(vi(100, 105), 1), None);
}

#[test]
fn force_drag_pulls_the_object_toward_the_pointer() {
    let mut simulation = three_bodies();
    simulation.operation = Operation::ForceDrag;
    let state = classic_state();
    let mut plot = PlotData::default();
    // a drag that starts on nothing
    simulation.input(&mut plot, drag(vi(-50, 50)), &state);
    assert!(!plot.dragging_object);
    // a drag that starts on the third object
    simulation.input(&mut plot, drag(vi(103, 104)), &state);
    assert!(plot.dragging_object);
    assert_eq!(plot.selected_index, 2);
    assert_eq!(simulation.objects[2].current_state().acc_list[1], vi(0, 0));
    // while it goes on, the pull is from the object to the pointer
    simulation.input(&mut plot, drag(vi(107, 109)), &state);
    assert_eq!(simulation.objects[2].current_state().acc_list[1], vi(7, 9));
    assert_eq!(simulation.objects[2].current_state().acc_list[0], vi(0, 0));
    // passing over another object does not start a new drag
    simulation.input(&mut plot, drag(vi(1, 1)), &state);
    assert_eq!(plot.selected_index, 2);
    assert_eq!(simulation.objects[2].current_state().acc_list[1], vi(-99, -99));
    assert_eq!(simulation.objects[0].current_state().acc_list[1], vi(0, 0));
    // a drag without pointer changes nothing
    let mut blind = drag(vi(0, 0));
    blind.pointer_pos = None;
    simulation.input(&mut plot, blind, &state);
    assert!(plot.dragging_object);
    assert_eq!(simulation.objects[2].current_state().acc_list[1], vi(-99, -99));
    // the end of the drag
    simulation.input(&mut plot, release(None), &state);
    assert!(!plot.dragging_object);
    assert_eq!(plot.selected_index, 2);
    assert_eq!(simulation.objects[2].current_state().acc_list[1], vi(0, 0));
    assert_eq!(simulation.objects.len(), 3);
    assert_eq!(simulation.objects[2].state_timeline.len(), 1);
}

#[test]
fn a_dragged_object_accelerates() {
    let mut simulation = ClassicSimulation::from(vec![body(vi(0, 0), vi(0, 0), 1)]);
    simulation.operation = Operation::ForceDrag;
    simulation.global_acc_list[0] = zero_force();
    let mut state = classic_state();
    let mut plot = PlotData::default();
    simulation.input(&mut plot, drag(vi(1, 1)), &state);
    simulation.input(&mut plot, drag(vi(240, 0)), &state);
    tick(&mut simulation, &mut state);
    // the acceleration is 240 along x: one tick gives the velocity 1
    let now = simulation.objects[0].current_state();
    assert_eq!(now.velocity, vi(1, 0));
    assert_eq!(now.acc_list[1], vi(240, 0));
}

#[test]
fn a_drag_of_a_missing_object_only_ends() {
    let mut simulation = three_bodies();
    simulation.operation = Operation::ForceDrag;
    let state = classic_state();
    let mut plot = PlotData { dragging_object: true, selected_index: 7 };
    simulation.input(&mut plot, drag(vi(1, 1)), &state);
    assert!(plot.dragging_object);
    simulation.input(&mut plot, idle(None), &state);
    assert_eq!(plot, PlotData { dragging_object: false, selected_index: 7 });
    for object in &simulation.objects {
        assert_eq!(object.current_state().acc_list, [vi(0, 0), vi(0, 0)]);
    }
}

#[test]
fn add_object_puts_a_default_object_under_the_pointer() {
    let mut simulation = three_bodies();
    simulation.operation = Operation::AddObject;
    let mut state = classic_state();
    state.current_step = 4;
    let mut plot = PlotData::default();
    simulation.input(&mut plot, click(vi(5, 5)), &state);
    simulation.input(&mut plot, drag(vi(5, 5)), &state);
    simulation.input(&mut plot, release(None), &state);
    assert_eq!(simulation.objects.len(), 3);
    simulation.input(&mut plot, release(Some(vi(-7, 8))), &state);
    assert_eq!(simulation.objects.len(), 4);
    let added = &simulation.objects[3];
    assert_eq!(added.init_timestep, 4);
    assert_eq!(added.timestep, 4);
    assert!(!*added.hidden());
    assert!(added.attached().is_none());
    assert_eq!(added.state_timeline.len(), 1);
    let first = added.current_state();
    assert_eq!(first.position, vi(-7, 8));
    assert_eq!(first.velocity, vi(0, 0));
    assert_eq!(first.mass, Scalar::from_int(10));
    assert_eq!(first.shape, ObjectShape::default());
    assert_eq!(plot, PlotData::default());
    // the new object is hidden before its tick and can be found from it on
    assert_eq!(simulation.find_object_at(vi(-7, 8), 3), None);
    assert_eq!(simulation.find_object_at(vi(-7, 8), 4), Some(3));
}

#[test]
fn remove_and_edit_do_nothing() {
    for operation in [Operation::RemoveObject, Operation::EditObject] {
        let mut simulation = three_bodies();
        simulation.operation = operation;
        let state = classic_state();
        let mut plot = PlotData { dragging_object: true, selected_index: 1 };
        for msg in [click(vi(0, 0)), drag(vi(0, 0)), release(Some(vi(0, 0))), idle(None)] {
            simulation.input(&mut plot, msg, &state);
        }
        assert_eq!(plot, PlotData { dragging_object: true, selected_index: 1 });
        assert_eq!(simulation.objects.len(), 3);
        for object in &simulation.objects {
            assert_eq!(object.state_timeline.len(), 1);
            assert_eq!(object.current_state().acc_list, [vi(0, 0), vi(0, 0)]);
        }
    }
}
