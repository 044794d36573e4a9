use physics::manager::SimulationManager;
use physics::object::{CSimObject, CSimObjectBuilder};
use physics::plot::PlotData;
use physics::scalar::Scalar;
use physics::sim_state::SpecificSimulationSettings;
use physics::stamp::{CSObjectStampResult, CSPlotObjects};
use physics::state::CSObjectState;
use physics::template::{BasicSimInitObjData, ThetaThrowSimInit};
use physics::vector::NVec2;

fn v(x: i64, y: i64) -> NVec2 {
    NVec2::new(Scalar::from_raw(x), Scalar::from_raw(y))
}

fn one_body() -> Vec<CSimObject> {
    vec![CSimObjectBuilder::new(CSObjectState::default()).build()]
}

fn running_manager() -> SimulationManager {
    let mut manager = SimulationManager::default();
    manager.new_simulation(one_body(), false);
    manager.sim_state.sim_started = true;
    manager.resume();
    manager
}

#[test]
fn default_manager_is_paused_and_empty() {
    let manager = SimulationManager::default();
    assert!(manager.simulation.is_none());
    assert!(manager.get_pause());
    assert!(!manager.is_initializing());
    assert_eq!(manager.timestep(), 0);
    assert_eq!(manager.get_time(), Scalar::zero());
    assert_eq!(manager.sim_state().time_mul, 1);
}

#[test]
fn new_simulation_starts_paused_at_tick_zero() {
    let mut manager = running_manager();
    manager.step();
    manager.plot_data = PlotData { dragging_object: true, selected_index: 3 };
    *manager.time_multiplier() = 3;
    manager.new_simulation(one_body(), true);
    assert!(manager.get_pause());
    assert!(manager.is_initializing());
    assert_eq!(manager.timestep(), 0);
    assert_eq!(manager.sim_state().current_step, 0);
    assert_eq!(manager.get_time(), Scalar::zero());
    assert!(!manager.sim_state().is_sim_started());
    assert_eq!(manager.sim_state().time_mul, 3);
    assert_eq!(manager.plot_data, PlotData::default());
    assert!(matches!(
        manager.sim_state().settings.specific,
        SpecificSimulationSettings::CSimSettings(_)
    ));
    let simulation = manager.simulation.as_ref().unwrap();
    assert_eq!(simulation.objects.len(), 1);
    assert!(simulation.events.is_empty());
    assert_eq!(simulation.global_acc_list, vec![v(0, -9_800_000_000_000)]);
}

#[test]
fn a_paused_or_unstarted_manager_makes_no_tick() {
    let mut manager = SimulationManager::default();
    manager.new_simulation(one_body(), false);
    manager.step();
    assert_eq!(manager.timestep(), 0);
    manager.resume();
    assert!(!manager.get_pause());
    // not shown yet
    manager.step();
    assert_eq!(manager.timestep(), 0);
    manager.sim_state.sim_started = true;
    manager.step();
    assert_eq!(manager.timestep(), 1);
    manager.pause();
    manager.step();
    assert_eq!(manager.timestep(), 1);
}

#[test]
fn a_frame_makes_as_many_ticks_as_the_speed_says() {
    let mut manager = running_manager();
    manager.step();
    assert_eq!(manager.timestep(), 1);
    assert_eq!(manager.sim_state().current_step, 1);
    assert_eq!(manager.get_time().raw(), 4_166_666_666);
    *manager.time_multiplier() = 5;
    manager.step();
    assert_eq!(manager.timestep(), 6);
    assert_eq!(manager.sim_state().current_step, 6);
    assert_eq!(manager.get_time().raw(), 25_000_000_000);
    let simulation = manager.simulation.as_ref().unwrap();
    assert_eq!(simulation.events.len(), 6);
    assert_eq!(simulation.objects[0].state_timeline.len(), 7);
    assert_eq!(simulation.objects[0].timestep, 6);
    assert_eq!(simulation.objects[0].current_state().velocity, v(0, 6 * -40_833_333_333));
    *manager.time_multiplier() = 0;
    manager.step();
    assert_eq!(manager.timestep(), 6);
}

#[test]
fn simulation_step_without_simulation_moves_the_clock_only() {
    let mut manager = SimulationManager::default();
    assert!(manager.can_advance());
    manager.simulation_step();
    assert_eq!(manager.get_time().raw(), 4_166_666_666);
    assert_eq!(manager.timestep(), 0);
}

#[test]
fn changing_the_tick_pauses_and_scrubs() {
    let mut manager = running_manager();
    *manager.time_multiplier() = 10;
    manager.step();
    assert_eq!(manager.timestep(), 10);
    *manager.current_timestep_mut() = 4;
    manager.timestep_changed();
    assert!(manager.get_pause());
    assert_eq!(manager.get_time().raw(), 16_666_666_666);
    assert_eq!(manager.timestep(), 10);
    {
        let object = &manager.simulation.as_ref().unwrap().objects[0];
        assert_eq!(object.timestep, 4);
        assert_eq!(object.state_timeline.len(), 11);
        assert_eq!(object.current_state().velocity, v(0, 5 * -40_833_333_333));
    }
    // while an earlier tick is looked at, resuming does not end the pause
    manager.resume();
    assert!(manager.get_pause());
    manager.toggle_pause();
    assert!(manager.get_pause());
    manager.step();
    assert_eq!(manager.timestep(), 10);
    // back at the newest tick it does
    *manager.current_timestep_mut() = 10;
    manager.timestep_changed();
    assert!(manager.get_pause());
    manager.toggle_pause();
    assert!(!manager.get_pause());
    manager.step();
    assert_eq!(manager.timestep(), 20);
    manager.toggle_pause();
    assert!(manager.get_pause());
}

#[test]
fn resume_ends_the_choice_of_the_first_state() {
    let mut manager = SimulationManager::default();
    manager.new_simulation(one_body(), true);
    assert!(manager.is_initializing());
    manager.toggle_pause();
    assert!(!manager.is_initializing());
    assert!(!manager.get_pause());
}

#[test]
fn a_tick_that_cannot_be_made_pauses() {
    let mut manager = running_manager();
    *manager.time_multiplier() = 3;
    manager.step();
    // looked at a tick for which there is no snapshot
    manager.simulation.as_mut().unwrap().at_time_step(50);
    assert!(!manager.can_advance());
    manager.step();
    assert!(manager.get_pause());
    assert_eq!(manager.timestep(), 3);
    assert_eq!(manager.simulation.as_ref().unwrap().objects[0].state_timeline.len(), 4);
}

#[test]
fn changing_the_tick_without_simulation() {
    let mut manager = SimulationManager::default();
    *manager.current_timestep_mut() = 240;
    manager.timestep_changed();
    assert!(manager.get_pause());
    assert_eq!(manager.get_time(), Scalar::from_int(1));
}

type Capture = fn(&CSObjectState, usize, Scalar) -> Option<CSObjectStampResult>;

#[test]
fn the_clock_shows_the_time_of_the_newest_tick() {
    let mut manager = running_manager();
    *manager.time_multiplier() = 240;
    manager.step();
    assert_eq!(manager.timestep(), 240);
    assert_eq!(manager.get_time(), Scalar::from_int(1));
    manager.step();
    manager.step();
    assert_eq!(manager.get_time(), Scalar::from_int(3));
}

#[test]
fn the_simulation_is_made_anew_while_its_first_state_is_chosen() {
    let mut data = ThetaThrowSimInit { objects: vec![BasicSimInitObjData::new()] };
    let mut manager = SimulationManager::default();
    manager.new_simulation(one_body(), true);
    let stamps: Option<CSPlotObjects<Capture>> = manager.initialize_step(&data);
    let stamps = stamps.unwrap();
    assert_eq!(stamps.stamps.len(), 1);
    assert!(!stamps.stamps[0].is_stamped());
    assert_eq!((stamps.stamps[0].range_start, stamps.stamps[0].range_end), (0, 0));
    {
        let simulation = manager.simulation.as_ref().unwrap();
        assert_eq!(simulation.objects.len(), 1);
        assert_eq!(simulation.objects[0].current_state().velocity, v(10_000_000_000_000, 0));
        assert_eq!(simulation.objects[0].current_state().mass, Scalar::from_int(10));
    }
    // a change of the throw is taken in with the next frame
    data.objects.push(BasicSimInitObjData::new());
    data.objects[1].mass = Scalar::from_int(3);
    assert!(manager.initialize_step::<Capture>(&data).is_some());
    assert_eq!(manager.simulation.as_ref().unwrap().objects.len(), 2);
    assert_eq!(
        manager.simulation.as_ref().unwrap().objects[1].current_state().mass,
        Scalar::from_int(3)
    );
    assert!(manager.get_pause());
    assert!(manager.is_initializing());
    // once it runs, nothing is made anew
    manager.sim_state.sim_started = true;
    manager.resume();
    data.objects.pop();
    assert!(manager.initialize_step::<Capture>(&data).is_none());
    assert_eq!(manager.simulation.as_ref().unwrap().objects.len(), 2);
    manager.pause();
    assert!(manager.initialize_step::<Capture>(&data).is_none());
    assert_eq!(manager.simulation.as_ref().unwrap().objects.len(), 2);
}
