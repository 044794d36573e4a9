//! The manager that drives a simulation: it keeps the clock, counts the
//! ticks, pauses and resumes, and scrubs through the recorded ticks.

use crate::object::CSimObject;
use crate::plot::PlotData;
use crate::scalar::Scalar;
use crate::sim_state::{
    CSimSettings, SimulationSettings, SimulationState, SpecificSimulationSettings,
};
use crate::simulation::{ClassicSimulation, ClassicSimulationView, GLOBAL_FORCE_SLOTS};
use crate::stamp::{CSObjectStampResult, CSPlotObjects};
use crate::state::{simulation_tick, spec_time_of, time_of, CSObjectState};
use crate::template::{theta_throw, CSPreset, ThetaThrowSimInit};
use vstd::prelude::*;

verus! {

/// Shapes that are kept for inspection, one list per tick.
pub struct DebugShapeStorage<T> {
    pub debug_shape: Vec<Vec<T>>,
}

impl<T> DebugShapeStorage<T> {
    /// One empty list.
    pub fn new() -> (r: Self)
        ensures
            r.debug_shape.len() == 1,
            r.debug_shape[0].len() == 0,
    {
        let mut debug_shape: Vec<Vec<T>> = Vec::new();
        debug_shape.push(Vec::new());
        DebugShapeStorage { debug_shape }
    }

    /// Appends `shape` to the newest list.
    pub fn add_debug_shape(&mut self, shape: T)
        requires
            old(self).debug_shape.len() >= 1,
        ensures
            final(self).debug_shape.len() == old(self).debug_shape.len(),
            final(self).debug_shape@.last()@ == old(self).debug_shape@.last()@.push(shape),
            forall|k: int|
                0 <= k < old(self).debug_shape.len() - 1 ==> final(self).debug_shape[k] == old(
                    self,
                ).debug_shape[k],
    {
        let last = self.debug_shape.len() - 1;
        let list = &mut self.debug_shape[last];
        list.push(shape);
    }

    /// Starts the list of the next tick.
    pub fn update(&mut self)
        ensures
            final(self).debug_shape.len() == old(self).debug_shape.len() + 1,
            final(self).debug_shape@.last().len() == 0,
            forall|k: int|
                0 <= k < old(self).debug_shape.len() ==> final(self).debug_shape[k] == old(
                    self,
                ).debug_shape[k],
    {
        self.debug_shape.push(Vec::new());
    }

    /// The list of tick `index`.
    pub fn get_debug_shape(&mut self, index: usize) -> (r: &Vec<T>)
        requires
            index < old(self).debug_shape.len(),
        ensures
            *r == old(self).debug_shape[index as int],
            final(self).debug_shape == old(self).debug_shape,
    {
        &self.debug_shape[index]
    }
}

/// The manager.
pub struct SimulationManager {
    pub simulation: Option<ClassicSimulation>,
    pub sim_state: SimulationState,
    pub plot_data: PlotData,
    pub is_paused: bool,
    /// The first state of the simulation is still being chosen.
    pub is_sim_initializing: bool,
}

/// The manager as contracts see it.
pub struct SimulationManagerView {
    pub simulation: Option<ClassicSimulationView>,
    pub sim_state: SimulationState,
    pub plot_data: PlotData,
    pub is_paused: bool,
    pub is_sim_initializing: bool,
}

impl View for SimulationManager {
    type V = SimulationManagerView;

    open spec fn view(&self) -> SimulationManagerView {
        SimulationManagerView {
            simulation: match self.simulation {
                Some(simulation) => Some(simulation@),
                None => None,
            },
            sim_state: self.sim_state,
            plot_data: self.plot_data,
            is_paused: self.is_paused,
            is_sim_initializing: self.is_sim_initializing,
        }
    }
}

impl SimulationManagerView {
    /// Whether one more tick can be made: the tick counter has room, and so
    /// has every object of the simulation, if there is one.
    pub open spec fn can_advance(self) -> bool {
        &&& self.sim_state.max_step < usize::MAX
        &&& match self.simulation {
            Some(simulation) => simulation.can_step() && simulation.global_acc_list.len()
                == GLOBAL_FORCE_SLOTS,
            None => true,
        }
    }

    /// The manager one tick later: the newest tick is counted and looked at,
    /// the simulation has made its tick, and the clock shows the time of that
    /// tick. Without a simulation only the clock moves, by the length of one
    /// tick.
    pub open spec fn simulation_step(self) -> SimulationManagerView {
        match self.simulation {
            Some(simulation) => {
                let next = (self.sim_state.max_step + 1) as usize;
                SimulationManagerView {
                    simulation: Some(
                        simulation.step(self.sim_state.settings.specific.gravity_change()),
                    ),
                    sim_state: SimulationState {
                        max_step: next,
                        current_step: next,
                        time: spec_time_of(next as nat),
                        settings: SimulationSettings {
                            specific: self.sim_state.settings.specific.gravity_read(),
                            ..self.sim_state.settings
                        },
                        ..self.sim_state
                    },
                    ..self
                }
            },
            None => SimulationManagerView {
                sim_state: SimulationState {
                    time: self.sim_state.time.spec_add(spec_time_of(1)),
                    ..self.sim_state
                },
                ..self
            },
        }
    }

    /// The manager after up to `n` ticks: a tick is made as long as one can
    /// be made; where none can, the manager pauses instead.
    pub open spec fn run(self, n: nat) -> SimulationManagerView
        decreases n,
    {
        if n == 0 {
            self
        } else {
            let before = self.run((n - 1) as nat);
            if before.can_advance() {
                before.simulation_step()
            } else {
                SimulationManagerView { is_paused: true, ..before }
            }
        }
    }

    /// Whether the simulation is made anew each frame: its first state is
    /// still being chosen, and no tick is being made because the manager is
    /// paused or the simulation was not shown yet.
    pub open spec fn rebuilds(self) -> bool {
        self.is_sim_initializing && (self.is_paused || !self.sim_state.sim_started)
    }

    /// The manager after a request to resume: the choice of the first state
    /// is over, and the pause ends if the newest tick is the one looked at.
    pub open spec fn resume(self) -> SimulationManagerView {
        SimulationManagerView {
            is_sim_initializing: false,
            is_paused: if self.sim_state.max_step == self.sim_state.current_step {
                false
            } else {
                self.is_paused
            },
            ..self
        }
    }

    /// The manager after the tick looked at was changed by hand: it pauses,
    /// the clock shows the time of that tick, and every object is looked at
    /// that tick.
    pub open spec fn timestep_changed(self) -> SimulationManagerView {
        SimulationManagerView {
            is_paused: true,
            sim_state: SimulationState {
                time: spec_time_of(self.sim_state.current_step as nat),
                ..self.sim_state
            },
            simulation: match self.simulation {
                Some(simulation) => Some(simulation.at_time_step(self.sim_state.current_step)),
                None => None,
            },
            ..self
        }
    }
}

impl Default for SimulationManager {
    fn default() -> (r: SimulationManager)
        ensures
            r@ == (SimulationManagerView {
                simulation: None,
                sim_state: SimulationState::spec_default(),
                plot_data: PlotData { dragging_object: false, selected_index: 0 },
                is_paused: true,
                is_sim_initializing: false,
            }),
    {
        SimulationManager {
            simulation: None,
            sim_state: SimulationState::default(),
            plot_data: PlotData::default(),
            is_paused: true,
            is_sim_initializing: false,
        }
    }
}

impl SimulationManager {
    /// How many ticks are made per frame, to be changed in place.
    pub fn time_multiplier(&mut self) -> (r: &mut usize)
        ensures
            *r == old(self).sim_state.time_mul,
            *final(self) == (SimulationManager {
                sim_state: SimulationState { time_mul: *final(r), ..old(self).sim_state },
                ..*old(self)
            }),
    {
        &mut self.sim_state.time_mul
    }

    /// The time on the clock.
    pub fn get_time(&self) -> (r: Scalar)
        ensures
            r == self.sim_state.time,
    {
        self.sim_state.time
    }

    /// Whether the simulation is paused.
    pub fn get_pause(&self) -> (r: bool)
        ensures
            r == self.is_paused,
    {
        self.is_paused
    }

    /// The newest tick.
    pub fn timestep(&self) -> (r: usize)
        ensures
            r == self.sim_state.max_step,
    {
        self.sim_state.max_step
    }

    /// The tick that is looked at, to be changed in place.
    pub fn current_timestep_mut(&mut self) -> (r: &mut usize)
        ensures
            *r == old(self).sim_state.current_step,
            *final(self) == (SimulationManager {
                sim_state: SimulationState { current_step: *final(r), ..old(self).sim_state },
                ..*old(self)
            }),
    {
        &mut self.sim_state.current_step
    }

    /// Whether the first state of the simulation is still being chosen.
    pub fn is_initializing(&self) -> (r: bool)
        ensures
            r == self.is_sim_initializing,
    {
        self.is_sim_initializing
    }

    /// The state of the clock and the settings.
    pub fn sim_state(&self) -> (r: &SimulationState)
        ensures
            *r == self.sim_state,
    {
        &self.sim_state
    }

    /// Replaces the simulation by a new one of the given objects. The manager
    /// pauses, the clock and the ticks start at zero, nothing is selected,
    /// and the settings are those of a new classic simulation.
    /// `initializing` tells whether the first state can still be changed.
    pub fn new_simulation(&mut self, simulation_objects: Vec<CSimObject>, initializing: bool)
        ensures
            final(self).is_paused,
            final(self).is_sim_initializing == initializing,
            final(self).simulation is Some,
            final(self).simulation.unwrap().objects == simulation_objects,
            final(self).simulation.unwrap().global_acc_list@ == seq![
                crate::simulation::spec_gravity(),
            ],
            final(self).simulation.unwrap().events@.len() == 0,
            final(self).simulation.unwrap().operation == crate::simulation::Operation::Navigate,
            final(self).sim_state == (SimulationState {
                settings: SimulationSettings {
                    grid: true,
                    specific: SpecificSimulationSettings::CSimSettings(
                        CSimSettings::spec_default(),
                    ),
                },
                time: Scalar { raw: 0 },
                sim_started: false,
                current_step: 0,
                max_step: 0,
                ..old(self).sim_state
            }),
            final(self).plot_data == (PlotData { dragging_object: false, selected_index: 0 }),
    {
        self.is_sim_initializing = initializing;
        self.pause();
        self.plot_data = PlotData::default();
        self.sim_state.settings = SimulationSettings::new(
            SpecificSimulationSettings::CSimSettings(CSimSettings::default()),
        );
        self.simulation = Some(ClassicSimulation::from(simulation_objects));
        self.sim_state.reset();
    }

    /// While the first state is still being chosen and no tick is being
    /// made, makes the simulation anew from the throw `data` and hands out the
    /// stamps that go with it. Otherwise nothing happens and nothing is
    /// handed out.
    pub fn initialize_step<F: Fn(&CSObjectState, usize, Scalar) -> Option<CSObjectStampResult>>(
        &mut self,
        data: &ThetaThrowSimInit,
    ) -> (r: Option<CSPlotObjects<F>>)
        ensures
            !old(self)@.rebuilds() ==> r is None && *final(self) == *old(self),
            old(self)@.rebuilds() ==> {
                &&& r is Some
                &&& final(self).simulation is Some
                &&& (CSPreset {
                    simulation_objects: final(self).simulation.unwrap().objects,
                    plot_objects: r.unwrap(),
                }).is_throw(data.objects@)
                &&& final(self).simulation.unwrap().global_acc_list@ == seq![
                    crate::simulation::spec_gravity(),
                ]
                &&& final(self).simulation.unwrap().events@.len() == 0
                &&& final(self).simulation.unwrap().operation
                    == crate::simulation::Operation::Navigate
                &&& final(self).sim_state == old(self).sim_state
                &&& final(self).plot_data == old(self).plot_data
                &&& final(self).is_paused == old(self).is_paused
                &&& final(self).is_sim_initializing
            },
    {
        if self.is_sim_initializing && (self.is_paused || !self.sim_state.sim_started) {
            let preset = theta_throw(data);
            self.simulation = Some(ClassicSimulation::from(preset.simulation_objects));
            Some(preset.plot_objects)
        } else {
            None
        }
    }

    /// Pauses.
    pub fn pause(&mut self)
        ensures
            *final(self) == (SimulationManager { is_paused: true, ..*old(self) }),
    {
        self.is_paused = true;
    }

    /// Ends the choice of the first state, and ends the pause if the newest
    /// tick is the one looked at.
    pub fn resume(&mut self)
        ensures
            final(self)@ == old(self)@.resume(),
            final(self).simulation == old(self).simulation,
    {
        if self.is_sim_initializing {
            self.is_sim_initializing = false;
        }
        if self.sim_state.max_step == self.sim_state.current_step {
            self.is_paused = false;
        }
    }

    /// Resumes when paused, pauses when running.
    pub fn toggle_pause(&mut self)
        ensures
            final(self)@ == if old(self).is_paused {
                old(self)@.resume()
            } else {
                SimulationManagerView { is_paused: true, ..old(self)@ }
            },
            final(self).simulation == old(self).simulation,
    {
        if self.is_paused {
            self.resume();
        } else {
            self.pause();
        }
    }

    /// Takes in a change of the tick that is looked at.
    pub fn timestep_changed(&mut self)
        ensures
            final(self)@ == old(self)@.timestep_changed(),
    {
        self.pause();
        self.sim_state.time = time_of(self.sim_state.current_step);
        let step = self.sim_state.current_step;
        match &mut self.simulation {
            Some(simulation) => {
                simulation.at_time_step(step);
            },
            None => {},
        }
    }

    /// Whether one more tick can be made.
    pub fn can_advance(&self) -> (r: bool)
        ensures
            r == self@.can_advance(),
    {
        if self.sim_state.max_step == usize::MAX {
            return false;
        }
        match &self.simulation {
            Some(simulation) => simulation.can_step(),
            None => true,
        }
    }

    /// Makes one tick.
    pub fn simulation_step(&mut self)
        requires
            old(self)@.can_advance(),
        ensures
            final(self)@ == old(self)@.simulation_step(),
    {
        match &mut self.simulation {
            Some(simulation) => {
                self.sim_state.max_step = self.sim_state.max_step + 1;
                self.sim_state.current_step = self.sim_state.max_step;
                simulation.step(&mut self.sim_state);
                self.sim_state.time = time_of(self.sim_state.max_step);
            },
            None => {
                self.sim_state.time = self.sim_state.time.add(simulation_tick());
            },
        }
    }

    /// Makes the ticks of one frame: as many as the speed says, if the
    /// simulation runs and has been shown; none otherwise. Where a tick
    /// cannot be made, the manager pauses.
    pub fn step(&mut self)
        ensures
            final(self)@ == if !old(self).is_paused && old(self).sim_state.sim_started {
                old(self)@.run(old(self).sim_state.time_mul as nat)
            } else {
                old(self)@
            },
    {
        if !self.is_paused && self.sim_state.sim_started {
            let count = self.sim_state.time_mul;
            let mut done: usize = 0;
            while done < count
                invariant
                    done <= count,
                    self@ == old(self)@.run(done as nat),
                decreases count - done,
            {
                if self.can_advance() {
                    self.simulation_step();
                } else {
                    self.pause();
                }
                done = done + 1;
            }
        }
    }
}

} // verus!
