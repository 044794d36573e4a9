//! Settings and the clock of a running simulation.

use crate::scalar::Scalar;
use crate::vector::NVec2;
use vstd::prelude::*;

verus! {

/// The raw zoom of a fresh simulation state: one.
pub const DEFAULT_ZOOM_RAW: i64 = 1_000_000_000_000;

/// A value with a flag that tells whether it was changed since it was last
/// read.
#[derive(Clone, Copy, Debug)]
pub struct ChangeNotifier<T: Copy> {
    pub value: T,
    pub changed: bool,
}

impl<T: Copy> From<T> for ChangeNotifier<T> {
    fn from(value: T) -> (r: ChangeNotifier<T>) {
        ChangeNotifier { value, changed: false }
    }
}

impl<T: Copy> vstd::std_specs::convert::FromSpecImpl<T> for ChangeNotifier<T> {
    open spec fn obeys_from_spec() -> bool {
        true
    }

    open spec fn from_spec(value: T) -> ChangeNotifier<T> {
        ChangeNotifier { value, changed: false }
    }
}

impl<T: Copy> ChangeNotifier<T> {
    /// The value, if it was marked as changed since the last call; the mark
    /// is taken off.
    pub fn get(&mut self) -> (r: Option<T>)
        ensures
            r == if old(self).changed {
                Some(old(self).value)
            } else {
                None::<T>
            },
            final(self).value == old(self).value,
            !final(self).changed,
    {
        if self.changed {
            self.changed = false;
            Some(self.value)
        } else {
            None
        }
    }

    /// The value, to be changed in place. The mark is left as it is.
    pub fn get_mut(&mut self) -> (r: &mut T)
        ensures
            *r == old(self).value,
            final(self).value == *final(r),
            final(self).changed == old(self).changed,
    {
        &mut self.value
    }

    /// Marks the value as changed.
    pub fn changed(&mut self)
        ensures
            final(self).value == old(self).value,
            final(self).changed,
    {
        self.changed = true;
    }
}

/// Which parts of the picture are drawn.
#[derive(Clone, Copy, Debug, PartialEq, Eq, Hash, Structural)]
pub struct PlotViewFilter {
    pub acceleration: bool,
    pub sigma_force: bool,
    pub velocity: bool,
    pub trace: bool,
    pub text: bool,
    pub stamp: bool,
    pub equation: bool,
}

impl Default for PlotViewFilter {
    fn default() -> (r: PlotViewFilter)
        ensures
            r == (PlotViewFilter {
                acceleration: true,
                sigma_force: false,
                velocity: true,
                trace: true,
                text: false,
                stamp: true,
                equation: true,
            }),
    {
        PlotViewFilter {
            acceleration: true,
            sigma_force: false,
            velocity: true,
            trace: true,
            text: false,
            stamp: true,
            equation: true,
        }
    }
}

/// The settings of the classic simulation.
#[derive(Clone, Copy, Debug)]
pub struct CSimSettings {
    pub plot_filter: PlotViewFilter,
    pub gravity: ChangeNotifier<bool>,
}

impl CSimSettings {
    /// The settings of a new classic simulation: gravity on and not marked
    /// as changed; accelerations, velocities, traces, stamps and equations
    /// drawn, net forces and texts not.
    pub open spec fn spec_default() -> CSimSettings {
        CSimSettings {
            plot_filter: PlotViewFilter {
                acceleration: true,
                sigma_force: false,
                velocity: true,
                trace: true,
                text: false,
                stamp: true,
                equation: true,
            },
            gravity: ChangeNotifier { value: true, changed: false },
        }
    }
}

impl Default for CSimSettings {
    fn default() -> (r: CSimSettings)
        ensures
            r == CSimSettings::spec_default(),
    {
        CSimSettings {
            plot_filter: PlotViewFilter::default(),
            gravity: ChangeNotifier { value: true, changed: false },
        }
    }
}

/// Settings of a simulation without any.
#[derive(Clone, Copy, Debug)]
pub struct BSimSettings {}

/// The settings that belong to one kind of simulation.
#[derive(Clone, Copy, Debug)]
pub enum SpecificSimulationSettings {
    CSimSettings(CSimSettings),
    /// No settings of a particular kind.
    Unset,
}

impl Default for SpecificSimulationSettings {
    fn default() -> (r: SpecificSimulationSettings)
        ensures
            r is Unset,
    {
        SpecificSimulationSettings::Unset
    }
}

impl SpecificSimulationSettings {
    /// The settings of the classic simulation, if these are such.
    pub fn as_c_sim_settings(&self) -> (r: Option<&CSimSettings>)
        ensures
            r == match *self {
                SpecificSimulationSettings::CSimSettings(settings) => Some(&settings),
                SpecificSimulationSettings::Unset => None::<&CSimSettings>,
            },
    {
        match self {
            SpecificSimulationSettings::CSimSettings(settings) => Some(settings),
            SpecificSimulationSettings::Unset => None,
        }
    }

    /// Whether gravity was switched since the settings were last read, and
    /// to what.
    pub open spec fn gravity_change(self) -> Option<bool> {
        match self {
            SpecificSimulationSettings::CSimSettings(settings) => if settings.gravity.changed {
                Some(settings.gravity.value)
            } else {
                None
            },
            SpecificSimulationSettings::Unset => None,
        }
    }

    /// The settings after the gravity switch was read: the mark is off.
    pub open spec fn gravity_read(self) -> SpecificSimulationSettings {
        match self {
            SpecificSimulationSettings::CSimSettings(settings) => {
                SpecificSimulationSettings::CSimSettings(
                    CSimSettings {
                        gravity: ChangeNotifier { value: settings.gravity.value, changed: false },
                        ..settings
                    },
                )
            },
            SpecificSimulationSettings::Unset => SpecificSimulationSettings::Unset,
        }
    }

    /// Whether gravity was switched since this was last asked, and to what.
    /// Asking takes the mark off.
    pub fn take_gravity_change(&mut self) -> (r: Option<bool>)
        ensures
            r == old(self).gravity_change(),
            *final(self) == old(self).gravity_read(),
    {
        match self {
            SpecificSimulationSettings::CSimSettings(settings) => settings.gravity.get(),
            SpecificSimulationSettings::Unset => None,
        }
    }
}

/// The settings of a simulation.
#[derive(Clone, Copy, Debug)]
pub struct SimulationSettings {
    pub grid: bool,
    pub specific: SpecificSimulationSettings,
}

impl Default for SimulationSettings {
    fn default() -> (r: SimulationSettings)
        ensures
            r == (SimulationSettings { grid: true, specific: SpecificSimulationSettings::Unset }),
    {
        SimulationSettings { grid: true, specific: SpecificSimulationSettings::Unset }
    }
}

impl SimulationSettings {
    /// Settings with the grid on and the given specific part.
    pub fn new(settings: SpecificSimulationSettings) -> (r: SimulationSettings)
        ensures
            r == (SimulationSettings { grid: true, specific: settings }),
    {
        SimulationSettings { grid: true, specific: settings }
    }
}

/// Where a simulation stands: its settings, the pointer, the clock and the
/// tick that is looked at.
#[derive(Clone, Copy, Debug)]
pub struct SimulationState {
    pub settings: SimulationSettings,
    pub pointer: Option<NVec2>,
    /// How many ticks are made per frame.
    pub time_mul: usize,
    pub time: Scalar,
    /// The tick that is looked at.
    pub current_step: usize,
    /// The newest tick.
    pub max_step: usize,
    pub sim_started: bool,
    pub zoom: Scalar,
}

impl Default for SimulationState {
    fn default() -> (r: SimulationState)
        ensures
            r == SimulationState::spec_default(),
    {
        SimulationState {
            pointer: None,
            settings: SimulationSettings::default(),
            time: Scalar::zero(),
            current_step: 0,
            max_step: 0,
            sim_started: false,
            zoom: Scalar::from_raw(DEFAULT_ZOOM_RAW),
            time_mul: 1,
        }
    }
}

impl SimulationState {
    /// The state before anything happened: no pointer, general settings, the
    /// clock and the ticks at zero, not started, zoom one, one tick per
    /// frame.
    pub open spec fn spec_default() -> SimulationState {
        SimulationState {
            pointer: None,
            settings: SimulationSettings { grid: true, specific: SpecificSimulationSettings::Unset },
            time: Scalar { raw: 0 },
            current_step: 0,
            max_step: 0,
            sim_started: false,
            zoom: Scalar { raw: DEFAULT_ZOOM_RAW },
            time_mul: 1,
        }
    }

    /// Whether the simulation has been shown once.
    pub fn is_sim_started(&self) -> (r: bool)
        ensures
            r == self.sim_started,
    {
        self.sim_started
    }

    /// Puts the clock and the ticks back to zero and marks the simulation as
    /// not started. Settings, pointer, zoom and speed stay.
    pub fn reset(&mut self)
        ensures
            *final(self) == (SimulationState {
                time: Scalar { raw: 0 },
                sim_started: false,
                current_step: 0,
                max_step: 0,
                ..*old(self)
            }),
    {
        self.time = Scalar::zero();
        self.sim_started = false;
        self.current_step = 0;
        self.max_step = 0;
    }
}

} // verus!
