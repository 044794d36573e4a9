//! Names for what is drawn: colors, text sizes, outline kinds and filters.

use crate::scalar::Scalar;
use crate::vector::NVec2;
use vstd::prelude::*;

verus! {

/// What a color is used for.
#[derive(Clone, Copy, Debug, PartialEq, Eq, Structural)]
pub enum PlotColor {
    Object,
    VelocityVector,
    ForceVector,
    SigmaForceVector,
    TraceLine,
    Stamp,
    StampText,
}

impl PlotColor {
    /// The red, green and blue parts of the color.
    pub open spec fn spec_rgb(self) -> (u8, u8, u8) {
        match self {
            PlotColor::Object => (160, 160, 160),
            PlotColor::VelocityVector => (0, 0, 255),
            PlotColor::ForceVector => (255, 0, 0),
            PlotColor::SigmaForceVector => (139, 0, 0),
            PlotColor::TraceLine => (255, 215, 0),
            PlotColor::Stamp => (255, 255, 0),
            PlotColor::StampText => (0, 255, 0),
        }
    }

    /// The red, green and blue parts of the color: gray for objects, blue
    /// for velocities, red for forces, dark red for net forces, gold for
    /// trace lines, yellow for stamps and green for their text.
    pub fn rgb(&self) -> (r: (u8, u8, u8))
        ensures
            r == self.spec_rgb(),
    {
        match self {
            PlotColor::Object => (160, 160, 160),
            PlotColor::VelocityVector => (0, 0, 255),
            PlotColor::ForceVector => (255, 0, 0),
            PlotColor::SigmaForceVector => (139, 0, 0),
            PlotColor::TraceLine => (255, 215, 0),
            PlotColor::Stamp => (255, 255, 0),
            PlotColor::StampText => (0, 255, 0),
        }
    }
}

/// The size of a text.
#[derive(Clone, Copy, Debug, PartialEq, Eq, Structural)]
pub enum PlotTextSize {
    Small,
    Medium,
    Large,
}

impl PlotTextSize {
    /// The factor by which a text of this size is scaled: one, two or five.
    pub fn get_size(&self) -> (r: Scalar)
        ensures
            r == Scalar::spec_from_int(
                match *self {
                    PlotTextSize::Small => 1int,
                    PlotTextSize::Medium => 2int,
                    PlotTextSize::Large => 5int,
                },
            ),
    {
        match self {
            PlotTextSize::Small => Scalar::from_int(1),
            PlotTextSize::Medium => Scalar::from_int(2),
            PlotTextSize::Large => Scalar::from_int(5),
        }
    }
}

/// The kind of outline an object is drawn with.
#[derive(Clone, Copy, Debug, PartialEq, Eq, Hash, Structural)]
pub enum DrawShapeType {
    Circle,
    Box,
}

/// The kind of vector an arrow stands for.
#[derive(Clone, Copy, Debug, PartialEq, Eq, Structural)]
pub enum PlotVectorType {
    Velocity,
    Force,
    SigmaForce,
}

/// Which pieces of information are drawn beside an object.
#[derive(Clone, Copy, Debug, PartialEq, Eq, Hash, Structural)]
pub struct PlotInfoFilter {
    pub force: bool,
    pub sigma_force: bool,
    pub velocity: bool,
    pub trace: bool,
    pub text: bool,
}

impl Default for PlotInfoFilter {
    fn default() -> (r: PlotInfoFilter)
        ensures
            r == (PlotInfoFilter {
                force: false,
                sigma_force: true,
                velocity: true,
                trace: true,
                text: false,
            }),
    {
        PlotInfoFilter { force: false, sigma_force: true, velocity: true, trace: true, text: false }
    }
}

/// The simulations that can be chosen by name.
#[derive(Clone, Copy, Debug, PartialEq, Eq, Structural)]
pub enum SimulationType {
    FreeFall,
    ProjectileMotion,
    ProjectileMotion2,
    /// No simulation was chosen.
    Unset,
}

impl Default for SimulationType {
    fn default() -> (r: SimulationType)
        ensures
            r == SimulationType::Unset,
    {
        SimulationType::Unset
    }
}

impl SimulationType {
    /// The name under which the simulation is offered.
    pub fn as_str(&self) -> (r: &'static str)
        ensures
            r@ == match *self {
                SimulationType::FreeFall => "BaseSim"@,
                SimulationType::ProjectileMotion => "ProjectileMotion"@,
                SimulationType::ProjectileMotion2 => "ProjectileMotion2"@,
                SimulationType::Unset => "None"@,
            },
    {
        match self {
            SimulationType::FreeFall => "BaseSim",
            SimulationType::ProjectileMotion => "ProjectileMotion",
            SimulationType::ProjectileMotion2 => "ProjectileMotion2",
            SimulationType::Unset => "None",
        }
    }
}

/// An arrow from `origin` to `tip`.
#[derive(Clone, Copy, Debug, PartialEq, Eq, Structural)]
pub struct Arrow {
    pub origin: NVec2,
    pub tip: NVec2,
}

impl Arrow {
    /// The arrow that shows the vector `along` at the place `origin`.
    pub open spec fn spec_at(origin: NVec2, along: NVec2) -> Arrow {
        Arrow { origin, tip: origin.spec_add(along) }
    }

    /// The point halfway along the arrow, where its text stands.
    pub open spec fn spec_middle(self) -> NVec2 {
        self.origin.spec_add(self.tip).spec_unscale(Scalar::spec_from_int(2))
    }

    /// The arrow that shows the vector `along` at the place `origin`.
    pub fn at(origin: NVec2, along: NVec2) -> (r: Arrow)
        ensures
            r == Arrow::spec_at(origin, along),
    {
        Arrow { origin, tip: origin.add(along) }
    }

    /// The point halfway along the arrow.
    pub fn middle(&self) -> (r: NVec2)
        ensures
            r == self.spec_middle(),
    {
        self.origin.add(self.tip).unscale(Scalar::from_int(2))
    }
}

/// The size of a text of scale `scale` at zoom `zoom`, before it is known
/// whether the text is shown: a fifth of ten plus a thousand times the scale
/// over the zoom.
pub open spec fn spec_raw_text_size(zoom: Scalar, scale: Scalar) -> Scalar {
    Scalar::spec_from_int(1).spec_div(zoom).spec_mul(Scalar::spec_from_int(1000)).spec_mul(
        scale,
    ).spec_add(Scalar::spec_from_int(10)).spec_div(Scalar::spec_from_int(5))
}

/// The size at which a text of scale `scale` is written at zoom `zoom`, or
/// `None` where the text is left out because it would be larger than 64 or
/// smaller than 5.
pub fn get_text_size(zoom: Scalar, scale: Scalar) -> (r: Option<Scalar>)
    ensures
        r == if spec_raw_text_size(zoom, scale).raw > Scalar::spec_from_int(64).raw
            || spec_raw_text_size(zoom, scale).raw < Scalar::spec_from_int(5).raw {
            None
        } else {
            Some(spec_raw_text_size(zoom, scale))
        },
{
    let font_size_raw = Scalar::from_int(1).div(zoom).mul(Scalar::from_int(1000)).mul(scale).add(
        Scalar::from_int(10),
    ).div(Scalar::from_int(5));
    if font_size_raw.gt(Scalar::from_int(64)) || font_size_raw.lt(Scalar::from_int(5)) {
        None
    } else {
        Some(font_size_raw)
    }
}

} // verus!
