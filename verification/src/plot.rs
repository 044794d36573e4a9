//! What the simulation needs to know of the picture and of the pointer.

use crate::vector::NVec2;
use vstd::prelude::*;

verus! {

/// Which object is selected and whether it is being dragged.
#[derive(Clone, Copy, Debug, PartialEq, Eq, Structural)]
pub struct PlotData {
    pub dragging_object: bool,
    pub selected_index: usize,
}

impl Default for PlotData {
    fn default() -> (r: PlotData)
        ensures
            r == (PlotData { dragging_object: false, selected_index: 0 }),
    {
        PlotData { dragging_object: false, selected_index: 0 }
    }
}

/// One pointer gesture, in the coordinates of the simulation.
#[derive(Clone, Copy, Debug, PartialEq, Eq, Structural)]
pub struct InputMessage {
    /// The picture was clicked.
    pub clicked: bool,
    /// The pointer is over the picture.
    pub hovered: bool,
    /// The pointer is being dragged.
    pub dragged: bool,
    /// A drag ended with this gesture.
    pub drag_released: bool,
    /// Where the pointer is, if it is over the picture.
    pub pointer_pos: Option<NVec2>,
}

} // verus!
