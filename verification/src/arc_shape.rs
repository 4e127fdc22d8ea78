//! The arc shape: the inputs that a new arc node starts with, and the
//! handling of the gizmo with which the sweep of an arc is dragged.

use vstd::prelude::*;
use crate::choices::ArcType;
use crate::primitives::{FloatBits, NodeId};
use crate::style::HALF_BITS;
use crate::value::{TaggedValue, ValueModel};

verus! {

/// Bit pattern of the number 270.
pub const THREE_QUARTER_TURN_BITS: u64 = 0x4070_E000_0000_0000;

/// What the gizmo of the sweep angle is doing.
#[derive(Clone, Copy, Debug, PartialEq, Eq, Structural)]
pub enum SweepAngleGizmoState {
    /// Nothing.
    Inactive,
    /// The pointer is over one of its handles.
    Hover,
    /// One of its handles is being dragged.
    Dragging,
    /// One of its handles is being dragged and has snapped to an angle.
    Snapped,
}

/// The gizmo with which the sweep of an arc is dragged.
#[derive(Clone, Copy, Debug, PartialEq, Eq, Structural)]
pub struct SweepAngleGizmo {
    pub layer: Option<NodeId>,
    pub handle_state: SweepAngleGizmoState,
}

impl SweepAngleGizmo {
    /// Whether the pointer is over a handle.
    pub open spec fn is_hovered(self) -> bool {
        self.handle_state is Hover
    }

    /// Whether a handle is being dragged, snapped or not.
    pub open spec fn is_dragged(self) -> bool {
        self.handle_state is Dragging || self.handle_state is Snapped
    }

    /// Whether the pointer is over a handle.
    pub fn hovered(&self) -> (r: bool)
        ensures
            r == self.is_hovered(),
    {
        match self.handle_state {
            SweepAngleGizmoState::Hover => true,
            _ => false,
        }
    }

    /// Whether a handle is being dragged, snapped or not.
    pub fn is_dragging_or_snapped(&self) -> (r: bool)
        ensures
            r == self.is_dragged(),
    {
        match self.handle_state {
            SweepAngleGizmoState::Dragging | SweepAngleGizmoState::Snapped => true,
            _ => false,
        }
    }

    /// Changes what the gizmo is doing.
    pub fn update_state(&mut self, state: SweepAngleGizmoState)
        ensures
            final(self).handle_state == state,
            final(self).layer == old(self).layer,
    {
        self.handle_state = state;
    }

    /// Lets go of the layer and stops whatever the gizmo is doing.
    pub fn cleanup(&mut self)
        ensures
            final(self).handle_state is Inactive,
            final(self).layer is None,
    {
        self.handle_state = SweepAngleGizmoState::Inactive;
        self.layer = None;
    }
}

impl Default for SweepAngleGizmo {
    fn default() -> (r: SweepAngleGizmo)
        ensures
            r.handle_state is Inactive,
            r.layer is None,
    {
        SweepAngleGizmo { layer: None, handle_state: SweepAngleGizmoState::Inactive }
    }
}

/// The shape of the pointer.
#[derive(Clone, Copy, Debug, PartialEq, Eq, Structural)]
pub enum MouseCursorIcon {
    Default,
    Crosshair,
    Grabbing,
    Move,
    Rotate,
}

/// Handles the gizmos of the arc shape.
#[derive(Clone, Copy, Debug, PartialEq, Eq)]
pub struct ArcGizmoHandler {
    sweep_angle_gizmo: SweepAngleGizmo,
}

impl ArcGizmoHandler {
    /// The gizmo of the sweep angle.
    pub closed spec fn gizmo(self) -> SweepAngleGizmo {
        self.sweep_angle_gizmo
    }

    /// A handler whose gizmo does nothing yet.
    pub fn new() -> (r: ArcGizmoHandler)
        ensures
            r.gizmo().handle_state is Inactive,
            r.gizmo().layer is None,
    {
        ArcGizmoHandler { sweep_angle_gizmo: SweepAngleGizmo::default() }
    }

    /// Takes note that the pointer is over a handle of the gizmo of `layer`.
    /// A gizmo that is already doing something is left as it is.
    pub fn hover(&mut self, layer: NodeId)
        ensures
            final(self).gizmo() == if old(self).gizmo().handle_state is Inactive {
                SweepAngleGizmo { layer: Some(layer), handle_state: SweepAngleGizmoState::Hover }
            } else {
                old(self).gizmo()
            },
    {
        match self.sweep_angle_gizmo.handle_state {
            SweepAngleGizmoState::Inactive => {
                self.sweep_angle_gizmo.layer = Some(layer);
                self.sweep_angle_gizmo.handle_state = SweepAngleGizmoState::Hover;
            },
            _ => {},
        }
    }

    /// Whether the pointer is over a handle of any gizmo.
    pub fn is_any_gizmo_hovered(&self) -> (r: bool)
        ensures
            r == self.gizmo().is_hovered(),
    {
        self.sweep_angle_gizmo.hovered()
    }

    /// Whether a handle is being dragged: only then does the arc follow the
    /// pointer, and only then are the overlays of dragging drawn.
    pub fn is_dragging(&self) -> (r: bool)
        ensures
            r == self.gizmo().is_dragged(),
    {
        self.sweep_angle_gizmo.is_dragging_or_snapped()
    }

    /// Handles a click: a click on a handle under the pointer begins to drag
    /// it, and any other click changes nothing.
    pub fn handle_click(&mut self)
        ensures
            final(self).gizmo().layer == old(self).gizmo().layer,
            final(self).gizmo().handle_state == if old(self).gizmo().is_hovered() {
                SweepAngleGizmoState::Dragging
            } else {
                old(self).gizmo().handle_state
            },
    {
        if self.sweep_angle_gizmo.hovered() {
            self.sweep_angle_gizmo.update_state(SweepAngleGizmoState::Dragging);
        }
    }

    /// The shape that the pointer takes: the default one while it is over a
    /// handle or drags one, and no particular one otherwise.
    pub fn mouse_cursor_icon(&self) -> (r: Option<MouseCursorIcon>)
        ensures
            r == if self.gizmo().is_hovered() || self.gizmo().is_dragged() {
                Some(MouseCursorIcon::Default)
            } else {
                None
            },
    {
        if self.sweep_angle_gizmo.hovered() || self.sweep_angle_gizmo.is_dragging_or_snapped() {
            return Some(MouseCursorIcon::Default);
        }
        None
    }

    /// Lets go of the layer and stops whatever the gizmo is doing.
    pub fn cleanup(&mut self)
        ensures
            final(self).gizmo().handle_state is Inactive,
            final(self).gizmo().layer is None,
    {
        self.sweep_angle_gizmo.cleanup();
    }
}

/// The arc shape.
#[derive(Clone, Copy, Debug, PartialEq, Eq, Structural)]
pub struct Arc;

impl Arc {
    /// The inputs that a new arc node starts with, in the order of the inputs
    /// of the node: the first is left as it is, then a radius of one half, a
    /// start angle of zero, a sweep angle of 270, and the way the arc is
    /// closed.
    pub open spec fn initial_inputs(arc_type: ArcType) -> Seq<Option<ValueModel>> {
        seq![
            None,
            Some(ValueModel::F64(FloatBits { bits: HALF_BITS })),
            Some(ValueModel::F64(FloatBits { bits: 0 })),
            Some(ValueModel::F64(FloatBits { bits: THREE_QUARTER_TURN_BITS })),
            Some(ValueModel::ArcType(arc_type)),
        ]
    }

    /// The inputs that a new arc node starts with.
    pub fn create_node(arc_type: ArcType) -> (r: Vec<Option<TaggedValue>>)
        ensures
            r@.len() == 5,
            forall|i: int|
                0 <= i < 5 ==> (match (#[trigger] r@[i], Arc::initial_inputs(arc_type)[i]) {
                    (Some(value), Some(model)) => value@ == model,
                    (None, None) => true,
                    _ => false,
                }),
    {
        let mut inputs: Vec<Option<TaggedValue>> = Vec::new();
        inputs.push(None);
        inputs.push(Some(TaggedValue::F64(FloatBits { bits: HALF_BITS })));
        inputs.push(Some(TaggedValue::F64(FloatBits { bits: 0 })));
        inputs.push(Some(TaggedValue::F64(FloatBits { bits: THREE_QUARTER_TURN_BITS })));
        inputs.push(Some(TaggedValue::ArcType(arc_type)));
        inputs
    }
}

impl Default for ArcGizmoHandler {
    fn default() -> (r: ArcGizmoHandler)
        ensures
            r.gizmo().handle_state is Inactive,
            r.gizmo().layer is None,
    {
        ArcGizmoHandler::new()
    }
}

} // verus!
