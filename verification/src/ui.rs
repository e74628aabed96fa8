//! The state behind the control panel and what a frame does with it.
//!
//! Drawing the panel and writing files is left to the host. The host edits
//! the fields of [`UiState`] as the user moves the controls, and once per
//! frame calls [`UiState::regenerate`] and [`UiState::pending_export`].

use vstd::prelude::*;
use vstd::string::StringExecFns;
use crate::export::{export_to_obj, obj_text};
use crate::grid::rasterize;
use crate::shapes::{Shape, ShapeType, VoxelData};

verus! {

/// The smallest dimension that the panel offers.
pub const MIN_DIMENSION: u32 = 1;

/// The largest dimension that the panel offers.
pub const MAX_DIMENSION: u32 = 32;

/// What the panel shows when a shape came out without voxels.
pub const NO_VOXELS_MESSAGE: &'static str = "Failed to generate shape: no voxels created";

/// The characters of a text that may be absent.
pub open spec fn text_view(text: Option<String>) -> Option<Seq<char>> {
    match text {
        Some(text) => Some(text@),
        None => None,
    }
}

/// The values of the panel's controls and the requests that are pending.
#[derive(Debug)]
pub struct UiState {
    pub width: u32,
    pub height: u32,
    pub depth: u32,
    pub shape_type: ShapeType,
    pub generate: bool,
    pub export: bool,
    pub error_message: Option<String>,
}

impl Default for UiState {
    fn default() -> (state: Self)
        ensures
            state.width == 5,
            state.height == 5,
            state.depth == 5,
            state.shape_type == ShapeType::Cube,
            state.generate,
            !state.export,
            state.error_message is None,
            state.wf(),
    {
        Self {
            width: 5,
            height: 5,
            depth: 5,
            shape_type: ShapeType::Cube,
            generate: true,
            export: false,
            error_message: None,
        }
    }
}

impl UiState {
    /// Every dimension is one that the panel offers.
    pub open spec fn wf(&self) -> bool {
        &&& MIN_DIMENSION <= self.width <= MAX_DIMENSION
        &&& MIN_DIMENSION <= self.height <= MAX_DIMENSION
        &&& MIN_DIMENSION <= self.depth <= MAX_DIMENSION
    }

    /// The shape that the controls describe.
    pub open spec fn shape_view(&self) -> Shape {
        Shape {
            shape_type: self.shape_type,
            width: self.width,
            height: self.height,
            depth: self.depth,
        }
    }

    /// The text of the message on display, if there is one.
    pub open spec fn message_view(&self) -> Option<Seq<char>> {
        text_view(self.error_message)
    }

    /// The shape that the controls describe.
    pub fn shape(&self) -> (shape: Shape)
        ensures
            shape == self.shape_view(),
    {
        Shape {
            shape_type: self.shape_type,
            width: self.width,
            height: self.height,
            depth: self.depth,
        }
    }

    /// Serves a pending request to generate: replaces the model by that of
    /// the shape the controls describe, and leaves a message exactly when it
    /// has no voxels. Without such a request nothing changes.
    pub fn regenerate(&mut self, voxel_data: &mut VoxelData)
        ensures
            final(self).width == old(self).width,
            final(self).height == old(self).height,
            final(self).depth == old(self).depth,
            final(self).shape_type == old(self).shape_type,
            final(self).export == old(self).export,
            !final(self).generate,
            !old(self).generate ==> final(self).error_message == old(self).error_message,
            !old(self).generate ==> *final(voxel_data) == *old(voxel_data),
            old(self).generate ==> final(voxel_data).shape == old(self).shape_view(),
            old(self).generate ==> final(voxel_data).voxels@ == rasterize(old(self).shape_view()),
            old(self).generate && old(self).wf() ==> final(voxel_data).wf(),
            old(self).generate ==> final(self).message_view() == (if rasterize(
                old(self).shape_view(),
            ).len() == 0 {
                Some(NO_VOXELS_MESSAGE@)
            } else {
                None
            }),
    {
        if self.generate {
            self.error_message = None;
            *voxel_data = VoxelData::new(self.shape());
            if voxel_data.voxels.is_empty() {
                self.error_message = Some(String::from_str(NO_VOXELS_MESSAGE));
            }
            self.generate = false;
        }
    }

    /// The text to write where an export is pending, `None` where it is not.
    pub fn pending_export(&self, voxel_data: &VoxelData) -> (text: Option<String>)
        ensures
            text_view(text) == (if self.export {
                Some(obj_text(voxel_data.shape, voxel_data.voxels@))
            } else {
                None
            }),
    {
        if self.export {
            Some(export_to_obj(voxel_data))
        } else {
            None
        }
    }
}

} // verus!
