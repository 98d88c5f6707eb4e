//! The part of a frame's input that the renderer decides on.
//!
//! The pointer's position and the camera are handed to the shaders as they
//! come. What is decided here is which of the flags that go with them are
//! raised.

use vstd::prelude::*;

verus! {

/// Bit of the button mask that stands for the primary button.
pub const PRIMARY_BUTTON: u32 = 1;

/// Size of the surface that the frame is drawn to, in pixels.
#[derive(Clone, Copy, Debug, PartialEq, Eq, Structural)]
pub struct WindowConfig {
    pub width: u32,
    pub height: u32,
}

impl WindowConfig {
    /// Width and height as a pair.
    pub fn dims(&self) -> (dims: [u32; 2])
        ensures
            dims@ =~= seq![self.width, self.height],
    {
        [self.width, self.height]
    }
}

/// Snapshot of what a frame is drawn from.
#[derive(Clone, Copy, Debug, PartialEq, Eq, Structural)]
pub struct FrameState {
    pub window_cfg: WindowConfig,
    /// One bit for each pointer button that is held down.
    pub button_mask: u32,
    /// Whether the modifier key is held down.
    pub modifier_down: bool,
}

/// The two flags that accompany the pointer's position in the constants that
/// the shaders see.
#[derive(Clone, Copy, Debug, PartialEq, Eq, Structural)]
pub struct ShaderMouseFlags {
    /// One while the primary button is held down, zero otherwise.
    pub button: i32,
    /// Minus one while the modifier key is held down, one otherwise.
    pub modifier: i32,
}

/// Whether the primary button is among the buttons of `button_mask`.
pub open spec fn primary_button_down(button_mask: u32) -> bool {
    button_mask % 2 == 1
}

/// The flags for a frame: the button flag is raised exactly if the primary
/// button is held down, and the modifier flag is negative exactly if the
/// modifier key is.
pub open spec fn shader_mouse_flags(frame_state: FrameState) -> ShaderMouseFlags {
    ShaderMouseFlags {
        button: if primary_button_down(frame_state.button_mask) {
            1i32
        } else {
            0i32
        },
        modifier: if frame_state.modifier_down {
            -1i32
        } else {
            1i32
        },
    }
}

/// Decides the flags that go with the pointer's position.
pub fn gen_shader_mouse_flags(frame_state: &FrameState) -> (flags: ShaderMouseFlags)
    ensures
        flags == shader_mouse_flags(*frame_state),
{
    let mask = frame_state.button_mask;
    assert((mask & 1 != 0) == (mask % 2 == 1)) by (bit_vector);
    ShaderMouseFlags {
        button: if (frame_state.button_mask & PRIMARY_BUTTON) != 0 {
            1
        } else {
            0
        },
        modifier: if frame_state.modifier_down {
            -1
        } else {
            1
        },
    }
}

} // verus!
