//! The window that the renderer draws to.

use vstd::prelude::*;

verus! {

/// Width of the window when it opens, in screen coordinates.
pub const WINDOW_WIDTH: u32 = 300;

/// Height of the window when it opens, in screen coordinates.
pub const WINDOW_HEIGHT: u32 = 300;

/// Title of the window.
pub const WINDOW_TITLE: &'static str = "Hello Window";

/// Major version of the graphics context that is asked for.
pub const CONTEXT_VERSION_MAJOR: u32 = 3;

/// Minor version of the graphics context that is asked for. The context is
/// one of the core profile.
pub const CONTEXT_VERSION_MINOR: u32 = 2;

} // verus!
