//! Display rotation driven through the sway compositor.
//!
//! The rotation work itself — compositor requests, input reconfiguration —
//! runs against the display server outside the library; here stands the
//! backend's construction state.

use vstd::prelude::*;

verus! {

/// Stand-in for the compositor-side display backend handle; the
/// connection it manages lives outside the library.
#[derive(Debug, Clone, Copy)]
pub struct WaylandBackend {}

/// The sway rotation backend: the display backend it drives, and whether
/// it also disables keyboards while the display is rotated away from its
/// normal orientation.
#[derive(Debug, Clone, Copy)]
pub struct SwayBackend {
    pub wayland_backend: WaylandBackend,
    pub manage_keyboard: bool,
}

impl SwayBackend {
    pub fn new(wayland_backend: WaylandBackend, manage_keyboard: bool) -> (r: Self)
        ensures
            r.wayland_backend == wayland_backend,
            r.manage_keyboard == manage_keyboard,
    {
        SwayBackend {
            wayland_backend,
            manage_keyboard,
        }
    }
}

} // verus!
