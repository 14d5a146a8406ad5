//! Data types of the sound control service.
//!
//! The volume work itself runs against the audio server outside the
//! library; here stand the service handle and what it reports about
//! devices.  Monitor sources are reported under their base device's name:
//! see [`crate::text::clean_device_name`].

use vstd::prelude::*;

verus! {

/// Handle of the sound control service.
#[derive(Debug, Clone, Copy)]
pub struct Sound {}

impl Sound {
    pub fn new() -> (r: Sound)
        ensures
            r == (Sound {}),
    {
        Sound {}
    }
}

/// One audio device, as the listing reports it.
#[derive(Debug, Clone)]
pub struct SourceInformation {
    pub name: String,
    pub description: String,
}

} // verus!
