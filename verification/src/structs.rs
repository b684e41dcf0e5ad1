//! Plain records that travel between the backend, the library and its users.

use vstd::prelude::*;

verus! {

/// A reference to an image, with the detail level at which it is to be read.
#[derive(Clone, Debug, PartialEq, Eq)]
pub struct ImageUrl {
    pub url: String,
    pub detail: String,
}

/// How often a user has used the service, and what that has cost.
#[derive(Clone, Copy, Debug, PartialEq, Eq, Structural)]
pub struct UsageStats {
    pub uses: u32,
    pub cost: u32,
}

/// What the backend reports of the machine it runs on.
#[derive(Clone, Debug, PartialEq, Eq)]
pub struct SystemStats {
    pub system: System,
    pub devices: Vec<Device>,
}

/// The backend's operating system and interpreter.
#[derive(Clone, Debug, PartialEq, Eq)]
pub struct System {
    pub os: String,
    pub python_version: String,
    pub embedded_python: bool,
}

/// One compute device of the backend, with its memory in bytes.
#[derive(Clone, Debug, PartialEq, Eq)]
pub struct Device {
    pub name: String,
    pub device_type: String,
    pub index: u32,
    pub vram_total: u64,
    pub vram_free: u64,
    pub torch_vram_total: u64,
    pub torch_vram_free: u64,
}

} // verus!
