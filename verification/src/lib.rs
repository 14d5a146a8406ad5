//! Wireless network control and status-synchronization core.
//!
//! The library models the decision logic of a small wireless stack for an
//! embedded shell: a control client that validates requests and translates
//! transport faults into domain errors, a bus-facing service whose polling
//! loop emits a notification only when the observed state changes, and a
//! per-process reactive model that caches enablement, the connected network,
//! scan results and known networks, keeping the last known good value when a
//! refresh fails.  All bus I/O stays outside the library: callers hand the
//! outcome of each remote call to a verified function and apply the result.

pub mod camera_config;
pub mod components;
pub mod control_client;
pub mod dock_settings;
pub mod ip4_config;
pub mod launcher_settings;
pub mod notification_settings;
pub mod panel_settings;
pub mod rotation;
pub mod sound;
pub mod text;
pub mod wireless_model;
pub mod wireless_service;
pub mod wireless_types;
