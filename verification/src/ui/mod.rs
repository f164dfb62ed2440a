//! What the user interface decides: the inputs it turns into requests, the
//! labels and colours it shows, and the state it keeps from the core's
//! events. Drawing is left to the host.
pub mod app_state;
pub mod assembly_view;
pub mod control_panel;
pub mod layout;
pub mod memory_viewer;
pub mod status_bar;
pub mod style;
