//! A declarative model of how a new application window should be created:
//! its title, logical size, DPI scaling policy, optional rendering-context
//! configuration, and a packed set of native style flags for the one
//! platform that uses them. A window-creation subsystem consumes the
//! finished options value through a read-only interface; this crate only
//! defines the shape, defaults and builder protocol of that value.

pub mod gl;
pub mod size;
pub mod window_open_options;

pub use size::Size;
