//! Persistent window placement: keeps a window's mode, size, display and scale
//! in step with a durable record of them, in both directions, without feedback
//! loops.

pub mod components;
pub mod monitors;
pub mod plugins;
pub mod systems;
pub mod utils;

pub use crate::components::{MonitorSelection, ScaleFactor, WindowMode, WindowState};
pub use crate::monitors::{DisplayInfo, MonitorCatalog, MonitorDescriptor};
pub use crate::utils::{LiveSurface, WindowModel, WindowPlacement};
pub use crate::plugins::{PersistentWindowsPlugin, StateChangeAction, SyncFlag};
