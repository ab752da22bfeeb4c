//! Monitors.

use crate::dpi::{PhysicalPosition, PhysicalSize};
use crate::scalar::Scalar;
use vstd::prelude::*;

verus! {

/// A monitor, as a getter reports it.
#[derive(Clone, Debug, PartialEq, Eq)]
pub struct Monitor {
    /// A human-readable name of the monitor, where the platform gives one.
    pub name: Option<String>,
    /// The monitor's resolution.
    pub size: PhysicalSize<u32>,
    /// The top-left corner of the monitor relative to the larger full screen
    /// area.
    pub position: PhysicalPosition<i32>,
    /// The factor that maps logical pixels to physical pixels.
    pub scale_factor: Scalar,
}

/// What the native handle of a monitor says of it.
#[derive(Clone, Debug, PartialEq, Eq)]
pub struct MonitorHandle {
    pub name: Option<String>,
    pub position: PhysicalPosition<i32>,
    pub size: PhysicalSize<u32>,
    pub scale_factor: Scalar,
}

/// The native handle of a monitor, on its way to whoever asked.
#[derive(Clone, Debug, PartialEq, Eq)]
pub struct MonitorHandleWrapper(pub MonitorHandle);

impl Monitor {
    /// The monitor that a native handle stands for: name, position, size
    /// and scale factor as the handle says them.
    pub fn from(monitor: MonitorHandleWrapper) -> (r: Monitor)
        ensures
            r == (Monitor {
                name: monitor.0.name,
                position: monitor.0.position,
                size: monitor.0.size,
                scale_factor: monitor.0.scale_factor,
            }),
    {
        Monitor {
            name: monitor.0.name,
            position: monitor.0.position,
            size: monitor.0.size,
            scale_factor: monitor.0.scale_factor,
        }
    }
}

} // verus!
