//! Control surface of the Alienware Alpha's HDMI passthrough mux and chassis
//! lighting zones, as the platform driver publishes it under one directory of
//! pseudo-files.
//!
//! The library decodes what those files hold, encodes what is written to them
//! and decides which file to look at next. It never touches the file system
//! itself: a caller performs each [`Action`] and reports the matching
//! [`Event`].

pub mod alienware;
pub mod codec;
pub mod command;
pub mod hdmi;
pub mod pattern;
pub mod query;
pub mod sysfs;
pub mod zone;

pub use alienware::Alienware;
pub use hdmi::{HDMICableState, HDMISource, HDMI};
pub use query::{HdmiQuery, ZonesQuery};
pub use sysfs::{Action, Event, Step, SysPath, SysWrite};
pub use zone::{RGBZone, RGBZones, Zone, ZoneMap};
