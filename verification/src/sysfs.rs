//! What the library asks of the file system, and what it is told.
//!
//! The library opens no file. An operation that needs to look at the
//! platform's directory names the next [`Action`]; the caller performs it and
//! reports the [`Event`] that came of it. A value to be stored comes out as a
//! [`SysWrite`].

use crate::zone::Zone;
use vstd::prelude::*;

verus! {

/// The error of the standard library's I/O, `std::io::Error`. The library
/// looks at nothing inside it: an error that a caller reports is handed back
/// as it came.
#[verifier::external_type_specification]
#[verifier::external_body]
pub struct ExIoError(std::io::Error);

/// The places below the platform's directory that the library knows.
#[derive(Clone, Copy, Debug, PartialEq, Eq, Structural)]
pub enum SysPath {
    /// The platform's directory itself.
    Platform,
    /// The directory of the HDMI mux.
    Hdmi,
    /// The file that holds the source of the HDMI output port.
    HdmiSource,
    /// The file that holds the state of the HDMI input port.
    HdmiCable,
    /// The directory of the lighting zones.
    RgbZones,
    /// The file that holds the colour of one zone.
    RgbZone(Zone),
}

impl SysPath {
    /// The path of this place, relative to the platform's directory.
    pub open spec fn relative(self) -> Seq<char> {
        match self {
            SysPath::Platform => ""@,
            SysPath::Hdmi => "hdmi"@,
            SysPath::HdmiSource => "hdmi/source"@,
            SysPath::HdmiCable => "hdmi/cable"@,
            SysPath::RgbZones => "rgb_zones"@,
            SysPath::RgbZone(Zone::Head) => "rgb_zones/zone00"@,
            SysPath::RgbZone(Zone::Left) => "rgb_zones/zone01"@,
            SysPath::RgbZone(Zone::Right) => "rgb_zones/zone02"@,
        }
    }

    /// The path of this place, relative to the platform's directory; empty
    /// for the directory itself.
    pub fn file_name(&self) -> (name: &'static str)
        ensures
            name@ == self.relative(),
    {
        match self {
            SysPath::Platform => "",
            SysPath::Hdmi => "hdmi",
            SysPath::HdmiSource => "hdmi/source",
            SysPath::HdmiCable => "hdmi/cable",
            SysPath::RgbZones => "rgb_zones",
            SysPath::RgbZone(Zone::Head) => "rgb_zones/zone00",
            SysPath::RgbZone(Zone::Left) => "rgb_zones/zone01",
            SysPath::RgbZone(Zone::Right) => "rgb_zones/zone02",
        }
    }

    /// No two places share a path: a zone is never routed to the file of
    /// another.
    pub proof fn lemma_relative_injective(self, other: SysPath)
        requires
            self.relative() == other.relative(),
        ensures
            self == other,
    {
        reveal_strlit("");
        reveal_strlit("hdmi");
        reveal_strlit("hdmi/source");
        reveal_strlit("hdmi/cable");
        reveal_strlit("rgb_zones");
        reveal_strlit("rgb_zones/zone00");
        reveal_strlit("rgb_zones/zone01");
        reveal_strlit("rgb_zones/zone02");
        assert(""@.len() == 0);
        assert("hdmi"@.len() == 4);
        assert("hdmi/source"@.len() == 11);
        assert("hdmi/cable"@.len() == 10);
        assert("rgb_zones"@.len() == 9);
        assert("rgb_zones/zone00"@.len() == 16 && "rgb_zones/zone00"@[15] == '0');
        assert("rgb_zones/zone01"@.len() == 16 && "rgb_zones/zone01"@[15] == '1');
        assert("rgb_zones/zone02"@.len() == 16 && "rgb_zones/zone02"@[15] == '2');
    }
}

/// What the caller is asked to find out.
#[derive(Clone, Copy, Debug, PartialEq, Eq, Structural)]
pub enum Action {
    /// Find out whether the place exists.
    Exists(SysPath),
    /// Read the whole file as text.
    Read(SysPath),
}

/// What the caller found out.
#[derive(Debug)]
pub enum Event {
    /// Whether the place exists.
    Exists(bool),
    /// The text of the file, or why it could not be read.
    Read(Result<String, std::io::Error>),
}

impl Event {
    /// Whether this event is of the kind that `action` asks for.
    pub open spec fn answers(self, action: Action) -> bool {
        match (action, self) {
            (Action::Exists(_), Event::Exists(_)) => true,
            (Action::Read(_), Event::Read(_)) => true,
            _ => false,
        }
    }
}

/// A value to be stored: `contents` is to replace all that `file` holds.
#[derive(Debug, PartialEq, Eq)]
pub struct SysWrite {
    pub file: SysPath,
    pub contents: String,
}

/// How an operation goes on after an event: it waits for the next one, or it
/// is over.
#[derive(Debug)]
pub enum Step<Q, T> {
    /// The operation is now in this state, and asks for this state's action.
    Next(Q),
    /// The operation is over, with this result.
    Done(T),
}

/// The file system as far as the library looks at it: which places exist, and
/// what an attempt to read each file gives.
pub struct SysFs {
    pub present: Set<SysPath>,
    pub contents: Map<SysPath, Result<String, std::io::Error>>,
}

impl SysFs {
    /// The event that follows `action` on this file system.
    pub open spec fn answer(self, action: Action) -> Event {
        match action {
            Action::Exists(place) => Event::Exists(self.present.contains(place)),
            Action::Read(file) => Event::Read(self.contents[file]),
        }
    }
}

} // verus!
