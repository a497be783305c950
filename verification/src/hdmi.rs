//! The HDMI passthrough mux: which source feeds the output port, and whether
//! a cable is plugged into the input port.

use vstd::prelude::*;

verus! {

/// The possible sources of the HDMI output port.
#[derive(Clone, Copy, Debug, PartialEq, Eq, Structural)]
pub enum HDMISource {
    Cable,
    Gpu,
    Unknown,
}

/// The possible states of the HDMI input port.
#[derive(Clone, Copy, Debug, PartialEq, Eq, Structural)]
pub enum HDMICableState {
    Connected,
    Unconnected,
    Unknown,
}

/// State of the HDMI ports.
///
/// `exists` is false when the platform itself is absent; `source` and
/// `cable_state` are then both `Unknown`.
#[derive(Clone, Copy, Debug, PartialEq, Eq, Structural)]
pub struct HDMI {
    pub source: HDMISource,
    pub cable_state: HDMICableState,
    pub exists: bool,
}

impl HDMISource {
    /// The word the driver uses for this source.
    pub open spec fn token(self) -> Seq<char> {
        match self {
            HDMISource::Cable => "cable"@,
            HDMISource::Gpu => "gpu"@,
            HDMISource::Unknown => "unknown"@,
        }
    }

    /// The source that a word of the driver stands for: `Unknown` for every
    /// word but `cable` and `gpu`, and where there is no word at all.
    pub open spec fn of_token(token: Option<Seq<char>>) -> HDMISource {
        match token {
            Some(t) => if t == "cable"@ {
                HDMISource::Cable
            } else if t == "gpu"@ {
                HDMISource::Gpu
            } else {
                HDMISource::Unknown
            },
            None => HDMISource::Unknown,
        }
    }

    /// The source that a word of the driver stands for. The match is exact,
    /// upper and lower case told apart.
    pub fn from_token(word: Option<&str>) -> (source: HDMISource)
        ensures
            source == HDMISource::of_token(word.deep_view()),
    {
        match word {
            Some(word) => {
                let word: String = word.to_owned();
                if word == "cable".to_owned() {
                    HDMISource::Cable
                } else if word == "gpu".to_owned() {
                    HDMISource::Gpu
                } else {
                    HDMISource::Unknown
                }
            },
            None => HDMISource::Unknown,
        }
    }

    /// The word the driver uses for this source, in lower case.
    pub fn as_str(&self) -> (word: &'static str)
        ensures
            word@ == self.token(),
    {
        match self {
            HDMISource::Cable => "cable",
            HDMISource::Gpu => "gpu",
            HDMISource::Unknown => "unknown",
        }
    }

    /// The text shown for this source: its word.
    pub fn to_string(&self) -> (text: String)
        ensures
            text@ == self.token(),
    {
        self.as_str().to_owned()
    }
}

impl HDMICableState {
    /// The word the driver uses for this state.
    pub open spec fn token(self) -> Seq<char> {
        match self {
            HDMICableState::Connected => "connected"@,
            HDMICableState::Unconnected => "unconnected"@,
            HDMICableState::Unknown => "unknown"@,
        }
    }

    /// The state that a word of the driver stands for: `Unknown` for every
    /// word but `connected` and `unconnected`, and where there is no word at
    /// all.
    pub open spec fn of_token(token: Option<Seq<char>>) -> HDMICableState {
        match token {
            Some(t) => if t == "connected"@ {
                HDMICableState::Connected
            } else if t == "unconnected"@ {
                HDMICableState::Unconnected
            } else {
                HDMICableState::Unknown
            },
            None => HDMICableState::Unknown,
        }
    }

    /// The state that a word of the driver stands for. The match is exact,
    /// upper and lower case told apart.
    pub fn from_token(word: Option<&str>) -> (state: HDMICableState)
        ensures
            state == HDMICableState::of_token(word.deep_view()),
    {
        match word {
            Some(word) => {
                let word: String = word.to_owned();
                if word == "connected".to_owned() {
                    HDMICableState::Connected
                } else if word == "unconnected".to_owned() {
                    HDMICableState::Unconnected
                } else {
                    HDMICableState::Unknown
                }
            },
            None => HDMICableState::Unknown,
        }
    }

    /// The word the driver uses for this state, in lower case.
    pub fn as_str(&self) -> (word: &'static str)
        ensures
            word@ == self.token(),
    {
        match self {
            HDMICableState::Connected => "connected",
            HDMICableState::Unconnected => "unconnected",
            HDMICableState::Unknown => "unknown",
        }
    }

    /// The text shown for this state: its word.
    pub fn to_string(&self) -> (text: String)
        ensures
            text@ == self.token(),
    {
        self.as_str().to_owned()
    }
}

impl HDMI {
    /// What is reported when the platform is absent.
    pub open spec fn absent() -> HDMI {
        HDMI { source: HDMISource::Unknown, cable_state: HDMICableState::Unknown, exists: false }
    }

    /// What is reported when the platform is there but has no HDMI mux.
    pub open spec fn without_mux() -> HDMI {
        HDMI { source: HDMISource::Unknown, cable_state: HDMICableState::Unknown, exists: true }
    }
}

impl Default for HDMI {
    fn default() -> (hdmi: HDMI)
        ensures
            hdmi == HDMI::absent(),
    {
        HDMI { source: HDMISource::Unknown, cable_state: HDMICableState::Unknown, exists: false }
    }
}

} // verus!
