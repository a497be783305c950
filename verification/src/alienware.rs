//! Access to the settings of an Alienware machine.

use crate::codec::{
    bracketed, colour_from_captures, colour_in, group_text, hex_colour, render_colour, BRACKETED,
    COLOUR,
};
use crate::hdmi::{HDMICableState, HDMISource, HDMI};
use crate::pattern::captures;
use crate::query::{
    after_zone, cable_state_in, hdmi_available, hdmi_step, source_in, zone_colour_in,
    zones_available, zones_step, HdmiQuery, ZonesQuery,
};
use crate::sysfs::{Event, Step, SysPath, SysWrite};
use crate::zone::{RGBZone, RGBZones, Zone, ZoneMap};
use vstd::prelude::*;

verus! {

/// Where the driver publishes the platform's settings.
pub const DEFAULT_PLATFORM: &'static str = "/sys/devices/platform/alienware-wmi";

/// Access to the settings of an Alienware machine, bound to the directory
/// where the driver publishes them.
pub struct Alienware {
    platform: String,
}

impl Alienware {
    /// The directory this value is bound to.
    pub closed spec fn root(self) -> Seq<char> {
        self.platform@
    }

    /// Access to the settings where the driver publishes them.
    pub fn new() -> (alienware: Alienware)
        ensures
            alienware.root() == DEFAULT_PLATFORM@,
    {
        Alienware { platform: DEFAULT_PLATFORM.to_owned() }
    }

    /// Access to settings under another directory, for trying things out.
    pub fn test(platform: String) -> (alienware: Alienware)
        ensures
            alienware.root() == platform@,
    {
        Alienware { platform }
    }

    /// The directory this value is bound to. The place of an action is found
    /// under it, at the place's
    /// [`file_name`](crate::sysfs::SysPath::file_name).
    pub fn platform(&self) -> (root: &str)
        ensures
            root@ == self.root(),
    {
        self.platform.as_str()
    }

    /// Whether this is an Alienware machine, from the answer to
    /// `Action::Exists(SysPath::Platform)`: whether the platform's directory
    /// exists.
    pub fn is_alienware(&self, event: &Event) -> (present: bool)
        ensures
            present == (*event matches Event::Exists(found) && found),
    {
        match event {
            Event::Exists(found) => *found,
            _ => false,
        }
    }

    /// Takes a look-up of the HDMI ports one event further.
    ///
    /// A look-up starts in `HdmiQuery::Platform`. In each state the caller
    /// performs the state's action and hands the event to this function,
    /// until it answers `Step::Done`.
    pub fn get_hdmi(&self, query: HdmiQuery, event: Event) -> (step: Step<
        HdmiQuery,
        Result<HDMI, std::io::Error>,
    >)
        ensures
            step == hdmi_step(query, event),
    {
        match query {
            HdmiQuery::Platform => match event {
                Event::Exists(true) => Step::Next(HdmiQuery::Mux),
                Event::Exists(false) => Step::Done(Ok(HDMI::default())),
                _ => Step::Next(query),
            },
            HdmiQuery::Mux => match event {
                Event::Exists(true) => Step::Next(HdmiQuery::Source),
                Event::Exists(false) => Step::Done(
                    Ok(
                        HDMI {
                            source: HDMISource::Unknown,
                            cable_state: HDMICableState::Unknown,
                            exists: true,
                        },
                    ),
                ),
                _ => Step::Next(query),
            },
            HdmiQuery::Source => match event {
                Event::Read(Ok(text)) => Step::Next(
                    HdmiQuery::Cable(Alienware::parse_source(text.as_str())),
                ),
                Event::Read(Err(error)) => Step::Done(Err(error)),
                _ => Step::Next(query),
            },
            HdmiQuery::Cable(source) => match event {
                Event::Read(Ok(text)) => Step::Done(
                    Ok(
                        HDMI {
                            source,
                            cable_state: Alienware::parse_cable_state(text.as_str()),
                            exists: true,
                        },
                    ),
                ),
                Event::Read(Err(error)) => Step::Done(Err(error)),
                _ => Step::Next(query),
            },
        }
    }

    /// The source of the HDMI output port that the text of its file stands
    /// for: the bracketed word if it is `cable` or `gpu`, else `Unknown`.
    pub fn parse_source(contents: &str) -> (source: HDMISource)
        ensures
            source == source_in(contents@),
    {
        let word = Alienware::parse_sys_file(contents);
        HDMISource::from_token(
            match &word {
                Some(word) => Some(word.as_str()),
                None => None,
            },
        )
    }

    /// The state of the HDMI input port that the text of its file stands
    /// for: the bracketed word if it is `connected` or `unconnected`, else
    /// `Unknown`.
    pub fn parse_cable_state(contents: &str) -> (state: HDMICableState)
        ensures
            state == cable_state_in(contents@),
    {
        let word = Alienware::parse_sys_file(contents);
        HDMICableState::from_token(
            match &word {
                Some(word) => Some(word.as_str()),
                None => None,
            },
        )
    }

    /// What is to be written to make `source` the source of the HDMI output
    /// port: its word, in place of all that the file of the port holds.
    pub fn set_hdmi_source(self, source: HDMISource) -> (write: SysWrite)
        ensures
            write.file == SysPath::HdmiSource,
            write.contents@ == source.token(),
    {
        Alienware::write_sys_file(SysPath::HdmiSource, source.as_str())
    }

    /// Takes a look-up of the lighting zones one event further.
    ///
    /// A look-up starts in `ZonesQuery::Platform`. In each state the caller
    /// performs the state's action and hands the event to this function,
    /// until it answers `Step::Done`.
    pub fn get_rgb_zones(&self, query: ZonesQuery, event: Event) -> (step: Step<
        ZonesQuery,
        Result<RGBZones, std::io::Error>,
    >)
        ensures
            step == zones_step(query, event),
    {
        match query {
            ZonesQuery::Platform => match event {
                Event::Exists(true) => Step::Next(ZonesQuery::Zones),
                Event::Exists(false) => Step::Done(Ok(RGBZones::default())),
                _ => Step::Next(query),
            },
            ZonesQuery::Zones => match event {
                Event::Exists(true) => Step::Next(ZonesQuery::Probe(Zone::Head, ZoneMap::new())),
                Event::Exists(false) => Step::Done(
                    Ok(RGBZones { zones: ZoneMap::new(), exists: true }),
                ),
                _ => Step::Next(query),
            },
            ZonesQuery::Probe(zone, zones) => match event {
                Event::Exists(true) => Step::Next(ZonesQuery::Read(zone, zones)),
                Event::Exists(false) => Alienware::next_zone(zone, zones),
                _ => Step::Next(query),
            },
            ZonesQuery::Read(zone, zones) => match event {
                Event::Read(Ok(text)) => {
                    let mut zones = zones;
                    zones.insert(zone, Alienware::parse_rgb_zone(zone, text.as_str()));
                    Alienware::next_zone(zone, zones)
                },
                Event::Read(Err(error)) => Step::Done(Err(error)),
                _ => Step::Next(query),
            },
        }
    }

    /// Goes on to the zone after `zone`, or ends the look-up after the last.
    fn next_zone(zone: Zone, zones: ZoneMap) -> (step: Step<
        ZonesQuery,
        Result<RGBZones, std::io::Error>,
    >)
        ensures
            step == after_zone(zone, zones),
    {
        match zone {
            Zone::Head => Step::Next(ZonesQuery::Probe(Zone::Left, zones)),
            Zone::Left => Step::Next(ZonesQuery::Probe(Zone::Right, zones)),
            Zone::Right => Step::Done(Ok(RGBZones { zones, exists: true })),
        }
    }

    /// What is to be written to give `zone` a colour: the colour in
    /// hexadecimal, in place of all that the file of the zone holds.
    pub fn set_rgb_zone(&self, zone: Zone, red: u8, green: u8, blue: u8) -> (write: SysWrite)
        ensures
            write.file == SysPath::RgbZone(zone),
            write.contents@ == hex_colour(red, green, blue),
    {
        SysWrite { file: SysPath::RgbZone(zone), contents: render_colour(red, green, blue) }
    }

    /// The colour of `zone` that the text of its file stands for.
    pub fn parse_rgb_zone(zone: Zone, contents: &str) -> (colour: RGBZone)
        ensures
            colour == zone_colour_in(zone, contents@),
    {
        let (red, green, blue) = Alienware::parse_sys_rgb_file(contents);
        RGBZone { zone, red, green, blue }
    }

    /// Takes a look-up of whether the HDMI ports can be used one event
    /// further. It goes as [`get_hdmi`](Alienware::get_hdmi) does, and ends
    /// with whether the platform is there and no file failed to be read.
    pub fn has_hdmi(&self, query: HdmiQuery, event: Event) -> (step: Step<HdmiQuery, bool>)
        ensures
            step == (match hdmi_step(query, event) {
                Step::Next(next) => Step::<HdmiQuery, bool>::Next(next),
                Step::Done(state) => Step::Done(hdmi_available(state)),
            }),
    {
        match self.get_hdmi(query, event) {
            Step::Next(next) => Step::Next(next),
            Step::Done(Ok(hdmi)) => Step::Done(hdmi.exists),
            Step::Done(Err(_)) => Step::Done(false),
        }
    }

    /// Takes a look-up of whether the lighting zones can be used one event
    /// further. It goes as [`get_rgb_zones`](Alienware::get_rgb_zones) does,
    /// and ends with whether the platform is there and no file failed to be
    /// read.
    pub fn has_rgb_zones(&self, query: ZonesQuery, event: Event) -> (step: Step<ZonesQuery, bool>)
        ensures
            step == (match zones_step(query, event) {
                Step::Next(next) => Step::<ZonesQuery, bool>::Next(next),
                Step::Done(state) => Step::Done(zones_available(state)),
            }),
    {
        match self.get_rgb_zones(query, event) {
            Step::Next(next) => Step::Next(next),
            Step::Done(Ok(zones)) => Step::Done(zones.exists),
            Step::Done(Err(_)) => Step::Done(false),
        }
    }

    /// The bracketed word in the text of a file that lists words: what
    /// `regex` finds between the first `[` and the next `]` or `)`, if it
    /// finds any.
    pub fn parse_sys_file(contents: &str) -> (word: Option<String>)
        ensures
            word.deep_view() == bracketed(contents@),
    {
        let groups = captures(BRACKETED, contents);
        match group_text(&groups, 1) {
            Some(word) => Some(word.to_owned()),
            None => None,
        }
    }

    /// The colour in the text of a file that holds one, and black where
    /// `regex` finds none or a number is more than 255.
    pub fn parse_sys_rgb_file(contents: &str) -> (rgb: (u8, u8, u8))
        ensures
            rgb == colour_in(contents@),
    {
        let groups = captures(COLOUR, contents);
        colour_from_captures(&groups)
    }

    /// What is to be written to store `value` in `file`.
    pub fn write_sys_file(file: SysPath, value: &str) -> (write: SysWrite)
        ensures
            write.file == file,
            write.contents@ == value@,
    {
        SysWrite { file, contents: value.to_owned() }
    }
}

impl Default for Alienware {
    fn default() -> (alienware: Alienware)
        ensures
            alienware.root() == DEFAULT_PLATFORM@,
    {
        Alienware::new()
    }
}

} // verus!
