//! The two look-ups, step by step.
//!
//! Reading the state of the HDMI ports or of the lighting zones takes several
//! looks at the file system, and what is looked at next depends on what was
//! found. A query value says how far a look-up has come; its
//! [`action`](HdmiQuery::action) is what it waits for. This module defines
//! what each event leads to and what the whole look-up amounts to on a given
//! file system, and proves that the two agree.

use crate::codec::{bracketed, colour_in};
use crate::hdmi::{HDMICableState, HDMISource, HDMI};
use crate::sysfs::{Action, Event, Step, SysFs, SysPath};
use crate::zone::{RGBZone, RGBZones, Zone, ZoneMap};
use vstd::prelude::*;

verus! {

/// The source of the HDMI output port that the text of its file stands for.
pub open spec fn source_in(text: Seq<char>) -> HDMISource {
    HDMISource::of_token(bracketed(text))
}

/// The state of the HDMI input port that the text of its file stands for.
pub open spec fn cable_state_in(text: Seq<char>) -> HDMICableState {
    HDMICableState::of_token(bracketed(text))
}

/// The colour of `zone` that the text of its file stands for.
pub open spec fn zone_colour_in(zone: Zone, text: Seq<char>) -> RGBZone {
    RGBZone { zone, red: colour_in(text).0, green: colour_in(text).1, blue: colour_in(text).2 }
}

/// How far a look-up of the HDMI ports has come.
#[derive(Clone, Copy, Debug, PartialEq, Eq, Structural)]
pub enum HdmiQuery {
    /// Waiting to learn whether the platform is there. Every look-up starts
    /// here.
    Platform,
    /// Waiting to learn whether the platform has an HDMI mux.
    Mux,
    /// Waiting for the text of the file of the output port.
    Source,
    /// Waiting for the text of the file of the input port; the source of the
    /// output port is known.
    Cable(HDMISource),
}

impl HdmiQuery {
    /// What this state waits for.
    pub open spec fn awaits(self) -> Action {
        match self {
            HdmiQuery::Platform => Action::Exists(SysPath::Platform),
            HdmiQuery::Mux => Action::Exists(SysPath::Hdmi),
            HdmiQuery::Source => Action::Read(SysPath::HdmiSource),
            HdmiQuery::Cable(_) => Action::Read(SysPath::HdmiCable),
        }
    }

    /// What the caller is to do in this state.
    pub fn action(&self) -> (action: Action)
        ensures
            action == self.awaits(),
    {
        match self {
            HdmiQuery::Platform => Action::Exists(SysPath::Platform),
            HdmiQuery::Mux => Action::Exists(SysPath::Hdmi),
            HdmiQuery::Source => Action::Read(SysPath::HdmiSource),
            HdmiQuery::Cable(_) => Action::Read(SysPath::HdmiCable),
        }
    }
}

/// What `event` leads to in a look-up of the HDMI ports.
///
/// A platform or a mux that is not there ends the look-up with both ports
/// unknown. A file that cannot be read ends it with that error. An event of
/// another kind than the state waits for changes nothing.
pub open spec fn hdmi_step(query: HdmiQuery, event: Event) -> Step<
    HdmiQuery,
    Result<HDMI, std::io::Error>,
> {
    match (query, event) {
        (HdmiQuery::Platform, Event::Exists(present)) => if present {
            Step::Next(HdmiQuery::Mux)
        } else {
            Step::Done(Ok(HDMI::absent()))
        },
        (HdmiQuery::Mux, Event::Exists(present)) => if present {
            Step::Next(HdmiQuery::Source)
        } else {
            Step::Done(Ok(HDMI::without_mux()))
        },
        (HdmiQuery::Source, Event::Read(Ok(text))) => Step::Next(
            HdmiQuery::Cable(source_in(text@)),
        ),
        (HdmiQuery::Source, Event::Read(Err(error))) => Step::Done(Err(error)),
        (HdmiQuery::Cable(source), Event::Read(Ok(text))) => Step::Done(
            Ok(HDMI { source, cable_state: cable_state_in(text@), exists: true }),
        ),
        (HdmiQuery::Cable(_), Event::Read(Err(error))) => Step::Done(Err(error)),
        _ => Step::Next(query),
    }
}

/// How far a look-up of the lighting zones has come.
#[derive(Clone, Copy, Debug, PartialEq, Eq)]
pub enum ZonesQuery {
    /// Waiting to learn whether the platform is there. Every look-up starts
    /// here.
    Platform,
    /// Waiting to learn whether the platform has lighting zones.
    Zones,
    /// Waiting to learn whether the zone has a file; the map holds what the
    /// zones before it gave.
    Probe(Zone, ZoneMap),
    /// Waiting for the text of the zone's file.
    Read(Zone, ZoneMap),
}

impl ZonesQuery {
    /// What this state waits for.
    pub open spec fn awaits(self) -> Action {
        match self {
            ZonesQuery::Platform => Action::Exists(SysPath::Platform),
            ZonesQuery::Zones => Action::Exists(SysPath::RgbZones),
            ZonesQuery::Probe(zone, _) => Action::Exists(SysPath::RgbZone(zone)),
            ZonesQuery::Read(zone, _) => Action::Read(SysPath::RgbZone(zone)),
        }
    }

    /// What the caller is to do in this state.
    pub fn action(&self) -> (action: Action)
        ensures
            action == self.awaits(),
    {
        match self {
            ZonesQuery::Platform => Action::Exists(SysPath::Platform),
            ZonesQuery::Zones => Action::Exists(SysPath::RgbZones),
            ZonesQuery::Probe(zone, _) => Action::Exists(SysPath::RgbZone(*zone)),
            ZonesQuery::Read(zone, _) => Action::Read(SysPath::RgbZone(*zone)),
        }
    }
}

/// How a look-up of the lighting zones goes on when it is done with `zone`:
/// with the next zone in the order head, left, right, or to its end.
pub open spec fn after_zone(zone: Zone, zones: ZoneMap) -> Step<
    ZonesQuery,
    Result<RGBZones, std::io::Error>,
> {
    match zone {
        Zone::Head => Step::Next(ZonesQuery::Probe(Zone::Left, zones)),
        Zone::Left => Step::Next(ZonesQuery::Probe(Zone::Right, zones)),
        Zone::Right => Step::Done(Ok(RGBZones { zones, exists: true })),
    }
}

/// What `event` leads to in a look-up of the lighting zones.
///
/// A platform or a directory of zones that is not there ends the look-up
/// with no zone. A zone without a file is left out. A file that cannot be
/// read ends the look-up with that error. An event of another kind than the
/// state waits for changes nothing.
pub open spec fn zones_step(query: ZonesQuery, event: Event) -> Step<
    ZonesQuery,
    Result<RGBZones, std::io::Error>,
> {
    match (query, event) {
        (ZonesQuery::Platform, Event::Exists(present)) => if present {
            Step::Next(ZonesQuery::Zones)
        } else {
            Step::Done(Ok(RGBZones::absent()))
        },
        (ZonesQuery::Zones, Event::Exists(present)) => if present {
            Step::Next(ZonesQuery::Probe(Zone::Head, ZoneMap::empty()))
        } else {
            Step::Done(Ok(RGBZones::without_zones()))
        },
        (ZonesQuery::Probe(zone, zones), Event::Exists(present)) => if present {
            Step::Next(ZonesQuery::Read(zone, zones))
        } else {
            after_zone(zone, zones)
        },
        (ZonesQuery::Read(zone, zones), Event::Read(Ok(text))) => after_zone(
            zone,
            zones.with(zone, zone_colour_in(zone, text@)),
        ),
        (ZonesQuery::Read(_, _), Event::Read(Err(error))) => Step::Done(Err(error)),
        _ => Step::Next(query),
    }
}

/// What a finished look-up says about whether the HDMI ports can be used:
/// that the platform is there and nothing failed.
pub open spec fn hdmi_available(state: Result<HDMI, std::io::Error>) -> bool {
    match state {
        Ok(hdmi) => hdmi.exists,
        Err(_) => false,
    }
}

/// What a finished look-up says about whether the lighting zones can be
/// used: that the platform is there and nothing failed.
pub open spec fn zones_available(state: Result<RGBZones, std::io::Error>) -> bool {
    match state {
        Ok(zones) => zones.exists,
        Err(_) => false,
    }
}

/// An event of another kind than a look-up waits for leaves the look-up
/// where it is, with the same question open.
pub proof fn lemma_other_events_change_nothing(hdmi: HdmiQuery, zones: ZonesQuery, event: Event)
    ensures
        !event.answers(hdmi.awaits()) ==> hdmi_step(hdmi, event) == Step::<
            HdmiQuery,
            Result<HDMI, std::io::Error>,
        >::Next(hdmi),
        !event.answers(zones.awaits()) ==> zones_step(zones, event) == Step::<
            ZonesQuery,
            Result<RGBZones, std::io::Error>,
        >::Next(zones),
{
}

/// The result of a look-up of the HDMI ports that goes on from `query` on
/// the file system `fs`, if it ends within `steps` actions.
pub open spec fn hdmi_run(fs: SysFs, query: HdmiQuery, steps: nat) -> Option<
    Result<HDMI, std::io::Error>,
>
    decreases steps,
{
    if steps == 0 {
        None
    } else {
        match hdmi_step(query, fs.answer(query.awaits())) {
            Step::Done(state) => Some(state),
            Step::Next(next) => hdmi_run(fs, next, (steps - 1) as nat),
        }
    }
}

/// The actions that such a look-up asks for, in their order.
pub open spec fn hdmi_asked(fs: SysFs, query: HdmiQuery, steps: nat) -> Seq<Action>
    decreases steps,
{
    if steps == 0 {
        Seq::empty()
    } else {
        match hdmi_step(query, fs.answer(query.awaits())) {
            Step::Done(_) => seq![query.awaits()],
            Step::Next(next) => seq![query.awaits()] + hdmi_asked(fs, next, (steps - 1) as nat),
        }
    }
}

/// The state of the HDMI ports on the file system `fs`.
///
/// Without the platform nothing exists and both ports are unknown. With the
/// platform but without a mux both ports are unknown. Else the two files are
/// read, the one of the output port first, and the first that cannot be read
/// gives the error.
pub open spec fn hdmi_state(fs: SysFs) -> Result<HDMI, std::io::Error> {
    if !fs.present.contains(SysPath::Platform) {
        Ok(HDMI::absent())
    } else if !fs.present.contains(SysPath::Hdmi) {
        Ok(HDMI::without_mux())
    } else {
        match fs.contents[SysPath::HdmiSource] {
            Err(error) => Err(error),
            Ok(source) => match fs.contents[SysPath::HdmiCable] {
                Err(error) => Err(error),
                Ok(cable) => Ok(
                    HDMI {
                        source: source_in(source@),
                        cable_state: cable_state_in(cable@),
                        exists: true,
                    },
                ),
            },
        }
    }
}

/// On every file system a look-up of the HDMI ports ends within four
/// actions, and with the state of the ports on that file system.
pub proof fn lemma_hdmi_lookup(fs: SysFs)
    ensures
        hdmi_run(fs, HdmiQuery::Platform, 4) == Some(hdmi_state(fs)),
{
    reveal_with_fuel(hdmi_run, 5);
}

/// A look-up of the HDMI ports reads a file only after it has found both the
/// platform and the mux.
pub proof fn lemma_hdmi_reads_what_exists(fs: SysFs, i: int)
    requires
        0 <= i < hdmi_asked(fs, HdmiQuery::Platform, 4).len(),
        hdmi_asked(fs, HdmiQuery::Platform, 4)[i] is Read,
    ensures
        fs.present.contains(SysPath::Platform),
        fs.present.contains(SysPath::Hdmi),
{
    reveal_with_fuel(hdmi_asked, 5);
}

/// The result of a look-up of the lighting zones that goes on from `query`
/// on the file system `fs`, if it ends within `steps` actions.
pub open spec fn zones_run(fs: SysFs, query: ZonesQuery, steps: nat) -> Option<
    Result<RGBZones, std::io::Error>,
>
    decreases steps,
{
    if steps == 0 {
        None
    } else {
        match zones_step(query, fs.answer(query.awaits())) {
            Step::Done(state) => Some(state),
            Step::Next(next) => zones_run(fs, next, (steps - 1) as nat),
        }
    }
}

/// The actions that such a look-up asks for, in their order.
pub open spec fn zones_asked(fs: SysFs, query: ZonesQuery, steps: nat) -> Seq<Action>
    decreases steps,
{
    if steps == 0 {
        Seq::empty()
    } else {
        match zones_step(query, fs.answer(query.awaits())) {
            Step::Done(_) => seq![query.awaits()],
            Step::Next(next) => seq![query.awaits()] + zones_asked(fs, next, (steps - 1) as nat),
        }
    }
}

/// The colours found so far, with that of `zone` added if the zone has a
/// file; the error of the file if it cannot be read.
pub open spec fn with_zone(fs: SysFs, zone: Zone, found: Result<ZoneMap, std::io::Error>) -> Result<
    ZoneMap,
    std::io::Error,
> {
    match found {
        Err(error) => Err(error),
        Ok(zones) => if !fs.present.contains(SysPath::RgbZone(zone)) {
            Ok(zones)
        } else {
            match fs.contents[SysPath::RgbZone(zone)] {
                Err(error) => Err(error),
                Ok(text) => Ok(zones.with(zone, zone_colour_in(zone, text@))),
            }
        },
    }
}

/// The state of the lighting zones on the file system `fs`.
///
/// Without the platform nothing exists and there is no zone. With the
/// platform but without the directory of the zones there is no zone. Else
/// each zone that has a file has the colour which that file holds, and the
/// first file that cannot be read, in the order head, left, right, gives the
/// error.
pub open spec fn zones_state(fs: SysFs) -> Result<RGBZones, std::io::Error> {
    if !fs.present.contains(SysPath::Platform) {
        Ok(RGBZones::absent())
    } else if !fs.present.contains(SysPath::RgbZones) {
        Ok(RGBZones::without_zones())
    } else {
        match with_zone(
            fs,
            Zone::Right,
            with_zone(fs, Zone::Left, with_zone(fs, Zone::Head, Ok(ZoneMap::empty()))),
        ) {
            Ok(zones) => Ok(RGBZones { zones, exists: true }),
            Err(error) => Err(error),
        }
    }
}

/// On every file system a look-up of the lighting zones ends within eight
/// actions, and with the state of the zones on that file system.
pub proof fn lemma_zones_lookup(fs: SysFs)
    ensures
        zones_run(fs, ZonesQuery::Platform, 8) == Some(zones_state(fs)),
{
    reveal_with_fuel(zones_run, 9);
}

/// A look-up of the lighting zones reads the file of a zone only after it
/// has found the platform, the directory of the zones and that file.
pub proof fn lemma_zones_reads_what_exists(fs: SysFs, i: int)
    requires
        0 <= i < zones_asked(fs, ZonesQuery::Platform, 8).len(),
        zones_asked(fs, ZonesQuery::Platform, 8)[i] is Read,
    ensures
        fs.present.contains(SysPath::Platform),
        fs.present.contains(SysPath::RgbZones),
        zones_asked(fs, ZonesQuery::Platform, 8)[i] matches Action::Read(file) && fs.present.contains(
            file,
        ),
{
    reveal_with_fuel(zones_asked, 9);
}

/// The lighting zones can be read unless the file of a zone is there and
/// cannot be read. What is then reported says that the platform exists if
/// and only if it does, and holds, for each zone, the colour of the zone's
/// file under the zone's own key if that file is there, and nothing if it is
/// not. Without the platform or the directory of the zones, no zone is
/// reported.
pub proof fn lemma_zones_found(fs: SysFs, zone: Zone)
    ensures
        zones_state(fs) is Ok <==> !(fs.present.contains(SysPath::Platform) && fs.present.contains(
            SysPath::RgbZones,
        ) && exists|z: Zone| #[trigger]
            fs.present.contains(SysPath::RgbZone(z)) && fs.contents[SysPath::RgbZone(z)] is Err),
        zones_state(fs) matches Ok(state) ==> {
            &&& state.exists == fs.present.contains(SysPath::Platform)
            &&& state.zones@.contains_key(zone) == (fs.present.contains(SysPath::Platform)
                && fs.present.contains(SysPath::RgbZones) && fs.present.contains(
                SysPath::RgbZone(zone),
            ))
            &&& state.zones@.contains_key(zone) ==> (fs.contents[SysPath::RgbZone(zone)] matches Ok(
                text,
            ) && state.zones@[zone] == zone_colour_in(zone, text@) && state.zones@[zone].zone
                == zone)
        },
{
    let head = with_zone(fs, Zone::Head, Ok(ZoneMap::empty()));
    let left = with_zone(fs, Zone::Left, head);
    let right = with_zone(fs, Zone::Right, left);
    if fs.present.contains(SysPath::Platform) && fs.present.contains(SysPath::RgbZones) {
        if zones_state(fs) is Err {
            let failed = if head is Err {
                Zone::Head
            } else if left is Err {
                Zone::Left
            } else {
                Zone::Right
            };
            assert(fs.present.contains(SysPath::RgbZone(failed)) && fs.contents[SysPath::RgbZone(
                failed,
            )] is Err);
        } else {
            assert forall|z: Zone| #[trigger]
                fs.present.contains(SysPath::RgbZone(z)) implies !(fs.contents[SysPath::RgbZone(
                z,
            )] is Err) by {
                match z {
                    Zone::Head => {},
                    Zone::Left => {},
                    Zone::Right => {},
                }
            }
        }
    }
}

/// The error of a look-up of the lighting zones is that of the first file,
/// in the order head, left, right, that is there and cannot be read.
pub proof fn lemma_zones_first_error(fs: SysFs, zone: Zone)
    requires
        fs.present.contains(SysPath::Platform),
        fs.present.contains(SysPath::RgbZones),
        fs.present.contains(SysPath::RgbZone(zone)),
        fs.contents[SysPath::RgbZone(zone)] is Err,
        zone == Zone::Head || !fs.present.contains(SysPath::RgbZone(Zone::Head))
            || fs.contents[SysPath::RgbZone(Zone::Head)] is Ok,
        zone != Zone::Right || !fs.present.contains(SysPath::RgbZone(Zone::Left))
            || fs.contents[SysPath::RgbZone(Zone::Left)] is Ok,
    ensures
        zones_state(fs) == Err::<RGBZones, std::io::Error>(
            fs.contents[SysPath::RgbZone(zone)]->Err_0,
        ),
{
}

/// What a look-up of the HDMI ports reports says that the platform exists
/// if and only if it does. Where the platform or the mux is missing, both
/// ports are unknown.
pub proof fn lemma_hdmi_exists(fs: SysFs)
    ensures
        hdmi_state(fs) matches Ok(state) ==> {
            &&& state.exists == fs.present.contains(SysPath::Platform)
            &&& !(fs.present.contains(SysPath::Platform) && fs.present.contains(SysPath::Hdmi))
                ==> state.source == HDMISource::Unknown && state.cable_state
                == HDMICableState::Unknown
        },
        hdmi_state(fs) is Err ==> fs.present.contains(SysPath::Platform) && fs.present.contains(
            SysPath::Hdmi,
        ),
{
}

/// Where the platform is absent, both look-ups end after the one question
/// whether it is there: they report that nothing exists, with both ports
/// unknown and no zone, and ask for no file below the platform's directory.
pub proof fn lemma_absent_platform(fs: SysFs)
    requires
        !fs.present.contains(SysPath::Platform),
    ensures
        hdmi_run(fs, HdmiQuery::Platform, 1) == Some(
            Ok::<HDMI, std::io::Error>(HDMI::absent()),
        ),
        hdmi_asked(fs, HdmiQuery::Platform, 4) == seq![Action::Exists(SysPath::Platform)],
        zones_run(fs, ZonesQuery::Platform, 1) == Some(
            Ok::<RGBZones, std::io::Error>(RGBZones::absent()),
        ),
        zones_asked(fs, ZonesQuery::Platform, 8) == seq![Action::Exists(SysPath::Platform)],
        RGBZones::absent().zones@ == Map::<Zone, RGBZone>::empty(),
{
    reveal_with_fuel(hdmi_run, 2);
    reveal_with_fuel(hdmi_asked, 2);
    reveal_with_fuel(zones_run, 2);
    reveal_with_fuel(zones_asked, 2);
    ZoneMap::empty().lemma_with(Zone::Head, RGBZone { zone: Zone::Head, red: 0, green: 0, blue: 0 });
}

/// Where the platform and the directory of the zones are there and only the
/// left zone has a file, which can be read, the look-up reports that the
/// platform exists, with one zone: the left one, in the colour of its file.
pub proof fn lemma_only_left_zone(fs: SysFs, text: String)
    requires
        fs.present.contains(SysPath::Platform),
        fs.present.contains(SysPath::RgbZones),
        !fs.present.contains(SysPath::RgbZone(Zone::Head)),
        fs.present.contains(SysPath::RgbZone(Zone::Left)),
        !fs.present.contains(SysPath::RgbZone(Zone::Right)),
        fs.contents[SysPath::RgbZone(Zone::Left)] == Ok::<String, std::io::Error>(text),
    ensures
        zones_run(fs, ZonesQuery::Platform, 8) matches Some(Ok(state)) && state.exists
            && state.zones@ == Map::<Zone, RGBZone>::empty().insert(
            Zone::Left,
            zone_colour_in(Zone::Left, text@),
        ) && state.zones@.len() == 1,
{
    lemma_zones_lookup(fs);
    ZoneMap::empty().lemma_with(Zone::Left, zone_colour_in(Zone::Left, text@));
}

} // verus!
