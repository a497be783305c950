//! A request to change the colour of a zone, as a user words it.
//!
//! The colour is one of eight names, in any mix of upper and lower case, or
//! three numbers with a blank between them; anything else means blue.

use crate::alienware::Alienware;
use crate::codec::{channel, group_text, hex_colour, parse_u8};
use crate::pattern::{captures, regex_captures};
use crate::sysfs::{SysPath, SysWrite};
use crate::zone::{RGBZones, Zone};
use vstd::prelude::*;

verus! {

/// The pattern of a colour given as three numbers. Its groups 1 to 3 are the
/// numbers of red, green and blue.
pub const TRIPLE: &'static str = "(\\d+) (\\d+) (\\d+)";

/// What `str::to_lowercase` makes of a text.
pub uninterp spec fn lowercase_of(text: Seq<char>) -> Seq<char>;

/// Puts `text` in lower case, with `str::to_lowercase` of the standard
/// library.
///
/// Trusted: that the result depends on the text alone, which is all that
/// [`lowercase_of`] claims.
#[verifier::external_body]
fn lowercase(text: &str) -> (lower: String)
    ensures
        lower@ == lowercase_of(text@),
{
    text.to_lowercase()
}

/// The colour that a name stands for, at the full strength of 15 for each
/// channel that the colour has.
pub open spec fn named_colour(name: Seq<char>) -> Option<(u8, u8, u8)> {
    if name == "black"@ {
        Some((0u8, 0u8, 0u8))
    } else if name == "white"@ {
        Some((15u8, 15u8, 15u8))
    } else if name == "red"@ {
        Some((15u8, 0u8, 0u8))
    } else if name == "yellow"@ {
        Some((15u8, 15u8, 0u8))
    } else if name == "green"@ {
        Some((0u8, 15u8, 0u8))
    } else if name == "cyan"@ {
        Some((0u8, 15u8, 15u8))
    } else if name == "blue"@ {
        Some((0u8, 0u8, 15u8))
    } else if name == "magenta"@ {
        Some((15u8, 0u8, 15u8))
    } else {
        None
    }
}

/// The colour that a search for [`TRIPLE`] stands for: blue where nothing
/// matched, the three numbers where each is an 8-bit number, and none where
/// one of them is not.
pub open spec fn triple_of(caps: Option<Seq<Option<Seq<char>>>>) -> Option<(u8, u8, u8)> {
    match caps {
        Some(groups) => if groups.len() == 4 {
            match (channel(groups[1]), channel(groups[2]), channel(groups[3])) {
                (Some(red), Some(green), Some(blue)) => Some((red, green, blue)),
                _ => None,
            }
        } else {
            Some((0u8, 0u8, 15u8))
        },
        None => Some((0u8, 0u8, 15u8)),
    }
}

/// The colour that `input` asks for: that of its name, if it is one in
/// lower case, else that of the first three numbers in it.
pub open spec fn colour_asked(input: Seq<char>) -> Option<(u8, u8, u8)> {
    let lower = lowercase_of(input);
    match named_colour(lower) {
        Some(rgb) => Some(rgb),
        None => triple_of(regex_captures(TRIPLE@, lower)),
    }
}

/// The colour that a name stands for.
pub fn colour_by_name(name: &str) -> (rgb: Option<(u8, u8, u8)>)
    ensures
        rgb == named_colour(name@),
{
    let name: String = name.to_owned();
    if name == "black".to_owned() {
        Some((0, 0, 0))
    } else if name == "white".to_owned() {
        Some((15, 15, 15))
    } else if name == "red".to_owned() {
        Some((15, 0, 0))
    } else if name == "yellow".to_owned() {
        Some((15, 15, 0))
    } else if name == "green".to_owned() {
        Some((0, 15, 0))
    } else if name == "cyan".to_owned() {
        Some((0, 15, 15))
    } else if name == "blue".to_owned() {
        Some((0, 0, 15))
    } else if name == "magenta".to_owned() {
        Some((15, 0, 15))
    } else {
        None
    }
}

/// The colour that a search for [`TRIPLE`] stands for.
pub fn colour_from_triple(groups: &Option<Vec<Option<String>>>) -> (rgb: Option<(u8, u8, u8)>)
    ensures
        rgb == triple_of(groups.deep_view()),
{
    let count: usize = match groups {
        Some(found) => found.len(),
        None => 0,
    };
    if count != 4 {
        return Some((0, 0, 15));
    }
    let red = match group_text(groups, 1) {
        Some(digits) => parse_u8(digits),
        None => None,
    };
    let green = match group_text(groups, 2) {
        Some(digits) => parse_u8(digits),
        None => None,
    };
    let blue = match group_text(groups, 3) {
        Some(digits) => parse_u8(digits),
        None => None,
    };
    match (red, green, blue) {
        (Some(red), Some(green), Some(blue)) => Some((red, green, blue)),
        _ => None,
    }
}

/// The colour that `input` asks for: a named colour, or three numbers, or
/// blue where it is neither. `None` where one of the numbers is more than
/// 255.
pub fn parse_rgb_string(input: &str) -> (rgb: Option<(u8, u8, u8)>)
    ensures
        rgb == colour_asked(input@),
{
    let lower = lowercase(input);
    match colour_by_name(lower.as_str()) {
        Some(rgb) => Some(rgb),
        None => {
            let groups = captures(TRIPLE, lower.as_str());
            colour_from_triple(&groups)
        },
    }
}

/// What is to be done about a request to change the colour of a zone.
#[derive(Debug)]
pub enum ZoneUpdate {
    /// The zone is there: this is to be written.
    Write(SysWrite),
    /// The machine has lighting zones, but not this one.
    NoSuchZone,
    /// The machine has no lighting at all.
    NoUnit,
    /// The colour asked for has a number above 255.
    OutOfRange,
    /// The state of the zones could not be read.
    Failed(std::io::Error),
}

/// What is to be done about a request to give `zone` the colour that `input`
/// asks for, on a machine whose zones were found to be `leds`.
///
/// The colour is written only where the platform exists and has the zone.
/// The input is not looked at before that is known.
pub fn set_led_zone_rgb(
    aw: &Alienware,
    zone: Zone,
    input: &str,
    leds: Result<RGBZones, std::io::Error>,
) -> (update: ZoneUpdate)
    ensures
        match leds {
            Err(error) => update == ZoneUpdate::Failed(error),
            Ok(state) => if !state.exists {
                update is NoUnit
            } else if !state.zones@.contains_key(zone) {
                update is NoSuchZone
            } else {
                match colour_asked(input@) {
                    None => update is OutOfRange,
                    Some(rgb) => update matches ZoneUpdate::Write(write) && write.file
                        == SysPath::RgbZone(zone) && write.contents@ == hex_colour(
                        rgb.0,
                        rgb.1,
                        rgb.2,
                    ),
                }
            },
        },
{
    match leds {
        Err(error) => ZoneUpdate::Failed(error),
        Ok(state) => {
            if !state.exists {
                ZoneUpdate::NoUnit
            } else if !state.zones.contains_key(&zone) {
                ZoneUpdate::NoSuchZone
            } else {
                match parse_rgb_string(input) {
                    None => ZoneUpdate::OutOfRange,
                    Some((red, green, blue)) => ZoneUpdate::Write(
                        aw.set_rgb_zone(zone, red, green, blue),
                    ),
                }
            }
        },
    }
}

} // verus!
