//! The three lighting zones of the chassis and the colours they show.

use vstd::prelude::*;

verus! {

/// The lighting zones: the head button and the strips on either side.
#[derive(Clone, Copy, Debug, PartialEq, Eq, Hash, Structural)]
pub enum Zone {
    Head,
    Left,
    Right,
}

impl Zone {
    /// The name shown for this zone.
    pub open spec fn name(self) -> Seq<char> {
        match self {
            Zone::Head => "head"@,
            Zone::Left => "left"@,
            Zone::Right => "right"@,
        }
    }

    /// The name shown for this zone, in lower case.
    pub fn as_str(&self) -> (name: &'static str)
        ensures
            name@ == self.name(),
    {
        match self {
            Zone::Head => "head",
            Zone::Left => "left",
            Zone::Right => "right",
        }
    }

    /// The text shown for this zone: its name.
    pub fn to_string(&self) -> (text: String)
        ensures
            text@ == self.name(),
    {
        self.as_str().to_owned()
    }
}

/// The colour of one zone. The driver uses 0 to 15 for each channel; any
/// 8-bit value is carried as it is.
#[derive(Clone, Copy, Debug, PartialEq, Eq, Structural)]
pub struct RGBZone {
    pub zone: Zone,
    pub red: u8,
    pub green: u8,
    pub blue: u8,
}

/// A map from zones to their colours: one slot for each zone, empty where
/// the zone has no entry.
#[derive(Clone, Copy, Debug, PartialEq, Eq)]
pub struct ZoneMap {
    pub head: Option<RGBZone>,
    pub left: Option<RGBZone>,
    pub right: Option<RGBZone>,
}

impl View for ZoneMap {
    type V = Map<Zone, RGBZone>;

    open spec fn view(&self) -> Map<Zone, RGBZone> {
        Map::new(|zone: Zone| self.slot(zone) is Some, |zone: Zone| self.slot(zone)->0)
    }
}

/// The entries of a map of zones in the order head, left, right.
pub open spec fn in_zone_order(zones: Map<Zone, RGBZone>) -> Seq<RGBZone> {
    let head = if zones.contains_key(Zone::Head) {
        seq![zones[Zone::Head]]
    } else {
        seq![]
    };
    let left = if zones.contains_key(Zone::Left) {
        seq![zones[Zone::Left]]
    } else {
        seq![]
    };
    let right = if zones.contains_key(Zone::Right) {
        seq![zones[Zone::Right]]
    } else {
        seq![]
    };
    head + left + right
}

impl ZoneMap {
    /// What the slot of `zone` holds.
    pub open spec fn slot(self, zone: Zone) -> Option<RGBZone> {
        match zone {
            Zone::Head => self.head,
            Zone::Left => self.left,
            Zone::Right => self.right,
        }
    }

    /// The map with no entry.
    pub open spec fn empty() -> ZoneMap {
        ZoneMap { head: None, left: None, right: None }
    }

    /// This map with `colour` under `zone`.
    pub open spec fn with(self, zone: Zone, colour: RGBZone) -> ZoneMap {
        match zone {
            Zone::Head => ZoneMap { head: Some(colour), ..self },
            Zone::Left => ZoneMap { left: Some(colour), ..self },
            Zone::Right => ZoneMap { right: Some(colour), ..self },
        }
    }

    /// `empty` and `with` are the empty map and `insert` of the view.
    pub proof fn lemma_with(self, zone: Zone, colour: RGBZone)
        ensures
            ZoneMap::empty()@ == Map::<Zone, RGBZone>::empty(),
            self.with(zone, colour)@ == self@.insert(zone, colour),
    {
        assert(ZoneMap::empty()@ =~= Map::<Zone, RGBZone>::empty());
        assert forall|z: Zone| #[trigger]
            self.with(zone, colour)@.contains_key(z) == self@.insert(zone, colour).contains_key(
                z,
            ) by {
            assert(self.with(zone, colour)@.contains_key(z) == (self.with(zone, colour).slot(z)
                is Some));
            assert(self@.contains_key(z) == (self.slot(z) is Some));
        }
        assert(self.with(zone, colour)@ =~= self@.insert(zone, colour));
    }

    /// Two maps with the same entries are the same map.
    pub proof fn lemma_view_injective(self, other: ZoneMap)
        requires
            self@ == other@,
        ensures
            self == other,
    {
        assert forall|z: Zone| self.slot(z) == other.slot(z) by {
            assert(self@.contains_key(z) == (self.slot(z) is Some));
            assert(other@.contains_key(z) == (other.slot(z) is Some));
            if self.slot(z) is Some {
                assert(self@[z] == self.slot(z)->0);
                assert(other@[z] == other.slot(z)->0);
            }
        }
        assert(self.slot(Zone::Head) == other.slot(Zone::Head));
        assert(self.slot(Zone::Left) == other.slot(Zone::Left));
        assert(self.slot(Zone::Right) == other.slot(Zone::Right));
    }

    /// The number of slots that are filled is the number of keys of the view.
    proof fn lemma_len(self)
        ensures
            self@.dom().finite(),
            self@.len() == (if self.head is Some {
                1nat
            } else {
                0nat
            }) + (if self.left is Some {
                1nat
            } else {
                0nat
            }) + (if self.right is Some {
                1nat
            } else {
                0nat
            }),
    {
        let none = Set::<Zone>::empty();
        let head = if self.head is Some {
            none.insert(Zone::Head)
        } else {
            none
        };
        let left = if self.left is Some {
            head.insert(Zone::Left)
        } else {
            head
        };
        let right = if self.right is Some {
            left.insert(Zone::Right)
        } else {
            left
        };
        assert forall|zone: Zone| self@.dom().contains(zone) == right.contains(zone) by {
            assert(self@.dom().contains(zone) == (self.slot(zone) is Some));
        }
        assert(self@.dom() =~= right);
    }

    /// A map with no entry.
    pub fn new() -> (zones: ZoneMap)
        ensures
            zones == ZoneMap::empty(),
            zones@ == Map::<Zone, RGBZone>::empty(),
    {
        let zones = ZoneMap { head: None, left: None, right: None };
        assert(zones@ =~= Map::<Zone, RGBZone>::empty());
        zones
    }

    /// Puts `colour` under `zone` and returns what was there before.
    pub fn insert(&mut self, zone: Zone, colour: RGBZone) -> (before: Option<RGBZone>)
        ensures
            *final(self) == old(self).with(zone, colour),
            final(self)@ == old(self)@.insert(zone, colour),
            before == (if old(self)@.contains_key(zone) {
                Some(old(self)@[zone])
            } else {
                None
            }),
    {
        let before = match zone {
            Zone::Head => self.head,
            Zone::Left => self.left,
            Zone::Right => self.right,
        };
        match zone {
            Zone::Head => {
                self.head = Some(colour);
            },
            Zone::Left => {
                self.left = Some(colour);
            },
            Zone::Right => {
                self.right = Some(colour);
            },
        }
        proof {
            old(self).lemma_with(zone, colour);
        }
        before
    }

    /// The colour under `zone`, if there is one.
    pub fn get(&self, zone: &Zone) -> (colour: Option<&RGBZone>)
        ensures
            colour == (if self@.contains_key(*zone) {
                Some(&self@[*zone])
            } else {
                None
            }),
    {
        match zone {
            Zone::Head => self.head.as_ref(),
            Zone::Left => self.left.as_ref(),
            Zone::Right => self.right.as_ref(),
        }
    }

    /// Whether there is a colour under `zone`.
    pub fn contains_key(&self, zone: &Zone) -> (found: bool)
        ensures
            found == self@.contains_key(*zone),
    {
        match zone {
            Zone::Head => self.head.is_some(),
            Zone::Left => self.left.is_some(),
            Zone::Right => self.right.is_some(),
        }
    }

    /// The number of entries.
    pub fn len(&self) -> (count: usize)
        ensures
            self@.dom().finite(),
            count == self@.len(),
            count <= 3,
    {
        proof {
            self.lemma_len();
        }
        let mut count: usize = 0;
        if self.head.is_some() {
            count = count + 1;
        }
        if self.left.is_some() {
            count = count + 1;
        }
        if self.right.is_some() {
            count = count + 1;
        }
        count
    }

    /// Whether there is no entry.
    pub fn is_empty(&self) -> (empty: bool)
        ensures
            empty == (self@ == Map::<Zone, RGBZone>::empty()),
    {
        let empty = self.head.is_none() && self.left.is_none() && self.right.is_none();
        proof {
            if empty {
                assert(self@ =~= Map::<Zone, RGBZone>::empty());
            } else {
                let zone = if self.head is Some {
                    Zone::Head
                } else if self.left is Some {
                    Zone::Left
                } else {
                    Zone::Right
                };
                assert(self@.contains_key(zone));
            }
        }
        empty
    }

    /// The colours, in the order head, left, right.
    pub fn values(&self) -> (colours: Vec<RGBZone>)
        ensures
            colours@ == in_zone_order(self@),
    {
        let mut colours: Vec<RGBZone> = Vec::new();
        if let Some(colour) = self.head {
            colours.push(colour);
        }
        if let Some(colour) = self.left {
            colours.push(colour);
        }
        if let Some(colour) = self.right {
            colours.push(colour);
        }
        proof {
            assert(self@.contains_key(Zone::Head) == (self.slot(Zone::Head) is Some));
            assert(self@.contains_key(Zone::Left) == (self.slot(Zone::Left) is Some));
            assert(self@.contains_key(Zone::Right) == (self.slot(Zone::Right) is Some));
            assert(colours@ =~= in_zone_order(self@));
        }
        colours
    }
}

impl Default for ZoneMap {
    fn default() -> (zones: ZoneMap)
        ensures
            zones == ZoneMap::empty(),
    {
        ZoneMap::new()
    }
}

/// Setup of all of the lighting zones.
///
/// `exists` is false when the platform itself is absent. A zone without an
/// entry in `zones` is a zone that the platform does not have.
#[derive(Clone, Copy, Debug, PartialEq, Eq)]
pub struct RGBZones {
    pub zones: ZoneMap,
    pub exists: bool,
}

impl RGBZones {
    /// What is reported when the platform is absent.
    pub open spec fn absent() -> RGBZones {
        RGBZones { zones: ZoneMap::empty(), exists: false }
    }

    /// What is reported when the platform is there but has no lighting zones.
    pub open spec fn without_zones() -> RGBZones {
        RGBZones { zones: ZoneMap::empty(), exists: true }
    }
}

impl Default for RGBZones {
    fn default() -> (state: RGBZones)
        ensures
            state == RGBZones::absent(),
    {
        RGBZones { zones: ZoneMap::new(), exists: false }
    }
}

} // verus!
