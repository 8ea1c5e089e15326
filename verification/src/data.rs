//! Plain records of the game world: items, rooms, exits, zones and players.

use vstd::prelude::*;

verus! {

/// Something a player can pick up, use or consume.
pub struct Item {
    pub name: String,
    pub descriptions: Vec<(String, String)>,
    pub usable: bool,
    pub consumable: bool,
    pub level: u8,
    pub value: u32,
}

/// A room addressed by the zone that holds it and its own name.
pub struct Location {
    pub zone_name: String,
    pub room_name: String,
}

/// The four compass directions an exit can be named after.
#[derive(Debug, PartialEq, Eq, Structural)]
pub enum ExitName {
    North,
    South,
    East,
    West,
}

/// A way out of a room, possibly hidden from the player.
pub struct Exit {
    pub name: String,
    pub location: Location,
    pub hidden: bool,
}

/// A room with its descriptions and, optionally, its actions and exits.
pub struct Room {
    pub name: String,
    pub descriptions: Vec<(String, String)>,
    pub actions: Option<Vec<String>>,
    pub exits: Option<Vec<Exit>>,
}

/// A named group of rooms.
pub struct Zone {
    pub name: String,
    pub rooms: Option<Vec<Room>>,
}

/// A player's standing and whereabouts.
pub struct Player {
    pub score: u64,
    pub gold: u64,
    pub location: Location,
    pub description: String,
}

/// Every player and every zone of one game.
pub struct World {
    pub players: Vec<Player>,
    pub zones: Vec<Zone>,
}

impl Default for Item {
    /// An item without a name or descriptions, neither usable nor
    /// consumable, of level and value zero.
    fn default() -> (r: Self)
        ensures
            r.name@.len() == 0,
            r.descriptions@.len() == 0,
            !r.usable,
            !r.consumable,
            r.level == 0,
            r.value == 0,
    {
        Item {
            name: String::new(),
            descriptions: Vec::new(),
            usable: false,
            consumable: false,
            level: 0,
            value: 0,
        }
    }
}

impl Default for Location {
    /// A location whose two names are empty.
    fn default() -> (r: Self)
        ensures
            r.zone_name@.len() == 0,
            r.room_name@.len() == 0,
    {
        Location { zone_name: String::new(), room_name: String::new() }
    }
}

impl Default for Exit {
    /// A visible exit without a name that leads to the default location.
    fn default() -> (r: Self)
        ensures
            r.name@.len() == 0,
            r.location.zone_name@.len() == 0,
            r.location.room_name@.len() == 0,
            !r.hidden,
    {
        Exit { name: String::new(), location: Location::default(), hidden: false }
    }
}

impl Default for Room {
    /// A room without a name, descriptions, actions or exits.
    fn default() -> (r: Self)
        ensures
            r.name@.len() == 0,
            r.descriptions@.len() == 0,
            r.actions is None,
            r.exits is None,
    {
        Room { name: String::new(), descriptions: Vec::new(), actions: None, exits: None }
    }
}

impl Default for Zone {
    /// A zone without a name or rooms.
    fn default() -> (r: Self)
        ensures
            r.name@.len() == 0,
            r.rooms is None,
    {
        Zone { name: String::new(), rooms: None }
    }
}

impl Default for Player {
    /// A player without score, gold or description at the default location.
    fn default() -> (r: Self)
        ensures
            r.score == 0,
            r.gold == 0,
            r.location.zone_name@.len() == 0,
            r.location.room_name@.len() == 0,
            r.description@.len() == 0,
    {
        Player { score: 0, gold: 0, location: Location::default(), description: String::new() }
    }
}

impl Default for World {
    /// A world without players or zones.
    fn default() -> (r: Self)
        ensures
            r.players@.len() == 0,
            r.zones@.len() == 0,
    {
        World { players: Vec::new(), zones: Vec::new() }
    }
}

} // verus!
