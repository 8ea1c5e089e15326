//! Step-by-step construction of rooms.

use crate::data::{Exit, Room};
use vstd::prelude::*;
use vstd::string::*;

verus! {

/// Collects the parts of a [`Room`]; the name and the descriptions are
/// mandatory, actions and exits are optional.
pub struct RoomBuilder {
    pub name: Option<String>,
    pub descriptions: Option<Vec<(String, String)>>,
    pub actions: Option<Vec<String>>,
    pub exits: Option<Vec<Exit>>,
}

/// The message `build` fails with when no name was given.
pub open spec fn missing_name() -> Seq<char> {
    "Room name is required"@
}

/// The message `build` fails with when a name but no description was given.
pub open spec fn missing_description() -> Seq<char> {
    "Room description is required"@
}

impl RoomBuilder {
    /// A builder with nothing set.
    pub fn new() -> (b: Self)
        ensures
            b.name is None,
            b.descriptions is None,
            b.actions is None,
            b.exits is None,
    {
        Self { name: None, descriptions: None, actions: None, exits: None }
    }

    /// Sets the room's name, replacing an earlier one.
    pub fn name(self, name: &str) -> (b: Self)
        ensures
            b.name is Some,
            b.name->0@ == name@,
            b.descriptions == self.descriptions,
            b.actions == self.actions,
            b.exits == self.exits,
    {
        let mut b = self;
        b.name = Some(String::from_str(name));
        b
    }

    /// Sets the room's descriptions, replacing earlier ones.
    pub fn description(self, description: Vec<(String, String)>) -> (b: Self)
        ensures
            b.name == self.name,
            b.descriptions == Some(description),
            b.actions == self.actions,
            b.exits == self.exits,
    {
        let mut b = self;
        b.descriptions = Some(description);
        b
    }

    /// Sets the room's actions, replacing earlier ones.
    pub fn actions(self, actions: Vec<String>) -> (b: Self)
        ensures
            b.name == self.name,
            b.descriptions == self.descriptions,
            b.actions == Some(actions),
            b.exits == self.exits,
    {
        let mut b = self;
        b.actions = Some(actions);
        b
    }

    /// Sets the room's exits, replacing earlier ones.
    pub fn exits(self, exit: Vec<Exit>) -> (b: Self)
        ensures
            b.name == self.name,
            b.descriptions == self.descriptions,
            b.actions == self.actions,
            b.exits == Some(exit),
    {
        let mut b = self;
        b.exits = Some(exit);
        b
    }

    /// Builds the room. Fails when the name is missing, and otherwise when
    /// the descriptions are missing; succeeds in every other case with exactly
    /// the parts that were set.
    pub fn build(self) -> (r: Result<Room, &'static str>)
        ensures
            self.name is None ==> r is Err && r->Err_0@ == missing_name(),
            self.name is Some && self.descriptions is None ==> r is Err && r->Err_0@
                == missing_description(),
            self.name is Some && self.descriptions is Some ==> r is Ok && r->Ok_0.name
                == self.name->0 && r->Ok_0.descriptions == self.descriptions->0
                && r->Ok_0.actions == self.actions && r->Ok_0.exits == self.exits,
    {
        let name = match self.name {
            Some(n) => n,
            None => {
                return Err("Room name is required");
            },
        };
        let descriptions = match self.descriptions {
            Some(d) => d,
            None => {
                return Err("Room description is required");
            },
        };
        Ok(Room { name, descriptions, actions: self.actions, exits: self.exits })
    }
}

} // verus!
