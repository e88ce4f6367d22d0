//! Error values returned by fallible world operations.

use vstd::prelude::*;
use vstd::string::StringExecFns;

verus! {

/// The standard library's I/O error, carried through unchanged.
#[verifier::external_type_specification]
#[verifier::external_body]
pub struct ExIoError(std::io::Error);

/// The result type of every fallible operation of the engine.
pub type SimutronResult<T> = Result<T, Box<SimutronError>>;

#[derive(Debug)]
pub enum SimutronError {
    /// An expected rule violation that prevented the operation.
    Runtime(String),
    /// A low-level failure passed on from a collaborator.
    Generic(std::io::Error),
}

/// The rules whose violation the engine reports.
#[derive(Clone, Copy, Debug, PartialEq, Eq)]
pub enum Violation {
    /// The entity carries no creature component.
    NotACreature,
    /// The entity carries no position component.
    MissingPosition,
    /// The entity carries no stat sheet.
    MissingSheet,
    /// A position names no map.
    NotOnAMap,
    /// A position names a map that is not registered.
    MapNotFound,
    /// A position lies outside the bounds of its map.
    OutOfBounds,
    /// A step of a path is not one tile away from the previous one.
    NotAdjacent,
    /// The entity carries no prop component.
    PropNotFound,
    /// The entity carries no health component.
    MissingHealth,
    /// The entity carries no inventory component.
    MissingInventory,
    /// The inventory does not hold the item.
    ItemNotInInventory,
    /// The item carries no prop component.
    ItemNotFound,
}

impl Violation {
    /// The message that a runtime error for this violation carries.
    pub open spec fn text(self) -> Seq<char> {
        match self {
            Violation::NotACreature => "Entity is not a creature."@,
            Violation::MissingPosition => "Entity has no position component."@,
            Violation::MissingSheet => "Entity has no creature sheet component."@,
            Violation::NotOnAMap => "Position is not on a map."@,
            Violation::MapNotFound => "Map not found for position."@,
            Violation::OutOfBounds => "Position is out of map bounds."@,
            Violation::NotAdjacent => "Path step is not adjacent to the previous position."@,
            Violation::PropNotFound => "Prop not found in world."@,
            Violation::MissingHealth => "Prop has no health component."@,
            Violation::MissingInventory => "Entity has no inventory component."@,
            Violation::ItemNotInInventory => "Item not found in inventory."@,
            Violation::ItemNotFound => "Item not found in world."@,
        }
    }

    pub fn message(&self) -> (s: String)
        ensures
            s@ == self.text(),
    {
        match self {
            Violation::NotACreature => "Entity is not a creature.".to_string(),
            Violation::MissingPosition => "Entity has no position component.".to_string(),
            Violation::MissingSheet => "Entity has no creature sheet component.".to_string(),
            Violation::NotOnAMap => "Position is not on a map.".to_string(),
            Violation::MapNotFound => "Map not found for position.".to_string(),
            Violation::OutOfBounds => "Position is out of map bounds.".to_string(),
            Violation::NotAdjacent => "Path step is not adjacent to the previous position.".to_string(),
            Violation::PropNotFound => "Prop not found in world.".to_string(),
            Violation::MissingHealth => "Prop has no health component.".to_string(),
            Violation::MissingInventory => "Entity has no inventory component.".to_string(),
            Violation::ItemNotInInventory => "Item not found in inventory.".to_string(),
            Violation::ItemNotFound => "Item not found in world.".to_string(),
        }
    }
}

impl SimutronError {
    /// Whether this error is the runtime error that reports `violation`.
    pub open spec fn reports(self, violation: Violation) -> bool {
        match self {
            SimutronError::Runtime(message) => message@ == violation.text(),
            SimutronError::Generic(_) => false,
        }
    }

    /// The text shown to a user for this error: the kind of the error,
    /// then what it carries.
    pub fn to_text(&self) -> (s: String)
        ensures
            match *self {
                SimutronError::Runtime(message) => s@ == "Runtime Error: "@ + message@,
                SimutronError::Generic(_) => "Uncaught Error: "@.is_prefix_of(s@),
            },
    {
        match self {
            SimutronError::Runtime(message) => "Runtime Error: ".to_string().concat(
                message.as_str(),
            ),
            SimutronError::Generic(error) => {
                let detail = error.to_string();
                "Uncaught Error: ".to_string().concat(detail.as_str())
            },
        }
    }
}

/// Builds the boxed runtime error that reports `violation`.
pub fn runtime_error<T>(violation: Violation) -> (r: SimutronResult<T>)
    ensures
        failed_with(r, violation),
{
    Err(Box::new(SimutronError::Runtime(violation.message())))
}

/// Whether `r` is the runtime error that reports `violation`.
pub open spec fn failed_with<T>(r: SimutronResult<T>, violation: Violation) -> bool {
    match r {
        Ok(_) => false,
        Err(e) => (*e).reports(violation),
    }
}

impl From<std::io::Error> for SimutronError {
    fn from(error: std::io::Error) -> (r: Self) {
        SimutronError::Generic(error)
    }
}

impl vstd::std_specs::convert::FromSpecImpl<std::io::Error> for SimutronError {
    open spec fn obeys_from_spec() -> bool {
        true
    }

    open spec fn from_spec(error: std::io::Error) -> Self {
        SimutronError::Generic(error)
    }
}

} // verus!
