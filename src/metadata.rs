//! A planet's metadata document: its name and its three building levels.

use vstd::prelude::*;

verus! {

/// One numbered attribute of the document: a building and its level.
#[derive(Clone, Debug)]
pub struct Attribute {
    pub trait_type: String,
    pub value: u32,
}

/// The three numbered attributes: solar panel, metal mine, crystal laboratory.
#[derive(Clone, Debug)]
pub struct Attributes {
    pub attribute_0: Attribute,
    pub attribute_1: Attribute,
    pub attribute_2: Attribute,
}

/// The metadata document that a planet's token URI points to.
#[allow(non_snake_case)]
#[derive(Clone, Debug)]
pub struct ResponseApi {
    pub planetNo: String,
    pub coordinate: String,
    pub description: String,
    pub external_url: String,
    pub image: String,
    pub name: String,
    pub attributes: Attributes,
}

/// The three building kinds of a planet.
#[derive(Clone, Copy, Debug, PartialEq, Eq, Structural)]
pub enum BuildingKind {
    Solar,
    Metal,
    Crystal,
}

impl BuildingKind {
    /// The tag that names the building in the game contract's calls.
    pub fn tag(&self) -> (r: char)
        ensures
            r == match *self {
                BuildingKind::Solar => 's',
                BuildingKind::Metal => 'm',
                BuildingKind::Crystal => 'c',
            },
    {
        match self {
            BuildingKind::Solar => 's',
            BuildingKind::Metal => 'm',
            BuildingKind::Crystal => 'c',
        }
    }

    /// The resource index that the game contract uses for what the building produces.
    pub fn resource_index(&self) -> (r: u64)
        ensures
            r == match *self {
                BuildingKind::Solar => 0u64,
                BuildingKind::Metal => 1u64,
                BuildingKind::Crystal => 2u64,
            },
    {
        match self {
            BuildingKind::Solar => 0,
            BuildingKind::Metal => 1,
            BuildingKind::Crystal => 2,
        }
    }
}

impl Attributes {
    /// The current level of a building.
    pub fn level_of(&self, kind: BuildingKind) -> (r: u32)
        ensures
            r == match kind {
                BuildingKind::Solar => self.attribute_0.value,
                BuildingKind::Metal => self.attribute_1.value,
                BuildingKind::Crystal => self.attribute_2.value,
            },
    {
        match kind {
            BuildingKind::Solar => self.attribute_0.value,
            BuildingKind::Metal => self.attribute_1.value,
            BuildingKind::Crystal => self.attribute_2.value,
        }
    }
}

} // verus!
