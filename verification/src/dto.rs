//! The wire-facing shapes that are the library's own: the event published
//! after a creation, and the query parameter selecting a category.

use vstd::prelude::*;

use crate::model::{Planet, PlanetType};

verus! {

/// The lightweight event published on the fixed channel after a successful
/// creation: the new record's identifier, name and category.
pub struct PlanetMessage {
    pub id: String,
    pub name: String,
    pub planet_type: PlanetType,
}

impl View for PlanetMessage {
    type V = PlanetMessageV;

    open spec fn view(&self) -> PlanetMessageV {
        PlanetMessageV { id: self.id@, name: self.name@, planet_type: self.planet_type }
    }
}

/// The mathematical shape of a `PlanetMessage`.
pub ghost struct PlanetMessageV {
    pub id: Seq<char>,
    pub name: Seq<char>,
    pub planet_type: PlanetType,
}

impl PlanetMessage {
    /// The event announcing `planet`, which must already carry its
    /// store-assigned identifier.
    pub fn from(planet: &Planet) -> (message: Self)
        requires
            planet.id is Some,
        ensures
            message@ == (PlanetMessageV {
                id: planet@.id->Some_0,
                name: planet@.name,
                planet_type: planet@.planet_type,
            }),
    {
        let id = match &planet.id {
            Some(id) => String::from_str(id.as_str()),
            None => String::new(),
        };
        PlanetMessage {
            id,
            name: String::from_str(planet.name.as_str()),
            planet_type: planet.planet_type,
        }
    }
}

/// The optional category filter a listing request carries.
pub struct PlanetTypeQueryParam {
    pub planet_type: Option<PlanetType>,
}

} // verus!
