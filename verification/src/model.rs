//! The catalogue's records and identities, held as plain values.
//!
//! The durable store assigns record identifiers; they travel here as the
//! 24-character hexadecimal text the store prints them as. The mean radius is
//! kept in metres and a landing date in milliseconds since the Unix epoch, so
//! that every field is exact.

use vstd::prelude::*;

verus! {

/// Access level stored with an identity. The level is a flat category, not a
/// hierarchy: only exact equality to `ReadWrite` authorizes a mutation.
#[derive(Clone, Copy, Debug, PartialEq, Eq, Structural)]
pub enum AccessType {
    NoAccess,
    ReadOnly,
    ReadWrite,
}

impl AccessType {
    /// The level's name, as it is written in the store and in log lines.
    pub fn name(&self) -> (s: &'static str)
        ensures
            s@ == spec_access_type_name(*self),
    {
        match self {
            AccessType::NoAccess => "None",
            AccessType::ReadOnly => "ReadOnly",
            AccessType::ReadWrite => "ReadWrite",
        }
    }
}

/// The name of an access level.
pub open spec fn spec_access_type_name(a: AccessType) -> Seq<char> {
    match a {
        AccessType::NoAccess => "None"@,
        AccessType::ReadOnly => "ReadOnly"@,
        AccessType::ReadWrite => "ReadWrite"@,
    }
}

/// A stored identity: a password hash in PHC string form, and an access level.
pub struct User {
    pub password: String,
    pub access: AccessType,
}

impl View for User {
    type V = UserV;

    open spec fn view(&self) -> UserV {
        UserV { password: self.password@, access: self.access }
    }
}

/// The mathematical shape of a `User`.
pub ghost struct UserV {
    pub password: Seq<char>,
    pub access: AccessType,
}

/// The closed set of planet categories.
#[derive(Clone, Copy, Debug, PartialEq, Eq, Structural)]
pub enum PlanetType {
    TerrestrialPlanet,
    GasGiant,
    IceGiant,
    DwarfPlanet,
}

impl PlanetType {
    /// The category's name as it is written over the wire and in store filters.
    pub fn name(&self) -> (s: &'static str)
        ensures
            s@ == spec_planet_type_name(*self),
    {
        match self {
            PlanetType::TerrestrialPlanet => "TerrestrialPlanet",
            PlanetType::GasGiant => "GasGiant",
            PlanetType::IceGiant => "IceGiant",
            PlanetType::DwarfPlanet => "DwarfPlanet",
        }
    }
}

/// The name of a planet category.
pub open spec fn spec_planet_type_name(t: PlanetType) -> Seq<char> {
    match t {
        PlanetType::TerrestrialPlanet => "TerrestrialPlanet"@,
        PlanetType::GasGiant => "GasGiant"@,
        PlanetType::IceGiant => "IceGiant"@,
        PlanetType::DwarfPlanet => "DwarfPlanet"@,
    }
}

/// A satellite of a planet. The landing date, where one is recorded, is in
/// milliseconds since the Unix epoch.
pub struct Satellite {
    pub name: String,
    pub first_spacecraft_landing_date: Option<i64>,
}

impl View for Satellite {
    type V = SatelliteV;

    open spec fn view(&self) -> SatelliteV {
        SatelliteV {
            name: self.name@,
            first_spacecraft_landing_date: match self.first_spacecraft_landing_date {
                Some(millis) => Some(millis as int),
                None => None,
            },
        }
    }
}

/// The mathematical shape of a `Satellite`.
pub ghost struct SatelliteV {
    pub name: Seq<char>,
    pub first_spacecraft_landing_date: Option<int>,
}

/// A catalogue record. The identifier is assigned by the durable store at
/// creation and immutable afterwards; a record that has not been stored yet
/// carries none. The mean radius is in metres.
pub struct Planet {
    pub id: Option<String>,
    pub name: String,
    pub planet_type: PlanetType,
    pub mean_radius: u64,
    pub satellites: Option<Vec<Satellite>>,
}

impl View for Planet {
    type V = PlanetV;

    open spec fn view(&self) -> PlanetV {
        PlanetV {
            id: match self.id {
                Some(ref id) => Some(id@),
                None => None,
            },
            name: self.name@,
            planet_type: self.planet_type,
            mean_radius: self.mean_radius as int,
            satellites: match self.satellites {
                Some(ref sats) => Some(sats@.map_values(|s: Satellite| s@)),
                None => None,
            },
        }
    }
}

/// The mathematical shape of a `Planet`.
pub ghost struct PlanetV {
    pub id: Option<Seq<char>>,
    pub name: Seq<char>,
    pub planet_type: PlanetType,
    pub mean_radius: int,
    pub satellites: Option<Seq<SatelliteV>>,
}

/// Whether `id` has the shape of a store-assigned record identifier:
/// exactly 24 hexadecimal characters.
pub open spec fn spec_is_record_id(id: Seq<char>) -> bool {
    &&& id.len() == 24
    &&& forall|i: int| 0 <= i < id.len() ==> spec_is_hex_digit(#[trigger] id[i])
}

/// Whether `c` is a hexadecimal digit, either case.
pub open spec fn spec_is_hex_digit(c: char) -> bool {
    ('0' <= c && c <= '9') || ('a' <= c && c <= 'f') || ('A' <= c && c <= 'F')
}

/// Checks that `id` has the shape of a store-assigned record identifier.
pub fn is_valid_record_id(id: &str) -> (ok: bool)
    ensures
        ok == spec_is_record_id(id@),
{
    let len = id.unicode_len();
    if len != 24 {
        return false;
    }
    let mut i: usize = 0;
    while i < 24
        invariant
            i <= 24,
            id@.len() == 24,
            forall|j: int| 0 <= j < i ==> spec_is_hex_digit(#[trigger] id@[j]),
        decreases 24 - i,
    {
        let c = id.get_char(i);
        let hex = ('0' <= c && c <= '9') || ('a' <= c && c <= 'f') || ('A' <= c && c <= 'F');
        if !hex {
            return false;
        }
        i = i + 1;
    }
    true
}

} // verus!
