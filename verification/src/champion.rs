//! Champion records, their statistics and the directory that holds them.

pub mod champdir;
pub mod champion;
pub mod champstats;
pub mod diagnostic;
pub mod key;
pub mod rawstats;
pub mod specialcases;

use vstd::prelude::*;

verus! {

/// The kind of resource that a champion's abilities draw on.
#[derive(Debug, Clone, Copy, PartialEq, Eq, Structural)]
pub enum ResourceType {
    Wind,
    Heat,
    Energy,
    Shield,
    BattleFury,
    Ammo,
    Rage,
    Ferocity,
    DragonFury,
    PrimalFury,
    /// The champion draws on no resource.
    NoResource,
    Moonlight,
    Other,
    Bloodwell,
    Mana,
}

/// The resource type that a source's number stands for; a number that the
/// source does not define stands for no resource.
pub open spec fn resource_type_of(value: i32) -> ResourceType {
    if value == 0 {
        ResourceType::Mana
    } else if value == 1 {
        ResourceType::Energy
    } else if value == 2 {
        ResourceType::NoResource
    } else if value == 3 {
        ResourceType::Shield
    } else if value == 4 {
        ResourceType::BattleFury
    } else if value == 5 {
        ResourceType::DragonFury
    } else if value == 6 {
        ResourceType::PrimalFury
    } else if value == 7 {
        ResourceType::Heat
    } else if value == 8 {
        ResourceType::Rage
    } else if value == 9 {
        ResourceType::Ferocity
    } else if value == 10 {
        ResourceType::Bloodwell
    } else if value == 11 {
        ResourceType::Wind
    } else if value == 12 {
        ResourceType::Other
    } else if value == 13 {
        ResourceType::Moonlight
    } else if value == 14 {
        ResourceType::Ammo
    } else {
        ResourceType::NoResource
    }
}

impl From<i32> for ResourceType {
    fn from(value: i32) -> (kind: ResourceType)
        ensures
            kind == resource_type_of(value),
    {
        match value {
            0 => ResourceType::Mana,
            1 => ResourceType::Energy,
            2 => ResourceType::NoResource,
            3 => ResourceType::Shield,
            4 => ResourceType::BattleFury,
            5 => ResourceType::DragonFury,
            6 => ResourceType::PrimalFury,
            7 => ResourceType::Heat,
            8 => ResourceType::Rage,
            9 => ResourceType::Ferocity,
            10 => ResourceType::Bloodwell,
            11 => ResourceType::Wind,
            12 => ResourceType::Other,
            13 => ResourceType::Moonlight,
            14 => ResourceType::Ammo,
            _ => ResourceType::NoResource,
        }
    }
}

impl vstd::std_specs::convert::FromSpecImpl<i32> for ResourceType {
    open spec fn obeys_from_spec() -> bool {
        true
    }

    open spec fn from_spec(value: i32) -> ResourceType {
        resource_type_of(value)
    }
}

/// The role that a champion plays.
#[derive(Debug, Clone, PartialEq, Eq)]
pub enum Roles {
    Tank,
    Assassin,
    Marksman,
    Mage,
    Support,
    Fighter,
    /// A role that has no variant of its own, under the name the source gave.
    Other(String),
}

/// The role that a name stands for. Names are in lower case; any other name
/// is kept as it is.
pub open spec fn role_of(value: String) -> Roles {
    if value@ == "tank"@ {
        Roles::Tank
    } else if value@ == "assassin"@ {
        Roles::Assassin
    } else if value@ == "marksman"@ {
        Roles::Marksman
    } else if value@ == "mage"@ {
        Roles::Mage
    } else if value@ == "support"@ {
        Roles::Support
    } else if value@ == "fighter"@ {
        Roles::Fighter
    } else {
        Roles::Other(value)
    }
}

impl From<String> for Roles {
    fn from(value: String) -> (role: Roles)
        ensures
            role == role_of(value),
    {
        if value == "tank".to_owned() {
            Roles::Tank
        } else if value == "assassin".to_owned() {
            Roles::Assassin
        } else if value == "marksman".to_owned() {
            Roles::Marksman
        } else if value == "mage".to_owned() {
            Roles::Mage
        } else if value == "support".to_owned() {
            Roles::Support
        } else if value == "fighter".to_owned() {
            Roles::Fighter
        } else {
            Roles::Other(value)
        }
    }
}

impl vstd::std_specs::convert::FromSpecImpl<String> for Roles {
    open spec fn obeys_from_spec() -> bool {
        true
    }

    open spec fn from_spec(value: String) -> Roles {
        role_of(value)
    }
}

} // verus!
