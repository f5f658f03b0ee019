use vstd::prelude::*;

use crate::text::str_eq;

verus! {

/// The payload of a physics mod as it stands on the wire, beside its tag.
///
/// A floating-point payload is held as the bit pattern of its `f32`
/// (`f32::to_bits`), so that it can be compared and carried exactly.
#[derive(Debug, Clone, PartialEq, Eq)]
pub enum ModValue {
    /// An `f32`, as its bit pattern
    Float(u32),
    /// An integer
    Int(i32),
    /// A boolean
    Flag(bool),
    /// A string
    Text(String),
}

/// All physics mods to ever exist.
///
/// Every mod carries one value. A floating-point value is held as the bit
/// pattern of its `f32` (`f32::to_bits`).
#[derive(Debug, Clone, PartialEq, Eq)]
pub enum PhysicsMod {
    /// Changes the gravity
    Gravity(u32),
    /// Changes the jump height
    JumpMult(u32),
    /// Changes the jump force
    JumpForce(u32),
    /// Changes the bounce height
    BounceMult(u32),
    /// Changes the scale of the marble
    ScaleMult(u32),
    /// Changes the mass of the marble
    MassMult(u32),
    /// Changes the friction of the marble
    FrictionMult(u32),
    /// Changes the blast jump height
    BlastJumpMult(u32),
    /// Changes the blast push scale
    BlastPushMult(u32),
    /// Changes the blast range
    BlastRangeMult(u32),
    /// Changes the cooldown of the blast
    BlastCooldownMult(u32),
    /// Changes the X roll speed
    RollX(u32),
    /// Changes the Y roll speed
    RollY(u32),
    /// Changes the X air speed
    AirX(u32),
    /// Changes the Y air speed
    AirY(u32),
    /// Whether the marble can blast
    CanBlast(bool),
    /// How many air jumps are allowed
    AirJumps(i32),
    /// Whether no powerups spawn
    NoPowerups(bool),
    /// Whether the level's start and end are swapped
    Reverse(bool),
    /// Whether each checkpoint also spawns a gem
    CheckpointGems(bool),
    /// Disables all gems
    NoGems(bool),
    /// Removes all time travels
    NoTimeTravel(bool),
    /// Replaces the trophy with a gem
    TrophyGem(bool),
    /// Replaces the trophy with an end goal
    TrophyEnd(bool),
    /// Makes the level a boomerang: from the start to the end and back
    Boomerang(bool),
    /// Start with a specific powerup
    StartPowerup(String),
    /// Replaces all powerups with a specific one
    ReplacePowerup(String),
    /// Changes the speed of all platforms
    PlatformSpeed(u32),
    /// Changes the X blast scale
    BlastX(u32),
    /// Changes the Y blast scale
    BlastY(u32),
    /// Changes the X impact
    ImpactX(u32),
    /// Changes the Y impact
    ImpactY(u32),
    /// Whether sounds are used
    UseSounds(bool),
    /// Whether the marble has mega force
    MegaForce(u32),
    /// Enables or disables full shadows
    FullShadow(bool),
    /// Whether the multiplayer spawn offset is enabled
    MPSpawnOffset(bool),
}

/// The wire tag of a physics mod.
pub open spec fn mod_tag(m: PhysicsMod) -> Seq<char> {
    match m {
        PhysicsMod::Gravity(_) => "gravity"@,
        PhysicsMod::JumpMult(_) => "jumpmult"@,
        PhysicsMod::JumpForce(_) => "jumpforce"@,
        PhysicsMod::BounceMult(_) => "bouncemult"@,
        PhysicsMod::ScaleMult(_) => "scalemult"@,
        PhysicsMod::MassMult(_) => "massmult"@,
        PhysicsMod::FrictionMult(_) => "frictionmult"@,
        PhysicsMod::BlastJumpMult(_) => "blastjumpmult"@,
        PhysicsMod::BlastPushMult(_) => "blastpushmult"@,
        PhysicsMod::BlastRangeMult(_) => "blastrangemult"@,
        PhysicsMod::BlastCooldownMult(_) => "blastcooldownmult"@,
        PhysicsMod::RollX(_) => "rollX"@,
        PhysicsMod::RollY(_) => "rollY"@,
        PhysicsMod::AirX(_) => "airX"@,
        PhysicsMod::AirY(_) => "airY"@,
        PhysicsMod::CanBlast(_) => "canblast"@,
        PhysicsMod::AirJumps(_) => "airjumps"@,
        PhysicsMod::NoPowerups(_) => "nopowerups"@,
        PhysicsMod::Reverse(_) => "reverse"@,
        PhysicsMod::CheckpointGems(_) => "checkpointgems"@,
        PhysicsMod::NoGems(_) => "nogems"@,
        PhysicsMod::NoTimeTravel(_) => "notimetravel"@,
        PhysicsMod::TrophyGem(_) => "trophygem"@,
        PhysicsMod::TrophyEnd(_) => "trophyend"@,
        PhysicsMod::Boomerang(_) => "boomerang"@,
        PhysicsMod::StartPowerup(_) => "startpowerup"@,
        PhysicsMod::ReplacePowerup(_) => "replacepowerup"@,
        PhysicsMod::PlatformSpeed(_) => "platformspeed"@,
        PhysicsMod::BlastX(_) => "blastX"@,
        PhysicsMod::BlastY(_) => "blastY"@,
        PhysicsMod::ImpactX(_) => "impX"@,
        PhysicsMod::ImpactY(_) => "impY"@,
        PhysicsMod::UseSounds(_) => "usesounds"@,
        PhysicsMod::MegaForce(_) => "megaforce"@,
        PhysicsMod::FullShadow(_) => "fullshadow"@,
        PhysicsMod::MPSpawnOffset(_) => "mpspawnoffset"@,
    }
}

/// The payload of a physics mod, as it is encoded beside its tag.
pub open spec fn mod_value(m: PhysicsMod) -> ModValue {
    match m {
        PhysicsMod::Gravity(x) => ModValue::Float(x),
        PhysicsMod::JumpMult(x) => ModValue::Float(x),
        PhysicsMod::JumpForce(x) => ModValue::Float(x),
        PhysicsMod::BounceMult(x) => ModValue::Float(x),
        PhysicsMod::ScaleMult(x) => ModValue::Float(x),
        PhysicsMod::MassMult(x) => ModValue::Float(x),
        PhysicsMod::FrictionMult(x) => ModValue::Float(x),
        PhysicsMod::BlastJumpMult(x) => ModValue::Float(x),
        PhysicsMod::BlastPushMult(x) => ModValue::Float(x),
        PhysicsMod::BlastRangeMult(x) => ModValue::Float(x),
        PhysicsMod::BlastCooldownMult(x) => ModValue::Float(x),
        PhysicsMod::RollX(x) => ModValue::Float(x),
        PhysicsMod::RollY(x) => ModValue::Float(x),
        PhysicsMod::AirX(x) => ModValue::Float(x),
        PhysicsMod::AirY(x) => ModValue::Float(x),
        PhysicsMod::CanBlast(x) => ModValue::Flag(x),
        PhysicsMod::AirJumps(x) => ModValue::Int(x),
        PhysicsMod::NoPowerups(x) => ModValue::Flag(x),
        PhysicsMod::Reverse(x) => ModValue::Flag(x),
        PhysicsMod::CheckpointGems(x) => ModValue::Flag(x),
        PhysicsMod::NoGems(x) => ModValue::Flag(x),
        PhysicsMod::NoTimeTravel(x) => ModValue::Flag(x),
        PhysicsMod::TrophyGem(x) => ModValue::Flag(x),
        PhysicsMod::TrophyEnd(x) => ModValue::Flag(x),
        PhysicsMod::Boomerang(x) => ModValue::Flag(x),
        PhysicsMod::StartPowerup(x) => ModValue::Text(x),
        PhysicsMod::ReplacePowerup(x) => ModValue::Text(x),
        PhysicsMod::PlatformSpeed(x) => ModValue::Float(x),
        PhysicsMod::BlastX(x) => ModValue::Float(x),
        PhysicsMod::BlastY(x) => ModValue::Float(x),
        PhysicsMod::ImpactX(x) => ModValue::Float(x),
        PhysicsMod::ImpactY(x) => ModValue::Float(x),
        PhysicsMod::UseSounds(x) => ModValue::Flag(x),
        PhysicsMod::MegaForce(x) => ModValue::Float(x),
        PhysicsMod::FullShadow(x) => ModValue::Flag(x),
        PhysicsMod::MPSpawnOffset(x) => ModValue::Flag(x),
    }
}

/// Whether `tag` is the wire tag of one of the physics mods.
pub open spec fn is_mod_tag(tag: Seq<char>) -> bool {
    tag == "gravity"@
    || tag == "jumpmult"@
    || tag == "jumpforce"@
    || tag == "bouncemult"@
    || tag == "scalemult"@
    || tag == "massmult"@
    || tag == "frictionmult"@
    || tag == "blastjumpmult"@
    || tag == "blastpushmult"@
    || tag == "blastrangemult"@
    || tag == "blastcooldownmult"@
    || tag == "rollX"@
    || tag == "rollY"@
    || tag == "airX"@
    || tag == "airY"@
    || tag == "canblast"@
    || tag == "airjumps"@
    || tag == "nopowerups"@
    || tag == "reverse"@
    || tag == "checkpointgems"@
    || tag == "nogems"@
    || tag == "notimetravel"@
    || tag == "trophygem"@
    || tag == "trophyend"@
    || tag == "boomerang"@
    || tag == "startpowerup"@
    || tag == "replacepowerup"@
    || tag == "platformspeed"@
    || tag == "blastX"@
    || tag == "blastY"@
    || tag == "impX"@
    || tag == "impY"@
    || tag == "usesounds"@
    || tag == "megaforce"@
    || tag == "fullshadow"@
    || tag == "mpspawnoffset"@
}

/// The physics mod that a tag and a payload decode to: `None` for an unknown
/// tag, or for a payload whose type is not the one that the tag carries.
pub open spec fn mod_from(tag: Seq<char>, value: ModValue) -> Option<PhysicsMod> {
    if tag == "gravity"@ {
        match value {
            ModValue::Float(x) => Some(PhysicsMod::Gravity(x)),
            _ => None,
        }
    } else if tag == "jumpmult"@ {
        match value {
            ModValue::Float(x) => Some(PhysicsMod::JumpMult(x)),
            _ => None,
        }
    } else if tag == "jumpforce"@ {
        match value {
            ModValue::Float(x) => Some(PhysicsMod::JumpForce(x)),
            _ => None,
        }
    } else if tag == "bouncemult"@ {
        match value {
            ModValue::Float(x) => Some(PhysicsMod::BounceMult(x)),
            _ => None,
        }
    } else if tag == "scalemult"@ {
        match value {
            ModValue::Float(x) => Some(PhysicsMod::ScaleMult(x)),
            _ => None,
        }
    } else if tag == "massmult"@ {
        match value {
            ModValue::Float(x) => Some(PhysicsMod::MassMult(x)),
            _ => None,
        }
    } else if tag == "frictionmult"@ {
        match value {
            ModValue::Float(x) => Some(PhysicsMod::FrictionMult(x)),
            _ => None,
        }
    } else if tag == "blastjumpmult"@ {
        match value {
            ModValue::Float(x) => Some(PhysicsMod::BlastJumpMult(x)),
            _ => None,
        }
    } else if tag == "blastpushmult"@ {
        match value {
            ModValue::Float(x) => Some(PhysicsMod::BlastPushMult(x)),
            _ => None,
        }
    } else if tag == "blastrangemult"@ {
        match value {
            ModValue::Float(x) => Some(PhysicsMod::BlastRangeMult(x)),
            _ => None,
        }
    } else if tag == "blastcooldownmult"@ {
        match value {
            ModValue::Float(x) => Some(PhysicsMod::BlastCooldownMult(x)),
            _ => None,
        }
    } else if tag == "rollX"@ {
        match value {
            ModValue::Float(x) => Some(PhysicsMod::RollX(x)),
            _ => None,
        }
    } else if tag == "rollY"@ {
        match value {
            ModValue::Float(x) => Some(PhysicsMod::RollY(x)),
            _ => None,
        }
    } else if tag == "airX"@ {
        match value {
            ModValue::Float(x) => Some(PhysicsMod::AirX(x)),
            _ => None,
        }
    } else if tag == "airY"@ {
        match value {
            ModValue::Float(x) => Some(PhysicsMod::AirY(x)),
            _ => None,
        }
    } else if tag == "canblast"@ {
        match value {
            ModValue::Flag(x) => Some(PhysicsMod::CanBlast(x)),
            _ => None,
        }
    } else if tag == "airjumps"@ {
        match value {
            ModValue::Int(x) => Some(PhysicsMod::AirJumps(x)),
            _ => None,
        }
    } else if tag == "nopowerups"@ {
        match value {
            ModValue::Flag(x) => Some(PhysicsMod::NoPowerups(x)),
            _ => None,
        }
    } else if tag == "reverse"@ {
        match value {
            ModValue::Flag(x) => Some(PhysicsMod::Reverse(x)),
            _ => None,
        }
    } else if tag == "checkpointgems"@ {
        match value {
            ModValue::Flag(x) => Some(PhysicsMod::CheckpointGems(x)),
            _ => None,
        }
    } else if tag == "nogems"@ {
        match value {
            ModValue::Flag(x) => Some(PhysicsMod::NoGems(x)),
            _ => None,
        }
    } else if tag == "notimetravel"@ {
        match value {
            ModValue::Flag(x) => Some(PhysicsMod::NoTimeTravel(x)),
            _ => None,
        }
    } else if tag == "trophygem"@ {
        match value {
            ModValue::Flag(x) => Some(PhysicsMod::TrophyGem(x)),
            _ => None,
        }
    } else if tag == "trophyend"@ {
        match value {
            ModValue::Flag(x) => Some(PhysicsMod::TrophyEnd(x)),
            _ => None,
        }
    } else if tag == "boomerang"@ {
        match value {
            ModValue::Flag(x) => Some(PhysicsMod::Boomerang(x)),
            _ => None,
        }
    } else if tag == "startpowerup"@ {
        match value {
            ModValue::Text(x) => Some(PhysicsMod::StartPowerup(x)),
            _ => None,
        }
    } else if tag == "replacepowerup"@ {
        match value {
            ModValue::Text(x) => Some(PhysicsMod::ReplacePowerup(x)),
            _ => None,
        }
    } else if tag == "platformspeed"@ {
        match value {
            ModValue::Float(x) => Some(PhysicsMod::PlatformSpeed(x)),
            _ => None,
        }
    } else if tag == "blastX"@ {
        match value {
            ModValue::Float(x) => Some(PhysicsMod::BlastX(x)),
            _ => None,
        }
    } else if tag == "blastY"@ {
        match value {
            ModValue::Float(x) => Some(PhysicsMod::BlastY(x)),
            _ => None,
        }
    } else if tag == "impX"@ {
        match value {
            ModValue::Float(x) => Some(PhysicsMod::ImpactX(x)),
            _ => None,
        }
    } else if tag == "impY"@ {
        match value {
            ModValue::Float(x) => Some(PhysicsMod::ImpactY(x)),
            _ => None,
        }
    } else if tag == "usesounds"@ {
        match value {
            ModValue::Flag(x) => Some(PhysicsMod::UseSounds(x)),
            _ => None,
        }
    } else if tag == "megaforce"@ {
        match value {
            ModValue::Float(x) => Some(PhysicsMod::MegaForce(x)),
            _ => None,
        }
    } else if tag == "fullshadow"@ {
        match value {
            ModValue::Flag(x) => Some(PhysicsMod::FullShadow(x)),
            _ => None,
        }
    } else if tag == "mpspawnoffset"@ {
        match value {
            ModValue::Flag(x) => Some(PhysicsMod::MPSpawnOffset(x)),
            _ => None,
        }
    } else {
        None
    }
}

/// The display label of a physics mod: the name of the setting that it changes,
/// or, for an on/off mod, its fixed phrase.
pub open spec fn mod_label(m: PhysicsMod) -> Seq<char> {
    match m {
        PhysicsMod::Gravity(_) => "Gravity"@,
        PhysicsMod::JumpMult(_) => "Jump Height"@,
        PhysicsMod::JumpForce(_) => "Jump Force"@,
        PhysicsMod::BounceMult(_) => "Bounce Force"@,
        PhysicsMod::ScaleMult(_) => "Marble Size"@,
        PhysicsMod::MassMult(_) => "Mass"@,
        PhysicsMod::FrictionMult(_) => "Friction Force"@,
        PhysicsMod::BlastJumpMult(_) => "Blast Height"@,
        PhysicsMod::BlastPushMult(_) => "Blast Push"@,
        PhysicsMod::BlastRangeMult(_) => "Blast Range"@,
        PhysicsMod::BlastCooldownMult(_) => "Blast Cooldown"@,
        PhysicsMod::RollX(_) => "Roll Force X"@,
        PhysicsMod::RollY(_) => "Roll Force Y"@,
        PhysicsMod::AirX(_) => "Air Force X"@,
        PhysicsMod::AirY(_) => "Air Force Y"@,
        PhysicsMod::CanBlast(_) => "Blast Available"@,
        PhysicsMod::AirJumps(_) => "Air Jumps"@,
        PhysicsMod::NoPowerups(_) => "No Powerups"@,
        PhysicsMod::Reverse(_) => "Level Reversed"@,
        PhysicsMod::CheckpointGems(_) => "Checkpoints Add Gems"@,
        PhysicsMod::NoGems(_) => "No Gems"@,
        PhysicsMod::NoTimeTravel(_) => "No Time Travels"@,
        PhysicsMod::TrophyGem(_) => "Trophy Adds Gem"@,
        PhysicsMod::TrophyEnd(_) => "Trophy is Goal"@,
        PhysicsMod::Boomerang(_) => "Boomerang"@,
        PhysicsMod::StartPowerup(_) => "Start With"@,
        PhysicsMod::ReplacePowerup(_) => "Replace Powerups"@,
        PhysicsMod::PlatformSpeed(_) => "Platform Speed"@,
        PhysicsMod::BlastX(_) => "Blast X"@,
        PhysicsMod::BlastY(_) => "Blast Y"@,
        PhysicsMod::ImpactX(_) => "Impact X"@,
        PhysicsMod::ImpactY(_) => "Impact Y"@,
        PhysicsMod::UseSounds(_) => "Use Sounds"@,
        PhysicsMod::MegaForce(_) => "Mega Force"@,
        PhysicsMod::FullShadow(_) => "Full Shadow"@,
        PhysicsMod::MPSpawnOffset(_) => "MP Spawn Offset"@,
    }
}

/// Enough of the tags' lengths and characters to tell any two of them apart.
proof fn lemma_tags_differ()
    ensures
        "airX"@.len() == 4,
        "airX"@[0] == 'a',
        "airX"@[3] == 'X',
        "airY"@.len() == 4,
        "airY"@[0] == 'a',
        "airY"@[3] == 'Y',
        "airjumps"@.len() == 8,
        "airjumps"@[0] == 'a',
        "blastX"@.len() == 6,
        "blastX"@[0] == 'b',
        "blastX"@[5] == 'X',
        "blastY"@.len() == 6,
        "blastY"@[0] == 'b',
        "blastY"@[5] == 'Y',
        "blastcooldownmult"@.len() == 17,
        "blastjumpmult"@.len() == 13,
        "blastjumpmult"@[0] == 'b',
        "blastjumpmult"@[5] == 'j',
        "blastpushmult"@.len() == 13,
        "blastpushmult"@[0] == 'b',
        "blastpushmult"@[5] == 'p',
        "blastrangemult"@.len() == 14,
        "blastrangemult"@[0] == 'b',
        "boomerang"@.len() == 9,
        "boomerang"@[0] == 'b',
        "bouncemult"@.len() == 10,
        "bouncemult"@[0] == 'b',
        "canblast"@.len() == 8,
        "canblast"@[0] == 'c',
        "checkpointgems"@.len() == 14,
        "checkpointgems"@[0] == 'c',
        "frictionmult"@.len() == 12,
        "frictionmult"@[0] == 'f',
        "fullshadow"@.len() == 10,
        "fullshadow"@[0] == 'f',
        "gravity"@.len() == 7,
        "gravity"@[0] == 'g',
        "impX"@.len() == 4,
        "impX"@[0] == 'i',
        "impX"@[3] == 'X',
        "impY"@.len() == 4,
        "impY"@[0] == 'i',
        "impY"@[3] == 'Y',
        "jumpforce"@.len() == 9,
        "jumpforce"@[0] == 'j',
        "jumpmult"@.len() == 8,
        "jumpmult"@[0] == 'j',
        "massmult"@.len() == 8,
        "massmult"@[0] == 'm',
        "megaforce"@.len() == 9,
        "megaforce"@[0] == 'm',
        "mpspawnoffset"@.len() == 13,
        "mpspawnoffset"@[0] == 'm',
        "nogems"@.len() == 6,
        "nogems"@[0] == 'n',
        "nopowerups"@.len() == 10,
        "nopowerups"@[0] == 'n',
        "notimetravel"@.len() == 12,
        "notimetravel"@[0] == 'n',
        "platformspeed"@.len() == 13,
        "platformspeed"@[0] == 'p',
        "replacepowerup"@.len() == 14,
        "replacepowerup"@[0] == 'r',
        "reverse"@.len() == 7,
        "reverse"@[0] == 'r',
        "rollX"@.len() == 5,
        "rollX"@[4] == 'X',
        "rollY"@.len() == 5,
        "rollY"@[4] == 'Y',
        "scalemult"@.len() == 9,
        "scalemult"@[0] == 's',
        "startpowerup"@.len() == 12,
        "startpowerup"@[0] == 's',
        "trophyend"@.len() == 9,
        "trophyend"@[0] == 't',
        "trophyend"@[6] == 'e',
        "trophygem"@.len() == 9,
        "trophygem"@[0] == 't',
        "trophygem"@[6] == 'g',
        "usesounds"@.len() == 9,
        "usesounds"@[0] == 'u',
{
    reveal_strlit("gravity");
    reveal_strlit("jumpmult");
    reveal_strlit("jumpforce");
    reveal_strlit("bouncemult");
    reveal_strlit("scalemult");
    reveal_strlit("massmult");
    reveal_strlit("frictionmult");
    reveal_strlit("blastjumpmult");
    reveal_strlit("blastpushmult");
    reveal_strlit("blastrangemult");
    reveal_strlit("blastcooldownmult");
    reveal_strlit("rollX");
    reveal_strlit("rollY");
    reveal_strlit("airX");
    reveal_strlit("airY");
    reveal_strlit("canblast");
    reveal_strlit("airjumps");
    reveal_strlit("nopowerups");
    reveal_strlit("reverse");
    reveal_strlit("checkpointgems");
    reveal_strlit("nogems");
    reveal_strlit("notimetravel");
    reveal_strlit("trophygem");
    reveal_strlit("trophyend");
    reveal_strlit("boomerang");
    reveal_strlit("startpowerup");
    reveal_strlit("replacepowerup");
    reveal_strlit("platformspeed");
    reveal_strlit("blastX");
    reveal_strlit("blastY");
    reveal_strlit("impX");
    reveal_strlit("impY");
    reveal_strlit("usesounds");
    reveal_strlit("megaforce");
    reveal_strlit("fullshadow");
    reveal_strlit("mpspawnoffset");
}

/// Decoding a mod's own tag and payload gives that mod back.
pub proof fn lemma_round_trip(m: PhysicsMod)
    ensures
        mod_from(mod_tag(m), mod_value(m)) == Some(m),
{
    lemma_tags_differ();
}

/// A tag that names no physics mod decodes to nothing, whatever the payload.
pub proof fn lemma_unknown_tag(tag: Seq<char>, value: ModValue)
    requires
        !is_mod_tag(tag),
    ensures
        mod_from(tag, value) is None,
{
}

impl PhysicsMod {
    /// The tag under which this mod is encoded (`"gravity"`, `"rollX"`, ...).
    pub fn tag(&self) -> (r: &'static str)
        ensures
            r@ == mod_tag(*self),
    {
        match self {
            PhysicsMod::Gravity(_) => "gravity",
            PhysicsMod::JumpMult(_) => "jumpmult",
            PhysicsMod::JumpForce(_) => "jumpforce",
            PhysicsMod::BounceMult(_) => "bouncemult",
            PhysicsMod::ScaleMult(_) => "scalemult",
            PhysicsMod::MassMult(_) => "massmult",
            PhysicsMod::FrictionMult(_) => "frictionmult",
            PhysicsMod::BlastJumpMult(_) => "blastjumpmult",
            PhysicsMod::BlastPushMult(_) => "blastpushmult",
            PhysicsMod::BlastRangeMult(_) => "blastrangemult",
            PhysicsMod::BlastCooldownMult(_) => "blastcooldownmult",
            PhysicsMod::RollX(_) => "rollX",
            PhysicsMod::RollY(_) => "rollY",
            PhysicsMod::AirX(_) => "airX",
            PhysicsMod::AirY(_) => "airY",
            PhysicsMod::CanBlast(_) => "canblast",
            PhysicsMod::AirJumps(_) => "airjumps",
            PhysicsMod::NoPowerups(_) => "nopowerups",
            PhysicsMod::Reverse(_) => "reverse",
            PhysicsMod::CheckpointGems(_) => "checkpointgems",
            PhysicsMod::NoGems(_) => "nogems",
            PhysicsMod::NoTimeTravel(_) => "notimetravel",
            PhysicsMod::TrophyGem(_) => "trophygem",
            PhysicsMod::TrophyEnd(_) => "trophyend",
            PhysicsMod::Boomerang(_) => "boomerang",
            PhysicsMod::StartPowerup(_) => "startpowerup",
            PhysicsMod::ReplacePowerup(_) => "replacepowerup",
            PhysicsMod::PlatformSpeed(_) => "platformspeed",
            PhysicsMod::BlastX(_) => "blastX",
            PhysicsMod::BlastY(_) => "blastY",
            PhysicsMod::ImpactX(_) => "impX",
            PhysicsMod::ImpactY(_) => "impY",
            PhysicsMod::UseSounds(_) => "usesounds",
            PhysicsMod::MegaForce(_) => "megaforce",
            PhysicsMod::FullShadow(_) => "fullshadow",
            PhysicsMod::MPSpawnOffset(_) => "mpspawnoffset",
        }
    }

    /// The payload that is encoded beside the tag.
    pub fn value(&self) -> (r: ModValue)
        ensures
            r == mod_value(*self),
    {
        match self {
            PhysicsMod::Gravity(x) => ModValue::Float(*x),
            PhysicsMod::JumpMult(x) => ModValue::Float(*x),
            PhysicsMod::JumpForce(x) => ModValue::Float(*x),
            PhysicsMod::BounceMult(x) => ModValue::Float(*x),
            PhysicsMod::ScaleMult(x) => ModValue::Float(*x),
            PhysicsMod::MassMult(x) => ModValue::Float(*x),
            PhysicsMod::FrictionMult(x) => ModValue::Float(*x),
            PhysicsMod::BlastJumpMult(x) => ModValue::Float(*x),
            PhysicsMod::BlastPushMult(x) => ModValue::Float(*x),
            PhysicsMod::BlastRangeMult(x) => ModValue::Float(*x),
            PhysicsMod::BlastCooldownMult(x) => ModValue::Float(*x),
            PhysicsMod::RollX(x) => ModValue::Float(*x),
            PhysicsMod::RollY(x) => ModValue::Float(*x),
            PhysicsMod::AirX(x) => ModValue::Float(*x),
            PhysicsMod::AirY(x) => ModValue::Float(*x),
            PhysicsMod::CanBlast(x) => ModValue::Flag(*x),
            PhysicsMod::AirJumps(x) => ModValue::Int(*x),
            PhysicsMod::NoPowerups(x) => ModValue::Flag(*x),
            PhysicsMod::Reverse(x) => ModValue::Flag(*x),
            PhysicsMod::CheckpointGems(x) => ModValue::Flag(*x),
            PhysicsMod::NoGems(x) => ModValue::Flag(*x),
            PhysicsMod::NoTimeTravel(x) => ModValue::Flag(*x),
            PhysicsMod::TrophyGem(x) => ModValue::Flag(*x),
            PhysicsMod::TrophyEnd(x) => ModValue::Flag(*x),
            PhysicsMod::Boomerang(x) => ModValue::Flag(*x),
            PhysicsMod::StartPowerup(x) => ModValue::Text(x.clone()),
            PhysicsMod::ReplacePowerup(x) => ModValue::Text(x.clone()),
            PhysicsMod::PlatformSpeed(x) => ModValue::Float(*x),
            PhysicsMod::BlastX(x) => ModValue::Float(*x),
            PhysicsMod::BlastY(x) => ModValue::Float(*x),
            PhysicsMod::ImpactX(x) => ModValue::Float(*x),
            PhysicsMod::ImpactY(x) => ModValue::Float(*x),
            PhysicsMod::UseSounds(x) => ModValue::Flag(*x),
            PhysicsMod::MegaForce(x) => ModValue::Float(*x),
            PhysicsMod::FullShadow(x) => ModValue::Flag(*x),
            PhysicsMod::MPSpawnOffset(x) => ModValue::Flag(*x),
        }
    }

    /// Decodes a mod from its tag and payload. An unknown tag, or a payload of
    /// another type than the tag carries, gives `None`.
    pub fn from_tagged(tag: &str, value: ModValue) -> (r: Option<PhysicsMod>)
        ensures
            r == mod_from(tag@, value),
    {
        if str_eq(tag, "gravity") {
            match value {
                ModValue::Float(x) => Some(PhysicsMod::Gravity(x)),
                _ => None,
            }
        } else if str_eq(tag, "jumpmult") {
            match value {
                ModValue::Float(x) => Some(PhysicsMod::JumpMult(x)),
                _ => None,
            }
        } else if str_eq(tag, "jumpforce") {
            match value {
                ModValue::Float(x) => Some(PhysicsMod::JumpForce(x)),
                _ => None,
            }
        } else if str_eq(tag, "bouncemult") {
            match value {
                ModValue::Float(x) => Some(PhysicsMod::BounceMult(x)),
                _ => None,
            }
        } else if str_eq(tag, "scalemult") {
            match value {
                ModValue::Float(x) => Some(PhysicsMod::ScaleMult(x)),
                _ => None,
            }
        } else if str_eq(tag, "massmult") {
            match value {
                ModValue::Float(x) => Some(PhysicsMod::MassMult(x)),
                _ => None,
            }
        } else if str_eq(tag, "frictionmult") {
            match value {
                ModValue::Float(x) => Some(PhysicsMod::FrictionMult(x)),
                _ => None,
            }
        } else if str_eq(tag, "blastjumpmult") {
            match value {
                ModValue::Float(x) => Some(PhysicsMod::BlastJumpMult(x)),
                _ => None,
            }
        } else if str_eq(tag, "blastpushmult") {
            match value {
                ModValue::Float(x) => Some(PhysicsMod::BlastPushMult(x)),
                _ => None,
            }
        } else if str_eq(tag, "blastrangemult") {
            match value {
                ModValue::Float(x) => Some(PhysicsMod::BlastRangeMult(x)),
                _ => None,
            }
        } else if str_eq(tag, "blastcooldownmult") {
            match value {
                ModValue::Float(x) => Some(PhysicsMod::BlastCooldownMult(x)),
                _ => None,
            }
        } else if str_eq(tag, "rollX") {
            match value {
                ModValue::Float(x) => Some(PhysicsMod::RollX(x)),
                _ => None,
            }
        } else if str_eq(tag, "rollY") {
            match value {
                ModValue::Float(x) => Some(PhysicsMod::RollY(x)),
                _ => None,
            }
        } else if str_eq(tag, "airX") {
            match value {
                ModValue::Float(x) => Some(PhysicsMod::AirX(x)),
                _ => None,
            }
        } else if str_eq(tag, "airY") {
            match value {
                ModValue::Float(x) => Some(PhysicsMod::AirY(x)),
                _ => None,
            }
        } else if str_eq(tag, "canblast") {
            match value {
                ModValue::Flag(x) => Some(PhysicsMod::CanBlast(x)),
                _ => None,
            }
        } else if str_eq(tag, "airjumps") {
            match value {
                ModValue::Int(x) => Some(PhysicsMod::AirJumps(x)),
                _ => None,
            }
        } else if str_eq(tag, "nopowerups") {
            match value {
                ModValue::Flag(x) => Some(PhysicsMod::NoPowerups(x)),
                _ => None,
            }
        } else if str_eq(tag, "reverse") {
            match value {
                ModValue::Flag(x) => Some(PhysicsMod::Reverse(x)),
                _ => None,
            }
        } else if str_eq(tag, "checkpointgems") {
            match value {
                ModValue::Flag(x) => Some(PhysicsMod::CheckpointGems(x)),
                _ => None,
            }
        } else if str_eq(tag, "nogems") {
            match value {
                ModValue::Flag(x) => Some(PhysicsMod::NoGems(x)),
                _ => None,
            }
        } else if str_eq(tag, "notimetravel") {
            match value {
                ModValue::Flag(x) => Some(PhysicsMod::NoTimeTravel(x)),
                _ => None,
            }
        } else if str_eq(tag, "trophygem") {
            match value {
                ModValue::Flag(x) => Some(PhysicsMod::TrophyGem(x)),
                _ => None,
            }
        } else if str_eq(tag, "trophyend") {
            match value {
                ModValue::Flag(x) => Some(PhysicsMod::TrophyEnd(x)),
                _ => None,
            }
        } else if str_eq(tag, "boomerang") {
            match value {
                ModValue::Flag(x) => Some(PhysicsMod::Boomerang(x)),
                _ => None,
            }
        } else if str_eq(tag, "startpowerup") {
            match value {
                ModValue::Text(x) => Some(PhysicsMod::StartPowerup(x)),
                _ => None,
            }
        } else if str_eq(tag, "replacepowerup") {
            match value {
                ModValue::Text(x) => Some(PhysicsMod::ReplacePowerup(x)),
                _ => None,
            }
        } else if str_eq(tag, "platformspeed") {
            match value {
                ModValue::Float(x) => Some(PhysicsMod::PlatformSpeed(x)),
                _ => None,
            }
        } else if str_eq(tag, "blastX") {
            match value {
                ModValue::Float(x) => Some(PhysicsMod::BlastX(x)),
                _ => None,
            }
        } else if str_eq(tag, "blastY") {
            match value {
                ModValue::Float(x) => Some(PhysicsMod::BlastY(x)),
                _ => None,
            }
        } else if str_eq(tag, "impX") {
            match value {
                ModValue::Float(x) => Some(PhysicsMod::ImpactX(x)),
                _ => None,
            }
        } else if str_eq(tag, "impY") {
            match value {
                ModValue::Float(x) => Some(PhysicsMod::ImpactY(x)),
                _ => None,
            }
        } else if str_eq(tag, "usesounds") {
            match value {
                ModValue::Flag(x) => Some(PhysicsMod::UseSounds(x)),
                _ => None,
            }
        } else if str_eq(tag, "megaforce") {
            match value {
                ModValue::Float(x) => Some(PhysicsMod::MegaForce(x)),
                _ => None,
            }
        } else if str_eq(tag, "fullshadow") {
            match value {
                ModValue::Flag(x) => Some(PhysicsMod::FullShadow(x)),
                _ => None,
            }
        } else if str_eq(tag, "mpspawnoffset") {
            match value {
                ModValue::Flag(x) => Some(PhysicsMod::MPSpawnOffset(x)),
                _ => None,
            }
        } else {
            None
        }
    }

    /// The display label: the name of the setting that the mod changes
    /// (`"Gravity"`), or the fixed phrase of an on/off mod (`"No Gems"`),
    /// which does not depend on its value.
    pub fn label(&self) -> (r: &'static str)
        ensures
            r@ == mod_label(*self),
    {
        match self {
            PhysicsMod::Gravity(_) => "Gravity",
            PhysicsMod::JumpMult(_) => "Jump Height",
            PhysicsMod::JumpForce(_) => "Jump Force",
            PhysicsMod::BounceMult(_) => "Bounce Force",
            PhysicsMod::ScaleMult(_) => "Marble Size",
            PhysicsMod::MassMult(_) => "Mass",
            PhysicsMod::FrictionMult(_) => "Friction Force",
            PhysicsMod::BlastJumpMult(_) => "Blast Height",
            PhysicsMod::BlastPushMult(_) => "Blast Push",
            PhysicsMod::BlastRangeMult(_) => "Blast Range",
            PhysicsMod::BlastCooldownMult(_) => "Blast Cooldown",
            PhysicsMod::RollX(_) => "Roll Force X",
            PhysicsMod::RollY(_) => "Roll Force Y",
            PhysicsMod::AirX(_) => "Air Force X",
            PhysicsMod::AirY(_) => "Air Force Y",
            PhysicsMod::CanBlast(_) => "Blast Available",
            PhysicsMod::AirJumps(_) => "Air Jumps",
            PhysicsMod::NoPowerups(_) => "No Powerups",
            PhysicsMod::Reverse(_) => "Level Reversed",
            PhysicsMod::CheckpointGems(_) => "Checkpoints Add Gems",
            PhysicsMod::NoGems(_) => "No Gems",
            PhysicsMod::NoTimeTravel(_) => "No Time Travels",
            PhysicsMod::TrophyGem(_) => "Trophy Adds Gem",
            PhysicsMod::TrophyEnd(_) => "Trophy is Goal",
            PhysicsMod::Boomerang(_) => "Boomerang",
            PhysicsMod::StartPowerup(_) => "Start With",
            PhysicsMod::ReplacePowerup(_) => "Replace Powerups",
            PhysicsMod::PlatformSpeed(_) => "Platform Speed",
            PhysicsMod::BlastX(_) => "Blast X",
            PhysicsMod::BlastY(_) => "Blast Y",
            PhysicsMod::ImpactX(_) => "Impact X",
            PhysicsMod::ImpactY(_) => "Impact Y",
            PhysicsMod::UseSounds(_) => "Use Sounds",
            PhysicsMod::MegaForce(_) => "Mega Force",
            PhysicsMod::FullShadow(_) => "Full Shadow",
            PhysicsMod::MPSpawnOffset(_) => "MP Spawn Offset",
        }
    }
}

} // verus!
