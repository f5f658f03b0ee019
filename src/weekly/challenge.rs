use vstd::prelude::*;

use crate::text::str_eq;
use crate::time::UtcTime;
use crate::weekly::name_lang::{lang_code, NameLang};
use crate::weekly::physics_mod::PhysicsMod;

verus! {

/// A weekly challenge: its levels, its name in each language, and when it runs.
#[derive(Debug, Clone)]
pub struct Challenge {
    /// The chapter set
    pub chapter_set: String,
    /// The challenge id
    pub challenge_id: String,
    /// The levels, each with its title and physics mods
    pub levels: Vec<ChallengeLevel>,
    /// The name in each language, as `(language code, name)` pairs with one
    /// pair per code.
    ///
    /// Use [`Challenge::get_name`] to look a name up.
    pub name: Vec<(String, String)>,
    /// When the challenge starts
    pub start_date: UtcTime,
    /// When the challenge ends (expected, not checked, to be no earlier than
    /// the start)
    pub end_date: UtcTime,
}

/// A level of a challenge.
#[derive(Debug, Clone)]
pub struct ChallengeLevel {
    /// The level's title
    pub name: String,
    /// The map id, usually of the form `SP_###`
    pub id: String,
    /// The physics mods of the level, in the order they apply; the same kind
    /// may occur more than once
    pub physicsmod: Vec<PhysicsMod>,
}

/// The name stored under `code` in `names` (the first pair with that code), or
/// `"Unknown"` when there is none.
pub open spec fn name_for(names: Seq<(String, String)>, code: Seq<char>) -> Seq<char>
    decreases names.len(),
{
    if names.len() == 0 {
        "Unknown"@
    } else if names[0].0@ == code {
        names[0].1@
    } else {
        name_for(names.drop_first(), code)
    }
}

impl Challenge {
    /// The challenge's name in `lang`, or `"Unknown"` when it has none in it.
    pub fn get_name(&self, lang: NameLang) -> (r: String)
        ensures
            r@ == name_for(self.name@, lang_code(lang)),
    {
        let code = lang.to_string();
        let n = self.name.len();
        let mut i: usize = 0;
        assert(self.name@.subrange(0, n as int) =~= self.name@);
        while i < n
            invariant
                n == self.name@.len(),
                i <= n,
                code@ == lang_code(lang),
                name_for(self.name@, code@) == name_for(self.name@.subrange(i as int, n as int), code@),
            decreases n - i,
        {
            proof {
                assert(self.name@.subrange(i as int, n as int).drop_first()
                    =~= self.name@.subrange(i + 1, n as int));
            }
            if str_eq(self.name[i].0.as_str(), code.as_str()) {
                return self.name[i].1.clone();
            }
            i = i + 1;
        }
        String::from_str("Unknown")
    }
}

} // verus!
