use vstd::prelude::*;

use crate::util::chars::string_from_str;
use crate::util::number::{spec_decimal, u64_to_decimal};

verus! {

/// Discord Nitro subscription tier of the signed-in user.
#[derive(Clone, Copy, Debug, PartialEq, Eq, Structural)]
pub enum PremiumType {
    NoPremium,
    NitroClassic,
    Nitro,
    NitroBasic,
}

impl PremiumType {
    /// Whether the tier grants Nitro perks (every tier but `NoPremium`).
    pub open spec fn spec_has_nitro(self) -> bool {
        !(self is NoPremium)
    }

    pub fn has_nitro(&self) -> (r: bool)
        ensures
            r == self.spec_has_nitro(),
    {
        match self {
            PremiumType::NoPremium => false,
            _ => true,
        }
    }

    /// The tier that Discord encodes as `value`, if any.
    pub open spec fn spec_from_code(value: u64) -> Option<PremiumType> {
        if value == 0 {
            Some(PremiumType::NoPremium)
        } else if value == 1 {
            Some(PremiumType::NitroClassic)
        } else if value == 2 {
            Some(PremiumType::Nitro)
        } else if value == 3 {
            Some(PremiumType::NitroBasic)
        } else {
            Option::None
        }
    }

    /// Decodes Discord's numeric premium type; any other code is an error
    /// that names it.
    pub fn try_from_code(value: u64) -> (r: Result<PremiumType, String>)
        ensures
            match Self::spec_from_code(value) {
                Some(p) => r matches Ok(q) && q == p,
                Option::None => r matches Err(e) && e@ == unknown_premium_message(value),
            },
    {
        match value {
            0 => Ok(PremiumType::NoPremium),
            1 => Ok(PremiumType::NitroClassic),
            2 => Ok(PremiumType::Nitro),
            3 => Ok(PremiumType::NitroBasic),
            _ => {
                let mut e = string_from_str("Unknown premium type: ");
                e.append(u64_to_decimal(value).as_str());
                Err(e)
            },
        }
    }
}

/// Every tier but `NoPremium` has Nitro; Discord's codes 0 to 3 are the four
/// tiers in the order `NoPremium`, `NitroClassic`, `Nitro`, `NitroBasic`, and
/// no other code is a tier.
pub proof fn lemma_premium_codes(p: PremiumType, value: u64)
    ensures
        p.spec_has_nitro() == (p != PremiumType::NoPremium),
        (PremiumType::spec_from_code(value) is Some) == (value < 4),
        PremiumType::spec_from_code(value) == Some(PremiumType::NoPremium) <==> value == 0,
        PremiumType::spec_from_code(value) == Some(PremiumType::NitroClassic) <==> value == 1,
        PremiumType::spec_from_code(value) == Some(PremiumType::Nitro) <==> value == 2,
        PremiumType::spec_from_code(value) == Some(PremiumType::NitroBasic) <==> value == 3,
{
}

/// The error text for the unknown premium code `value`.
pub open spec fn unknown_premium_message(value: u64) -> Seq<char> {
    "Unknown premium type: "@ + spec_decimal(value as int)
}

impl Default for PremiumType {
    fn default() -> (r: PremiumType)
        ensures
            r == PremiumType::NoPremium,
    {
        PremiumType::NoPremium
    }
}

/// What a voice channel member is doing.
#[derive(Clone, Copy, Debug, PartialEq, Eq, Structural)]
pub enum UserVoiceState {
    Speaking,
    NotSpeaking,
    Muted,
    Deafened,
}

/// A member of the current voice channel as the overlay shows it.
#[derive(Debug)]
pub struct User {
    pub name: String,
    pub id: String,
    pub avatar: String,
    pub voice_state: UserVoiceState,
    pub streaming: bool,
}

/// A member as texts: name, id, avatar hash, voice state, streaming.
pub struct UserView {
    pub name: Seq<char>,
    pub id: Seq<char>,
    pub avatar: Seq<char>,
    pub voice_state: UserVoiceState,
    pub streaming: bool,
}

impl View for User {
    type V = UserView;

    open spec fn view(&self) -> UserView {
        UserView {
            name: self.name@,
            id: self.id@,
            avatar: self.avatar@,
            voice_state: self.voice_state,
            streaming: self.streaming,
        }
    }
}

/// The members of a list, as views.
pub open spec fn users_view(users: Seq<User>) -> Seq<UserView> {
    users.map_values(|u: User| u@)
}

/// The position of the first member with id `id`.
pub open spec fn spec_find(users: Seq<UserView>, id: Seq<char>) -> Option<int>
    decreases users.len(),
{
    if users.len() == 0 {
        None
    } else if users[0].id == id {
        Some(0)
    } else {
        match spec_find(users.drop_first(), id) {
            Some(i) => Some(i + 1),
            None => None,
        }
    }
}

/// `spec_find` gives the first position with the id, or none when no member
/// has it.
pub proof fn lemma_spec_find(users: Seq<UserView>, id: Seq<char>)
    ensures
        match spec_find(users, id) {
            Some(i) => 0 <= i < users.len() && users[i].id == id && forall|j: int|
                0 <= j < i ==> users[j].id != id,
            None => forall|j: int| 0 <= j < users.len() ==> users[j].id != id,
        },
    decreases users.len(),
{
    if users.len() > 0 && users[0].id != id {
        lemma_spec_find(users.drop_first(), id);
        match spec_find(users.drop_first(), id) {
            Some(i) => {
                assert forall|j: int| 0 <= j < i + 1 implies users[j].id != id by {
                    if j > 0 {
                        assert(users[j] == users.drop_first()[j - 1]);
                    }
                }
            },
            None => {
                assert forall|j: int| 0 <= j < users.len() implies users[j].id != id by {
                    if j > 0 {
                        assert(users[j] == users.drop_first()[j - 1]);
                    }
                }
            },
        }
    }
}

/// No two members share an id.
pub open spec fn unique_ids(users: Seq<UserView>) -> bool {
    forall|i: int, j: int| 0 <= i < j < users.len() ==> #[trigger] users[i].id != #[trigger] users[j].id
}

impl Clone for User {
    fn clone(&self) -> (r: User)
        ensures
            r == *self,
    {
        User {
            name: self.name.clone(),
            id: self.id.clone(),
            avatar: self.avatar.clone(),
            voice_state: self.voice_state,
            streaming: self.streaming,
        }
    }
}

} // verus!
