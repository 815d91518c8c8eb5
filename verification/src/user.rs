//! The user profile record: passive data mirroring the external JSON schema
//! field-for-field. The caller's I/O layer fills it from the profile
//! endpoint's response.

use vstd::prelude::*;

verus! {

/// A user profile. Identifiers are snowflakes carried as integers.
#[derive(Debug)]
pub struct User {
    pub id: u64,
    pub username: String,
    pub discriminator: String,
    pub avatar: Option<String>,
    pub bot: Option<bool>,
    pub system: Option<bool>,
    pub mfa_enabled: Option<bool>,
    pub banner: Option<String>,
    pub accent_color: Option<u64>,
    pub locale: Option<String>,
    pub verified: Option<bool>,
    pub email: Option<String>,
    pub flags: Option<u64>,
    pub premium_type: Option<PremiumType>,
    pub public_flags: Option<u64>,
}

/// The subscription tier of a user.
#[derive(Debug, Clone, Copy, PartialEq, Eq, Structural)]
pub enum PremiumType {
    NoPremium,
    NitroClassic,
    Nitro,
}

/// The tier a wire value stands for, when it stands for one.
pub open spec fn spec_premium_type_of(num: u8) -> Option<PremiumType> {
    if num == 0 {
        Some(PremiumType::NoPremium)
    } else if num == 1 {
        Some(PremiumType::NitroClassic)
    } else if num == 2 {
        Some(PremiumType::Nitro)
    } else {
        None
    }
}

impl PremiumType {
    /// The tier for a wire value, exactly as `spec_premium_type_of` states.
    /// Values outside the known set are left out by precondition.
    pub fn from(num: u8) -> (r: PremiumType)
        requires
            spec_premium_type_of(num) is Some,
        ensures
            Some(r) == spec_premium_type_of(num),
    {
        if num == 0 {
            PremiumType::NoPremium
        } else if num == 1 {
            PremiumType::NitroClassic
        } else {
            PremiumType::Nitro
        }
    }
}

} // verus!
