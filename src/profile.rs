//! What the bot knows of a Discord user, and what follows from it alone:
//! public flags, the tag, the face URL and the creation time of an id.
use vstd::prelude::*;
use vstd::string::StrSliceExecFns;
use vstd::string::StringExecFns;
use crate::text::{decimal, opt_view, push_decimal, push_zero_padded, zero_padded};

verus! {

/// Public flag of a user in the HypeSquad house Bravery.
pub const HOUSE_BRAVERY: u32 = 64;

/// Public flag of a user in the HypeSquad house Brilliance.
pub const HOUSE_BRILLIANCE: u32 = 128;

/// Public flag of a user in the HypeSquad house Balance.
pub const HOUSE_BALANCE: u32 = 256;

/// Public flag of a bot that Discord has verified.
pub const VERIFIED_BOT: u32 = 65536;

/// Milliseconds from the Unix epoch to the first instant of 2015, where
/// Discord's ids start counting.
pub const DISCORD_EPOCH_MS: u64 = 1420070400000;

/// Whether every bit of `flag` is set in `bits`.
pub open spec fn has_flag(bits: u32, flag: u32) -> bool {
    bits & flag == flag
}

/// Whether every bit of `flag` is set in `bits`.
pub fn contains_flag(bits: u32, flag: u32) -> (r: bool)
    ensures
        r == has_flag(bits, flag),
{
    bits & flag == flag
}

/// A Discord user as the gateway or the REST API describes it.
pub struct UserProfile {
    pub id: u64,
    pub name: String,
    pub discriminator: u16,
    /// Hash of the custom avatar, if the user set one.
    pub avatar: Option<String>,
    pub bot: bool,
    /// Public flags, when the source of the record reported them.
    pub public_flags: Option<u32>,
}

/// `name#dddd`: the name and the discriminator padded to four digits.
pub open spec fn tag_of(name: Seq<char>, discriminator: u16) -> Seq<char> {
    name + "#"@ + zero_padded(decimal(discriminator as nat), 4)
}

/// Whether an avatar hash names an animated avatar.
pub open spec fn is_animated_hash(hash: Seq<char>) -> bool {
    hash.len() >= 2 && hash[0] == 'a' && hash[1] == '_'
}

/// The URL of the picture that stands for a user: the custom avatar, or else
/// one of the five default avatars, chosen by the discriminator.
pub open spec fn face_of(id: u64, avatar: Option<Seq<char>>, discriminator: u16) -> Seq<char> {
    match avatar {
        Some(hash) => "https://cdn.discordapp.com/avatars/"@ + decimal(id as nat) + "/"@ + hash
            + (if is_animated_hash(hash) {
            ".gif"@
        } else {
            ".webp"@
        }) + "?size=1024"@,
        None => "https://cdn.discordapp.com/embed/avatars/"@ + decimal((discriminator % 5) as nat)
            + ".png"@,
    }
}

/// Seconds since the Unix epoch at which the id was made: ids carry their
/// creation time in milliseconds since 2015 above their low 22 bits.
pub open spec fn created_at_secs(id: u64) -> nat {
    (id as nat / 4194304 + DISCORD_EPOCH_MS as nat) / 1000
}

impl UserProfile {
    pub open spec fn tag_spec(&self) -> Seq<char> {
        tag_of(self.name@, self.discriminator)
    }

    pub open spec fn face_spec(&self) -> Seq<char> {
        face_of(self.id, opt_view(self.avatar), self.discriminator)
    }

    /// `name#dddd`.
    pub fn tag(&self) -> (r: String)
        ensures
            r@ == self.tag_spec(),
    {
        let mut r = self.name.clone();
        r.append("#");
        push_zero_padded(&mut r, self.discriminator as u64, 4);
        r
    }

    /// The URL of the user's avatar, or of the default avatar for users
    /// without one.
    pub fn face(&self) -> (r: String)
        ensures
            r@ == self.face_spec(),
    {
        match &self.avatar {
            Some(hash) => {
                let mut r = String::from_str("https://cdn.discordapp.com/avatars/");
                push_decimal(&mut r, self.id);
                r.append("/");
                r.append(hash.as_str());
                let h = hash.as_str();
                let animated = h.unicode_len() >= 2 && h.get_char(0) == 'a' && h.get_char(1)
                    == '_';
                if animated {
                    r.append(".gif");
                } else {
                    r.append(".webp");
                }
                r.append("?size=1024");
                r
            },
            None => {
                let mut r = String::from_str("https://cdn.discordapp.com/embed/avatars/");
                push_decimal(&mut r, (self.discriminator % 5) as u64);
                r.append(".png");
                r
            },
        }
    }

    /// Seconds since the Unix epoch at which the account was made.
    pub fn created_at(&self) -> (r: u64)
        ensures
            r as nat == created_at_secs(self.id),
    {
        snowflake_secs(self.id)
    }
}

/// Seconds since the Unix epoch at which an id was made.
pub fn snowflake_secs(id: u64) -> (r: u64)
    ensures
        r as nat == created_at_secs(id),
{
    let high = id >> 22;
    assert(id >> 22u64 == id / 4194304u64) by (bit_vector);
    (high + DISCORD_EPOCH_MS) / 1000
}

} // verus!
