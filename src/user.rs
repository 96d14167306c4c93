//! The records of the first user lookup: the REST user record, the record
//! assembled for a reply, and the key of the cache that holds those.
use vstd::prelude::*;
use vstd::string::StringExecFns;
use crate::commands::avatar_url_of;
use crate::text::push_decimal;

verus! {

/// A user record of the REST API.
pub struct RequestUser {
    pub id: String,
    pub username: String,
    pub avatar: String,
    pub discriminator: String,
    pub public_flags: u64,
}

/// A user record assembled for a reply.
pub struct CompleteUser {
    pub tag: String,
    /// What follows the tag when the user has a nickname.
    pub nick_addon: String,
    pub status: String,
    pub id: String,
    pub created_at: String,
}

/// The key under which the bot caches complete user records by user id.
pub struct CachedUsers;

/// The REST pathway of the user record of `id`.
pub open spec fn user_pathway_of(id: Seq<char>) -> Seq<char> {
    "users/"@ + id
}

/// The REST pathway of the application record of the bot `id`.
pub open spec fn bot_application_pathway_of(id: Seq<char>) -> Seq<char> {
    "applications/"@ + id + "/rpc"@
}

impl RequestUser {
    /// The REST pathway from which the record of user `id` is fetched.
    pub fn pathway(id: &str) -> (r: String)
        ensures
            r@ == user_pathway_of(id@),
    {
        let mut r = String::from_str("users/");
        r.append(id);
        r
    }
}

/// The REST pathway from which the application record of the bot `id` is
/// fetched.
pub fn bot_application_pathway(id: &str) -> (r: String)
    ensures
        r@ == bot_application_pathway_of(id@),
{
    let mut r = String::from_str("applications/");
    r.append(id);
    r.append("/rpc");
    r
}

/// The CDN address of the avatar `avatar_hash` of user `id`, as WebP at `size`.
pub fn avatar_url(id: String, avatar_hash: String, size: u64) -> (r: String)
    ensures
        r@ == avatar_url_of(id@, avatar_hash@, size as nat),
{
    let mut r = String::from_str("https://cdn.discordapp.com/avatars/");
    r.append(id.as_str());
    r.append("/");
    r.append(avatar_hash.as_str());
    r.append(".webp?size=");
    push_decimal(&mut r, size);
    r
}

} // verus!
