//! Helpers shared by the commands: REST and CDN addresses, and the words of
//! a text command.
use vstd::prelude::*;
use vstd::string::StrSliceExecFns;
use vstd::string::StringExecFns;
use crate::text::{decimal, push_decimal};

verus! {

/// The CDN address of an avatar picture in WebP form at the given size.
pub open spec fn avatar_url_of(id: Seq<char>, avatar_hash: Seq<char>, size: nat) -> Seq<char> {
    "https://cdn.discordapp.com/avatars/"@ + id + "/"@ + avatar_hash + ".webp?size="@ + decimal(
        size,
    )
}

/// The CDN address of the avatar `avatar_hash` of user `id`, as WebP at `size`.
pub fn avatar_url(id: &str, avatar_hash: &str, size: u64) -> (r: String)
    ensures
        r@ == avatar_url_of(id@, avatar_hash@, size as nat),
{
    let mut r = String::from_str("https://cdn.discordapp.com/avatars/");
    r.append(id);
    r.append("/");
    r.append(avatar_hash);
    r.append(".webp?size=");
    push_decimal(&mut r, size);
    r
}

/// The address of a pathway of Discord's REST API, version 9.
pub open spec fn api_url_of(pathway: Seq<char>) -> Seq<char> {
    "https://discord.com/api/v9/"@ + pathway
}

/// The address of `pathway` under Discord's REST API, version 9.
pub fn api_url(pathway: &str) -> (r: String)
    ensures
        r@ == api_url_of(pathway@),
{
    let mut r = String::from_str("https://discord.com/api/v9/");
    r.append(pathway);
    r
}

/// The channel where the bot deletes every message as it arrives.
pub const CLEARED_CHANNEL: u64 = 952722147099422730;

/// Whether a message posted in `channel_id` is to be deleted.
pub fn deletes_messages_in(channel_id: u64) -> (r: bool)
    ensures
        r == (channel_id == CLEARED_CHANNEL),
{
    channel_id == CLEARED_CHANNEL
}

/// Whether a slash command of this name asks for a user's information.
pub fn is_user_info_command(name: &str) -> (r: bool)
    ensures
        r == (name@ == "userinfo"@),
{
    let expected = "userinfo";
    proof {
        reveal_strlit("userinfo");
    }
    let n = name.unicode_len();
    if n != 8 {
        return false;
    }
    let mut i: usize = 0;
    while i < 8
        invariant
            n == 8,
            n == name@.len(),
            expected@ == "userinfo"@,
            expected@.len() == 8,
            i <= 8,
            name@.take(i as int) == expected@.take(i as int),
        decreases 8 - i,
    {
        if name.get_char(i) != expected.get_char(i) {
            assert(name@[i as int] != expected@[i as int]);
            return false;
        }
        assert(name@.take(i + 1) =~= name@.take(i as int).push(name@[i as int]));
        assert(expected@.take(i + 1) =~= expected@.take(i as int).push(expected@[i as int]));
        i = i + 1;
    }
    assert(name@ =~= name@.take(8));
    assert(expected@ =~= expected@.take(8));
    true
}

} // verus!
