//! What a user's presence shows: the custom status of its first activity.
use vstd::prelude::*;
use vstd::string::StringExecFns;
use crate::text::{decimal, push_decimal};

verus! {

/// The emoji of a custom status: a guild emoji has an id, a Unicode one
/// has only its name.
pub struct ActivityEmoji {
    pub name: String,
    pub id: Option<u64>,
}

/// An activity of a presence, as far as the status text reads it.
pub struct Activity {
    pub emoji: Option<ActivityEmoji>,
    /// The custom status text.
    pub state: Option<String>,
}

/// The emoji as a message writes it, followed by a space.
pub open spec fn emoji_text(emoji: ActivityEmoji) -> Seq<char> {
    match emoji.id {
        Some(id) => "<:"@ + emoji.name@ + ":"@ + decimal(id as nat) + "> "@,
        None => emoji.name@ + " "@,
    }
}

/// Appends the emoji as a message writes it, followed by a space.
pub fn push_emoji_text(s: &mut String, emoji: &ActivityEmoji)
    ensures
        final(s)@ == old(s)@ + emoji_text(*emoji),
{
    match emoji.id {
        Some(id) => {
            s.append("<:");
            s.append(emoji.name.as_str());
            s.append(":");
            push_decimal(s, id);
            s.append("> ");
        },
        None => {
            s.append(emoji.name.as_str());
            s.append(" ");
        },
    }
}

} // verus!
