//! The first form of the user lookup command: a card with the nickname,
//! the custom status and the discriminator.
use vstd::prelude::*;
use vstd::string::StringExecFns;
use crate::embed::{Embed, EmbedView, field_view};
use crate::presence::{Activity, emoji_text, push_emoji_text};
use crate::profile::{UserProfile, has_flag, contains_flag, VERIFIED_BOT};
use crate::text::opt_view;

verus! {

/// A user record of the REST API.
pub struct ApiUser {
    pub id: String,
    pub username: String,
    pub avatar: String,
    pub discriminator: String,
    pub public_flags: u32,
}

/// Whether the record's public flags mark a verified bot.
pub fn is_verified_bot(user: &ApiUser) -> (r: bool)
    ensures
        r == has_flag(user.public_flags, VERIFIED_BOT),
{
    contains_flag(user.public_flags, VERIFIED_BOT)
}

/// The status line: the first activity's emoji and text; where it has no
/// emoji, its text alone; where there is nothing to show,
/// `(None Available)`.
pub open spec fn status_of(first_activity: Option<Activity>) -> Seq<char> {
    match first_activity {
        Some(a) => match a.emoji {
            Some(e) => emoji_text(e) + match a.state {
                Some(s) => s@,
                None => Seq::empty(),
            },
            None => match a.state {
                Some(s) => s@,
                None => "(None Available)"@,
            },
        },
        None => "(None Available)"@,
    }
}

/// The status line for the first activity of a user's presence, `None`
/// where the guild has no presence for the user or it has no activity.
pub fn status(first_activity: &Option<Activity>) -> (r: String)
    ensures
        r@ == status_of(*first_activity),
{
    let mut status = String::new();
    match first_activity {
        Some(a) => match &a.emoji {
            Some(e) => {
                push_emoji_text(&mut status, e);
                if let Some(state) = &a.state {
                    status.append(state.as_str());
                }
            },
            None => match &a.state {
                Some(state) => status.append(state.as_str()),
                None => status.append("(None Available)"),
            },
        },
        None => status.append("(None Available)"),
    }
    status
}

/// Emoji after the name of a bot that Discord has verified.
pub open spec fn verified_bot_emoji() -> Seq<char> {
    "<:bot1:844733440481820673><:bot2:844733440665845780>"@
}

/// Emoji after the name of any other bot.
pub open spec fn bot_emoji() -> Seq<char> {
    "<:bot3:844702520646696991><:bot4:844702593002242068>"@
}

/// The heading: the user name, the nickname after `aka` where there is one,
/// and the bot emoji for a bot.
pub open spec fn nickname_of(user: ApiUser, bot: bool, nick: Option<Seq<char>>) -> Seq<char> {
    let named = match nick {
        Some(n) => user.username@ + " aka "@ + n,
        None => user.username@,
    };
    if bot && !has_flag(user.public_flags, VERIFIED_BOT) {
        named + " "@ + bot_emoji()
    } else if bot {
        named + " "@ + verified_bot_emoji()
    } else {
        named
    }
}

/// The heading for `user`, who is a bot where `bot` says so, with its
/// nickname in the guild where it has one.
pub fn nickname(user: &ApiUser, bot: bool, nick: Option<String>) -> (r: String)
    ensures
        r@ == nickname_of(*user, bot, opt_view(nick)),
{
    let mut r = user.username.clone();
    if let Some(n) = &nick {
        r.append(" aka ");
        r.append(n.as_str());
    }
    if bot && !is_verified_bot(user) {
        r.append(" ");
        r.append("<:bot3:844702520646696991><:bot4:844702593002242068>");
    } else if bot && is_verified_bot(user) {
        r.append(" ");
        r.append("<:bot1:844733440481820673><:bot2:844733440665845780>");
    }
    r
}

/// The card: heading, face, status, id and discriminator.
pub open spec fn lookup_card(
    profile: UserProfile,
    user: ApiUser,
    nick: Option<Seq<char>>,
    first_activity: Option<Activity>,
) -> EmbedView {
    EmbedView {
        title: Some(nickname_of(user, profile.bot, nick)),
        description: Some("Want my number? <:catsnrk:815087234772369449>"@),
        url: Some(profile.face_spec()),
        thumbnail: Some(profile.face_spec()),
        fields: seq![
            field_view("Status"@, status_of(first_activity), false),
            field_view("ID"@, user.id@, true),
            field_view("Discriminator"@, "#"@ + user.discriminator@, true),
        ],
        ..EmbedView::empty()
    }
}

/// The card for `profile`, the user as the gateway knows it, and `user`,
/// its REST record.
pub fn lookup_embed(
    profile: &UserProfile,
    user: &ApiUser,
    nick: Option<String>,
    first_activity: &Option<Activity>,
) -> (r: Embed)
    ensures
        r@ == lookup_card(*profile, *user, opt_view(nick), *first_activity),
{
    let title = nickname(user, profile.bot, nick);
    let status = status(first_activity);
    let mut discriminator = String::from_str("#");
    discriminator.append(user.discriminator.as_str());
    let face = profile.face();
    let mut e = Embed::new();
    e.set_title(title);
    e.set_thumbnail(face.clone());
    e.set_description(String::from_str("Want my number? <:catsnrk:815087234772369449>"));
    e.push_field(String::from_str("Status"), status, false);
    e.push_field(String::from_str("ID"), user.id.clone(), true);
    e.push_field(String::from_str("Discriminator"), discriminator, true);
    e.set_url(face);
    assert(e@.fields =~= lookup_card(*profile, *user, opt_view(nick), *first_activity).fields);
    e
}

} // verus!
