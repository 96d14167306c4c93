//! The reply to the `userinfo` slash command: an embed that merges the user
//! record, the guild member record and the bot application record.
use vstd::prelude::*;
use vstd::string::StringExecFns;
use crate::embed::{Embed, EmbedView, FieldView, FooterView, field_view};
use crate::profile::{
    UserProfile, has_flag, contains_flag, created_at_secs, HOUSE_BALANCE, HOUSE_BRAVERY,
    HOUSE_BRILLIANCE, VERIFIED_BOT,
};
use crate::text::{decimal, decimal_string, signed_decimal, push_decimal, push_signed_decimal};
use crate::commands::{avatar_url, avatar_url_of};

verus! {

/// The parts of a bot's application record that the reply shows.
pub struct BotApplication {
    pub icon: Option<String>,
    pub description: Option<String>,
    pub name: Option<String>,
}

/// The parts of a guild member record that the reply shows.
pub struct MemberProfile {
    /// The nickname in the guild, if any.
    pub nick: Option<String>,
    /// Seconds since the Unix epoch at which the user joined the guild.
    pub joined_at: i64,
}

/// The marker put after the title of a verified bot.
pub open spec fn verified_mark() -> Seq<char> {
    " <:verified:952780472570740746>"@
}

/// The HypeSquad house that the public flags name, first match in the order
/// Bravery, Brilliance, Balance.
pub open spec fn house_of(flags: Option<u32>) -> Seq<char> {
    match flags {
        Some(bits) => if has_flag(bits, HOUSE_BRAVERY) {
            "<:hypesquad_bravery:861391996567158784> Bravery"@
        } else if has_flag(bits, HOUSE_BRILLIANCE) {
            "<:hypesquad_brilliance:861392654994112533> Brilliance"@
        } else if has_flag(bits, HOUSE_BALANCE) {
            "<:hypesquad_balance:861392618397892628> Balance"@
        } else {
            "None"@
        },
        None => "None"@,
    }
}

/// The HypeSquad house of a user, with its emoji, or `None`.
pub fn user_house(flags: Option<u32>) -> (r: &'static str)
    ensures
        r@ == house_of(flags),
{
    if let Some(bits) = flags {
        if contains_flag(bits, HOUSE_BRAVERY) {
            return "<:hypesquad_bravery:861391996567158784> Bravery";
        } else if contains_flag(bits, HOUSE_BRILLIANCE) {
            return "<:hypesquad_brilliance:861392654994112533> Brilliance";
        } else if contains_flag(bits, HOUSE_BALANCE) {
            return "<:hypesquad_balance:861392618397892628> Balance";
        }
    }
    "None"
}

/// A Discord timestamp tag, which each client shows in its own time zone.
pub open spec fn time_tag(secs: int) -> Seq<char> {
    "<t:"@ + signed_decimal(secs) + ":f>"@
}

fn time_tag_string(secs: i64) -> (r: String)
    ensures
        r@ == time_tag(secs as int),
{
    let mut r = String::from_str("<t:");
    push_signed_decimal(&mut r, secs);
    r.append(":f>");
    r
}

/// The footer that credits a bot's application: its name and icon, or the
/// bot user's own where the application gives none.
pub open spec fn application_footer(user: UserProfile, app: BotApplication) -> FooterView {
    FooterView {
        text: "Brought to you by "@ + (match app.name {
            Some(n) => n@,
            None => user.name@,
        }) + "!"@,
        icon_url: match app.icon {
            Some(icon) => avatar_url_of(decimal(user.id as nat), icon@, 1024),
            None => user.face_spec(),
        },
    }
}

/// The title: the tag, then the nickname in the guild where the user has
/// one, then the mark of a verified bot where the user is one.
pub open spec fn user_title(user: UserProfile, member: Option<MemberProfile>) -> Seq<char> {
    let named = if member is Some && member->0.nick is Some {
        user.tag_spec() + " aka "@ + member->0.nick->0@
    } else {
        user.tag_spec()
    };
    if has_flag(user.public_flags->0, VERIFIED_BOT) {
        named + verified_mark()
    } else {
        named
    }
}

/// The application record where the user is a bot; a record given for any
/// other user is not shown.
pub open spec fn shown_application(user: UserProfile, application: Option<BotApplication>) -> Option<
    BotApplication,
> {
    if user.bot {
        application
    } else {
        None
    }
}

/// The fields: id, house, the date of joining where the user is a member,
/// and the date of creation.
pub open spec fn user_fields(user: UserProfile, member: Option<MemberProfile>) -> Seq<FieldView> {
    let head = seq![
        field_view("Id:"@, decimal(user.id as nat), false),
        field_view("Hypesquad House:"@, house_of(user.public_flags), false),
    ];
    let created = field_view("Created:"@, time_tag(created_at_secs(user.id) as int), false);
    match member {
        Some(m) => head.push(field_view("Joined:"@, time_tag(m.joined_at as int), false)).push(
            created,
        ),
        None => head.push(created),
    }
}

/// The whole reply embed.
pub open spec fn user_embed(
    user: UserProfile,
    member: Option<MemberProfile>,
    application: Option<BotApplication>,
) -> EmbedView {
    let application = shown_application(user, application);
    EmbedView {
        title: Some(user_title(user, member)),
        description: match member {
            Some(m) => Some(
                match application {
                    Some(a) => match a.description {
                        Some(d) => d@,
                        None => Seq::empty(),
                    },
                    None => Seq::empty(),
                },
            ),
            None => None,
        },
        url: Some(user.face_spec()),
        thumbnail: Some(user.face_spec()),
        attachment: None,
        fields: user_fields(user, member),
        footer: match application {
            Some(a) => Some(application_footer(user, a)),
            None => None,
        },
    }
}

/// The REST pathway of a bot's application record.
pub open spec fn application_rpc_pathway_of(user_id: u64) -> Seq<char> {
    "/applications/"@ + decimal(user_id as nat) + "/rpc"@
}

/// The REST pathway of the application record of the bot `user_id`.
pub fn application_rpc_pathway(user_id: u64) -> (r: String)
    ensures
        r@ == application_rpc_pathway_of(user_id),
{
    let mut r = String::from_str("/applications/");
    push_decimal(&mut r, user_id);
    r.append("/rpc");
    r
}

/// Builds the reply embed for `user`, with the member record where the
/// command ran in a guild and the application record where the user is a
/// bot; for a user who is not a bot the application record is not shown.
pub fn create_user_embed(
    user: &UserProfile,
    member: Option<MemberProfile>,
    application: Option<BotApplication>,
) -> (r: Embed)
    requires
        user.public_flags is Some,
    ensures
        r@ == user_embed(*user, member, application),
{
    let application = if user.bot {
        application
    } else {
        None
    };
    let id = decimal_string(user.id);
    let mut embed = Embed::new();
    if let Some(app) = &application {
        let icon_url = match &app.icon {
            Some(icon) => avatar_url(id.as_str(), icon.as_str(), 1024),
            None => user.face(),
        };
        let mut text = String::from_str("Brought to you by ");
        match &app.name {
            Some(name) => text.append(name.as_str()),
            None => text.append(user.name.as_str()),
        }
        text.append("!");
        embed.set_footer(text, icon_url);
    }
    let mut title = user.tag();
    if let Some(m) = &member {
        if let Some(nick) = &m.nick {
            title.append(" aka ");
            title.append(nick.as_str());
        }
    }
    let verified = match user.public_flags {
        Some(bits) => contains_flag(bits, VERIFIED_BOT),
        None => false,
    };
    if verified {
        title.append(" <:verified:952780472570740746>");
    }
    embed.set_title(title);
    let face = user.face();
    let created = time_tag_string(user.created_at() as i64);
    match &member {
        Some(m) => {
            let description = match &application {
                Some(a) => match &a.description {
                    Some(d) => d.clone(),
                    None => String::new(),
                },
                None => String::new(),
            };
            embed.set_description(description);
            embed.set_url(face.clone());
            embed.set_thumbnail(face);
            embed.push_field(String::from_str("Id:"), id, false);
            embed.push_field(
                String::from_str("Hypesquad House:"),
                String::from_str(user_house(user.public_flags)),
                false,
            );
            embed.push_field(String::from_str("Joined:"), time_tag_string(m.joined_at), false);
            embed.push_field(String::from_str("Created:"), created, false);
        },
        None => {
            embed.set_url(face.clone());
            embed.set_thumbnail(face);
            embed.push_field(String::from_str("Id:"), id, false);
            embed.push_field(
                String::from_str("Hypesquad House:"),
                String::from_str(user_house(user.public_flags)),
                false,
            );
            embed.push_field(String::from_str("Created:"), created, false);
        },
    }
    assert(embed@.fields =~= user_fields(*user, member));
    embed
}

} // verus!
