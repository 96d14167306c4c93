//! The second form of the user lookup command, a slash command: a record of
//! the target user gathered from several sources, and the card made of it.
use vstd::prelude::*;
use vstd::string::StringExecFns;
use crate::embed::{Embed, EmbedView, FooterView, field_view};
use crate::presence::{Activity, emoji_text, push_emoji_text};
use crate::profile::{has_flag, contains_flag, VERIFIED_BOT};
use crate::text::{decimal, push_decimal};

verus! {

/// The user record of the REST API, as far as the card reads it.
pub struct PartialUser {
    pub id: String,
    pub username: String,
    pub discriminator: String,
    pub public_flags: u32,
}

/// A bot's application record.
pub struct Application {
    pub id: String,
    pub name: String,
    pub icon: String,
}

/// Everything the card shows about the user it is about.
pub struct TargetUser {
    pub user_data: PartialUser,
    /// Nickname in the guild of the command, empty where there is none.
    pub nick: String,
    /// Custom status, empty where there is none.
    pub status: String,
    /// The URL of the user's face.
    pub avatar: String,
    pub creation_date: String,
    pub bot: bool,
    /// Whether the user is a bot that Discord has verified; false for users
    /// that are not bots.
    pub is_verified_bot: bool,
}

/// The REST address of the user record of `id`.
pub open spec fn user_record_url_of(id: u64) -> Seq<char> {
    "https://discord.com/api/v9/users/"@ + decimal(id as nat)
}

/// The REST address of the application record of the bot `id`.
pub open spec fn application_url_of(id: u64) -> Seq<char> {
    "https://discord.com/api/v9/applications/"@ + decimal(id as nat) + "/rpc"@
}

impl PartialUser {
    /// The REST address from which the record of user `id` is fetched.
    pub fn record_url(id: u64) -> (r: String)
        ensures
            r@ == user_record_url_of(id),
    {
        let mut r = String::from_str("https://discord.com/api/v9/users/");
        push_decimal(&mut r, id);
        r
    }
}

/// The custom status of the first activity: its emoji and its text, each
/// where present.
pub open spec fn target_status_of(first_activity: Option<Activity>) -> Seq<char> {
    match first_activity {
        Some(a) => (match a.emoji {
            Some(e) => emoji_text(e),
            None => Seq::empty(),
        }) + (match a.state {
            Some(s) => s@,
            None => Seq::empty(),
        }),
        None => Seq::empty(),
    }
}

/// `"true"` or `"false"`.
pub open spec fn bool_text(b: bool) -> Seq<char> {
    if b {
        "true"@
    } else {
        "false"@
    }
}

/// The card about `user`: tag followed by the nickname in the guild where
/// there is one, face, id, status where there is one, and for
/// a bot whether it is verified and a footer that credits its application.
pub open spec fn target_card(user: TargetUser, application: Option<Application>) -> EmbedView {
    let head = seq![field_view("ID"@, user.user_data.id@, false)];
    let created = field_view("Account Creation Date"@, user.creation_date@, false);
    EmbedView {
        title: Some(
            user.user_data.username@ + "#"@ + user.user_data.discriminator@ + if user.nick@.len()
                > 0 {
                " aka "@ + user.nick@
            } else {
                Seq::empty()
            },
        ),
        description: if user.status@.len() > 0 {
            Some(user.status@)
        } else {
            None
        },
        url: Some(user.avatar@),
        thumbnail: Some(user.avatar@),
        fields: if user.bot {
            head.push(field_view("Verified Bot"@, bool_text(user.is_verified_bot), false)).push(
                created,
            )
        } else {
            head.push(created)
        },
        footer: if user.bot {
            Some(
                FooterView {
                    text: "Brought to you by "@ + application->0.name@ + "!"@,
                    icon_url: "https://cdn.discordapp.com/avatars/"@ + application->0.id@ + "/"@
                        + application->0.icon@ + ".webp?size=1024"@,
                },
            )
        } else {
            None
        },
        ..EmbedView::empty()
    }
}

impl TargetUser {
    /// Gathers the record: `nick` and `first_activity` come from the guild
    /// of the command, `user_data` from the REST API, the rest from the
    /// gateway's user. Only a bot's flags are read.
    pub fn from_user(
        user_data: PartialUser,
        nick: String,
        first_activity: &Option<Activity>,
        avatar: String,
        creation_date: String,
        bot: bool,
        public_flags: Option<u32>,
    ) -> (r: TargetUser)
        requires
            bot ==> public_flags is Some,
        ensures
            r.user_data == user_data,
            r.nick == nick,
            r.status@ == target_status_of(*first_activity),
            r.avatar == avatar,
            r.creation_date == creation_date,
            r.bot == bot,
            r.is_verified_bot == (bot && has_flag(public_flags->0, VERIFIED_BOT)),
    {
        let status = TargetUser::status(first_activity);
        let mut is_verified_bot = false;
        if bot {
            is_verified_bot = TargetUser::is_verified_bot(public_flags);
        }
        TargetUser { user_data, nick, status, avatar, creation_date, bot, is_verified_bot }
    }

    /// The custom status of the first activity of the user's presence, or
    /// nothing where the guild has no presence for the user.
    pub fn status(first_activity: &Option<Activity>) -> (r: String)
        ensures
            r@ == target_status_of(*first_activity),
    {
        let mut result = String::new();
        if let Some(a) = first_activity {
            if let Some(emoji) = &a.emoji {
                push_emoji_text(&mut result, emoji);
            }
            if let Some(state) = &a.state {
                result.append(state.as_str());
            }
        }
        result
    }

    /// Whether the public flags mark a verified bot.
    pub fn is_verified_bot(public_flags: Option<u32>) -> (r: bool)
        requires
            public_flags is Some,
        ensures
            r == has_flag(public_flags->0, VERIFIED_BOT),
    {
        contains_flag(public_flags.unwrap(), VERIFIED_BOT)
    }

    /// The REST address from which the application record of the bot `id`
    /// is fetched.
    pub fn bot_application_url(id: u64) -> (r: String)
        ensures
            r@ == application_url_of(id),
    {
        let mut r = String::from_str("https://discord.com/api/v9/applications/");
        push_decimal(&mut r, id);
        r.append("/rpc");
        r
    }

    /// The card about this user; a bot's card needs its application record.
    pub fn embed(&self, application: Option<&Application>) -> (r: Embed)
        requires
            self.bot ==> application is Some,
        ensures
            r@ == target_card(
                *self,
                match application {
                    Some(a) => Some(*a),
                    None => None,
                },
            ),
    {
        let mut e = Embed::new();
        let mut title = self.user_data.username.clone();
        title.append("#");
        title.append(self.user_data.discriminator.as_str());
        if !self.nick.as_str().is_empty() {
            title.append(" aka ");
            title.append(self.nick.as_str());
        }
        assert(title@ =~= target_card(*self, None).title->0);
        e.set_title(title);
        e.set_thumbnail(self.avatar.clone());
        e.set_url(self.avatar.clone());
        e.push_field(String::from_str("ID"), self.user_data.id.clone(), false);
        if !self.status.as_str().is_empty() {
            e.set_description(self.status.clone());
        }
        if self.bot {
            let verified = if self.is_verified_bot {
                String::from_str("true")
            } else {
                String::from_str("false")
            };
            e.push_field(String::from_str("Verified Bot"), verified, false);
            let app = application.unwrap();
            let mut icon_url = String::from_str("https://cdn.discordapp.com/avatars/");
            icon_url.append(app.id.as_str());
            icon_url.append("/");
            icon_url.append(app.icon.as_str());
            icon_url.append(".webp?size=1024");
            let mut text = String::from_str("Brought to you by ");
            text.append(app.name.as_str());
            text.append("!");
            e.set_footer(text, icon_url);
        }
        e.push_field(
            String::from_str("Account Creation Date"),
            self.creation_date.clone(),
            false,
        );
        proof {
            let app_view = match application {
                Some(a) => Some(*a),
                None => None,
            };
            assert(e@.fields =~= target_card(*self, app_view).fields);
        }
        e
    }
}

impl Default for PartialUser {
    fn default() -> (r: PartialUser)
        ensures
            r.id@ == Seq::<char>::empty(),
            r.username@ == Seq::<char>::empty(),
            r.discriminator@ == Seq::<char>::empty(),
            r.public_flags == 0,
    {
        PartialUser {
            id: String::new(),
            username: String::new(),
            discriminator: String::new(),
            public_flags: 0,
        }
    }
}

impl Default for TargetUser {
    fn default() -> (r: TargetUser)
        ensures
            r.user_data.id@ == Seq::<char>::empty(),
            r.user_data.username@ == Seq::<char>::empty(),
            r.user_data.discriminator@ == Seq::<char>::empty(),
            r.user_data.public_flags == 0,
            r.nick@ == Seq::<char>::empty(),
            r.status@ == Seq::<char>::empty(),
            r.avatar@ == Seq::<char>::empty(),
            r.creation_date@ == Seq::<char>::empty(),
            !r.bot,
            !r.is_verified_bot,
    {
        TargetUser {
            user_data: PartialUser {
                id: String::new(),
                username: String::new(),
                discriminator: String::new(),
                public_flags: 0,
            },
            nick: String::new(),
            status: String::new(),
            avatar: String::new(),
            creation_date: String::new(),
            bot: false,
            is_verified_bot: false,
        }
    }
}

} // verus!
