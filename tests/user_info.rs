use carl::embed::Embed;
use carl::interactions::{Application, PartialUser, TargetUser};
use carl::presence::{Activity, ActivityEmoji};
use carl::profile::{UserProfile, VERIFIED_BOT};
use carl::user::{avatar_url, bot_application_pathway, RequestUser};
use carl::user_info::{
    application_rpc_pathway, create_user_embed, user_house, BotApplication, MemberProfile,
};
use carl::user_lookup::{is_verified_bot, lookup_embed, nickname, status, ApiUser};

fn bot(flags: u32) -> UserProfile {
    UserProfile {
        id: 175928847299117063,
        name: String::from("Carl"),
        discriminator: 1,
        avatar: None,
        bot: true,
        public_flags: Some(flags),
    }
}

fn field(e: &Embed, i: usize) -> (&str, &str, bool) {
    (e.fields[i].name.as_str(), e.fields[i].value.as_str(), e.fields[i].inline)
}

#[test]
fn house_in_order_of_precedence() {
    assert_eq!(user_house(None), "None");
    assert_eq!(user_house(Some(0)), "None");
    assert_eq!(user_house(Some(64 | 256)), "<:hypesquad_bravery:861391996567158784> Bravery");
    assert_eq!(user_house(Some(128 | 256)), "<:hypesquad_brilliance:861392654994112533> Brilliance");
    assert_eq!(user_house(Some(256)), "<:hypesquad_balance:861392618397892628> Balance");
}

#[test]
fn rpc_pathway() {
    assert_eq!(application_rpc_pathway(42), "/applications/42/rpc");
}

#[test]
fn embed_outside_a_guild() {
    let e = create_user_embed(&bot(0), None, None);
    assert_eq!(e.title.as_deref(), Some("Carl#0001"));
    assert!(e.description.is_none());
    assert!(e.footer.is_none());
    assert_eq!(e.url.as_deref(), Some("https://cdn.discordapp.com/embed/avatars/1.png"));
    assert_eq!(e.thumbnail, e.url);
    assert_eq!(e.fields.len(), 3);
    assert_eq!(field(&e, 0), ("Id:", "175928847299117063", false));
    assert_eq!(field(&e, 1), ("Hypesquad House:", "None", false));
    assert_eq!(field(&e, 2), ("Created:", "<t:1462015105:f>", false));
}

#[test]
fn embed_of_a_verified_bot_member_with_application() {
    let member = MemberProfile { nick: Some(String::from("Carly")), joined_at: 1600000000 };
    let app = BotApplication {
        icon: Some(String::from("ic")),
        description: Some(String::from("does things")),
        name: Some(String::from("CarlApp")),
    };
    let e = create_user_embed(&bot(VERIFIED_BOT | 128), Some(member), Some(app));
    assert_eq!(
        e.title.as_deref(),
        Some("Carl#0001 aka Carly <:verified:952780472570740746>")
    );
    assert_eq!(e.description.as_deref(), Some("does things"));
    let footer = e.footer.as_ref().unwrap();
    assert_eq!(footer.text, "Brought to you by CarlApp!");
    assert_eq!(
        footer.icon_url,
        "https://cdn.discordapp.com/avatars/175928847299117063/ic.webp?size=1024"
    );
    assert_eq!(e.fields.len(), 4);
    assert_eq!(field(&e, 1), ("Hypesquad House:", "<:hypesquad_brilliance:861392654994112533> Brilliance", false));
    assert_eq!(field(&e, 2), ("Joined:", "<t:1600000000:f>", false));
    assert_eq!(field(&e, 3), ("Created:", "<t:1462015105:f>", false));
}

#[test]
fn embed_nickname_follows_the_tag() {
    let member = MemberProfile { nick: Some(String::from("Carly")), joined_at: -5 };
    let e = create_user_embed(&bot(0), Some(member), None);
    assert_eq!(e.title.as_deref(), Some("Carl#0001 aka Carly"));
    assert_eq!(e.description.as_deref(), Some(""));
    assert_eq!(field(&e, 2), ("Joined:", "<t:-5:f>", false));
}

#[test]
fn embed_footer_falls_back_to_the_user() {
    let app = BotApplication { icon: None, description: None, name: None };
    let e = create_user_embed(&bot(VERIFIED_BOT), None, Some(app));
    assert_eq!(e.title.as_deref(), Some("Carl#0001 <:verified:952780472570740746>"));
    let footer = e.footer.unwrap();
    assert_eq!(footer.text, "Brought to you by Carl!");
    assert_eq!(footer.icon_url, "https://cdn.discordapp.com/embed/avatars/1.png");
}

fn activity(emoji: Option<(&str, Option<u64>)>, state: Option<&str>) -> Option<Activity> {
    Some(Activity {
        emoji: emoji.map(|(name, id)| ActivityEmoji { name: String::from(name), id }),
        state: state.map(String::from),
    })
}

#[test]
fn status_lines() {
    assert_eq!(status(&None), "(None Available)");
    assert_eq!(status(&activity(None, None)), "(None Available)");
    assert_eq!(status(&activity(None, Some("busy"))), "busy");
    assert_eq!(status(&activity(Some(("cat", Some(9))), Some("busy"))), "<:cat:9> busy");
    assert_eq!(status(&activity(Some(("☕", None)), None)), "☕ ");
}

fn api_user(flags: u32) -> ApiUser {
    ApiUser {
        id: String::from("17"),
        username: String::from("carl"),
        avatar: String::from("abc"),
        discriminator: String::from("0420"),
        public_flags: flags,
    }
}

#[test]
fn verified_bot_flag() {
    assert!(is_verified_bot(&api_user(1 << 16)));
    assert!(!is_verified_bot(&api_user(1 << 15)));
}

#[test]
fn nickname_headings() {
    assert_eq!(nickname(&api_user(0), false, None), "carl");
    assert_eq!(nickname(&api_user(0), false, Some(String::from("c"))), "carl aka c");
    assert_eq!(
        nickname(&api_user(0), true, Some(String::from("c"))),
        "carl aka c <:bot3:844702520646696991><:bot4:844702593002242068>"
    );
    assert_eq!(
        nickname(&api_user(1 << 16), true, None),
        "carl <:bot1:844733440481820673><:bot2:844733440665845780>"
    );
}

#[test]
fn lookup_card() {
    let profile = UserProfile {
        id: 17,
        name: String::from("carl"),
        discriminator: 420,
        avatar: Some(String::from("abc")),
        bot: false,
        public_flags: Some(0),
    };
    let e = lookup_embed(&profile, &api_user(0), None, &activity(None, Some("hi")));
    assert_eq!(e.title.as_deref(), Some("carl"));
    assert_eq!(e.url.as_deref(), Some("https://cdn.discordapp.com/avatars/17/abc.webp?size=1024"));
    assert_eq!(field(&e, 0), ("Status", "hi", false));
    assert_eq!(field(&e, 1), ("ID", "17", true));
    assert_eq!(field(&e, 2), ("Discriminator", "#0420", true));
}

fn partial() -> PartialUser {
    PartialUser {
        id: String::from("17"),
        username: String::from("carl"),
        discriminator: String::from("0420"),
        public_flags: 1 << 16,
    }
}

#[test]
fn target_user_of_a_bot() {
    let t = TargetUser::from_user(
        partial(),
        String::new(),
        &activity(Some(("cat", None)), Some("on")),
        String::from("face"),
        String::from("2016-04-29 11:18:25 UTC"),
        true,
        Some(1 << 16),
    );
    assert_eq!(t.status, "cat on");
    assert!(t.is_verified_bot);
    let app = Application { id: String::from("5"), name: String::from("App"), icon: String::from("ic") };
    let e = t.embed(Some(&app));
    assert_eq!(e.title.as_deref(), Some("carl#0420"));
    assert_eq!(e.description.as_deref(), Some("cat on"));
    assert_eq!(field(&e, 0), ("ID", "17", false));
    assert_eq!(field(&e, 1), ("Verified Bot", "true", false));
    assert_eq!(field(&e, 2), ("Account Creation Date", "2016-04-29 11:18:25 UTC", false));
    let footer = e.footer.unwrap();
    assert_eq!(footer.text, "Brought to you by App!");
    assert_eq!(footer.icon_url, "https://cdn.discordapp.com/avatars/5/ic.webp?size=1024");
}

#[test]
fn target_user_of_a_person() {
    let t = TargetUser::from_user(partial(), String::new(), &None, String::from("face"), String::from("d"), false, None);
    assert_eq!(t.status, "");
    assert!(!t.is_verified_bot);
    let e = t.embed(None);
    assert!(e.description.is_none());
    assert!(e.footer.is_none());
    assert_eq!(e.fields.len(), 2);
    assert_eq!(e.url.as_deref(), Some("face"));
}

#[test]
fn target_user_addresses() {
    assert_eq!(PartialUser::record_url(17), "https://discord.com/api/v9/users/17");
    assert_eq!(TargetUser::bot_application_url(5), "https://discord.com/api/v9/applications/5/rpc");
    assert_eq!(TargetUser::status(&activity(Some(("e", Some(3))), None)), "<:e:3> ");
}

#[test]
fn target_user_default_is_empty() {
    let t = TargetUser::default();
    assert_eq!(t.user_data.id, "");
    assert!(!t.bot);
    assert_eq!(PartialUser::default().public_flags, 0);
}

#[test]
fn request_pathways() {
    assert_eq!(RequestUser::pathway("17"), "users/17");
    assert_eq!(bot_application_pathway("5"), "applications/5/rpc");
    assert_eq!(
        avatar_url(String::from("1"), String::from("h"), 64),
        "https://cdn.discordapp.com/avatars/1/h.webp?size=64"
    );
}

#[test]
fn embed_of_a_person_shows_no_application() {
    let mut person = bot(0);
    person.bot = false;
    let member = MemberProfile { nick: None, joined_at: 0 };
    let app = BotApplication {
        icon: None,
        description: Some(String::from("ignored")),
        name: Some(String::from("App")),
    };
    let e = create_user_embed(&person, Some(member), Some(app));
    assert_eq!(e.title.as_deref(), Some("Carl#0001"));
    assert!(e.footer.is_none());
    assert_eq!(e.description.as_deref(), Some(""));
}

#[test]
fn target_card_shows_the_nickname() {
    let t = TargetUser::from_user(partial(), String::from("cc"), &None, String::from("face"), String::from("d"), false, None);
    let e = t.embed(None);
    assert_eq!(e.title.as_deref(), Some("carl#0420 aka cc"));
}
