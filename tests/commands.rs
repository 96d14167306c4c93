use carl::commands::{api_url, avatar_url, deletes_messages_in, is_user_info_command};
use carl::composition::{
    composition_embed, composition_target, parse_u64, special_user, CompositionError, SpecialUser,
};
use carl::directions::{directions_embed, parse_directions, shorter_than_two_bytes, DirectionsError, Route};
use carl::maps::{google_maps_url, static_map_url};
use carl::profile::UserProfile;
use carl::words::{join_with_spaces, split_words, text_command_message_options};

fn user(id: u64) -> UserProfile {
    UserProfile {
        id,
        name: String::from("emmy"),
        discriminator: 42,
        avatar: Some(String::from("hash")),
        bot: false,
        public_flags: None,
    }
}

#[test]
fn avatar_address() {
    assert_eq!(
        avatar_url("12", "abc", 1024),
        "https://cdn.discordapp.com/avatars/12/abc.webp?size=1024"
    );
}

#[test]
fn rest_address() {
    assert_eq!(api_url("users/5"), "https://discord.com/api/v9/users/5");
}

#[test]
fn only_the_cleared_channel_is_emptied() {
    assert!(deletes_messages_in(952722147099422730));
    assert!(!deletes_messages_in(952722147099422731));
}

#[test]
fn words_split_on_any_white_space() {
    assert_eq!(split_words("  a\tbc \n d\u{3000}e "), vec!["a", "bc", "d", "e"]);
    assert!(split_words("").is_empty());
    assert!(split_words(" \t\n").is_empty());
}

#[test]
fn options_skip_three_words() {
    assert_eq!(text_command_message_options("CARL x y  a  b"), vec!["a", "b"]);
    assert!(text_command_message_options("CARL x y").is_empty());
    assert!(text_command_message_options("CARL").is_empty());
}

#[test]
fn join_puts_single_spaces() {
    let ws = vec![String::from("a"), String::from("b"), String::from("c")];
    assert_eq!(join_with_spaces(&ws), "a b c");
    assert_eq!(join_with_spaces(&Vec::new()), "");
}

#[test]
fn byte_length_under_two() {
    assert!(shorter_than_two_bytes(""));
    assert!(shorter_than_two_bytes("a"));
    assert!(!shorter_than_two_bytes("é"));
    assert!(!shorter_than_two_bytes("ab"));
}

#[test]
fn directions_read_origin_and_destination() {
    let r = parse_directions("CARL directions please New York to Boston").unwrap();
    assert_eq!(r.origin, "New York");
    assert_eq!(r.destination, "Boston");
}

#[test]
fn directions_stop_at_a_second_separator() {
    let r = parse_directions("CARL directions please A to B to C").unwrap();
    assert_eq!(r.origin, "A");
    assert_eq!(r.destination, "B");
}

#[test]
fn directions_need_locations() {
    assert_eq!(parse_directions("CARL directions please"), Err(DirectionsError::MissingLocations));
    assert_eq!(parse_directions("CARL directions please x"), Err(DirectionsError::MissingLocations));
}

#[test]
fn directions_need_a_destination() {
    assert_eq!(
        parse_directions("CARL directions please Paris"),
        Err(DirectionsError::MissingDestination)
    );
}

#[test]
fn google_maps_page() {
    assert_eq!(
        google_maps_url("New York", "Boston"),
        "https://www.google.com/maps/dir/?api=1&origin=New+York&destination=Boston"
    );
}

#[test]
fn static_map_picture() {
    assert_eq!(
        static_map_url("A", "B", "tok"),
        "https://maps.googleapis.com/maps/api/staticmap?size=512x512&maptype=roadmap%5C&key=tok&markers=A%7CB"
    );
}

#[test]
fn parse_like_str_parse() {
    assert_eq!(parse_u64("42"), Some(42));
    assert_eq!(parse_u64("+42"), Some(42));
    assert_eq!(parse_u64("18446744073709551615"), Some(u64::MAX));
    assert_eq!(parse_u64("18446744073709551616"), None);
    assert_eq!(parse_u64(""), None);
    assert_eq!(parse_u64("+"), None);
    assert_eq!(parse_u64("-1"), None);
    assert_eq!(parse_u64("4x2"), None);
}

#[test]
fn composition_target_is_the_third_word() {
    assert_eq!(composition_target("CARL user_composition 688187112335474753"), Ok(688187112335474753));
    assert_eq!(composition_target("CARL user_composition abc"), Err(CompositionError::NotAnId));
    assert_eq!(composition_target("CARL user_composition"), Err(CompositionError::MissingId));
}

#[test]
fn special_users_are_known_by_id() {
    assert_eq!(special_user(688187112335474753), Some(SpecialUser::Emmy));
    assert_eq!(special_user(688130941582966946), Some(SpecialUser::Kenna));
    assert_eq!(special_user(1), None);
}

#[test]
fn composition_of_emmy() {
    let e = composition_embed(&user(688187112335474753));
    assert_eq!(e.title.as_deref(), Some("emmy#0042"));
    assert_eq!(
        e.thumbnail.as_deref(),
        Some("https://cdn.discordapp.com/emojis/845122742378168360.png?v=1")
    );
    assert_eq!(e.fields.len(), 1);
    assert_eq!(e.fields[0].name, "Memeness:");
    assert_eq!(e.fields[0].value, "20000000000%");
    assert!(!e.fields[0].inline);
}

#[test]
fn composition_of_a_known_user() {
    let e = composition_embed(&user(348275601934778368));
    assert_eq!(e.title.as_deref(), Some("emmy#0042"));
    assert_eq!(
        e.thumbnail.as_deref(),
        Some("https://cdn.discordapp.com/avatars/348275601934778368/hash.webp?size=1024")
    );
    assert!(e.description.is_none());
    assert!(e.fields.is_empty());
}

#[test]
fn composition_of_anybody_else() {
    let e = composition_embed(&user(5));
    assert_eq!(e.title.as_deref(), Some("emmy#0042"));
    assert!(e.description.unwrap().starts_with("We dont have any records"));
}

#[test]
fn user_info_command_name() {
    assert!(is_user_info_command("userinfo"));
    assert!(!is_user_info_command("userinf"));
    assert!(!is_user_info_command("userinfO"));
    assert!(!is_user_info_command(""));
}

#[test]
fn route_card() {
    let route = Route { origin: String::from("A"), destination: String::from("B") };
    let e = directions_embed(&route, String::from("https://maps"));
    assert_eq!(e.title.as_deref(), Some("A to B"));
    assert_eq!(e.url.as_deref(), Some("https://maps"));
    assert_eq!(e.attachment.as_deref(), Some("map.png"));
    assert!(e.fields.is_empty());
}
