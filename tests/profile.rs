use carl::profile::{contains_flag, snowflake_secs, UserProfile, VERIFIED_BOT};
use carl::text::{decimal_string, push_zero_padded};

fn profile(avatar: Option<&str>, discriminator: u16) -> UserProfile {
    UserProfile {
        id: 175928847299117063,
        name: String::from("Carl"),
        discriminator,
        avatar: avatar.map(String::from),
        bot: false,
        public_flags: Some(0),
    }
}

#[test]
fn decimal_of_zero_and_large_numbers() {
    assert_eq!(decimal_string(0), "0");
    assert_eq!(decimal_string(7), "7");
    assert_eq!(decimal_string(1234567890), "1234567890");
    assert_eq!(decimal_string(u64::MAX), "18446744073709551615");
}

#[test]
fn zero_padding_reaches_the_width_only() {
    let mut s = String::from("#");
    push_zero_padded(&mut s, 7, 4);
    assert_eq!(s, "#0007");
    let mut t = String::new();
    push_zero_padded(&mut t, 12345, 4);
    assert_eq!(t, "12345");
}

#[test]
fn tag_pads_the_discriminator() {
    assert_eq!(profile(None, 7).tag(), "Carl#0007");
    assert_eq!(profile(None, 1234).tag(), "Carl#1234");
}

#[test]
fn face_uses_the_custom_avatar() {
    assert_eq!(
        profile(Some("abc"), 1).face(),
        "https://cdn.discordapp.com/avatars/175928847299117063/abc.webp?size=1024"
    );
    assert_eq!(
        profile(Some("a_abc"), 1).face(),
        "https://cdn.discordapp.com/avatars/175928847299117063/a_abc.gif?size=1024"
    );
}

#[test]
fn face_falls_back_to_a_default_avatar() {
    assert_eq!(profile(None, 7).face(), "https://cdn.discordapp.com/embed/avatars/2.png");
    assert_eq!(profile(None, 0).face(), "https://cdn.discordapp.com/embed/avatars/0.png");
}

#[test]
fn creation_time_of_an_id() {
    assert_eq!(snowflake_secs(0), 1420070400);
    assert_eq!(snowflake_secs(175928847299117063), 1462015105);
    assert_eq!(profile(None, 1).created_at(), 1462015105);
}

#[test]
fn flags_need_every_bit() {
    assert!(contains_flag(VERIFIED_BOT | 1, VERIFIED_BOT));
    assert!(!contains_flag(1 << 15, VERIFIED_BOT));
    assert!(contains_flag(0b110, 0b100));
    assert!(!contains_flag(0b010, 0b110));
}
