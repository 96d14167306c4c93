//! The `user_composition` text command: `CARL user_composition <user id>`,
//! answered with a card for a handful of known users and a default one for
//! everybody else.
use vstd::prelude::*;
use vstd::string::StrSliceExecFns;
use vstd::string::StringExecFns;
use crate::embed::{Embed, EmbedView, field_view};
use crate::profile::UserProfile;
use crate::words::{split_words, strings_view, words};

verus! {

/// Whether `c` is an ASCII decimal digit.
pub open spec fn is_digit(c: char) -> bool {
    48 <= (c as u32) && (c as u32) <= 57
}

/// The value of a decimal digit.
pub open spec fn digit_value(c: char) -> nat {
    ((c as u32) - 48) as nat
}

/// The number that a run of decimal digits writes.
pub open spec fn digits_value(s: Seq<char>) -> nat
    decreases s.len(),
{
    if s.len() == 0 {
        0
    } else {
        digits_value(s.drop_last()) * 10 + digit_value(s.last())
    }
}

/// `s` without a leading `+`.
pub open spec fn unsigned_part(s: Seq<char>) -> Seq<char> {
    if s.len() > 0 && s[0] == '+' {
        s.drop_first()
    } else {
        s
    }
}

/// `s` read as a `u64` in the way of `str::parse`: an optional `+`, then at
/// least one decimal digit and nothing else, with a value that fits.
pub open spec fn parsed_u64(s: Seq<char>) -> Option<u64> {
    let d = unsigned_part(s);
    if d.len() > 0 && (forall|i: int| 0 <= i < d.len() ==> is_digit(#[trigger] d[i]))
        && digits_value(d) <= u64::MAX {
        Some(digits_value(d) as u64)
    } else {
        None
    }
}

proof fn lemma_prefix_value_at_most(s: Seq<char>, i: int)
    requires
        0 <= i <= s.len(),
    ensures
        digits_value(s.take(i)) <= digits_value(s),
    decreases s.len(),
{
    if i < s.len() {
        lemma_prefix_value_at_most(s.drop_last(), i);
        assert(s.drop_last().take(i) =~= s.take(i));
    } else {
        assert(s.take(i) =~= s);
    }
}

/// Reads `s` as a `u64`, as `str::parse` does.
pub fn parse_u64(s: &str) -> (r: Option<u64>)
    ensures
        r == parsed_u64(s@),
{
    let n = s.unicode_len();
    let start: usize = if n > 0 && s.get_char(0) == '+' {
        1
    } else {
        0
    };
    let ghost d = s@.subrange(start as int, n as int);
    assert(d =~= unsigned_part(s@));
    if start == n {
        return None;
    }
    let mut i = start;
    while i < n
        invariant
            start <= i <= n,
            n == s@.len(),
            d == s@.subrange(start as int, n as int),
            d == unsigned_part(s@),
            forall|k: int| 0 <= k < i - start ==> is_digit(#[trigger] d[k]),
        decreases n - i,
    {
        let c = s.get_char(i);
        assert(d[i - start] == c);
        if !((c as u32) >= 48 && (c as u32) <= 57) {
            assert(!is_digit(d[i - start]));
            assert(parsed_u64(s@) is None);
            return None;
        }
        i = i + 1;
    }
    let mut value: u64 = 0;
    let mut j = start;
    while j < n
        invariant
            start <= j <= n,
            n == s@.len(),
            d == s@.subrange(start as int, n as int),
            d == unsigned_part(s@),
            forall|k: int| 0 <= k < d.len() ==> is_digit(#[trigger] d[k]),
            value as nat == digits_value(d.take(j - start)),
        decreases n - j,
    {
        let c = s.get_char(j);
        assert(d[j - start] == c);
        assert(is_digit(d[j - start]));
        let digit = (c as u32 - 48) as u64;
        assert(d.take(j + 1 - start).drop_last() =~= d.take(j - start));
        assert(digits_value(d.take(j + 1 - start)) == value * 10 + digit);
        if value > 1844674407370955161 || (value == 1844674407370955161 && digit > 5) {
            proof {
                lemma_prefix_value_at_most(d, j + 1 - start);
                assert(value * 10 + digit > u64::MAX) by (nonlinear_arith)
                    requires
                        value > 1844674407370955161 || (value == 1844674407370955161 && digit
                            > 5),
                ;
            }
            assert(parsed_u64(s@) is None);
            return None;
        }
        value = value * 10 + digit;
        j = j + 1;
    }
    assert(d.take(n - start) =~= d);
    Some(value)
}

/// Why a `user_composition` command names no user.
#[derive(PartialEq, Eq, Structural, Debug)]
pub enum CompositionError {
    /// The command has fewer than three words.
    MissingId,
    /// The third word is not a user id.
    NotAnId,
}

/// The user id that a `user_composition` command names: its third word.
pub open spec fn composition_target_of(content: Seq<char>) -> Result<u64, CompositionError> {
    let ws = words(content);
    if ws.len() < 3 {
        Err(CompositionError::MissingId)
    } else {
        match parsed_u64(ws[2]) {
            Some(id) => Ok(id),
            None => Err(CompositionError::NotAnId),
        }
    }
}

/// Reads the user id out of the text of a `user_composition` command.
pub fn composition_target(content: &str) -> (r: Result<u64, CompositionError>)
    ensures
        r == composition_target_of(content@),
{
    let ws = split_words(content);
    if ws.len() < 3 {
        return Err(CompositionError::MissingId);
    }
    assert(strings_view(ws@)[2] == ws@[2]@);
    match parse_u64(ws[2].as_str()) {
        Some(id) => Ok(id),
        None => Err(CompositionError::NotAnId),
    }
}

/// The users whose composition is on record.
#[derive(PartialEq, Eq, Structural, Debug, Clone, Copy)]
pub enum SpecialUser {
    Kenna,
    Keegan,
    Sofia,
    Ale,
    Moosh,
    Emmy,
}

pub open spec fn special_user_of(id: u64) -> Option<SpecialUser> {
    if id == 688130941582966946 {
        Some(SpecialUser::Kenna)
    } else if id == 348275601934778368 {
        Some(SpecialUser::Keegan)
    } else if id == 838926666822582292 {
        Some(SpecialUser::Sofia)
    } else if id == 326877252811751426 {
        Some(SpecialUser::Ale)
    } else if id == 485605533227679756 {
        Some(SpecialUser::Moosh)
    } else if id == 688187112335474753 {
        Some(SpecialUser::Emmy)
    } else {
        None
    }
}

/// The known user with id `id`, if any.
pub fn special_user(id: u64) -> (r: Option<SpecialUser>)
    ensures
        r == special_user_of(id),
{
    if id == 688130941582966946 {
        Some(SpecialUser::Kenna)
    } else if id == 348275601934778368 {
        Some(SpecialUser::Keegan)
    } else if id == 838926666822582292 {
        Some(SpecialUser::Sofia)
    } else if id == 326877252811751426 {
        Some(SpecialUser::Ale)
    } else if id == 485605533227679756 {
        Some(SpecialUser::Moosh)
    } else if id == 688187112335474753 {
        Some(SpecialUser::Emmy)
    } else {
        None
    }
}

/// A card with the tag as title and the face as thumbnail.
pub open spec fn plain_card(user: UserProfile) -> EmbedView {
    EmbedView {
        title: Some(user.tag_spec()),
        thumbnail: Some(user.face_spec()),
        ..EmbedView::empty()
    }
}

pub open spec fn default_card(user: UserProfile) -> EmbedView {
    EmbedView {
        description: Some(
            "We dont have any records on your composition, but you are certifiably cool! <:fingerguns:810343397311250455> "@,
        ),
        ..plain_card(user)
    }
}

pub open spec fn emmy_card(user: UserProfile) -> EmbedView {
    EmbedView {
        title: Some(user.tag_spec()),
        description: Some(
            "According to our fantastically meticulous records, the user's composition is as follows:"@,
        ),
        thumbnail: Some("https://cdn.discordapp.com/emojis/845122742378168360.png?v=1"@),
        fields: seq![field_view("Memeness:"@, "20000000000%"@, false)],
        ..EmbedView::empty()
    }
}

/// The card that answers `user_composition` for `user`.
pub open spec fn composition_card(user: UserProfile) -> EmbedView {
    match special_user_of(user.id) {
        Some(SpecialUser::Emmy) => emmy_card(user),
        Some(_) => plain_card(user),
        None => default_card(user),
    }
}

fn plain_embed(user: &UserProfile) -> (r: Embed)
    ensures
        r@ == plain_card(*user),
{
    let mut e = Embed::new();
    e.set_title(user.tag());
    e.set_thumbnail(user.face());
    e
}

/// The card for a user with no record.
pub fn default_embed(user: &UserProfile) -> (r: Embed)
    ensures
        r@ == default_card(*user),
{
    let mut e = plain_embed(user);
    e.set_description(
        String::from_str(
            "We dont have any records on your composition, but you are certifiably cool! <:fingerguns:810343397311250455> ",
        ),
    );
    e
}

pub fn kenna(user: &UserProfile) -> (r: Embed)
    ensures
        r@ == plain_card(*user),
{
    plain_embed(user)
}

pub fn keegan(user: &UserProfile) -> (r: Embed)
    ensures
        r@ == plain_card(*user),
{
    plain_embed(user)
}

pub fn sofia(user: &UserProfile) -> (r: Embed)
    ensures
        r@ == plain_card(*user),
{
    plain_embed(user)
}

pub fn ale(user: &UserProfile) -> (r: Embed)
    ensures
        r@ == plain_card(*user),
{
    plain_embed(user)
}

pub fn moosh(user: &UserProfile) -> (r: Embed)
    ensures
        r@ == plain_card(*user),
{
    plain_embed(user)
}

pub fn emmy(user: &UserProfile) -> (r: Embed)
    ensures
        r@ == emmy_card(*user),
{
    let mut e = Embed::new();
    e.set_title(user.tag());
    e.set_description(
        String::from_str(
            "According to our fantastically meticulous records, the user's composition is as follows:",
        ),
    );
    e.set_thumbnail(String::from_str("https://cdn.discordapp.com/emojis/845122742378168360.png?v=1"));
    e.push_field(String::from_str("Memeness:"), String::from_str("20000000000%"), false);
    assert(e@.fields =~= emmy_card(*user).fields);
    e
}

/// The card that answers `user_composition` for `user`.
pub fn composition_embed(user: &UserProfile) -> (r: Embed)
    ensures
        r@ == composition_card(*user),
{
    match special_user(user.id) {
        Some(SpecialUser::Kenna) => kenna(user),
        Some(SpecialUser::Keegan) => keegan(user),
        Some(SpecialUser::Sofia) => sofia(user),
        Some(SpecialUser::Ale) => ale(user),
        Some(SpecialUser::Moosh) => moosh(user),
        Some(SpecialUser::Emmy) => emmy(user),
        None => default_embed(user),
    }
}

} // verus!
