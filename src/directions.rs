//! The `directions` text command: `CARL directions <origin> to <destination>`.
use vstd::prelude::*;
use vstd::string::StrSliceExecFns;
use vstd::string::StringExecFns;
use crate::embed::{Embed, EmbedView};
use crate::words::{drop_first, join_words, join_with_spaces, text_command_message_options, words};

verus! {

/// Bytes that UTF-8 takes for `c`.
pub open spec fn utf8_width(c: char) -> nat {
    let u = c as u32;
    if u < 0x80 {
        1
    } else if u < 0x800 {
        2
    } else if u < 0x10000 {
        3
    } else {
        4
    }
}

/// Bytes that UTF-8 takes for `s`.
pub open spec fn utf8_len(s: Seq<char>) -> nat
    decreases s.len(),
{
    if s.len() == 0 {
        0
    } else {
        utf8_len(s.drop_last()) + utf8_width(s.last())
    }
}

proof fn lemma_utf8_len_at_least_chars(s: Seq<char>)
    ensures
        utf8_len(s) >= s.len(),
    decreases s.len(),
{
    if s.len() > 0 {
        lemma_utf8_len_at_least_chars(s.drop_last());
    }
}

/// Whether UTF-8 takes fewer than two bytes for `s`.
pub fn shorter_than_two_bytes(s: &str) -> (r: bool)
    ensures
        r == (utf8_len(s@) < 2),
{
    let n = s.unicode_len();
    if n == 0 {
        true
    } else if n == 1 {
        assert(s@.drop_last() =~= Seq::<char>::empty());
        assert(utf8_len(s@) == utf8_len(s@.drop_last()) + utf8_width(s@.last()));
        (s.get_char(0) as u32) < 0x80
    } else {
        proof {
            lemma_utf8_len_at_least_chars(s@);
        }
        false
    }
}

/// The text between an origin and a destination.
pub open spec fn separator() -> Seq<char> {
    seq![' ', 't', 'o', ' ']
}

/// Whether `pat` occurs in `s` at `i`.
pub open spec fn occurs_at(s: Seq<char>, pat: Seq<char>, i: int) -> bool {
    0 <= i && i + pat.len() <= s.len() && s.subrange(i, i + pat.len()) == pat
}

/// The first place at or after `from` where `pat` occurs in `s`.
pub open spec fn find_from(s: Seq<char>, pat: Seq<char>, from: int) -> Option<int>
    decreases s.len() + 1 - from,
{
    if from < 0 || from + pat.len() > s.len() {
        None
    } else if occurs_at(s, pat, from) {
        Some(from)
    } else {
        find_from(s, pat, from + 1)
    }
}

fn find_separator(s: &str, from: usize) -> (r: Option<usize>)
    ensures
        match r {
            Some(i) => find_from(s@, separator(), from as int) == Some(i as int),
            None => find_from(s@, separator(), from as int) is None,
        },
{
    let n = s.unicode_len();
    let mut i = from;
    while i < n && n - i >= 4
        invariant
            n == s@.len(),
            from <= i,
            find_from(s@, separator(), from as int) == find_from(s@, separator(), i as int),
        decreases n - i,
    {
        if s.get_char(i) == ' ' && s.get_char(i + 1) == 't' && s.get_char(i + 2) == 'o'
            && s.get_char(i + 3) == ' ' {
            assert(s@.subrange(i as int, i + 4) =~= separator());
            return Some(i);
        }
        assert(!occurs_at(s@, separator(), i as int)) by {
            if s@.subrange(i as int, i + 4) == separator() {
                assert(s@[i as int] == s@.subrange(i as int, i + 4)[0]);
                assert(s@[i + 1] == s@.subrange(i as int, i + 4)[1]);
                assert(s@[i + 2] == s@.subrange(i as int, i + 4)[2]);
                assert(s@[i + 3] == s@.subrange(i as int, i + 4)[3]);
            }
        }
        i = i + 1;
    }
    None
}

/// Why a `directions` command could not be read.
#[derive(PartialEq, Eq, Structural, Debug)]
pub enum DirectionsError {
    /// Fewer than two bytes follow the command's first three words.
    MissingLocations,
    /// The words hold no ` to ` between an origin and a destination.
    MissingDestination,
}

/// Where a route starts and where it ends.
#[derive(PartialEq, Eq, Debug)]
pub struct Route {
    pub origin: String,
    pub destination: String,
}

/// What follows the first three words of the command, joined by spaces.
pub open spec fn options_of(content: Seq<char>) -> Seq<char> {
    join_words(drop_first(words(content), 3))
}

/// The route a `directions` command asks for: the text before the first
/// ` to ` and the text from there to the next ` to ` or the end.
pub open spec fn route_of(options: Seq<char>) -> Result<(Seq<char>, Seq<char>), DirectionsError> {
    if utf8_len(options) < 2 {
        Err(DirectionsError::MissingLocations)
    } else {
        match find_from(options, separator(), 0) {
            None => Err(DirectionsError::MissingDestination),
            Some(p) => {
                let end = match find_from(options, separator(), p + 4) {
                    Some(q) => q,
                    None => options.len() as int,
                };
                Ok((options.subrange(0, p), options.subrange(p + 4, end)))
            },
        }
    }
}

/// Reads the route out of the text of a `directions` command.
pub fn parse_directions(content: &str) -> (r: Result<Route, DirectionsError>)
    ensures
        match route_of(options_of(content@)) {
            Ok((o, d)) => r is Ok && r->Ok_0.origin@ == o && r->Ok_0.destination@ == d,
            Err(e) => r == Err::<Route, DirectionsError>(e),
        },
{
    let words = text_command_message_options(content);
    let options = join_with_spaces(&words);
    let s = options.as_str();
    if shorter_than_two_bytes(s) {
        return Err(DirectionsError::MissingLocations);
    }
    let n = s.unicode_len();
    match find_separator(s, 0) {
        None => Err(DirectionsError::MissingDestination),
        Some(p) => {
            proof {
                lemma_find_from_bounds(s@, separator(), 0);
            }
            let end = match find_separator(s, p + 4) {
                Some(q) => {
                    proof {
                        lemma_find_from_bounds(s@, separator(), p + 4);
                    }
                    q
                },
                None => n,
            };
            let origin = String::from_str(s.substring_char(0, p));
            let destination = String::from_str(s.substring_char(p + 4, end));
            Ok(Route { origin, destination })
        },
    }
}

proof fn lemma_find_from_bounds(s: Seq<char>, pat: Seq<char>, from: int)
    ensures
        match find_from(s, pat, from) {
            Some(i) => from <= i && i + pat.len() <= s.len(),
            None => true,
        },
    decreases s.len() + 1 - from,
{
    if !(from < 0 || from + pat.len() > s.len()) && !occurs_at(s, pat, from) {
        lemma_find_from_bounds(s, pat, from + 1);
    }
}

/// The card of a route: the map picture uploaded as `map.png`, the route as
/// title, linking to the page that plans it.
pub open spec fn route_card(origin: Seq<char>, destination: Seq<char>, map_url: Seq<char>) -> EmbedView {
    EmbedView {
        title: Some(origin + " to "@ + destination),
        url: Some(map_url),
        attachment: Some("map.png"@),
        ..EmbedView::empty()
    }
}

/// The card of `route`, linking to `map_url`.
pub fn directions_embed(route: &Route, map_url: String) -> (r: Embed)
    ensures
        r@ == route_card(route.origin@, route.destination@, map_url@),
{
    let mut title = route.origin.clone();
    title.append(" to ");
    title.append(route.destination.as_str());
    let mut e = Embed::new();
    e.set_attachment(String::from_str("map.png"));
    e.set_title(title);
    e.set_url(map_url);
    e
}

} // verus!
