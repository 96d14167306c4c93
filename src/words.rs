//! The words of a message: maximal runs of characters other than white space.
use vstd::prelude::*;
use vstd::string::StrSliceExecFns;
use vstd::string::StringExecFns;

verus! {

/// Unicode's White_Space property.
pub open spec fn is_white_space(c: char) -> bool {
    let u = c as u32;
    (9 <= u && u <= 13) || u == 32 || u == 0x85 || u == 0xA0 || u == 0x1680 || (0x2000 <= u && u
        <= 0x200A) || u == 0x2028 || u == 0x2029 || u == 0x202F || u == 0x205F || u == 0x3000
}

/// Whether `c` is white space, as Unicode's White_Space property says.
pub fn white_space(c: char) -> (r: bool)
    ensures
        r == is_white_space(c),
{
    let u = c as u32;
    (9 <= u && u <= 13) || u == 32 || u == 0x85 || u == 0xA0 || u == 0x1680 || (0x2000 <= u && u
        <= 0x200A) || u == 0x2028 || u == 0x2029 || u == 0x202F || u == 0x205F || u == 0x3000
}

/// The words of `s` in order: each maximal run of characters that are not
/// white space.
pub open spec fn words(s: Seq<char>) -> Seq<Seq<char>>
    decreases s.len(),
{
    if s.len() == 0 {
        Seq::empty()
    } else {
        let init = words(s.drop_last());
        let c = s.last();
        if is_white_space(c) {
            init
        } else if s.len() >= 2 && !is_white_space(s[s.len() - 2]) {
            init.update(init.len() - 1, init.last().push(c))
        } else {
            init.push(seq![c])
        }
    }
}

/// The words joined by single spaces.
pub open spec fn join_words(ws: Seq<Seq<char>>) -> Seq<char>
    decreases ws.len(),
{
    if ws.len() == 0 {
        Seq::empty()
    } else if ws.len() == 1 {
        ws[0]
    } else {
        join_words(ws.drop_last()) + seq![' '] + ws.last()
    }
}

pub open spec fn strings_view(v: Seq<String>) -> Seq<Seq<char>> {
    v.map_values(|w: String| w@)
}

/// The words of `s`, as `str::split_whitespace` yields them.
pub fn split_words(s: &str) -> (r: Vec<String>)
    ensures
        strings_view(r@) == words(s@),
{
    let n = s.unicode_len();
    let mut r: Vec<String> = Vec::new();
    let mut start: Option<usize> = None;
    let mut i: usize = 0;
    while i < n
        invariant
            n == s@.len(),
            i <= n,
            match start {
                None => strings_view(r@) == words(s@.take(i as int)) && (i == 0
                    || is_white_space(s@[i - 1])),
                Some(st) => st < i && strings_view(r@).push(s@.subrange(st as int, i as int))
                    == words(s@.take(i as int)) && (st == 0 || is_white_space(s@[st - 1]))
                    && (forall|k: int| st <= k < i ==> !is_white_space(#[trigger] s@[k])),
            },
        decreases n - i,
    {
        let c = s.get_char(i);
        let ghost before = s@.take(i as int);
        let ghost after = s@.take(i + 1);
        assert(after.drop_last() =~= before);
        assert(after.last() == c);
        if white_space(c) {
            if let Some(st) = start {
                let ghost old_r = r@;
                let w = String::from_str(s.substring_char(st, i));
                r.push(w);
                assert(strings_view(r@) =~= strings_view(old_r).push(w@));
            }
            start = None;
        } else {
            if start.is_none() {
                start = Some(i);
                assert(seq![c] =~= s@.subrange(i as int, i + 1));
            } else {
                let st = start.unwrap();
                proof {
                    let w = words(before);
                    assert(s@.subrange(st as int, i + 1) =~= s@.subrange(st as int, i as int).push(c));
                    assert(strings_view(r@).push(s@.subrange(st as int, i + 1)) =~= w.update(
                        w.len() - 1,
                        w.last().push(c),
                    ));
                }
            }
        }
        i = i + 1;
    }
    if let Some(st) = start {
        let ghost old_r = r@;
        let w = String::from_str(s.substring_char(st, n));
        r.push(w);
        assert(strings_view(r@) =~= strings_view(old_r).push(w@));
    }
    assert(s@.take(n as int) =~= s@);
    r
}

/// `ws` without its first `n` items; empty where it has no more than `n`.
pub open spec fn drop_first<A>(ws: Seq<A>, n: nat) -> Seq<A> {
    if ws.len() <= n {
        Seq::empty()
    } else {
        ws.subrange(n as int, ws.len() as int)
    }
}

/// The words of a text command that follow its first three words.
pub fn text_command_message_options(content: &str) -> (r: Vec<String>)
    ensures
        strings_view(r@) == drop_first(words(content@), 3),
{
    let all = split_words(content);
    let mut r: Vec<String> = Vec::new();
    let mut i: usize = 3;
    if all.len() <= 3 {
        assert(strings_view(r@) =~= drop_first(words(content@), 3));
        return r;
    }
    while i < all.len()
        invariant
            3 <= i <= all.len(),
            strings_view(all@) == words(content@),
            strings_view(r@) == strings_view(all@).subrange(3, i as int),
        decreases all.len() - i,
    {
        let ghost old_r = r@;
        r.push(all[i].clone());
        assert(r@ =~= old_r.push(all@[i as int]));
        assert(strings_view(r@) =~= strings_view(old_r).push(all@[i as int]@));
        assert(strings_view(r@) =~= strings_view(all@).subrange(3, i + 1));
        i = i + 1;
    }
    assert(strings_view(r@) =~= drop_first(words(content@), 3));
    r
}

/// The words joined by single spaces.
pub fn join_with_spaces(ws: &Vec<String>) -> (r: String)
    ensures
        r@ == join_words(strings_view(ws@)),
{
    let mut r = String::new();
    let mut i: usize = 0;
    while i < ws.len()
        invariant
            i <= ws.len(),
            r@ == join_words(strings_view(ws@).take(i as int)),
        decreases ws.len() - i,
    {
        let ghost prefix = strings_view(ws@).take(i + 1);
        assert(prefix.drop_last() =~= strings_view(ws@).take(i as int));
        if i > 0 {
            proof {
                reveal_strlit(" ");
            }
            r.append(" ");
        }
        r.append(ws[i].as_str());
        assert(r@ =~= join_words(prefix));
        i = i + 1;
    }
    assert(strings_view(ws@).take(ws.len() as int) =~= strings_view(ws@));
    r
}

} // verus!
