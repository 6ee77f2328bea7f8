//! Shortcode substitution: `:name:` becomes the glyph the table gives for
//! `name`; everything else is kept as written.
use vstd::prelude::*;
use crate::emoji_table::{glyph, glyph_at, shortcode, shortcode_at, TABLE_LEN};
use crate::text::{matches_range, push_range, to_chars};
use vstd::string::*;

verus! {

/// The first table index at or after `from` whose name is `name`.
pub open spec fn find_shortcode(name: Seq<char>, from: int) -> Option<int>
    decreases TABLE_LEN - from,
{
    if from < 0 || from >= TABLE_LEN {
        None
    } else if shortcode_at(from) == name {
        Some(from)
    } else {
        find_shortcode(name, from + 1)
    }
}

/// The glyph that the table gives for `name`, if it lists the name.
pub open spec fn glyph_of(name: Seq<char>) -> Option<Seq<char>> {
    match find_shortcode(name, 0) {
        Some(i) => Some(glyph_at(i)),
        None => None,
    }
}

/// Index of the first colon in `s`, or `s.len()` where it has none.
pub open spec fn next_colon(s: Seq<char>) -> nat
    decreases s.len(),
{
    if s.len() == 0 || s[0] == ':' {
        0
    } else {
        1 + next_colon(s.drop_first())
    }
}

/// The colon that is written out in front of a token whose left colon is
/// still unclaimed.
pub open spec fn lead(pending: bool) -> Seq<char> {
    if pending {
        seq![':']
    } else {
        Seq::empty()
    }
}

/// The text that `s` becomes. `pending` says that a colon stands directly
/// in front of `s` and has not been used up by a glyph: only then can the first
/// token of `s` be a shortcode. A token is a shortcode when it is closed by a
/// further colon, is not empty, and is listed in the table; its two colons
/// vanish with it. The token after the last colon is never one.
pub open spec fn render(s: Seq<char>, pending: bool) -> Seq<char>
    decreases s.len(),
{
    let j = next_colon(s) as int;
    if j >= s.len() {
        lead(pending) + s
    } else {
        let token = s.subrange(0, j);
        let rest = s.subrange(j + 1, s.len() as int);
        if pending && token.len() > 0 && glyph_of(token) is Some {
            glyph_of(token).unwrap() + render(rest, false)
        } else {
            lead(pending) + token + render(rest, true)
        }
    }
}

/// What shortcode substitution makes of a whole text.
pub open spec fn expand(s: Seq<char>) -> Seq<char> {
    render(s, false)
}

/// `next_colon` is the position of the first colon, or the length.
pub proof fn lemma_next_colon(s: Seq<char>, k: int)
    requires
        0 <= k <= s.len(),
        forall|i: int| 0 <= i < k ==> s[i] != ':',
        k == s.len() || s[k] == ':',
    ensures
        next_colon(s) == k,
    decreases s.len(),
{
    if k > 0 {
        lemma_next_colon(s.drop_first(), k - 1);
    }
}

/// A text without a colon holds no shortcode: substitution returns it as it
/// is, and so substituting twice gives what substituting once gives.
pub proof fn lemma_expand_without_colon(s: Seq<char>)
    requires
        forall|i: int| 0 <= i < s.len() ==> s[i] != ':',
    ensures
        expand(s) == s,
        expand(expand(s)) == expand(s),
{
    lemma_next_colon(s, s.len() as int);
    assert(lead(false) + s =~= s);
}

/// A text none of whose pieces is a listed name comes back as it is, colons
/// and all. `pending` only adds the colon that stands in front.
pub proof fn lemma_render_without_names(s: Seq<char>, pending: bool)
    requires
        forall|i: int, j: int| 0 <= i <= j <= s.len() ==> glyph_of(#[trigger] s.subrange(i, j)) is None,
    ensures
        render(s, pending) == lead(pending) + s,
    decreases s.len(),
{
    let j = next_colon(s) as int;
    if j < s.len() {
        lemma_next_colon_is_colon(s);
        let token = s.subrange(0, j);
        let rest = s.subrange(j + 1, s.len() as int);
        assert forall|a: int, b: int| 0 <= a <= b <= rest.len() implies glyph_of(
            #[trigger] rest.subrange(a, b),
        ) is None by {
            assert(rest.subrange(a, b) =~= s.subrange(j + 1 + a, j + 1 + b));
        }
        lemma_render_without_names(rest, true);
        assert(lead(pending) + token + (lead(true) + rest) =~= lead(pending) + s);
    }
}

/// Where `next_colon` is inside the text, a colon stands there.
pub proof fn lemma_next_colon_is_colon(s: Seq<char>)
    ensures
        next_colon(s) <= s.len(),
        next_colon(s) < s.len() ==> s[next_colon(s) as int] == ':',
        forall|i: int| 0 <= i < next_colon(s) ==> s[i] != ':',
    decreases s.len(),
{
    if s.len() > 0 && s[0] != ':' {
        lemma_next_colon_is_colon(s.drop_first());
        assert forall|i: int| 0 <= i < next_colon(s) implies s[i] != ':' by {
            if i > 0 {
                assert(s[i] == s.drop_first()[i - 1]);
            }
        }
    }
}

/// Looks the token `chars[from..to]` up in the table.
pub fn lookup(chars: &Vec<char>, from: usize, to: usize) -> (hit: Option<&'static str>)
    requires
        from <= to <= chars.len(),
    ensures
        match hit {
            Some(g) => glyph_of(chars@.subrange(from as int, to as int)) == Some(g@),
            None => glyph_of(chars@.subrange(from as int, to as int)) is None,
        },
{
    let ghost name = chars@.subrange(from as int, to as int);
    let mut i: usize = 0;
    while i < TABLE_LEN
        invariant
            i <= TABLE_LEN,
            from <= to <= chars.len(),
            name == chars@.subrange(from as int, to as int),
            find_shortcode(name, 0) == find_shortcode(name, i as int),
        decreases TABLE_LEN - i,
    {
        if matches_range(shortcode(i), chars, from, to) {
            return Some(glyph(i));
        }
        i += 1;
    }
    None
}

/// Position of the first colon of `chars` at or after `from`.
fn find_colon(chars: &Vec<char>, from: usize) -> (j: usize)
    requires
        from <= chars.len(),
    ensures
        from <= j <= chars.len(),
        j - from == next_colon(chars@.subrange(from as int, chars.len() as int)),
{
    let mut j: usize = from;
    while j < chars.len() && chars[j] != ':'
        invariant
            from <= j <= chars.len(),
            forall|i: int| from <= i < j ==> chars@[i] != ':',
        decreases chars.len() - j,
    {
        j += 1;
    }
    proof {
        lemma_next_colon(chars@.subrange(from as int, chars.len() as int), j - from);
    }
    j
}

/// Replaces every `:name:` whose name the table lists by its glyph and leaves
/// the rest of the text, unknown names and their colons included, as it is.
pub fn replace_emoji(s: &str) -> (out: String)
    ensures
        out@ == expand(s@),
{
    let chars = to_chars(s);
    let n = chars.len();
    let mut out = String::new();
    let mut pos: usize = 0;
    let mut pending = false;
    assert(chars@.subrange(0, n as int) =~= chars@);
    loop
        invariant
            n == chars.len(),
            chars@ == s@,
            pos <= n,
            out@ + render(chars@.subrange(pos as int, n as int), pending) == expand(s@),
        decreases n - pos,
    {
        let ghost tail = chars@.subrange(pos as int, n as int);
        let j = find_colon(&chars, pos);
        if j >= n {
            if pending {
                out.push(':');
            }
            push_range(&mut out, &chars, pos, n);
            assert(out@ =~= expand(s@));
            return out;
        }
        assert(tail.subrange(0, j - pos) =~= chars@.subrange(pos as int, j as int));
        assert(tail.subrange(j - pos + 1, tail.len() as int) =~= chars@.subrange(
            j + 1,
            n as int,
        ));
        let hit = if pending && j > pos {
            lookup(&chars, pos, j)
        } else {
            None
        };
        let ghost before = out@;
        let ghost was_pending = pending;
        match hit {
            Some(g) => {
                out.append(g);
                pending = false;
            },
            None => {
                if pending {
                    out.push(':');
                }
                push_range(&mut out, &chars, pos, j);
                pending = true;
                assert(out@ =~= before + (lead(was_pending) + tail.subrange(0, j - pos)));
            },
        }
        pos = j + 1;
        assert(out@ + render(chars@.subrange(pos as int, n as int), pending) =~= before + render(
            tail,
            was_pending,
        ));
    }
}

} // verus!
