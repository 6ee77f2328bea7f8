//! Small helpers that move characters between `&str`, `Vec<char>` and `String`.
use vstd::prelude::*;
use vstd::string::*;
use vstd::std_specs::iter::IteratorSpec;

verus! {

/// `String::push` of the standard library: the character is appended at the
/// end of the string, and nothing else changes.
pub assume_specification[ String::push ](s: &mut String, c: char)
    ensures
        final(s)@ == old(s)@.push(c),
;

/// The characters of `s`, in order.
pub fn to_chars(s: &str) -> (v: Vec<char>)
    ensures
        v@ == s@,
{
    broadcast use group_string_axioms;

    let mut v: Vec<char> = Vec::new();
    let mut it = s.chars();
    loop
        invariant
            v@ + it.remaining() == s@,
            it.decrease() is Some,
        decreases it.decrease()->0,
    {
        let ghost before = it.remaining();
        match it.next() {
            Some(c) => {
                assert(before == seq![c] + it.remaining());
                assert(v@.push(c) + it.remaining() =~= v@ + before);
                v.push(c);
            },
            None => {
                assert(v@ + it.remaining() =~= v@);
                return v;
            },
        }
    }
}

/// Appends the characters `v[from..to]` to `out`.
pub fn push_range(out: &mut String, v: &Vec<char>, from: usize, to: usize)
    requires
        from <= to <= v.len(),
    ensures
        final(out)@ == old(out)@ + v@.subrange(from as int, to as int),
{
    let mut i: usize = from;
    assert(old(out)@ + v@.subrange(from as int, i as int) =~= old(out)@);
    while i < to
        invariant
            from <= i <= to <= v.len(),
            out@ == old(out)@ + v@.subrange(from as int, i as int),
        decreases to - i,
    {
        out.push(v[i]);
        assert(v@.subrange(from as int, i as int).push(v@[i as int]) =~= v@.subrange(
            from as int,
            i + 1,
        ));
        i += 1;
    }
}

/// Whether `key` spells exactly the characters `v[from..to]`.
pub fn matches_range(key: &str, v: &Vec<char>, from: usize, to: usize) -> (same: bool)
    requires
        from <= to <= v.len(),
    ensures
        same == (key@ == v@.subrange(from as int, to as int)),
{
    broadcast use group_string_axioms;

    let ghost want = v@.subrange(from as int, to as int);
    let mut it = key.chars();
    let mut i: usize = from;
    loop
        invariant
            from <= i <= to <= v.len(),
            want == v@.subrange(from as int, to as int),
            it.decrease() is Some,
            key@.len() == (i - from) + it.remaining().len(),
            key@ =~= v@.subrange(from as int, i as int) + it.remaining(),
        decreases it.decrease()->0,
    {
        let ghost before = it.remaining();
        match it.next() {
            Some(c) => {
                if i >= to {
                    assert(key@.len() > want.len());
                    return false;
                }
                if c != v[i] {
                    assert(key@[i - from] == c);
                    assert(want[i - from] == v@[i as int]);
                    return false;
                }
                assert(v@.subrange(from as int, i as int) + before =~= v@.subrange(
                    from as int,
                    i + 1,
                ) + it.remaining());
                i += 1;
            },
            None => {
                assert(key@ =~= v@.subrange(from as int, i as int));
                if i == to {
                    return true;
                } else {
                    assert(key@.len() < want.len());
                    return false;
                }
            },
        }
    }
}

/// Whether `a` and `b` hold the same characters.
pub fn same_text(a: &str, b: &str) -> (same: bool)
    ensures
        same == (a@ == b@),
{
    let chars = to_chars(b);
    assert(chars@.subrange(0, chars@.len() as int) =~= chars@);
    matches_range(a, &chars, 0, chars.len())
}

/// Whether `text` begins with `prefix`.
pub fn starts_with(text: &str, prefix: &str) -> (yes: bool)
    ensures
        yes == prefix@.is_prefix_of(text@),
{
    let chars = to_chars(text);
    let n = prefix.unicode_len();
    if n > chars.len() {
        return false;
    }
    let same = matches_range(prefix, &chars, 0, n);
    proof {
        if same {
            assert(prefix@ =~= text@.subrange(0, prefix@.len() as int));
        }
        if prefix@.is_prefix_of(text@) {
            assert(prefix@ =~= text@.subrange(0, prefix@.len() as int));
        }
    }
    same
}

} // verus!
