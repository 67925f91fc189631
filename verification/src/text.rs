//! Text as the grader sees it: equality of two texts, and the removal of
//! trailing white space.

use vstd::prelude::*;
use vstd::string::StrSliceExecFns;
use vstd::utf8::encode_utf8_decode_utf8;

verus! {

/// Whether `c` is white space: a character that Unicode marks as
/// `White_Space`. These are the tab, the four line and page controls after
/// it, the space, the next-line control, the no-break space, the Ogham space
/// mark, the spaces from en quad to hair space, the line and paragraph
/// separators, the narrow no-break space, the medium mathematical space and
/// the ideographic space.
pub open spec fn is_whitespace(c: char) -> bool {
    let p = c as u32;
    ||| 0x0009 <= p <= 0x000D
    ||| p == 0x0020
    ||| p == 0x0085
    ||| p == 0x00A0
    ||| p == 0x1680
    ||| 0x2000 <= p <= 0x200A
    ||| p == 0x2028
    ||| p == 0x2029
    ||| p == 0x202F
    ||| p == 0x205F
    ||| p == 0x3000
}

/// Whether a text is free of trailing white space: it is empty or its last
/// character is not white space.
pub open spec fn ends_clean(s: Seq<char>) -> bool {
    s.len() == 0 || !is_whitespace(s.last())
}

/// The text `s` without its trailing white space.
pub open spec fn trim_end(s: Seq<char>) -> Seq<char>
    decreases s.len(),
{
    if s.len() > 0 && is_whitespace(s.last()) {
        trim_end(s.drop_last())
    } else {
        s
    }
}

/// What `trim_end` removes and what it leaves: the result is a prefix of the
/// text, is free of trailing white space, and everything after it is white
/// space.
pub proof fn lemma_trim_end(s: Seq<char>)
    ensures
        trim_end(s).len() <= s.len(),
        trim_end(s) == s.subrange(0, trim_end(s).len() as int),
        ends_clean(trim_end(s)),
        forall|i: int| trim_end(s).len() <= i < s.len() ==> is_whitespace(#[trigger] s[i]),
    decreases s.len(),
{
    if s.len() > 0 && is_whitespace(s.last()) {
        let shorter = s.drop_last();
        lemma_trim_end(shorter);
        let kept = trim_end(shorter);
        assert(kept =~= s.subrange(0, kept.len() as int));
        assert forall|i: int| kept.len() <= i < s.len() implies is_whitespace(#[trigger] s[i]) by {
            if i < shorter.len() {
                assert(s[i] == shorter[i]);
            }
        }
    } else {
        assert(s =~= s.subrange(0, s.len() as int));
    }
}

/// A text that is free of trailing white space is left as it is.
pub proof fn lemma_trim_end_of_clean(s: Seq<char>)
    requires
        ends_clean(s),
    ensures
        trim_end(s) == s,
{
}

/// Trimming twice is trimming once.
pub proof fn lemma_trim_end_idempotent(s: Seq<char>)
    ensures
        trim_end(trim_end(s)) == trim_end(s),
{
    lemma_trim_end(s);
    lemma_trim_end_of_clean(trim_end(s));
}

/// Tells whether `c` is white space.
pub fn char_is_whitespace(c: char) -> (r: bool)
    ensures
        r == is_whitespace(c),
{
    let p: u32 = c as u32;
    let control = 0x0009 <= p && p <= 0x000D;
    let latin = p == 0x0020 || p == 0x0085 || p == 0x00A0;
    let quads = 0x2000 <= p && p <= 0x200A;
    let separators = p == 0x2028 || p == 0x2029;
    let others = p == 0x1680 || p == 0x202F || p == 0x205F || p == 0x3000;
    control || latin || quads || separators || others
}

/// Removes the trailing white space of `text`.
pub fn trim_trailing(text: &str) -> (r: &str)
    ensures
        r@ == trim_end(text@),
{
    let len: usize = text.unicode_len();
    let mut seen: usize = 0;
    let mut keep: usize = 0;
    assert(text@.subrange(0, 0) =~= Seq::<char>::empty());
    for c in it: text.chars()
        invariant
            it.seq() == text@,
            len == text@.len(),
            seen == it.index(),
            keep == trim_end(text@.subrange(0, seen as int)).len(),
    {
        proof {
            let longer = text@.subrange(0, seen + 1);
            assert(longer.last() == c);
            assert(longer.drop_last() =~= text@.subrange(0, seen as int));
        }
        seen = seen + 1;
        if !char_is_whitespace(c) {
            keep = seen;
        }
    }
    proof {
        assert(text@.subrange(0, seen as int) =~= text@);
        lemma_trim_end(text@);
    }
    text.substring_char(0, keep)
}

/// Tells whether two byte strings are the same.
fn same_bytes(a: &[u8], b: &[u8]) -> (r: bool)
    ensures
        r == (a@ == b@),
{
    if a.len() != b.len() {
        return false;
    }
    let mut i: usize = 0;
    while i < a.len()
        invariant
            i <= a.len(),
            a.len() == b.len(),
            forall|j: int| 0 <= j < i ==> a@[j] == b@[j],
        decreases a.len() - i,
    {
        if a[i] != b[i] {
            return false;
        }
        i = i + 1;
    }
    assert(a@ =~= b@);
    true
}

/// Tells whether two texts are the same, character for character.
pub fn same_text(a: &str, b: &str) -> (r: bool)
    ensures
        r == (a@ == b@),
{
    proof {
        encode_utf8_decode_utf8(a@);
        encode_utf8_decode_utf8(b@);
    }
    same_bytes(a.as_bytes(), b.as_bytes())
}

} // verus!
