//! Character and string helpers shared by the decoders and normalizers.
//!
//! The registry's names are plain ASCII, so the case predicates below are
//! defined over the ASCII letter ranges.

use vstd::prelude::*;

verus! {

/// An ASCII uppercase letter.
pub open spec fn is_upper(c: char) -> bool {
    'A' <= c && c <= 'Z'
}

/// An ASCII lowercase letter.
pub open spec fn is_lower(c: char) -> bool {
    'a' <= c && c <= 'z'
}

/// An ASCII decimal digit.
pub open spec fn is_digit(c: char) -> bool {
    '0' <= c && c <= '9'
}

/// The ASCII uppercase image of a character: lowercase letters are mapped
/// to their uppercase partner, everything else is left alone.
pub open spec fn to_upper(c: char) -> char {
    if is_lower(c) {
        ((c as u8) - 32) as char
    } else {
        c
    }
}

pub fn char_is_upper(c: char) -> (r: bool)
    ensures
        r == is_upper(c),
{
    'A' <= c && c <= 'Z'
}

pub fn char_is_lower(c: char) -> (r: bool)
    ensures
        r == is_lower(c),
{
    'a' <= c && c <= 'z'
}

pub fn char_is_digit(c: char) -> (r: bool)
    ensures
        r == is_digit(c),
{
    '0' <= c && c <= '9'
}

pub fn char_to_upper(c: char) -> (r: char)
    ensures
        r == to_upper(c),
{
    if 'a' <= c && c <= 'z' {
        ((c as u8) - 32) as char
    } else {
        c
    }
}

/// Character-for-character string equality, stated over the views.
pub fn str_eq(a: &str, b: &str) -> (r: bool)
    ensures
        r == (a@ == b@),
{
    let alen = a.unicode_len();
    let blen = b.unicode_len();
    if alen != blen {
        assert(a@ != b@) by {
            assert(a@.len() != b@.len());
        }
        return false;
    }
    let mut i: usize = 0;
    while i < alen
        invariant
            alen == a@.len(),
            alen == b@.len(),
            i <= alen,
            forall|j: int| 0 <= j < i ==> a@[j] == b@[j],
        decreases alen - i,
    {
        if a.get_char(i) != b.get_char(i) {
            return false;
        }
        i += 1;
    }
    proof {
        assert(a@ =~= b@);
    }
    true
}

/// The needle occurs somewhere in the haystack.
pub open spec fn contains_seq(hay: Seq<char>, needle: Seq<char>) -> bool {
    exists|i: int|
        0 <= i && i + needle.len() <= hay.len() && #[trigger] hay.subrange(i, i + needle.len())
            == needle
}

/// Substring search, stated over the views.
pub fn str_contains(hay: &str, needle: &str) -> (r: bool)
    ensures
        r == contains_seq(hay@, needle@),
{
    let hlen = hay.unicode_len();
    let nlen = needle.unicode_len();
    if nlen > hlen {
        assert(!contains_seq(hay@, needle@));
        return false;
    }
    let mut i: usize = 0;
    while i <= hlen - nlen
        invariant
            hlen == hay@.len(),
            nlen == needle@.len(),
            nlen <= hlen,
            i <= hlen - nlen + 1,
            forall|k: int| 0 <= k < i ==> #[trigger] hay@.subrange(k, k + nlen as int) != needle@,
        decreases hlen + 1 - i,
    {
        let mut j: usize = 0;
        let mut matched = true;
        while j < nlen
            invariant
                hlen == hay@.len(),
                nlen == needle@.len(),
                i + nlen <= hlen,
                j <= nlen,
                matched == (forall|k: int| 0 <= k < j ==> hay@[i + k] == needle@[k]),
            decreases nlen - j,
        {
            if hay.get_char(i + j) != needle.get_char(j) {
                matched = false;
                assert(hay@[i + j as int] != needle@[j as int]);
                j = nlen;
            } else {
                j += 1;
            }
        }
        if matched {
            assert(hay@.subrange(i as int, i + nlen as int) =~= needle@);
            return true;
        }
        assert(hay@.subrange(i as int, i + nlen as int) != needle@) by {
            assert(exists|k: int| 0 <= k < nlen && hay@[i + k] != needle@[k]);
            let k = choose|k: int| 0 <= k < nlen && hay@[i + k] != needle@[k];
            assert(hay@.subrange(i as int, i + nlen as int)[k] == hay@[i + k]);
        }
        i += 1;
    }
    assert(!contains_seq(hay@, needle@));
    false
}

/// Relies on `String::push`: appends exactly the given character.
#[verifier::external_body]
pub fn push_char(s: &mut String, c: char)
    ensures
        final(s)@ == old(s)@.push(c),
{
    s.push(c);
}

/// An ASCII whitespace character.
pub open spec fn is_space(c: char) -> bool {
    c == ' ' || c == '\n' || c == '\t' || c == '\r'
}

pub fn char_is_space(c: char) -> (r: bool)
    ensures
        r == is_space(c),
{
    c == ' ' || c == '\n' || c == '\t' || c == '\r'
}

/// The whitespace-separated tokens of a text, scanned from position `i`
/// with the token in progress `cur` and the tokens already found `acc`.
pub open spec fn split_ws_from(
    s: Seq<char>,
    i: int,
    cur: Seq<char>,
    acc: Seq<Seq<char>>,
) -> Seq<Seq<char>>
    decreases s.len() - i,
{
    if i < 0 || i >= s.len() {
        if cur.len() > 0 {
            acc.push(cur)
        } else {
            acc
        }
    } else if is_space(s[i]) {
        if cur.len() > 0 {
            split_ws_from(s, i + 1, Seq::empty(), acc.push(cur))
        } else {
            split_ws_from(s, i + 1, cur, acc)
        }
    } else {
        split_ws_from(s, i + 1, cur.push(s[i]), acc)
    }
}

/// The whitespace-separated tokens of a text.
pub open spec fn split_ws(s: Seq<char>) -> Seq<Seq<char>> {
    split_ws_from(s, 0, Seq::empty(), Seq::empty())
}

/// Splits a text into its whitespace-separated tokens.
pub fn str_split_ws(s: &str) -> (r: Vec<String>)
    ensures
        r.deep_view() == split_ws(s@),
{
    let len = s.unicode_len();
    let mut out: Vec<String> = Vec::new();
    let mut cur = String::new();
    proof {
        assert(out.deep_view() =~= Seq::<Seq<char>>::empty());
    }
    let mut i: usize = 0;
    while i < len
        invariant
            len == s@.len(),
            i <= len,
            split_ws_from(s@, i as int, cur@, out.deep_view()) == split_ws(s@),
        decreases len - i,
    {
        let c = s.get_char(i);
        if char_is_space(c) {
            if cur.as_str().unicode_len() > 0 {
                let ghost before = out;
                let ghost cg = cur;
                out.push(cur);
                proof {
                    vec_deep_view_push(before, out, cg);
                }
                cur = String::new();
            }
        } else {
            push_char(&mut cur, c);
        }
        i += 1;
    }
    if cur.as_str().unicode_len() > 0 {
        let ghost before = out;
        let ghost cg = cur;
        out.push(cur);
        proof {
            vec_deep_view_push(before, out, cg);
        }
    }
    out
}

/// Extends a deep view by one pushed element.
pub proof fn vec_deep_view_push<T: DeepView>(v1: Vec<T>, v2: Vec<T>, x: T)
    requires
        v2@ == v1@.push(x),
    ensures
        v2.deep_view() == v1.deep_view().push(x.deep_view()),
{
    assert(v2.deep_view() =~= v1.deep_view().push(x.deep_view()));
}

/// The text with its trailing whitespace removed.
pub open spec fn trim_end_ws(s: Seq<char>) -> Seq<char>
    decreases s.len(),
{
    if s.len() > 0 && is_space(s.last()) {
        trim_end_ws(s.drop_last())
    } else {
        s
    }
}

/// Removes trailing whitespace.
pub fn str_trim_end_ws(s: &str) -> (r: &str)
    ensures
        r@ == trim_end_ws(s@),
{
    let len = s.unicode_len();
    proof {
        assert(s@.take(len as int) =~= s@);
    }
    let mut e: usize = len;
    while e > 0 && char_is_space(s.get_char(e - 1))
        invariant
            len == s@.len(),
            e <= len,
            trim_end_ws(s@.take(e as int)) == trim_end_ws(s@),
        decreases e,
    {
        proof {
            assert(s@.take(e as int).drop_last() =~= s@.take(e - 1));
        }
        e -= 1;
    }
    s.substring_char(0, e)
}

/// Base-ten value of a digit character; zero for anything else.
pub open spec fn digit_val(c: char) -> nat {
    if is_digit(c) {
        (c as int - 48) as nat
    } else {
        0
    }
}

/// Numeric value of a digit string read in base ten.
pub open spec fn dec_val(s: Seq<char>) -> nat
    decreases s.len(),
{
    if s.len() == 0 {
        0
    } else {
        dec_val(s.drop_last()) * 10 + digit_val(s.last())
    }
}

/// Every character of the sequence is an ASCII decimal digit.
pub open spec fn all_digits(s: Seq<char>) -> bool {
    forall|i: int| 0 <= i < s.len() ==> is_digit(#[trigger] s[i])
}

/// A longer digit prefix never denotes a smaller value.
proof fn lemma_dec_val_monotone(s: Seq<char>, i: int)
    requires
        0 <= i <= s.len(),
    ensures
        dec_val(s.take(i)) <= dec_val(s),
    decreases s.len() - i,
{
    if i < s.len() {
        assert(s.take(i + 1).drop_last() =~= s.take(i));
        assert(dec_val(s.take(i + 1)) == dec_val(s.take(i)) * 10 + digit_val(s.take(i + 1).last()));
        assert(dec_val(s.take(i)) * 10 >= dec_val(s.take(i))) by (nonlinear_arith);
        lemma_dec_val_monotone(s, i + 1);
    } else {
        assert(s.take(i) =~= s);
    }
}

/// Reads a base-ten number from a string.  Returns `None` when the string
/// is empty, holds a non-digit, or denotes a value above `usize::MAX`.
pub fn parse_dec_usize(s: &str) -> (r: Option<usize>)
    ensures
        r matches Some(v) ==> s@.len() > 0 && all_digits(s@) && dec_val(s@) <= usize::MAX
            && v == dec_val(s@),
        r is None ==> !(s@.len() > 0 && all_digits(s@) && dec_val(s@) <= usize::MAX),
{
    let len = s.unicode_len();
    if len == 0 {
        return None;
    }
    let mut acc: usize = 0;
    let mut i: usize = 0;
    while i < len
        invariant
            len == s@.len(),
            0 < len,
            i <= len,
            all_digits(s@.take(i as int)),
            acc == dec_val(s@.take(i as int)),
        decreases len - i,
    {
        let c = s.get_char(i);
        if !char_is_digit(c) {
            assert(!all_digits(s@));
            return None;
        }
        let d: usize = ((c as u32) - 48) as usize;
        proof {
            assert(s@.take(i + 1).drop_last() =~= s@.take(i as int));
            assert(s@.take(i + 1).last() == c);
            assert(dec_val(s@.take(i + 1)) == acc * 10 + digit_val(c));
        }
        if acc > (usize::MAX - d) / 10 {
            proof {
                assert(acc * 10 + d > usize::MAX) by (nonlinear_arith)
                    requires
                        acc > (usize::MAX - d) / 10,
                        d <= 9,
                ;
                lemma_dec_val_monotone(s@, i + 1);
            }
            return None;
        }
        assert(acc * 10 + d <= usize::MAX) by (nonlinear_arith)
            requires
                acc <= (usize::MAX - d) / 10,
                d <= 9,
        ;
        acc = acc * 10 + d;
        i += 1;
    }
    proof {
        assert(s@.take(len as int) =~= s@);
    }
    Some(acc)
}

} // verus!
