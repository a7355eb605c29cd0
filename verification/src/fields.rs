//! The field-name normalizer: classifies the pointer-depth prefix of a
//! lowerCamelCase member or parameter name and rewrites the remainder in
//! lower snake case.

use vstd::prelude::*;
use crate::strutil::{is_upper, char_is_upper, push_char};
use crate::names::{camel_parts, camel_tail, split_camel};

verus! {

/// The pointer-depth classification read off a member name's prefix.
#[derive(Debug, PartialEq, Eq, Structural, Clone, Copy)]
pub enum FieldKind {
    /// no recognized prefix
    Plain,
    /// `p` before an uppercase letter
    SinglePointer,
    /// `pp` before an uppercase letter
    DoublePointer,
    /// `s` before an uppercase letter
    StructTypeTag,
}

impl DeepView for FieldKind {
    type V = FieldKind;

    open spec fn deep_view(&self) -> FieldKind {
        *self
    }
}

/// A classified and rewritten member or parameter name.
#[derive(Debug, PartialEq, Eq)]
pub struct FieldName {
    pub kind: FieldKind,
    pub normalized_name: String,
}

/// Ghost image of a `FieldName`.
pub struct FieldNameV {
    pub kind: FieldKind,
    pub normalized_name: Seq<char>,
}

impl DeepView for FieldName {
    type V = FieldNameV;

    open spec fn deep_view(&self) -> FieldNameV {
        FieldNameV { kind: self.kind, normalized_name: self.normalized_name@ }
    }
}

/// The ASCII lowercase image of a character.
pub open spec fn to_lower(c: char) -> char {
    if is_upper(c) {
        ((c as u8) + 32) as char
    } else {
        c
    }
}

pub fn char_to_lower(c: char) -> (r: char)
    ensures
        r == to_lower(c),
{
    if 'A' <= c && c <= 'Z' {
        ((c as u8) + 32) as char
    } else {
        c
    }
}

/// A word mapped to ASCII lowercase.
pub open spec fn word_lower(w: Seq<char>) -> Seq<char> {
    Seq::new(w.len(), |i: int| to_lower(w[i]))
}

/// The words, lower-cased, joined by underscores.
pub open spec fn join_lower(ws: Seq<Seq<char>>, i: int, acc: Seq<char>) -> Seq<char>
    decreases ws.len() - i,
{
    if i < 0 || i >= ws.len() {
        acc
    } else if i == 0 {
        join_lower(ws, i + 1, word_lower(ws[0]))
    } else {
        join_lower(ws, i + 1, acc + seq!['_'] + word_lower(ws[i]))
    }
}

/// The prefix classification and the count of characters it strips.
pub open spec fn spec_field_kind(s: Seq<char>) -> (FieldKind, int) {
    if s.len() >= 2 && s[0] == 's' && is_upper(s[1]) {
        (FieldKind::StructTypeTag, 1)
    } else if s.len() >= 3 && s[0] == 'p' && s[1] == 'p' && is_upper(s[2]) {
        (FieldKind::DoublePointer, 2)
    } else if s.len() >= 2 && s[0] == 'p' && is_upper(s[1]) {
        (FieldKind::SinglePointer, 1)
    } else {
        (FieldKind::Plain, 0)
    }
}

/// The full word list of the stripped remainder: the camel-case scan's
/// finished words, plus its final word when one is in progress.
pub open spec fn spec_field_words(s: Seq<char>, from: int) -> Seq<Seq<char>> {
    if camel_tail(s, from).len() > 0 {
        camel_parts(s, from).push(camel_tail(s, from))
    } else {
        camel_parts(s, from)
    }
}

/// What field-name normalization yields: the classification, and the
/// remainder's words lower-cased and joined by underscores.
pub open spec fn spec_field_name(s: Seq<char>) -> FieldNameV {
    let kind = spec_field_kind(s).0;
    let from = spec_field_kind(s).1;
    FieldNameV {
        kind,
        normalized_name: join_lower(spec_field_words(s, from), 0, Seq::empty()),
    }
}

/// Classifies a member or parameter name's pointer-depth prefix and
/// rewrites the remainder in lower snake case.
pub fn normalize_field_name(name: &str) -> (r: FieldName)
    ensures
        r.deep_view() == spec_field_name(name@),
{
    let len = name.unicode_len();
    let mut kind = FieldKind::Plain;
    let mut from: usize = 0;
    if len >= 2 && name.get_char(0) == 's' && char_is_upper(name.get_char(1)) {
        kind = FieldKind::StructTypeTag;
        from = 1;
    } else if len >= 3 && name.get_char(0) == 'p' && name.get_char(1) == 'p'
        && char_is_upper(name.get_char(2)) {
        kind = FieldKind::DoublePointer;
        from = 2;
    } else if len >= 2 && name.get_char(0) == 'p' && char_is_upper(name.get_char(1)) {
        kind = FieldKind::SinglePointer;
        from = 1;
    }
    let (parts, partial) = split_camel(name, from);
    let mut words = parts;
    if partial.as_str().unicode_len() > 0 {
        let ghost before = words;
        let ghost pg = partial;
        words.push(partial);
        proof {
            crate::strutil::vec_deep_view_push(before, words, pg);
        }
    }
    let ghost wv = words.deep_view();
    assert(wv == spec_field_words(name@, from as int));

    let mut joined = String::new();
    let mut j: usize = 0;
    while j < words.len()
        invariant
            j <= words.len(),
            wv == words.deep_view(),
            wv.len() == words.len(),
            join_lower(wv, j as int, joined@) == join_lower(wv, 0, Seq::empty()),
            j == 0 ==> joined@.len() == 0,
        decreases words.len() - j,
    {
        let ghost jv = joined@;
        if j > 0 {
            joined.append("_");
        }
        let lw = word_to_lower(words[j].as_str());
        joined.append(lw.as_str());
        proof {
            reveal_strlit("_");
            if j == 0 {
                assert(joined@ =~= word_lower(wv[0]));
            } else {
                assert(joined@ =~= jv + seq!['_'] + word_lower(wv[j as int]));
            }
        }
        j += 1;
    }
    FieldName { kind, normalized_name: joined }
}

/// Maps a word to ASCII lowercase.
fn word_to_lower(w: &str) -> (r: String)
    ensures
        r@ == word_lower(w@),
{
    let len = w.unicode_len();
    let mut out = String::new();
    let mut i: usize = 0;
    while i < len
        invariant
            len == w@.len(),
            i <= len,
            out@ == word_lower(w@).take(i as int),
        decreases len - i,
    {
        push_char(&mut out, char_to_lower(w.get_char(i)));
        proof {
            assert(word_lower(w@).take(i + 1) =~= word_lower(w@).take(i as int).push(
                to_lower(w@[i as int]),
            ));
        }
        i += 1;
    }
    proof {
        assert(word_lower(w@).take(len as int) =~= word_lower(w@));
    }
    out
}

} // verus!
