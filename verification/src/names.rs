//! The identifier normalizer: splits the API's compound CamelCase type
//! names into words, detects a trailing vendor tag against the collected
//! tag set, and derives the naming metadata used to validate and rewrite
//! enumerant names.
//!
//! Normalization is a pure function: the result depends only on the raw
//! name and on the tag set, nothing else.

use vstd::prelude::*;
use crate::strutil::{is_upper, to_upper, char_is_upper, char_to_upper, push_char, str_eq};
use crate::tags::TagSet;

verus! {

/// The camel-case scan: a new word starts wherever an uppercase letter
/// follows a non-uppercase one; a run of two or more uppercase letters
/// stays one acronym word, except that the letter starting the next
/// lowercase word is peeled off the end of the run.  Yields the finished
/// words and the word still in progress at the end.
pub open spec fn camel_scan(
    s: Seq<char>,
    i: int,
    partial: Seq<char>,
    last_upper: bool,
    in_run: bool,
    parts: Seq<Seq<char>>,
) -> (Seq<Seq<char>>, Seq<char>)
    decreases s.len() - i,
{
    if i < 0 || i >= s.len() {
        (parts, partial)
    } else {
        let c = s[i];
        if !in_run {
            if is_upper(c) {
                if last_upper {
                    camel_scan(s, i + 1, partial.push(c), true, true, parts)
                } else if partial.len() > 0 {
                    camel_scan(s, i + 1, seq![c], true, false, parts.push(partial))
                } else {
                    camel_scan(s, i + 1, seq![c], true, false, parts)
                }
            } else {
                camel_scan(s, i + 1, partial.push(c), false, false, parts)
            }
        } else {
            if is_upper(c) {
                camel_scan(s, i + 1, partial.push(c), true, true, parts)
            } else {
                camel_scan(
                    s,
                    i + 1,
                    seq![partial.last(), c],
                    false,
                    false,
                    parts.push(partial.drop_last()),
                )
            }
        }
    }
}

/// The finished words of a camel-case scan of `s` from position `from`.
pub open spec fn camel_parts(s: Seq<char>, from: int) -> Seq<Seq<char>> {
    camel_scan(s.skip(from), 0, Seq::empty(), false, false, Seq::empty()).0
}

/// The word left in progress by a camel-case scan of `s` from `from`.
pub open spec fn camel_tail(s: Seq<char>, from: int) -> Seq<char> {
    camel_scan(s.skip(from), 0, Seq::empty(), false, false, Seq::empty()).1
}

/// Runs the camel-case scan over `s` from position `from`.
pub fn split_camel(s: &str, from: usize) -> (r: (Vec<String>, String))
    requires
        from <= s@.len(),
    ensures
        r.0.deep_view() == camel_parts(s@, from as int),
        r.1@ == camel_tail(s@, from as int),
{
    let ghost t = s@.skip(from as int);
    let len = s.unicode_len();
    let mut parts: Vec<String> = Vec::new();
    let mut partial = String::new();
    let mut last_upper = false;
    let mut in_run = false;
    proof {
        assert(parts.deep_view() =~= Seq::<Seq<char>>::empty());
    }
    let mut i: usize = from;
    while i < len
        invariant
            len == s@.len(),
            from <= i <= len,
            t == s@.skip(from as int),
            last_upper ==> partial@.len() >= 1,
            in_run ==> partial@.len() >= 2,
            camel_scan(t, i - from, partial@, last_upper, in_run, parts.deep_view())
                == camel_scan(t, 0, Seq::empty(), false, false, Seq::empty()),
        decreases len - i,
    {
        let c = s.get_char(i);
        proof {
            assert(t[i - from] == s@[i as int]);
        }
        if !in_run {
            if char_is_upper(c) {
                if last_upper {
                    push_char(&mut partial, c);
                    in_run = true;
                } else if partial.as_str().unicode_len() > 0 {
                    let ghost before = parts;
                    let ghost pg = partial;
                    parts.push(partial);
                    proof {
                        crate::strutil::vec_deep_view_push(before, parts, pg);
                    }
                    partial = String::new();
                    push_char(&mut partial, c);
                } else {
                    partial = String::new();
                    push_char(&mut partial, c);
                }
                last_upper = true;
            } else {
                push_char(&mut partial, c);
                last_upper = false;
            }
        } else {
            if char_is_upper(c) {
                push_char(&mut partial, c);
                last_upper = true;
            } else {
                let plen = partial.as_str().unicode_len();
                let peeled = partial.as_str().get_char(plen - 1);
                let head = String::from_str(partial.as_str().substring_char(0, plen - 1));
                let ghost before = parts;
                let ghost hg = head;
                parts.push(head);
                proof {
                    crate::strutil::vec_deep_view_push(before, parts, hg);
                    assert(hg@ =~= partial@.drop_last());
                }
                partial = String::new();
                push_char(&mut partial, peeled);
                push_char(&mut partial, c);
                proof {
                    assert(partial@ =~= seq![peeled, c]);
                }
                last_upper = false;
                in_run = false;
            }
        }
        i += 1;
    }
    (parts, partial)
}

// ---------------------------------------------------------------------------
// The normalizer itself.
// ---------------------------------------------------------------------------

/// The naming metadata derived from one compound type name.
#[derive(Debug, PartialEq, Eq)]
pub struct VulkanName {
    /// The upper-snake-case prefix shared by the type's enumerants,
    /// `VK_` included, trailing `_` included.
    pub enum_header: String,
    /// The suffix expected on the type's single-bit enumerants:
    /// `_BIT`, tag-qualified when a vendor tag was detected.
    pub bit_enum_trailer: String,
    /// The words of the name, bookkeeping words dropped, tag appended.
    pub normalized_name: String,
    /// The trailing vendor tag, when the tag set holds the final word.
    pub ext_name: Option<String>,
}

/// Ghost image of a `VulkanName`.
pub struct VulkanNameV {
    pub enum_header: Seq<char>,
    pub bit_enum_trailer: Seq<char>,
    pub normalized_name: Seq<char>,
    pub ext_name: Option<Seq<char>>,
}

impl DeepView for VulkanName {
    type V = VulkanNameV;

    open spec fn deep_view(&self) -> VulkanNameV {
        VulkanNameV {
            enum_header: self.enum_header@,
            bit_enum_trailer: self.bit_enum_trailer@,
            normalized_name: self.normalized_name@,
            ext_name: self.ext_name.deep_view(),
        }
    }
}

/// The word list with the bookkeeping words `Flag` and `Bits` dropped.
pub open spec fn drop_bookkeeping(
    ws: Seq<Seq<char>>,
    i: int,
    acc: Seq<Seq<char>>,
) -> Seq<Seq<char>>
    decreases ws.len() - i,
{
    if i < 0 || i >= ws.len() {
        acc
    } else if ws[i] == "Flag"@ || ws[i] == "Bits"@ {
        drop_bookkeeping(ws, i + 1, acc)
    } else {
        drop_bookkeeping(ws, i + 1, acc.push(ws[i]))
    }
}

/// A word mapped to ASCII uppercase.
pub open spec fn word_upper(w: Seq<char>) -> Seq<char> {
    Seq::new(w.len(), |i: int| to_upper(w[i]))
}

/// The words, upper-cased, joined by underscores.
pub open spec fn join_upper(ws: Seq<Seq<char>>, i: int, acc: Seq<char>) -> Seq<char>
    decreases ws.len() - i,
{
    if i < 0 || i >= ws.len() {
        acc
    } else if i == 0 {
        join_upper(ws, i + 1, word_upper(ws[0]))
    } else {
        join_upper(ws, i + 1, acc + seq!['_'] + word_upper(ws[i]))
    }
}

/// The words concatenated verbatim.
pub open spec fn concat_words(ws: Seq<Seq<char>>, i: int, acc: Seq<char>) -> Seq<char>
    decreases ws.len() - i,
{
    if i < 0 || i >= ws.len() {
        acc
    } else {
        concat_words(ws, i + 1, acc + ws[i])
    }
}

/// The words of a compound name after the two-character namespace
/// prefix, with the trailing word kept apart.
pub open spec fn name_words(s: Seq<char>) -> Seq<Seq<char>> {
    camel_parts(s, 2)
}

/// The scan's final word, the candidate vendor tag.
pub open spec fn final_word(s: Seq<char>) -> Seq<char> {
    camel_tail(s, 2)
}

/// The detected vendor tag: the final word, exactly when the tag set
/// holds it.
pub open spec fn detected_tag(s: Seq<char>, tags: Set<Seq<char>>) -> Option<Seq<char>> {
    if final_word(s).len() > 0 && tags.contains(final_word(s)) {
        Some(final_word(s))
    } else {
        None
    }
}

/// The full word list: the scanned words, plus the final word unless it
/// was detected as a tag.
pub open spec fn full_words(s: Seq<char>, tags: Set<Seq<char>>) -> Seq<Seq<char>> {
    if final_word(s).len() > 0 && !tags.contains(final_word(s)) {
        name_words(s).push(final_word(s))
    } else {
        name_words(s)
    }
}

/// What normalization yields, as a function of the raw name and the tag
/// set alone.
pub open spec fn spec_vulkan_name(s: Seq<char>, tags: Set<Seq<char>>) -> VulkanNameV {
    let tag = detected_tag(s, tags);
    let kept = drop_bookkeeping(full_words(s, tags), 0, Seq::empty());
    VulkanNameV {
        enum_header: "VK_"@ + join_upper(kept, 0, Seq::empty()) + "_"@,
        bit_enum_trailer: match tag {
            Some(t) => "_BIT_"@ + t,
            None => "_BIT"@,
        },
        normalized_name: match tag {
            Some(t) => concat_words(kept, 0, Seq::empty()) + t,
            None => concat_words(kept, 0, Seq::empty()),
        },
        ext_name: tag,
    }
}

impl VulkanName {
    /// Normalizes one compound type name against the collected tag set.
    ///
    /// The name must carry the two-character namespace prefix; what the
    /// call returns is determined by the name and the tag set alone.
    pub fn new(vkname: &str, exts: &TagSet) -> (r: VulkanName)
        requires
            vkname@.len() >= 2,
            vkname@[0] == 'V',
            vkname@[1] == 'k',
        ensures
            r.deep_view() == spec_vulkan_name(vkname@, exts@),
    {
        let (parts, partial) = split_camel(vkname, 2);

        // tag detection: the final word, against the collected set
        let mut tail: Option<String> = None;
        let mut words = parts;
        if partial.as_str().unicode_len() != 0 {
            if exts.contains(partial.as_str()) {
                tail = Some(partial);
            } else {
                let ghost before = words;
                let ghost pg = partial;
                words.push(partial);
                proof {
                    crate::strutil::vec_deep_view_push(before, words, pg);
                }
            }
        }
        assert(words.deep_view() == full_words(vkname@, exts@));
        assert(tail.deep_view() == detected_tag(vkname@, exts@));

        // drop the bookkeeping words Flag and Bits
        let mut kept: Vec<String> = Vec::new();
        proof {
            assert(kept.deep_view() =~= Seq::<Seq<char>>::empty());
        }
        let ghost wv = words.deep_view();
        let mut i: usize = 0;
        while i < words.len()
            invariant
                i <= words.len(),
                wv == words.deep_view(),
                wv.len() == words.len(),
                drop_bookkeeping(wv, i as int, kept.deep_view())
                    == drop_bookkeeping(wv, 0, Seq::empty()),
            decreases words.len() - i,
        {
            if !str_eq(words[i].as_str(), "Flag") && !str_eq(words[i].as_str(), "Bits") {
                let w = words[i].clone();
                let ghost before = kept;
                let ghost wg = w;
                kept.push(w);
                proof {
                    crate::strutil::vec_deep_view_push(before, kept, wg);
                }
            }
            i += 1;
        }
        let ghost keptv = kept.deep_view();

        // the enum header: upper-cased words joined by underscores
        let mut joined = String::new();
        let mut j: usize = 0;
        while j < kept.len()
            invariant
                j <= kept.len(),
                keptv == kept.deep_view(),
                keptv.len() == kept.len(),
                join_upper(keptv, j as int, joined@) == join_upper(keptv, 0, Seq::empty()),
                j == 0 ==> joined@.len() == 0,
            decreases kept.len() - j,
        {
            let ghost jv = joined@;
            if j > 0 {
                joined.append("_");
            }
            let uw = word_to_upper(kept[j].as_str());
            joined.append(uw.as_str());
            proof {
                reveal_strlit("_");
                if j == 0 {
                    assert(joined@ =~= word_upper(keptv[0]));
                } else {
                    assert(joined@ =~= jv + seq!['_'] + word_upper(keptv[j as int]));
                }
            }
            j += 1;
        }
        let mut enum_header = String::from_str("VK_");
        enum_header.append(joined.as_str());
        enum_header.append("_");

        // the normalized name: the words verbatim, tag appended
        let mut normalized = String::new();
        let mut k: usize = 0;
        while k < kept.len()
            invariant
                k <= kept.len(),
                keptv == kept.deep_view(),
                keptv.len() == kept.len(),
                concat_words(keptv, k as int, normalized@) == concat_words(keptv, 0, Seq::empty()),
            decreases kept.len() - k,
        {
            normalized.append(kept[k].as_str());
            k += 1;
        }

        let (trailer, ext_name, normalized) = match tail {
            Some(t) => {
                let mut tr = String::from_str("_BIT_");
                tr.append(t.as_str());
                let mut nm = normalized;
                nm.append(t.as_str());
                (tr, Some(t), nm)
            },
            None => (String::from_str("_BIT"), None, normalized),
        };

        VulkanName {
            enum_header,
            bit_enum_trailer: trailer,
            normalized_name: normalized,
            ext_name,
        }
    }
}

/// Maps a word to ASCII uppercase.
fn word_to_upper(w: &str) -> (r: String)
    ensures
        r@ == word_upper(w@),
{
    let len = w.unicode_len();
    let mut out = String::new();
    let mut i: usize = 0;
    while i < len
        invariant
            len == w@.len(),
            i <= len,
            out@ == word_upper(w@).take(i as int),
        decreases len - i,
    {
        push_char(&mut out, char_to_upper(w.get_char(i)));
        proof {
            assert(word_upper(w@).take(i + 1) =~= word_upper(w@).take(i as int).push(
                to_upper(w@[i as int]),
            ));
        }
        i += 1;
    }
    proof {
        assert(word_upper(w@).take(len as int) =~= word_upper(w@));
    }
    out
}

// ---------------------------------------------------------------------------
// Laws of tag detection.
// ---------------------------------------------------------------------------

/// Normalizing the same raw name against the same tag set always yields
/// the same result: the outcome is a function of those two values alone.
pub proof fn lemma_normalization_pure(
    n1: VulkanNameV,
    n2: VulkanNameV,
    s: Seq<char>,
    tags: Set<Seq<char>>,
)
    requires
        n1 == spec_vulkan_name(s, tags),
        n2 == spec_vulkan_name(s, tags),
    ensures
        n1 == n2,
{
}

/// Tag detection requires prior collection: against an empty tag set no
/// trailing word is ever taken for a vendor tag, and the word stays in
/// the ordinary word list.
pub proof fn lemma_empty_tag_set_detects_nothing(s: Seq<char>)
    ensures
        spec_vulkan_name(s, Set::empty()).ext_name is None,
        final_word(s).len() > 0 ==> full_words(s, Set::empty())
            == name_words(s).push(final_word(s)),
{
}

/// Once the trailing word has been collected into the tag set, the same
/// name has it detected as its vendor tag, and out of the word list.
pub proof fn lemma_collected_tag_detected(s: Seq<char>, tags: Set<Seq<char>>)
    requires
        final_word(s).len() > 0,
        tags.contains(final_word(s)),
    ensures
        spec_vulkan_name(s, tags).ext_name == Some(final_word(s)),
        full_words(s, tags) == name_words(s),
{
}

} // verus!
