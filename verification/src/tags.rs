//! The tag collection pass: scans the document's vendor-tag sections
//! into a set of tag names.  This pass must complete before any name is
//! normalized; a repeated tag name is a hard error.

use vstd::prelude::*;
use crate::error::{ParseError, ParseErrorV};
use crate::strutil::str_eq;
use crate::xml::{XmlElement, XmlNode, XmlNodeV, view_element};
use crate::decode::{spec_expect_attr, expect_attr};

verus! {

/// The set of vendor tag names collected before normalization.
#[derive(Debug)]
pub struct TagSet {
    names: Vec<String>,
}

impl View for TagSet {
    type V = Set<Seq<char>>;

    closed spec fn view(&self) -> Set<Seq<char>> {
        Set::new(
            |s: Seq<char>|
                exists|i: int| 0 <= i < self.names@.len() && #[trigger] self.names@[i]@ == s,
        )
    }
}

impl TagSet {
    /// An empty tag set.
    pub fn new() -> (r: TagSet)
        ensures
            r@ == Set::<Seq<char>>::empty(),
    {
        let r = TagSet { names: Vec::new() };
        proof {
            assert(r@ =~= Set::<Seq<char>>::empty());
        }
        r
    }

    /// Whether the set holds the given name.
    pub fn contains(&self, name: &str) -> (r: bool)
        ensures
            r == self@.contains(name@),
    {
        let mut i: usize = 0;
        while i < self.names.len()
            invariant
                i <= self.names.len(),
                forall|j: int| 0 <= j < i ==> #[trigger] self.names@[j]@ != name@,
            decreases self.names.len() - i,
        {
            if str_eq(self.names[i].as_str(), name) {
                return true;
            }
            i += 1;
        }
        false
    }

    /// Adds a name; a repeated name is the hard error `UnexpectedRepeat`.
    pub fn insert(&mut self, name: String) -> (r: Result<(), ParseError>)
        ensures
            old(self)@.contains(name@) ==> (r matches Err(e) && e.deep_view()
                == ParseErrorV::UnexpectedRepeat(name@) && final(self)@ == old(self)@),
            !old(self)@.contains(name@) ==> (r is Ok && final(self)@ == old(self)@.insert(
                name@,
            )),
    {
        if self.contains(name.as_str()) {
            return Err(ParseError::UnexpectedRepeat(name));
        }
        let ghost oldv = self@;
        let ghost nv = name@;
        self.names.push(name);
        proof {
            assert forall|s: Seq<char>| self@.contains(s) <==> oldv.insert(nv).contains(s) by {
                if self@.contains(s) {
                    let i = choose|i: int|
                        0 <= i < self.names@.len() && #[trigger] self.names@[i]@ == s;
                    if i < self.names@.len() - 1 {
                        assert(oldv.contains(s));
                    }
                }
                if oldv.insert(nv).contains(s) {
                    if oldv.contains(s) {
                        let i = choose|i: int|
                            0 <= i < old(self).names@.len() && #[trigger] old(self).names@[i]@
                                == s;
                        assert(self.names@[i]@ == s);
                    } else {
                        assert(self.names@[self.names@.len() - 1]@ == s);
                    }
                }
            }
            assert(self@ =~= oldv.insert(nv));
        }
        Ok(())
    }
}

/// The names found in one `tags` section, added to `acc` in order.
pub open spec fn spec_collect_section(
    c: Seq<XmlNodeV>,
    i: int,
    acc: Set<Seq<char>>,
) -> Result<Set<Seq<char>>, ParseErrorV>
    decreases c.len() - i,
{
    if i < 0 || i >= c.len() {
        Ok(acc)
    } else {
        match c[i] {
            XmlNodeV::Element(te) => match spec_expect_attr(te, "name"@) {
                Err(er) => Err(er),
                Ok(name) => {
                    if acc.contains(name) {
                        Err(ParseErrorV::UnexpectedRepeat(name))
                    } else {
                        spec_collect_section(c, i + 1, acc.insert(name))
                    }
                },
            },
            _ => spec_collect_section(c, i + 1, acc),
        }
    }
}

/// The names of every `tags` section of the document, in order.
pub open spec fn spec_collect_tags(
    c: Seq<XmlNodeV>,
    i: int,
    acc: Set<Seq<char>>,
) -> Result<Set<Seq<char>>, ParseErrorV>
    decreases c.len() - i,
{
    if i < 0 || i >= c.len() {
        Ok(acc)
    } else {
        match c[i] {
            XmlNodeV::Element(se) => {
                if se.name == "tags"@ {
                    match spec_collect_section(se.children, 0, acc) {
                        Err(er) => Err(er),
                        Ok(acc2) => spec_collect_tags(c, i + 1, acc2),
                    }
                } else {
                    spec_collect_tags(c, i + 1, acc)
                }
            },
            _ => spec_collect_tags(c, i + 1, acc),
        }
    }
}

/// Collects every vendor tag name of the document into a set; a repeated
/// tag name is the hard error `UnexpectedRepeat`.  The result feeds the
/// identifier normalizer, which must not run before this pass is done.
pub fn collect_tags(root: &XmlElement) -> (r: Result<TagSet, ParseError>)
    ensures
        match r {
            Ok(ts) => spec_collect_tags(view_element(*root).children, 0, Set::empty())
                == Ok::<_, ParseErrorV>(ts@),
            Err(er) => spec_collect_tags(view_element(*root).children, 0, Set::empty())
                == Err::<Set<Seq<char>>, _>(er.deep_view()),
        },
{
    let ghost rv = view_element(*root);
    let mut tags = TagSet::new();
    let n = root.child_count();
    let mut i: usize = 0;
    while i < n
        invariant
            n == rv.children.len(),
            i <= n,
            rv == view_element(*root),
            spec_collect_tags(rv.children, i as int, tags@)
                == spec_collect_tags(rv.children, 0, Set::empty()),
        decreases n - i,
    {
        match root.child_at(i) {
            XmlNode::Element(se) => {
                if str_eq(se.name.as_str(), "tags") {
                    let ghost sv = view_element(*se);
                    let ghost acc_sec = tags@;
                    let m = se.child_count();
                    let mut j: usize = 0;
                    while j < m
                        invariant
                            m == sv.children.len(),
                            j <= m,
                            sv == view_element(*se),
                            spec_collect_tags(rv.children, i as int, acc_sec)
                                == spec_collect_tags(rv.children, 0, Set::empty()),
                            rv.children[i as int] == XmlNodeV::Element(sv),
                            i < n,
                            se.name@ == "tags"@,
                            spec_collect_section(sv.children, j as int, tags@)
                                == spec_collect_section(sv.children, 0, acc_sec),
                        decreases m - j,
                    {
                        match se.child_at(j) {
                            XmlNode::Element(te) => {
                                let name = match expect_attr(te, "name") {
                                    Ok(v) => v,
                                    Err(er) => {
                                        return Err(er);
                                    },
                                };
                                match tags.insert(name) {
                                    Ok(_) => {},
                                    Err(er) => {
                                        return Err(er);
                                    },
                                }
                            },
                            _ => {},
                        }
                        j += 1;
                    }
                }
            },
            _ => {},
        }
        i += 1;
    }
    Ok(tags)
}

} // verus!
