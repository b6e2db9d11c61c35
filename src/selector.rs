//! The selector model: predicates on one node, compound selectors joined by
//! combinators, and the specificity of a selector.
use vstd::prelude::*;
use crate::properties::Atom;
use crate::types::CssPseudoElement;

verus! {

/// How an attribute predicate compares the attribute's value.
#[derive(Clone, Copy, Debug, PartialEq, Eq, Structural)]
pub enum AttrOp {
    /// `[a]`: the attribute is present.
    Presence,
    /// `[a=v]`
    Equal,
    /// `[a|=v]`: equal to `v`, or starts with `v` followed by `-`.
    DashMatch,
    /// `[a~=v]`: one of the space-separated words is `v`.
    Includes,
    /// `[a^=v]`
    Prefix,
    /// `[a$=v]`
    Suffix,
    /// `[a*=v]`
    Substring,
}

/// A pseudo-class: a state or a structural position of a node.
#[derive(Clone, Copy, Debug, PartialEq, Eq, Structural)]
pub enum PseudoClass {
    Root,
    Empty,
    FirstChild,
    Link,
    Visited,
    Hover,
    Active,
    Focus,
    Enabled,
    Disabled,
    Checked,
    Target,
    Lang(Atom),
}

/// A qualified name: an optional namespace and a local name.
#[derive(Clone, Copy, Debug, PartialEq, Eq, Structural)]
pub struct CssQName {
    pub ns: Option<Atom>,
    pub name: Atom,
}

impl CssQName {
    /// Whether a node named `node` meets this name as a type selector: the
    /// local names are equal and, where this name gives a namespace, so are
    /// the namespaces.
    pub open spec fn spec_selects(self, node: CssQName) -> bool {
        self.name == node.name && (self.ns is None || self.ns == node.ns)
    }

    /// Whether a node named `node` meets this name as a type selector.
    pub fn selects(&self, node: &CssQName) -> (r: bool)
        ensures
            r == self.spec_selects(*node),
    {
        self.name == node.name && match self.ns {
            None => true,
            Some(ns) => node.ns == Some(ns),
        }
    }
}

/// One predicate of a compound selector.
#[derive(Clone, Debug)]
pub enum Predicate {
    /// The node's element name.
    Name(CssQName),
    Id(Atom),
    Class(Atom),
    /// An attribute test: the attribute's name, the comparison and the
    /// value compared with (empty for a presence test).
    Attribute(Atom, AttrOp, Vec<u8>),
    Pseudo(PseudoClass),
}

/// How a compound selector relates to the one on its left.
#[derive(Clone, Copy, Debug, PartialEq, Eq, Structural)]
pub enum Combinator {
    /// `a b`: some ancestor matches the left part.
    Descendant,
    /// `a > b`: the parent matches the left part.
    Child,
    /// `a + b`: the previous sibling matches the left part.
    AdjacentSibling,
    /// `a ~ b`: some earlier sibling matches the left part.
    GeneralSibling,
}

/// A compound selector and the combinator that joins it to the part on its
/// left (ignored for the leftmost part).
#[derive(Clone, Debug)]
pub struct SelectorPart {
    pub combinator: Combinator,
    pub compound: Vec<Predicate>,
}

/// A complex selector: compound selectors from left to right, and the
/// pseudo-element whose style the rule sets.
#[derive(Clone, Debug)]
pub struct CssSelector {
    pub parts: Vec<SelectorPart>,
    pub pseudo_element: CssPseudoElement,
}

/// A specificity: the counts of id, class-like and element-name
/// predicates, compared in that order.
#[derive(Clone, Copy, Debug, PartialEq, Eq, Structural)]
pub struct Specificity {
    pub ids: u32,
    pub classes: u32,
    pub tags: u32,
}

impl Specificity {
    /// The counts as a triple of integers.
    pub open spec fn spec_triple(self) -> (int, int, int) {
        (self.ids as int, self.classes as int, self.tags as int)
    }
}

/// The specificity column a predicate counts in: ids 0, classes,
/// attributes and pseudo-classes 1, element names 2.
pub open spec fn spec_pred_kind(p: Predicate) -> int {
    match p {
        Predicate::Id(_) => 0,
        Predicate::Name(_) => 2,
        _ => 1,
    }
}

/// Number of predicates of a compound selector in column `k`.
pub open spec fn spec_count_kind(c: Seq<Predicate>, k: int) -> nat
    decreases c.len(),
{
    if c.len() == 0 {
        0
    } else {
        spec_count_kind(c.drop_last(), k) + if spec_pred_kind(c.last()) == k {
            1nat
        } else {
            0nat
        }
    }
}

/// Number of predicates of a sequence of parts in column `k`.
pub open spec fn spec_parts_count(parts: Seq<SelectorPart>, k: int) -> nat
    decreases parts.len(),
{
    if parts.len() == 0 {
        0
    } else {
        spec_parts_count(parts.drop_last(), k) + spec_count_kind(parts.last().compound@, k)
    }
}

/// Number of predicates of a sequence of parts.
pub open spec fn spec_parts_size(parts: Seq<SelectorPart>) -> nat
    decreases parts.len(),
{
    if parts.len() == 0 {
        0
    } else {
        spec_parts_size(parts.drop_last()) + parts.last().compound@.len()
    }
}

impl CssSelector {
    /// A selector has at least one part.
    pub open spec fn wf(&self) -> bool {
        self.parts@.len() > 0
    }

    /// Number of predicates over all parts.
    pub open spec fn spec_size(&self) -> nat {
        spec_parts_size(self.parts@)
    }

    pub open spec fn spec_specificity(&self) -> (int, int, int) {
        (
            spec_parts_count(self.parts@, 0) as int,
            spec_parts_count(self.parts@, 1) as int,
            spec_parts_count(self.parts@, 2) as int,
        )
    }

    /// Whether the selector has parts and at most `u32::MAX` predicates, so
    /// that its specificity can be counted.
    pub fn is_countable(&self) -> (r: bool)
        ensures
            r == (self.wf() && self.spec_size() <= u32::MAX),
    {
        if self.parts.len() == 0 {
            return false;
        }
        let mut total: u64 = 0;
        let mut i: usize = 0;
        while i < self.parts.len()
            invariant
                i <= self.parts@.len(),
                total == spec_parts_size(self.parts@.take(i as int)),
                total <= u32::MAX,
            decreases self.parts@.len() - i,
        {
            assert(self.parts@.take(i as int + 1).drop_last() == self.parts@.take(i as int));
            let n = self.parts[i].compound.len();
            if n as u64 > u32::MAX as u64 - total {
                proof {
                    lemma_parts_size_prefix(self.parts@, i as int + 1);
                }
                return false;
            }
            total = total + n as u64;
            i = i + 1;
        }
        assert(self.parts@.take(i as int) == self.parts@);
        true
    }

    /// The selector's specificity: how many id, class-like and element-name
    /// predicates it holds.
    pub fn specificity(&self) -> (r: Specificity)
        requires
            self.spec_size() <= u32::MAX,
        ensures
            r.spec_triple() == self.spec_specificity(),
    {
        let mut ids: u32 = 0;
        let mut classes: u32 = 0;
        let mut tags: u32 = 0;
        let mut i: usize = 0;
        while i < self.parts.len()
            invariant
                i <= self.parts@.len(),
                ids == spec_parts_count(self.parts@.take(i as int), 0),
                classes == spec_parts_count(self.parts@.take(i as int), 1),
                tags == spec_parts_count(self.parts@.take(i as int), 2),
                spec_parts_size(self.parts@.take(i as int)) <= spec_parts_size(self.parts@),
                self.spec_size() <= u32::MAX,
            decreases self.parts@.len() - i,
        {
            let ghost done = self.parts@.take(i as int);
            let ghost next = self.parts@.take(i as int + 1);
            assert(next.drop_last() == done);
            proof {
                lemma_parts_size_prefix(self.parts@, i as int + 1);
                lemma_parts_count_le_size(done);
                lemma_count_le_len(self.parts@[i as int].compound@, 0);
                lemma_count_le_len(self.parts@[i as int].compound@, 1);
                lemma_count_le_len(self.parts@[i as int].compound@, 2);
                lemma_count_sum(self.parts@[i as int].compound@);
            }
            let compound = &self.parts[i].compound;
            let mut j: usize = 0;
            while j < compound.len()
                invariant
                    i < self.parts@.len(),
                    compound@ == self.parts@[i as int].compound@,
                    j <= compound@.len(),
                    ids == spec_parts_count(done, 0) + spec_count_kind(compound@.take(j as int), 0),
                    classes == spec_parts_count(done, 1) + spec_count_kind(compound@.take(j as int), 1),
                    tags == spec_parts_count(done, 2) + spec_count_kind(compound@.take(j as int), 2),
                    spec_parts_size(next) <= u32::MAX,
                    spec_parts_size(next) == spec_parts_size(done) + compound@.len(),
                    spec_parts_count(done, 0) + spec_parts_count(done, 1) + spec_parts_count(done, 2)
                        <= spec_parts_size(done),
                decreases compound@.len() - j,
            {
                proof {
                    assert(compound@.take(j as int + 1).drop_last() == compound@.take(j as int));
                    lemma_count_sum(compound@.take(j as int));
                    lemma_count_le_len(compound@.take(j as int), 0);
                }
                match &compound[j] {
                    Predicate::Id(_) => {
                        ids = ids + 1;
                    },
                    Predicate::Name(_) => {
                        tags = tags + 1;
                    },
                    _ => {
                        classes = classes + 1;
                    },
                }
                j = j + 1;
            }
            assert(compound@.take(j as int) == compound@);
            i = i + 1;
        }
        assert(self.parts@.take(i as int) == self.parts@);
        Specificity { ids, classes, tags }
    }
}

proof fn lemma_count_le_len(c: Seq<Predicate>, k: int)
    ensures
        spec_count_kind(c, k) <= c.len(),
    decreases c.len(),
{
    if c.len() > 0 {
        lemma_count_le_len(c.drop_last(), k);
    }
}

proof fn lemma_count_sum(c: Seq<Predicate>)
    ensures
        spec_count_kind(c, 0) + spec_count_kind(c, 1) + spec_count_kind(c, 2) == c.len(),
    decreases c.len(),
{
    if c.len() > 0 {
        lemma_count_sum(c.drop_last());
    }
}

proof fn lemma_parts_count_le_size(parts: Seq<SelectorPart>)
    ensures
        spec_parts_count(parts, 0) + spec_parts_count(parts, 1) + spec_parts_count(parts, 2)
            <= spec_parts_size(parts),
    decreases parts.len(),
{
    if parts.len() > 0 {
        lemma_parts_count_le_size(parts.drop_last());
        lemma_count_sum(parts.last().compound@);
    }
}

proof fn lemma_parts_size_prefix(parts: Seq<SelectorPart>, n: int)
    requires
        0 <= n <= parts.len(),
    ensures
        spec_parts_size(parts.take(n)) <= spec_parts_size(parts),
    decreases parts.len(),
{
    if n < parts.len() {
        assert(parts.drop_last().take(n) == parts.take(n));
        lemma_parts_size_prefix(parts.drop_last(), n);
    } else {
        assert(parts.take(n) == parts);
    }
}

/// `a` ranks strictly below `b`, comparing ids, then classes, then tags.
pub open spec fn spec_specificity_lt(a: (int, int, int), b: (int, int, int)) -> bool {
    a.0 < b.0 || (a.0 == b.0 && (a.1 < b.1 || (a.1 == b.1 && a.2 < b.2)))
}

} // verus!
