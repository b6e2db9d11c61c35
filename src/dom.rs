//! A document tree held in memory: the engine's own implementation of the
//! node capability interface.
use vstd::prelude::*;
use crate::handler::{CssSelectHandler, NodeId, QueryError};
use crate::properties::{Atom, CssHint, CssProperty};
use crate::selector::{AttrOp, CssQName, PseudoClass};

verus! {

/// An attribute of an element: its name and its value as bytes.
#[derive(Clone, Debug)]
pub struct DomAttribute {
    pub name: Atom,
    pub value: Vec<u8>,
}

/// An element of a `DomTree`. `parent` and `prev_sibling` name nodes added
/// before this one.
#[derive(Clone, Debug)]
pub struct DomNode {
    pub name: CssQName,
    pub id: Option<Atom>,
    pub classes: Vec<Atom>,
    pub attributes: Vec<DomAttribute>,
    pub parent: Option<NodeId>,
    pub prev_sibling: Option<NodeId>,
    /// The pseudo-classes that hold of the element, but for `:root` and
    /// `:first-child`, which follow from `parent` and `prev_sibling`.
    pub states: Vec<PseudoClass>,
}

/// A document tree: node `i` is `nodes[i]`.
#[derive(Clone, Debug)]
pub struct DomTree {
    pub nodes: Vec<DomNode>,
}

/// Whether a byte is CSS white space.
pub open spec fn spec_is_space(b: u8) -> bool {
    b == 32 || b == 9 || b == 10 || b == 12 || b == 13
}

/// Whether `v` occurs in `s` at position `i`.
pub open spec fn spec_occurs_at(s: Seq<u8>, v: Seq<u8>, i: int) -> bool {
    0 <= i && i + v.len() <= s.len() && s.subrange(i, i + v.len()) == v
}

/// Whether `v` occurs in `s` at `i` as a whole white-space-separated word.
pub open spec fn spec_word_at(s: Seq<u8>, v: Seq<u8>, i: int) -> bool {
    &&& spec_occurs_at(s, v, i)
    &&& (i == 0 || spec_is_space(s[i - 1]))
    &&& (i + v.len() == s.len() || spec_is_space(s[i + v.len()]))
}

/// Whether an attribute value `s` satisfies the comparison with `v`.
pub open spec fn spec_attr_op(op: AttrOp, s: Seq<u8>, v: Seq<u8>) -> bool {
    match op {
        AttrOp::Presence => true,
        AttrOp::Equal => s == v,
        AttrOp::DashMatch => s == v || (spec_occurs_at(s, v, 0) && s.len() > v.len() && s[v.len() as int]
            == 45),
        AttrOp::Includes => v.len() > 0 && (forall|j: int| 0 <= j < v.len() ==> !spec_is_space(#[trigger] v[j]))
            && exists|i: int| spec_word_at(s, v, i),
        AttrOp::Prefix => v.len() > 0 && spec_occurs_at(s, v, 0),
        AttrOp::Suffix => v.len() > 0 && spec_occurs_at(s, v, s.len() - v.len()),
        AttrOp::Substring => v.len() > 0 && exists|i: int| spec_occurs_at(s, v, i),
    }
}

fn occurs_at(s: &Vec<u8>, v: &Vec<u8>, i: usize) -> (r: bool)
    ensures
        r == spec_occurs_at(s@, v@, i as int),
{
    let slen = s.len();
    if i > slen || v.len() > slen - i {
        return false;
    }
    let mut j: usize = 0;
    while j < v.len()
        invariant
            i + v@.len() <= s@.len(),
            s@.len() == slen,
            j <= v@.len(),
            forall|t: int| 0 <= t < j ==> s@[i + t] == v@[t],
        decreases v@.len() - j,
    {
        if s[i + j] != v[j] {
            assert(s@.subrange(i as int, i + v@.len())[j as int] != v@[j as int]);
            return false;
        }
        j = j + 1;
    }
    assert(s@.subrange(i as int, i + v@.len()) =~= v@);
    true
}

proof fn lemma_equal_occurs(s: Seq<u8>, v: Seq<u8>)
    ensures
        s == v ==> spec_occurs_at(s, v, 0),
{
    if s == v {
        assert(s.subrange(0, v.len() as int) =~= v);
    }
}

fn is_space(b: u8) -> (r: bool)
    ensures
        r == spec_is_space(b),
{
    b == 32 || b == 9 || b == 10 || b == 12 || b == 13
}

fn word_at(s: &Vec<u8>, v: &Vec<u8>, i: usize) -> (r: bool)
    ensures
        r == spec_word_at(s@, v@, i as int),
{
    if !occurs_at(s, v, i) {
        return false;
    }
    let slen = s.len();
    let before = i == 0 || is_space(s[i - 1]);
    let after = i + v.len() == slen || is_space(s[i + v.len()]);
    before && after
}

/// Whether an attribute value `s` satisfies the comparison with `v`.
pub fn attr_op(op: AttrOp, s: &Vec<u8>, v: &Vec<u8>) -> (r: bool)
    ensures
        r == spec_attr_op(op, s@, v@),
{
    proof {
        lemma_equal_occurs(s@, v@);
    }
    match op {
        AttrOp::Presence => true,
        AttrOp::Equal => {
            if s.len() == v.len() && occurs_at(s, v, 0) {
                assert(s@.subrange(0, v@.len() as int) =~= s@);
                true
            } else {
                false
            }
        },
        AttrOp::DashMatch => {
            if !occurs_at(s, v, 0) {
                false
            } else if s.len() == v.len() {
                assert(s@.subrange(0, v@.len() as int) =~= s@);
                true
            } else {
                s[v.len()] == 45
            }
        },
        AttrOp::Prefix => v.len() > 0 && occurs_at(s, v, 0),
        AttrOp::Suffix => v.len() > 0 && v.len() <= s.len() && occurs_at(s, v, s.len() - v.len()),
        AttrOp::Substring => {
            if v.len() == 0 || v.len() > s.len() {
                return false;
            }
            let mut i: usize = 0;
            while i <= s.len() - v.len()
                invariant
                    op == AttrOp::Substring,
                    v@.len() <= s@.len(),
                    v@.len() > 0,
                    i <= s@.len() - v@.len() + 1,
                    forall|t: int| 0 <= t < i ==> !spec_occurs_at(s@, v@, t),
                decreases s@.len() - v@.len() + 1 - i,
            {
                if occurs_at(s, v, i) {
                    assert(spec_occurs_at(s@, v@, i as int));
                    return true;
                }
                i = i + 1;
            }
            false
        },
        AttrOp::Includes => {
            if v.len() == 0 || v.len() > s.len() {
                return false;
            }
            let mut j: usize = 0;
            while j < v.len()
                invariant
                    op == AttrOp::Includes,
                    j <= v@.len(),
                    forall|t: int| 0 <= t < j ==> !spec_is_space(#[trigger] v@[t]),
                decreases v@.len() - j,
            {
                if is_space(v[j]) {
                    assert(spec_is_space(v@[j as int]));
                    return false;
                }
                j = j + 1;
            }
            let mut i: usize = 0;
            while i <= s.len() - v.len()
                invariant
                    op == AttrOp::Includes,
                    0 < v@.len() <= s@.len(),
                    i <= s@.len() - v@.len() + 1,
                    forall|t: int| 0 <= t < v@.len() ==> !spec_is_space(#[trigger] v@[t]),
                    forall|t: int| 0 <= t < i ==> !spec_word_at(s@, v@, t),
                decreases s@.len() - v@.len() + 1 - i,
            {
                if word_at(s, v, i) {
                    assert(spec_word_at(s@, v@, i as int));
                    return true;
                }
                i = i + 1;
            }
            false
        },
    }
}

/// The position of the first attribute named `name`, if there is one.
pub open spec fn spec_first_attr(attrs: Seq<DomAttribute>, name: Atom, i: int) -> bool {
    0 <= i < attrs.len() && attrs[i].name == name && forall|j: int| 0 <= j < i ==> #[trigger] attrs[j].name != name
}

impl DomTree {
    /// Every node's parent and previous sibling are earlier nodes.
    pub open spec fn wf(&self) -> bool {
        forall|i: int|
            0 <= i < self.nodes@.len() ==> self.spec_link_ok(i as NodeId, (#[trigger] self.nodes@[i]).parent)
                && self.spec_link_ok(i as NodeId, self.nodes@[i].prev_sibling)
    }

    /// Node `n` exists and its link `l` names no node but an earlier one.
    pub open spec fn spec_link_ok(&self, n: NodeId, l: Option<NodeId>) -> bool {
        n < self.nodes@.len() && (l matches Some(p) ==> p < n)
    }

    /// An empty tree.
    pub fn new() -> (t: DomTree)
        ensures
            t.nodes@.len() == 0,
            t.wf(),
    {
        DomTree { nodes: Vec::new() }
    }

    /// Adds a node and returns its identity, the number of nodes before it.
    pub fn add_node(&mut self, node: DomNode) -> (n: NodeId)
        ensures
            n == old(self).nodes@.len(),
            final(self).nodes@ == old(self).nodes@.push(node),
            old(self).wf() && (node.parent matches Some(p) ==> p < n) && (node.prev_sibling matches Some(
                s,
            ) ==> s < n) ==> final(self).wf(),
    {
        let n = self.nodes.len();
        self.nodes.push(node);
        assert forall|i: int| 0 <= i < old(self).nodes@.len() implies self.nodes@[i] == old(self).nodes@[i] by {}
        n
    }
}

impl CssSelectHandler for DomTree {
    open spec fn spec_name(&self, n: NodeId) -> CssQName {
        if n < self.nodes@.len() {
            self.nodes@[n as int].name
        } else {
            CssQName { ns: None, name: 0 }
        }
    }

    open spec fn spec_id(&self, n: NodeId) -> Option<Atom> {
        if n < self.nodes@.len() {
            self.nodes@[n as int].id
        } else {
            None
        }
    }

    open spec fn spec_has_class(&self, n: NodeId, class: Atom) -> bool {
        n < self.nodes@.len() && self.nodes@[n as int].classes@.contains(class)
    }

    open spec fn spec_has_attribute(&self, n: NodeId, name: Atom, op: AttrOp, value: Seq<u8>) -> bool {
        n < self.nodes@.len() && exists|i: int|
            spec_first_attr(self.nodes@[n as int].attributes@, name, i) && spec_attr_op(
                op,
                self.nodes@[n as int].attributes@[i].value@,
                value,
            )
    }

    /// `:root` and `:first-child` follow from the node's links; the other
    /// pseudo-classes are those the node lists.
    open spec fn spec_has_state(&self, n: NodeId, state: PseudoClass) -> bool {
        n < self.nodes@.len() && match state {
            PseudoClass::Root => self.nodes@[n as int].parent is None,
            PseudoClass::FirstChild => self.nodes@[n as int].prev_sibling is None,
            _ => self.nodes@[n as int].states@.contains(state),
        }
    }

    open spec fn spec_parent(&self, n: NodeId) -> Option<NodeId> {
        if n < self.nodes@.len() {
            match self.nodes@[n as int].parent {
                Some(p) => if p < n {
                    Some(p)
                } else {
                    None
                },
                None => None,
            }
        } else {
            None
        }
    }

    open spec fn spec_prev_sibling(&self, n: NodeId) -> Option<NodeId> {
        if n < self.nodes@.len() {
            match self.nodes@[n as int].prev_sibling {
                Some(p) => if p < n {
                    Some(p)
                } else {
                    None
                },
                None => None,
            }
        } else {
            None
        }
    }

    /// The tree asks for the user agent's usual defaults.
    open spec fn spec_ua_default(&self, property: CssProperty) -> CssHint {
        CssHint::CssHintDefault
    }

    open spec fn spec_valid(&self, n: NodeId) -> bool {
        n < self.nodes@.len() && self.wf()
    }

    open spec fn spec_rank(&self, n: NodeId) -> nat {
        n as nat
    }

    proof fn lemma_rank_decreases(&self, n: NodeId) {
        if self.spec_valid(n) {
            assert(self.spec_link_ok(n, self.nodes@[n as int].parent));
            assert(self.spec_link_ok(n, self.nodes@[n as int].prev_sibling));
        }
    }

    fn ua_default_for_property(&self, property: CssProperty) -> (r: CssHint) {
        CssHint::CssHintDefault
    }

    fn node_name(&self, n: NodeId) -> (r: Result<CssQName, QueryError>)
        ensures
            r is Ok <==> n < self.nodes@.len(),
    {
        if n >= self.nodes.len() {
            return Err(QueryError { node: n });
        }
        Ok(self.nodes[n].name)
    }

    fn node_id(&self, n: NodeId) -> (r: Result<Option<Atom>, QueryError>)
        ensures
            r is Ok <==> n < self.nodes@.len(),
    {
        if n >= self.nodes.len() {
            return Err(QueryError { node: n });
        }
        Ok(self.nodes[n].id)
    }

    fn node_has_class(&self, n: NodeId, class: Atom) -> (r: Result<bool, QueryError>)
        ensures
            r is Ok <==> n < self.nodes@.len(),
    {
        if n >= self.nodes.len() {
            return Err(QueryError { node: n });
        }
        let classes = &self.nodes[n].classes;
        let mut i: usize = 0;
        while i < classes.len()
            invariant
                n < self.nodes@.len(),
                classes@ == self.nodes@[n as int].classes@,
                i <= classes@.len(),
                forall|j: int| 0 <= j < i ==> classes@[j] != class,
            decreases classes@.len() - i,
        {
            if classes[i] == class {
                assert(classes@[i as int] == class);
                return Ok(true);
            }
            i = i + 1;
        }
        Ok(false)
    }

    fn node_has_attribute(&self, n: NodeId, name: Atom, op: AttrOp, value: &Vec<u8>) -> (r: Result<
        bool,
        QueryError,
    >)
        ensures
            r is Ok <==> n < self.nodes@.len(),
    {
        if n >= self.nodes.len() {
            return Err(QueryError { node: n });
        }
        let attrs = &self.nodes[n].attributes;
        let mut i: usize = 0;
        while i < attrs.len()
            invariant
                n < self.nodes@.len(),
                attrs@ == self.nodes@[n as int].attributes@,
                i <= attrs@.len(),
                forall|j: int| 0 <= j < i ==> #[trigger] attrs@[j].name != name,
            decreases attrs@.len() - i,
        {
            if attrs[i].name == name {
                assert(spec_first_attr(attrs@, name, i as int));
                let b = attr_op(op, &attrs[i].value, value);
                assert forall|t: int| spec_first_attr(attrs@, name, t) implies t == i by {
                    if t < i {
                        assert(attrs@[t].name != name);
                    } else if t > i {
                        assert(attrs@[i as int].name != name);
                    }
                }
                if b {
                    assert(spec_first_attr(self.nodes@[n as int].attributes@, name, i as int));
                }
                return Ok(b);
            }
            i = i + 1;
        }
        Ok(false)
    }

    fn node_has_state(&self, n: NodeId, state: PseudoClass) -> (r: Result<bool, QueryError>)
        ensures
            r is Ok <==> n < self.nodes@.len(),
    {
        if n >= self.nodes.len() {
            return Err(QueryError { node: n });
        }
        match state {
            PseudoClass::Root => {
                return Ok(self.nodes[n].parent.is_none());
            },
            PseudoClass::FirstChild => {
                return Ok(self.nodes[n].prev_sibling.is_none());
            },
            _ => {},
        }
        let states = &self.nodes[n].states;
        let mut i: usize = 0;
        while i < states.len()
            invariant
                n < self.nodes@.len(),
                states@ == self.nodes@[n as int].states@,
                state != PseudoClass::Root && state != PseudoClass::FirstChild,
                i <= states@.len(),
                forall|j: int| 0 <= j < i ==> states@[j] != state,
            decreases states@.len() - i,
        {
            if states[i] == state {
                assert(states@[i as int] == state);
                return Ok(true);
            }
            i = i + 1;
        }
        Ok(false)
    }

    fn parent_node(&self, n: NodeId) -> (r: Result<Option<NodeId>, QueryError>)
        ensures
            r is Ok <==> self.spec_link_ok(n, self.nodes@[n as int].parent),
    {
        if n >= self.nodes.len() {
            return Err(QueryError { node: n });
        }
        match self.nodes[n].parent {
            Some(p) => if p < n {
                Ok(Some(p))
            } else {
                Err(QueryError { node: n })
            },
            None => Ok(None),
        }
    }

    fn sibling_node(&self, n: NodeId) -> (r: Result<Option<NodeId>, QueryError>)
        ensures
            r is Ok <==> self.spec_link_ok(n, self.nodes@[n as int].prev_sibling),
    {
        if n >= self.nodes.len() {
            return Err(QueryError { node: n });
        }
        match self.nodes[n].prev_sibling {
            Some(p) => if p < n {
                Ok(Some(p))
            } else {
                Err(QueryError { node: n })
            },
            None => Ok(None),
        }
    }
}

} // verus!
