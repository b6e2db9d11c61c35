//! The node capability interface through which the engine reads a document
//! tree that it does not own.
use vstd::prelude::*;
use crate::properties::{Atom, CssHint, CssProperty};
use crate::selector::{AttrOp, CssQName, PseudoClass};

verus! {

/// The identity of a node of the caller's document tree.
pub type NodeId = usize;

/// A node query failed, or the tree answered inconsistently, for this node.
#[derive(Clone, Copy, Debug, PartialEq, Eq, Structural)]
pub struct QueryError {
    pub node: NodeId,
}

/// What the engine may ask of a document tree. Each query answers for one
/// node, or fails with a `QueryError`; an answer agrees with the tree's
/// model, given by the `spec_` functions, and a query about a valid node is
/// always answered.
pub trait CssSelectHandler {
    /// The node's element name.
    spec fn spec_name(&self, n: NodeId) -> CssQName;

    /// The node's id, if it has one.
    spec fn spec_id(&self, n: NodeId) -> Option<Atom>;

    /// Whether the node carries the class.
    spec fn spec_has_class(&self, n: NodeId, class: Atom) -> bool;

    /// Whether the node's attribute `name` satisfies the comparison with
    /// `value`.
    spec fn spec_has_attribute(&self, n: NodeId, name: Atom, op: AttrOp, value: Seq<u8>) -> bool;

    /// Whether the node is in the state, or at the position, that the
    /// pseudo-class names.
    spec fn spec_has_state(&self, n: NodeId, state: PseudoClass) -> bool;

    /// The node's parent element.
    spec fn spec_parent(&self, n: NodeId) -> Option<NodeId>;

    /// The element just before the node among its siblings.
    spec fn spec_prev_sibling(&self, n: NodeId) -> Option<NodeId>;

    /// The user agent's default for a property whose initial value the user
    /// agent chooses.
    spec fn spec_ua_default(&self, property: CssProperty) -> CssHint;

    /// Whether queries about the node are sure to be answered.
    spec fn spec_valid(&self, n: NodeId) -> bool;

    /// A measure that every step to a parent or a previous sibling lowers,
    /// so that walks up and back through the tree end.
    spec fn spec_rank(&self, n: NodeId) -> nat;

    proof fn lemma_rank_decreases(&self, n: NodeId)
        ensures
            self.spec_parent(n) matches Some(p) ==> self.spec_rank(p) < self.spec_rank(n),
            self.spec_prev_sibling(n) matches Some(s) ==> self.spec_rank(s) < self.spec_rank(n),
            self.spec_valid(n) ==> (self.spec_parent(n) matches Some(p) ==> self.spec_valid(p)),
            self.spec_valid(n) ==> (self.spec_prev_sibling(n) matches Some(s) ==> self.spec_valid(s)),
    ;

    fn ua_default_for_property(&self, property: CssProperty) -> (r: CssHint)
        ensures
            r == self.spec_ua_default(property),
    ;

    fn node_name(&self, n: NodeId) -> (r: Result<CssQName, QueryError>)
        ensures
            self.spec_valid(n) ==> r is Ok,
            r matches Ok(a) ==> a == self.spec_name(n),
    ;

    fn node_id(&self, n: NodeId) -> (r: Result<Option<Atom>, QueryError>)
        ensures
            self.spec_valid(n) ==> r is Ok,
            r matches Ok(a) ==> a == self.spec_id(n),
    ;

    fn node_has_class(&self, n: NodeId, class: Atom) -> (r: Result<bool, QueryError>)
        ensures
            self.spec_valid(n) ==> r is Ok,
            r matches Ok(b) ==> b == self.spec_has_class(n, class),
    ;

    fn node_has_attribute(&self, n: NodeId, name: Atom, op: AttrOp, value: &Vec<u8>) -> (r: Result<
        bool,
        QueryError,
    >)
        ensures
            self.spec_valid(n) ==> r is Ok,
            r matches Ok(b) ==> b == self.spec_has_attribute(n, name, op, value@),
    ;

    fn node_has_state(&self, n: NodeId, state: PseudoClass) -> (r: Result<bool, QueryError>)
        ensures
            self.spec_valid(n) ==> r is Ok,
            r matches Ok(b) ==> b == self.spec_has_state(n, state),
    ;

    fn parent_node(&self, n: NodeId) -> (r: Result<Option<NodeId>, QueryError>)
        ensures
            self.spec_valid(n) ==> r is Ok,
            r matches Ok(p) ==> p == self.spec_parent(n),
    ;

    fn sibling_node(&self, n: NodeId) -> (r: Result<Option<NodeId>, QueryError>)
        ensures
            self.spec_valid(n) ==> r is Ok,
            r matches Ok(s) ==> s == self.spec_prev_sibling(n),
    ;
}

} // verus!
