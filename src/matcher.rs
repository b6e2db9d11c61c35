//! Selector matching: a selector is tested right to left, its rightmost
//! compound against the node itself before any walk to ancestors or
//! siblings.
use vstd::prelude::*;
use crate::handler::{CssSelectHandler, NodeId, QueryError};
use crate::selector::{Combinator, CssSelector, Predicate, SelectorPart};

verus! {

/// Whether one predicate holds of a node.
pub open spec fn spec_pred_matches<H: CssSelectHandler>(h: &H, p: Predicate, n: NodeId) -> bool {
    match p {
        Predicate::Name(q) => q.spec_selects(h.spec_name(n)),
        Predicate::Id(a) => h.spec_id(n) == Some(a),
        Predicate::Class(c) => h.spec_has_class(n, c),
        Predicate::Attribute(name, op, v) => h.spec_has_attribute(n, name, op, v@),
        Predicate::Pseudo(s) => h.spec_has_state(n, s),
    }
}

/// Whether every predicate of a compound selector holds of a node.
pub open spec fn spec_compound_matches<H: CssSelectHandler>(
    h: &H,
    c: Seq<Predicate>,
    n: NodeId,
) -> bool {
    forall|i: int| 0 <= i < c.len() ==> spec_pred_matches(h, #[trigger] c[i], n)
}

/// The next node of a walk: the parent, or the previous sibling.
pub open spec fn spec_step<H: CssSelectHandler>(h: &H, n: NodeId, siblings: bool) -> Option<
    NodeId,
> {
    if siblings {
        h.spec_prev_sibling(n)
    } else {
        h.spec_parent(n)
    }
}

/// Whether parts `0..=k` of a selector match with part `k` at node `n`.
pub open spec fn spec_matches_at<H: CssSelectHandler>(
    h: &H,
    parts: Seq<SelectorPart>,
    k: nat,
    n: NodeId,
) -> bool
    decreases k, 0nat,
{
    if k >= parts.len() {
        false
    } else if !spec_compound_matches(h, parts[k as int].compound@, n) {
        false
    } else if k == 0 {
        true
    } else {
        let siblings = parts[k as int].combinator == Combinator::AdjacentSibling
            || parts[k as int].combinator == Combinator::GeneralSibling;
        let repeat = parts[k as int].combinator == Combinator::Descendant
            || parts[k as int].combinator == Combinator::GeneralSibling;
        match spec_step(h, n, siblings) {
            None => false,
            Some(m) => if repeat {
                spec_matches_along(h, parts, (k - 1) as nat, m, siblings)
            } else {
                spec_matches_at(h, parts, (k - 1) as nat, m)
            },
        }
    }
}

/// Whether parts `0..=k` match with part `k` at `n` or at some node that
/// repeated steps from `n` reach (ancestors, or earlier siblings).
pub open spec fn spec_matches_along<H: CssSelectHandler>(
    h: &H,
    parts: Seq<SelectorPart>,
    k: nat,
    n: NodeId,
    siblings: bool,
) -> bool
    decreases k, h.spec_rank(n) + 1,
{
    if spec_matches_at(h, parts, k, n) {
        true
    } else {
        match spec_step(h, n, siblings) {
            None => false,
            Some(m) => if h.spec_rank(m) < h.spec_rank(n) {
                spec_matches_along(h, parts, k, m, siblings)
            } else {
                false
            },
        }
    }
}

/// Whether a selector matches a node.
pub open spec fn spec_matches<H: CssSelectHandler>(h: &H, sel: &CssSelector, n: NodeId) -> bool {
    spec_matches_at(h, sel.parts@, (sel.parts@.len() - 1) as nat, n)
}

/// Tests one predicate against a node.
pub fn pred_matches<H: CssSelectHandler>(h: &H, p: &Predicate, n: NodeId) -> (r: Result<
    bool,
    QueryError,
>)
    ensures
        h.spec_valid(n) ==> r is Ok,
        r matches Ok(b) ==> b == spec_pred_matches(h, *p, n),
{
    match p {
        Predicate::Name(q) => {
            let name = h.node_name(n)?;
            Ok(q.selects(&name))
        },
        Predicate::Id(a) => {
            let id = h.node_id(n)?;
            match id {
                Some(x) => Ok(x == *a),
                None => Ok(false),
            }
        },
        Predicate::Class(c) => h.node_has_class(n, *c),
        Predicate::Attribute(name, op, v) => h.node_has_attribute(n, *name, *op, v),
        Predicate::Pseudo(s) => h.node_has_state(n, *s),
    }
}

/// Tests every predicate of a compound selector against a node, stopping at
/// the first that fails.
pub fn compound_matches<H: CssSelectHandler>(h: &H, c: &Vec<Predicate>, n: NodeId) -> (r: Result<
    bool,
    QueryError,
>)
    ensures
        h.spec_valid(n) ==> r is Ok,
        r matches Ok(b) ==> b == spec_compound_matches(h, c@, n),
{
    let mut i: usize = 0;
    while i < c.len()
        invariant
            i <= c@.len(),
            forall|j: int| 0 <= j < i ==> spec_pred_matches(h, #[trigger] c@[j], n),
        decreases c@.len() - i,
    {
        let ok = pred_matches(h, &c[i], n)?;
        if !ok {
            return Ok(false);
        }
        i = i + 1;
    }
    Ok(true)
}

fn step<H: CssSelectHandler>(h: &H, n: NodeId, siblings: bool) -> (r: Result<
    Option<NodeId>,
    QueryError,
>)
    ensures
        h.spec_valid(n) ==> r is Ok,
        r matches Ok(m) ==> m == spec_step(h, n, siblings),
{
    if siblings {
        h.sibling_node(n)
    } else {
        h.parent_node(n)
    }
}

fn matches_at<H: CssSelectHandler>(h: &H, parts: &Vec<SelectorPart>, k: usize, n: NodeId) -> (r:
    Result<bool, QueryError>)
    requires
        k < parts@.len(),
    ensures
        h.spec_valid(n) ==> r is Ok,
        r matches Ok(b) ==> b == spec_matches_at(h, parts@, k as nat, n),
    decreases k, 0nat,
{
    let here = compound_matches(h, &parts[k].compound, n)?;
    if !here {
        return Ok(false);
    }
    if k == 0 {
        return Ok(true);
    }
    let comb = parts[k].combinator;
    let siblings = comb == Combinator::AdjacentSibling || comb == Combinator::GeneralSibling;
    let repeat = comb == Combinator::Descendant || comb == Combinator::GeneralSibling;
    let next = step(h, n, siblings)?;
    match next {
        None => Ok(false),
        Some(m) => {
            proof {
                h.lemma_rank_decreases(n);
            }
            if repeat {
                matches_along(h, parts, k - 1, m, siblings)
            } else {
                matches_at(h, parts, k - 1, m)
            }
        },
    }
}

fn matches_along<H: CssSelectHandler>(
    h: &H,
    parts: &Vec<SelectorPart>,
    k: usize,
    n: NodeId,
    siblings: bool,
) -> (r: Result<bool, QueryError>)
    requires
        k < parts@.len(),
    ensures
        h.spec_valid(n) ==> r is Ok,
        r matches Ok(b) ==> b == spec_matches_along(h, parts@, k as nat, n, siblings),
    decreases k, h.spec_rank(n) + 1,
{
    let here = matches_at(h, parts, k, n)?;
    if here {
        return Ok(true);
    }
    let next = step(h, n, siblings)?;
    match next {
        None => Ok(false),
        Some(m) => {
            proof {
                h.lemma_rank_decreases(n);
            }
            matches_along(h, parts, k, m, siblings)
        },
    }
}

/// Tests a selector against a node. A failed query ends the test with its
/// error, which cannot happen for a valid node; an answer is the selector's
/// match on the tree's model, so two tests on an unchanged tree agree.
pub fn matches<H: CssSelectHandler>(h: &H, sel: &CssSelector, n: NodeId) -> (r: Result<
    bool,
    QueryError,
>)
    requires
        sel.wf(),
    ensures
        h.spec_valid(n) ==> r is Ok,
        r matches Ok(b) ==> b == spec_matches(h, sel, n),
{
    matches_at(h, &sel.parts, sel.parts.len() - 1, n)
}

} // verus!
