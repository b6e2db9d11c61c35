//! The cascade: matched declarations ordered by importance and origin, then
//! specificity, then source order, and the winning declaration of each
//! property.
use vstd::prelude::*;
use vstd::multiset::Multiset;
use crate::properties::{CssProperty, CssValue};
use crate::select::MatchedDeclaration;
use crate::types::CssOrigin;

verus! {

/// The cascade tier of a declaration: normal user-agent, user and author
/// declarations rank 0, 1, 2; important ones rank above all normal ones and
/// in reverse origin order (author 3, user 4, user agent 5).
pub open spec fn spec_tier(m: MatchedDeclaration) -> int {
    let o = m.origin.spec_code() as int;
    if m.declaration.important {
        5 - o
    } else {
        o
    }
}

/// `a` ranks strictly below `b`: compared by tier, then specificity (ids,
/// classes, tags), then source order (stylesheet, rule, selector within the
/// rule, declaration within the block).
pub open spec fn spec_ranks_below(a: MatchedDeclaration, b: MatchedDeclaration) -> bool {
    if spec_tier(a) != spec_tier(b) {
        spec_tier(a) < spec_tier(b)
    } else if a.specificity.ids != b.specificity.ids {
        a.specificity.ids < b.specificity.ids
    } else if a.specificity.classes != b.specificity.classes {
        a.specificity.classes < b.specificity.classes
    } else if a.specificity.tags != b.specificity.tags {
        a.specificity.tags < b.specificity.tags
    } else if a.sheet != b.sheet {
        a.sheet < b.sheet
    } else if a.rule != b.rule {
        a.rule < b.rule
    } else if a.selector != b.selector {
        a.selector < b.selector
    } else {
        a.index < b.index
    }
}

/// `a` and `b` have the same rank.
pub open spec fn spec_same_rank(a: MatchedDeclaration, b: MatchedDeclaration) -> bool {
    !spec_ranks_below(a, b) && !spec_ranks_below(b, a)
}

fn tier(m: &MatchedDeclaration) -> (t: u8)
    ensures
        t == spec_tier(*m),
{
    let o: u8 = match m.origin {
        CssOrigin::CssOriginUa => 0,
        CssOrigin::CssOriginUser => 1,
        CssOrigin::CssOriginAuthor => 2,
    };
    if m.declaration.important {
        5 - o
    } else {
        o
    }
}

/// Whether `a` ranks strictly below `b` in the cascade.
pub fn ranks_below(a: &MatchedDeclaration, b: &MatchedDeclaration) -> (r: bool)
    ensures
        r == spec_ranks_below(*a, *b),
{
    let ta = tier(a);
    let tb = tier(b);
    if ta != tb {
        ta < tb
    } else if a.specificity.ids != b.specificity.ids {
        a.specificity.ids < b.specificity.ids
    } else if a.specificity.classes != b.specificity.classes {
        a.specificity.classes < b.specificity.classes
    } else if a.specificity.tags != b.specificity.tags {
        a.specificity.tags < b.specificity.tags
    } else if a.sheet != b.sheet {
        a.sheet < b.sheet
    } else if a.rule != b.rule {
        a.rule < b.rule
    } else if a.selector != b.selector {
        a.selector < b.selector
    } else {
        a.index < b.index
    }
}

/// `x` inserted into `s` after every element that it does not rank below.
pub open spec fn spec_insert(s: Seq<MatchedDeclaration>, x: MatchedDeclaration) -> Seq<
    MatchedDeclaration,
>
    decreases s.len(),
{
    if s.len() == 0 {
        seq![x]
    } else if spec_ranks_below(x, s[0]) {
        seq![x] + s
    } else {
        seq![s[0]] + spec_insert(s.drop_first(), x)
    }
}

/// The matched declarations in ascending cascade order (a stable insertion
/// sort: the last of each property wins).
pub open spec fn spec_resolve(s: Seq<MatchedDeclaration>) -> Seq<MatchedDeclaration>
    decreases s.len(),
{
    if s.len() == 0 {
        s
    } else {
        spec_insert(spec_resolve(s.drop_last()), s.last())
    }
}

/// No element ranks below an earlier one.
pub open spec fn spec_sorted(s: Seq<MatchedDeclaration>) -> bool {
    forall|i: int, j: int| 0 <= i < j < s.len() ==> !spec_ranks_below(s[j], s[i])
}

proof fn lemma_insert_at(s: Seq<MatchedDeclaration>, x: MatchedDeclaration, p: int)
    requires
        0 <= p <= s.len(),
        forall|j: int| 0 <= j < p ==> !spec_ranks_below(x, #[trigger] s[j]),
        p == s.len() || spec_ranks_below(x, s[p]),
    ensures
        spec_insert(s, x) == s.insert(p, x),
    decreases p,
{
    if p == 0 {
        assert(spec_insert(s, x) =~= s.insert(p, x));
    } else {
        assert(!spec_ranks_below(x, s[0]));
        let t = s.drop_first();
        assert forall|j: int| 0 <= j < p - 1 implies !spec_ranks_below(x, #[trigger] t[j]) by {
            assert(t[j] == s[j + 1]);
        }
        lemma_insert_at(t, x, p - 1);
        assert(spec_insert(s, x) =~= s.insert(p, x));
    }
}

proof fn lemma_ranks_below_transitive(a: MatchedDeclaration, b: MatchedDeclaration, c: MatchedDeclaration)
    requires
        spec_ranks_below(a, b),
        spec_ranks_below(b, c),
    ensures
        spec_ranks_below(a, c),
{
}

proof fn lemma_insert_position(s: Seq<MatchedDeclaration>, x: MatchedDeclaration) -> (p: int)
    ensures
        0 <= p <= s.len(),
        forall|j: int| 0 <= j < p ==> !spec_ranks_below(x, #[trigger] s[j]),
        p == s.len() || spec_ranks_below(x, s[p]),
        spec_insert(s, x) == s.insert(p, x),
    decreases s.len(),
{
    if s.len() == 0 || spec_ranks_below(x, s[0]) {
        lemma_insert_at(s, x, 0);
        0
    } else {
        let t = s.drop_first();
        let q = lemma_insert_position(t, x);
        assert forall|j: int| 0 <= j < q + 1 implies !spec_ranks_below(x, #[trigger] s[j]) by {
            if j > 0 {
                assert(s[j] == t[j - 1]);
            }
        }
        lemma_insert_at(s, x, q + 1);
        q + 1
    }
}

proof fn lemma_insert_sorted(s: Seq<MatchedDeclaration>, x: MatchedDeclaration)
    requires
        spec_sorted(s),
    ensures
        spec_sorted(spec_insert(s, x)),
        spec_insert(s, x).to_multiset() == s.to_multiset().insert(x),
        spec_insert(s, x).len() == s.len() + 1,
{
    let p = lemma_insert_position(s, x);
    let r = s.insert(p, x);
    vstd::seq_lib::to_multiset_insert(s, p, x);
    assert forall|i: int, j: int| 0 <= i < j < r.len() implies !spec_ranks_below(r[j], r[i]) by {
        if j < p {
            assert(r[i] == s[i] && r[j] == s[j]);
        } else if j == p {
            assert(r[i] == s[i] && r[j] == x);
        } else if i < p {
            assert(r[i] == s[i] && r[j] == s[j - 1]);
        } else if i == p {
            assert(r[i] == x && r[j] == s[j - 1]);
            if spec_ranks_below(s[j - 1], x) {
                lemma_ranks_below_transitive(s[j - 1], x, s[p]);
            }
        } else {
            assert(r[i] == s[i - 1] && r[j] == s[j - 1]);
        }
    }
}

/// The resolved order is sorted and holds exactly the matched declarations.
pub proof fn lemma_resolve_sorted_permutation(s: Seq<MatchedDeclaration>)
    ensures
        spec_sorted(spec_resolve(s)),
        spec_resolve(s).to_multiset() == s.to_multiset(),
        spec_resolve(s).len() == s.len(),
    decreases s.len(),
{
    if s.len() > 0 {
        lemma_resolve_sorted_permutation(s.drop_last());
        lemma_insert_sorted(spec_resolve(s.drop_last()), s.last());
        assert(s =~= s.drop_last().push(s.last()));
        vstd::seq_lib::to_multiset_build(s.drop_last(), s.last());
    }
}

/// Orders matched declarations by ascending cascade rank; of two with the
/// same rank the earlier stays first.
pub fn resolve(matched: &Vec<MatchedDeclaration>) -> (r: Vec<MatchedDeclaration>)
    ensures
        r@ == spec_resolve(matched@),
        spec_sorted(r@),
        r@.to_multiset() == matched@.to_multiset(),
{
    let mut out: Vec<MatchedDeclaration> = Vec::new();
    let mut i: usize = 0;
    while i < matched.len()
        invariant
            i <= matched@.len(),
            out@ == spec_resolve(matched@.take(i as int)),
        decreases matched@.len() - i,
    {
        let x = matched[i];
        let mut p: usize = 0;
        while p < out.len()
            invariant
                i < matched@.len(),
                x == matched@[i as int],
                out@ == spec_resolve(matched@.take(i as int)),
                p <= out@.len(),
                forall|j: int| 0 <= j < p ==> !spec_ranks_below(x, #[trigger] out@[j]),
            ensures
                p <= out@.len(),
                forall|j: int| 0 <= j < p ==> !spec_ranks_below(x, #[trigger] out@[j]),
                p == out@.len() || spec_ranks_below(x, out@[p as int]),
            decreases out@.len() - p,
        {
            if ranks_below(&x, &out[p]) {
                break;
            }
            p = p + 1;
        }
        proof {
            lemma_insert_at(out@, x, p as int);
            assert(matched@.take(i as int + 1).drop_last() =~= matched@.take(i as int));
        }
        out.insert(p, x);
        i = i + 1;
    }
    proof {
        assert(matched@.take(i as int) =~= matched@);
        lemma_resolve_sorted_permutation(matched@);
    }
    out
}

/// Any two declarations of the multiset with the same rank are the same
/// declaration (as when no two share a source position).
pub open spec fn spec_rank_injective(m: Multiset<MatchedDeclaration>) -> bool {
    forall|x: MatchedDeclaration, y: MatchedDeclaration|
        #![trigger m.count(x), m.count(y)]
        m.count(x) > 0 && m.count(y) > 0 && spec_same_rank(x, y) ==> x == y
}

proof fn lemma_sorted_unique(a: Seq<MatchedDeclaration>, b: Seq<MatchedDeclaration>)
    requires
        spec_sorted(a),
        spec_sorted(b),
        a.to_multiset() == b.to_multiset(),
        spec_rank_injective(a.to_multiset()),
    ensures
        a == b,
    decreases a.len(),
{
    vstd::seq_lib::to_multiset_len(a);
    vstd::seq_lib::to_multiset_len(b);
    if a.len() == 0 {
        assert(a =~= b);
    } else {
        vstd::seq_lib::to_multiset_contains(a, a[0]);
        vstd::seq_lib::to_multiset_contains(b, a[0]);
        vstd::seq_lib::to_multiset_contains(a, b[0]);
        vstd::seq_lib::to_multiset_contains(b, b[0]);
        assert(a.contains(a[0]));
        assert(b.contains(b[0]));
        let k = choose|k: int| 0 <= k < b.len() && b[k] == a[0];
        let l = choose|l: int| 0 <= l < a.len() && a[l] == b[0];
        assert(!spec_ranks_below(b[k], b[0]) || k == 0);
        assert(!spec_ranks_below(a[l], a[0]) || l == 0);
        assert(spec_same_rank(a[0], b[0]));
        assert(a.to_multiset().count(a[0]) > 0 && a.to_multiset().count(b[0]) > 0);
        assert(a[0] == b[0]);
        let ta = a.drop_first();
        let tb = b.drop_first();
        assert(a.remove(0) =~= ta);
        assert(b.remove(0) =~= tb);
        vstd::seq_lib::to_multiset_remove(a, 0);
        vstd::seq_lib::to_multiset_remove(b, 0);
        assert(spec_sorted(ta)) by {
            assert forall|i: int, j: int| 0 <= i < j < ta.len() implies !spec_ranks_below(ta[j], ta[i]) by {
                assert(ta[i] == a[i + 1] && ta[j] == a[j + 1]);
            }
        }
        assert(spec_sorted(tb)) by {
            assert forall|i: int, j: int| 0 <= i < j < tb.len() implies !spec_ranks_below(tb[j], tb[i]) by {
                assert(tb[i] == b[i + 1] && tb[j] == b[j + 1]);
            }
        }
        assert(spec_rank_injective(ta.to_multiset())) by {
            assert forall|x: MatchedDeclaration, y: MatchedDeclaration|
                #![trigger ta.to_multiset().count(x), ta.to_multiset().count(y)]
                ta.to_multiset().count(x) > 0 && ta.to_multiset().count(y) > 0 && spec_same_rank(x, y)
                    implies x == y by {
                assert(a.to_multiset().count(x) > 0 && a.to_multiset().count(y) > 0);
            }
        }
        lemma_sorted_unique(ta, tb);
        assert(a =~= seq![a[0]] + ta);
        assert(b =~= seq![b[0]] + tb);
    }
}

/// Resolution does not depend on the order in which the matched
/// declarations come: two match sets holding the same declarations, no two
/// of the same rank, resolve to the same order.
pub proof fn lemma_resolve_order_independent(a: Seq<MatchedDeclaration>, b: Seq<MatchedDeclaration>)
    requires
        a.to_multiset() == b.to_multiset(),
        spec_rank_injective(a.to_multiset()),
    ensures
        spec_resolve(a) == spec_resolve(b),
{
    lemma_resolve_sorted_permutation(a);
    lemma_resolve_sorted_permutation(b);
    lemma_sorted_unique(spec_resolve(a), spec_resolve(b));
}

/// An `!important` declaration outranks every normal one, whatever their
/// origins and specificities.
pub proof fn lemma_important_outranks_normal(a: MatchedDeclaration, b: MatchedDeclaration)
    requires
        !a.declaration.important,
        b.declaration.important,
    ensures
        spec_ranks_below(a, b),
{
}

/// Of two declarations of the same importance and origin, the one whose
/// selector is less specific ranks below.
pub proof fn lemma_specificity_orders(a: MatchedDeclaration, b: MatchedDeclaration)
    requires
        a.declaration.important == b.declaration.important,
        a.origin == b.origin,
        crate::selector::spec_specificity_lt(a.specificity.spec_triple(), b.specificity.spec_triple()),
    ensures
        spec_ranks_below(a, b),
{
}

/// Of two declarations of the same importance, origin and specificity, the
/// one that comes later in source order ranks above.
pub proof fn lemma_source_order_breaks_ties(a: MatchedDeclaration, b: MatchedDeclaration)
    requires
        a.declaration.important == b.declaration.important,
        a.origin == b.origin,
        a.specificity == b.specificity,
        a.sheet < b.sheet || (a.sheet == b.sheet && a.rule < b.rule),
    ensures
        spec_ranks_below(a, b),
{
}

/// The value of the last declaration of `p` in `s`, if any.
pub open spec fn spec_winner(s: Seq<MatchedDeclaration>, p: CssProperty) -> Option<CssValue>
    decreases s.len(),
{
    if s.len() == 0 {
        None
    } else if s.last().declaration.property == p {
        Some(s.last().declaration.value)
    } else {
        spec_winner(s.drop_last(), p)
    }
}

proof fn lemma_winner_last(s: Seq<MatchedDeclaration>, p: CssProperty)
    ensures
        spec_winner(s, p) is None ==> forall|j: int| 0 <= j < s.len() ==> (#[trigger] s[j]).declaration.property != p,
        spec_winner(s, p) matches Some(v) ==> exists|i: int|
            0 <= i < s.len() && s[i].declaration.property == p && s[i].declaration.value == v && forall|j: int|
                i < j < s.len() ==> (#[trigger] s[j]).declaration.property != p,
    decreases s.len(),
{
    if s.len() > 0 {
        let t = s.drop_last();
        lemma_winner_last(t, p);
        if s.last().declaration.property != p {
            assert forall|j: int| 0 <= j < t.len() implies t[j] == #[trigger] s[j] by {}
            if let Some(v) = spec_winner(s, p) {
                let i = choose|i: int|
                    0 <= i < t.len() && t[i].declaration.property == p && t[i].declaration.value == v
                        && forall|j: int| i < j < t.len() ==> (#[trigger] t[j]).declaration.property != p;
                assert(s[i] == t[i]);
                assert forall|j: int| i < j < s.len() implies (#[trigger] s[j]).declaration.property != p by {
                    if j < t.len() {
                        assert(s[j] == t[j]);
                    }
                }
            }
        } else {
            assert(s[s.len() - 1] == s.last());
        }
    }
}

/// The cascade's winner for a property is the value of the highest-ranked
/// matched declaration of that property, and there is one exactly when some
/// matched declaration sets the property.
pub proof fn lemma_winner_is_highest_ranked(m: Seq<MatchedDeclaration>, p: CssProperty)
    ensures
        spec_winner(spec_resolve(m), p) is None <==> forall|j: int|
            0 <= j < m.len() ==> (#[trigger] m[j]).declaration.property != p,
        spec_winner(spec_resolve(m), p) matches Some(v) ==> exists|i: int|
            0 <= i < m.len() && m[i].declaration.property == p && m[i].declaration.value == v && forall|j: int|
                0 <= j < m.len() && (#[trigger] m[j]).declaration.property == p ==> !spec_ranks_below(
                    m[i],
                    m[j],
                ),
{
    let s = spec_resolve(m);
    lemma_resolve_sorted_permutation(m);
    lemma_winner_last(s, p);
    // every matched declaration stands somewhere in the resolved order
    assert forall|j: int| 0 <= j < m.len() implies #[trigger] s.contains(m[j]) by {
        vstd::seq_lib::to_multiset_contains(m, m[j]);
        vstd::seq_lib::to_multiset_contains(s, m[j]);
        assert(m.contains(m[j]));
    }
    match spec_winner(s, p) {
        None => {
            assert forall|j: int| 0 <= j < m.len() implies (#[trigger] m[j]).declaration.property != p by {
                assert(s.contains(m[j]));
            }
        },
        Some(v) => {
            let i = choose|i: int|
                0 <= i < s.len() && s[i].declaration.property == p && s[i].declaration.value == v
                    && forall|j: int| i < j < s.len() ==> (#[trigger] s[j]).declaration.property != p;
            vstd::seq_lib::to_multiset_contains(m, s[i]);
            vstd::seq_lib::to_multiset_contains(s, s[i]);
            assert(s.contains(s[i]));
            let mi = choose|mi: int| 0 <= mi < m.len() && m[mi] == s[i];
            assert forall|j: int|
                0 <= j < m.len() && (#[trigger] m[j]).declaration.property == p implies !spec_ranks_below(
                m[mi],
                m[j],
            ) by {
                assert(s.contains(m[j]));
                let k = choose|k: int| 0 <= k < s.len() && s[k] == m[j];
                if k > i {
                    assert(s[k].declaration.property != p);
                }
            }
            assert(m[mi].declaration.property == p);
        },
    }
}

/// The value of the last declaration of a property in resolved order: the
/// declaration that wins the cascade.
pub fn winner(resolved: &Vec<MatchedDeclaration>, p: CssProperty) -> (r: Option<CssValue>)
    ensures
        r == spec_winner(resolved@, p),
{
    let mut i: usize = resolved.len();
    assert(resolved@.take(i as int) =~= resolved@);
    while i > 0
        invariant
            i <= resolved@.len(),
            spec_winner(resolved@, p) == spec_winner(resolved@.take(i as int), p),
        decreases i,
    {
        let ghost prefix = resolved@.take(i as int);
        assert(prefix.drop_last() =~= resolved@.take(i as int - 1));
        if resolved[i - 1].declaration.property == p {
            return Some(resolved[i - 1].declaration.value);
        }
        i = i - 1;
    }
    None
}

} // verus!
