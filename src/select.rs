//! The selection context and the matcher's collection pass: which
//! declarations of which rules apply to a node, for one pseudo-element.
use vstd::prelude::*;
use crate::handler::{CssSelectHandler, NodeId, QueryError};
use crate::matcher::spec_matches;
use crate::selector::Specificity;
use crate::stylesheet::{CssDeclaration, CssRule, CssStylesheet};
use crate::types::{CssOrigin, CssPseudoElement};

verus! {

/// A stylesheet added to a selection context, with its origin and the media
/// it applies to (a bit mask).
#[derive(Clone, Debug)]
pub struct SheetEntry {
    pub sheet: CssStylesheet,
    pub origin: CssOrigin,
    pub media: u64,
}

/// A selection context: the stylesheets that selection consults, in the
/// order they were added. The context owns them, so nothing selected from
/// them can outlive them.
#[derive(Clone, Debug)]
pub struct CssSelectCtx {
    pub sheets: Vec<SheetEntry>,
}

/// A declaration that applies to a node, with what the cascade ranks it by:
/// its origin, the specificity of the selector that matched, and its place
/// (stylesheet, rule, selector within the rule, declaration within the
/// block).
#[derive(Clone, Copy, Debug, PartialEq, Eq, Structural)]
pub struct MatchedDeclaration {
    pub declaration: CssDeclaration,
    pub origin: CssOrigin,
    pub specificity: Specificity,
    pub sheet: usize,
    pub rule: usize,
    pub selector: usize,
    pub index: usize,
}

/// The records of one declaration block, for one matching selector.
pub open spec fn spec_block_records(
    decls: Seq<CssDeclaration>,
    origin: CssOrigin,
    spec: Specificity,
    s: usize,
    r: usize,
    k: usize,
) -> Seq<MatchedDeclaration> {
    Seq::new(
        decls.len(),
        |d: int|
            MatchedDeclaration {
                declaration: decls[d],
                origin,
                specificity: spec,
                sheet: s,
                rule: r,
                selector: k,
                index: d as usize,
            },
    )
}

/// The records of the first `nk` selectors of a rule.
pub open spec fn spec_rule_records<H: CssSelectHandler>(
    h: &H,
    rule: CssRule,
    specs: Seq<Specificity>,
    origin: CssOrigin,
    s: usize,
    r: usize,
    node: NodeId,
    pe: CssPseudoElement,
    nk: nat,
) -> Seq<MatchedDeclaration>
    decreases nk,
{
    if nk == 0 {
        Seq::empty()
    } else {
        let k = (nk - 1) as int;
        let sel = rule.selectors@[k];
        spec_rule_records(h, rule, specs, origin, s, r, node, pe, (nk - 1) as nat) + if sel.pseudo_element
            == pe && spec_matches(h, &sel, node) {
            spec_block_records(rule.declarations@, origin, specs[k], s, r, k as usize)
        } else {
            Seq::empty()
        }
    }
}

/// The records of the first `nr` rules of a stylesheet.
pub open spec fn spec_sheet_records<H: CssSelectHandler>(
    h: &H,
    entry: SheetEntry,
    s: usize,
    node: NodeId,
    pe: CssPseudoElement,
    nr: nat,
) -> Seq<MatchedDeclaration>
    decreases nr,
{
    if nr == 0 {
        Seq::empty()
    } else {
        let r = (nr - 1) as int;
        spec_sheet_records(h, entry, s, node, pe, (nr - 1) as nat) + spec_rule_records(
            h,
            entry.sheet.rules@[r],
            entry.sheet.specificities@[r]@,
            entry.origin,
            s,
            r as usize,
            node,
            pe,
            entry.sheet.rules@[r].selectors@.len(),
        )
    }
}

/// The records of the first `ns` stylesheets, skipping those whose media do
/// not meet the requested media.
pub open spec fn spec_ctx_records<H: CssSelectHandler>(
    h: &H,
    sheets: Seq<SheetEntry>,
    media: u64,
    node: NodeId,
    pe: CssPseudoElement,
    ns: nat,
) -> Seq<MatchedDeclaration>
    decreases ns,
{
    if ns == 0 {
        Seq::empty()
    } else {
        let s = (ns - 1) as int;
        spec_ctx_records(h, sheets, media, node, pe, (ns - 1) as nat) + if sheets[s].media & media
            != 0 {
            spec_sheet_records(h, sheets[s], s as usize, node, pe, sheets[s].sheet.rules@.len())
        } else {
            Seq::empty()
        }
    }
}

/// No selector for pseudo-element `pe` of any rule of any stylesheet whose
/// media meet `media` matches the node.
pub open spec fn spec_matches_nothing<H: CssSelectHandler>(
    h: &H,
    sheets: Seq<SheetEntry>,
    media: u64,
    node: NodeId,
    pe: CssPseudoElement,
) -> bool {
    forall|s: int, r: int, k: int|
        0 <= s < sheets.len() && sheets[s].media & media != 0 && 0 <= r
            < sheets[s].sheet.rules@.len() && 0 <= k < sheets[s].sheet.rules@[r].selectors@.len()
            && (#[trigger] sheets[s].sheet.rules@[r].selectors@[k]).pseudo_element == pe
            ==> !spec_matches(h, &sheets[s].sheet.rules@[r].selectors@[k], node)
}

proof fn lemma_rule_no_records<H: CssSelectHandler>(
    h: &H,
    rule: CssRule,
    specs: Seq<Specificity>,
    origin: CssOrigin,
    s: usize,
    r: usize,
    node: NodeId,
    pe: CssPseudoElement,
    nk: nat,
)
    requires
        nk <= rule.selectors@.len(),
        forall|k: int|
            0 <= k < nk && (#[trigger] rule.selectors@[k]).pseudo_element == pe ==> !spec_matches(
                h,
                &rule.selectors@[k],
                node,
            ),
    ensures
        spec_rule_records(h, rule, specs, origin, s, r, node, pe, nk) == Seq::<MatchedDeclaration>::empty(),
    decreases nk,
{
    if nk > 0 {
        lemma_rule_no_records(h, rule, specs, origin, s, r, node, pe, (nk - 1) as nat);
        let sel = rule.selectors@[nk - 1];
        assert(!(sel.pseudo_element == pe && spec_matches(h, &sel, node)));
        assert(spec_rule_records(h, rule, specs, origin, s, r, node, pe, nk) =~= Seq::<
            MatchedDeclaration,
        >::empty());
    }
}

proof fn lemma_sheet_no_records<H: CssSelectHandler>(
    h: &H,
    entry: SheetEntry,
    s: usize,
    node: NodeId,
    pe: CssPseudoElement,
    nr: nat,
)
    requires
        nr <= entry.sheet.rules@.len(),
        forall|r: int, k: int|
            0 <= r < nr && 0 <= k < entry.sheet.rules@[r].selectors@.len()
                && (#[trigger] entry.sheet.rules@[r].selectors@[k]).pseudo_element == pe
                ==> !spec_matches(h, &entry.sheet.rules@[r].selectors@[k], node),
    ensures
        spec_sheet_records(h, entry, s, node, pe, nr) == Seq::<MatchedDeclaration>::empty(),
    decreases nr,
{
    if nr > 0 {
        let r = (nr - 1) as int;
        lemma_sheet_no_records(h, entry, s, node, pe, (nr - 1) as nat);
        let rule = entry.sheet.rules@[r];
        assert forall|k: int|
            0 <= k < rule.selectors@.len() && (#[trigger] rule.selectors@[k]).pseudo_element == pe
                implies !spec_matches(h, &rule.selectors@[k], node) by {
            assert(entry.sheet.rules@[r].selectors@[k] == rule.selectors@[k]);
        }
        lemma_rule_no_records(
            h,
            rule,
            entry.sheet.specificities@[r]@,
            entry.origin,
            s,
            r as usize,
            node,
            pe,
            rule.selectors@.len(),
        );
        assert(spec_sheet_records(h, entry, s, node, pe, nr) =~= Seq::<MatchedDeclaration>::empty());
    }
}

/// A node that no selector matches gets an empty match set.
pub proof fn lemma_no_matches_no_records<H: CssSelectHandler>(
    h: &H,
    sheets: Seq<SheetEntry>,
    media: u64,
    node: NodeId,
    pe: CssPseudoElement,
    ns: nat,
)
    requires
        ns <= sheets.len(),
        spec_matches_nothing(h, sheets, media, node, pe),
    ensures
        spec_ctx_records(h, sheets, media, node, pe, ns) == Seq::<MatchedDeclaration>::empty(),
    decreases ns,
{
    if ns > 0 {
        let s = (ns - 1) as int;
        lemma_no_matches_no_records(h, sheets, media, node, pe, (ns - 1) as nat);
        if sheets[s].media & media != 0 {
            let entry = sheets[s];
            assert forall|r: int, k: int|
                0 <= r < entry.sheet.rules@.len() && 0 <= k < entry.sheet.rules@[r].selectors@.len()
                    && (#[trigger] entry.sheet.rules@[r].selectors@[k]).pseudo_element == pe
                    implies !spec_matches(h, &entry.sheet.rules@[r].selectors@[k], node) by {
                assert(sheets[s].sheet.rules@[r].selectors@[k] == entry.sheet.rules@[r].selectors@[k]);
            }
            lemma_sheet_no_records(h, entry, s as usize, node, pe, entry.sheet.rules@.len());
        }
        assert(spec_ctx_records(h, sheets, media, node, pe, ns) =~= Seq::<MatchedDeclaration>::empty());
    }
}

fn push_block_records(
    out: &mut Vec<MatchedDeclaration>,
    decls: &Vec<CssDeclaration>,
    origin: CssOrigin,
    spec: Specificity,
    s: usize,
    r: usize,
    k: usize,
)
    ensures
        final(out)@ == old(out)@ + spec_block_records(decls@, origin, spec, s, r, k),
{
    let ghost start = out@;
    let mut d: usize = 0;
    while d < decls.len()
        invariant
            d <= decls@.len(),
            out@ == start + spec_block_records(decls@, origin, spec, s, r, k).take(d as int),
        decreases decls@.len() - d,
    {
        out.push(
            MatchedDeclaration {
                declaration: decls[d],
                origin,
                specificity: spec,
                sheet: s,
                rule: r,
                selector: k,
                index: d,
            },
        );
        d = d + 1;
        assert(out@ =~= start + spec_block_records(decls@, origin, spec, s, r, k).take(d as int));
    }
    assert(spec_block_records(decls@, origin, spec, s, r, k).take(d as int) =~= spec_block_records(
        decls@,
        origin,
        spec,
        s,
        r,
        k,
    ));
}

fn push_rule_records<H: CssSelectHandler>(
    out: &mut Vec<MatchedDeclaration>,
    h: &H,
    rule: &CssRule,
    specs: &Vec<Specificity>,
    origin: CssOrigin,
    s: usize,
    r: usize,
    node: NodeId,
    pe: CssPseudoElement,
) -> (res: Result<(), QueryError>)
    requires
        rule.wf(),
        specs@.len() == rule.selectors@.len(),
    ensures
        h.spec_valid(node) ==> res is Ok,
        res is Ok ==> final(out)@ == old(out)@ + spec_rule_records(
            h,
            *rule,
            specs@,
            origin,
            s,
            r,
            node,
            pe,
            rule.selectors@.len(),
        ),
{
    let ghost start = out@;
    let mut k: usize = 0;
    while k < rule.selectors.len()
        invariant
            rule.wf(),
            specs@.len() == rule.selectors@.len(),
            k <= rule.selectors@.len(),
            out@ == start + spec_rule_records(h, *rule, specs@, origin, s, r, node, pe, k as nat),
        decreases rule.selectors@.len() - k,
    {
        let sel = &rule.selectors[k];
        if sel.pseudo_element == pe {
            let hit = crate::matcher::matches(h, sel, node)?;
            if hit {
                push_block_records(out, &rule.declarations, origin, specs[k], s, r, k);
            }
        }
        assert(out@ =~= start + spec_rule_records(h, *rule, specs@, origin, s, r, node, pe, k as nat + 1));
        k = k + 1;
    }
    Ok(())
}

fn push_sheet_records<H: CssSelectHandler>(
    out: &mut Vec<MatchedDeclaration>,
    h: &H,
    entry: &SheetEntry,
    s: usize,
    node: NodeId,
    pe: CssPseudoElement,
) -> (res: Result<(), QueryError>)
    requires
        entry.sheet.wf(),
    ensures
        h.spec_valid(node) ==> res is Ok,
        res is Ok ==> final(out)@ == old(out)@ + spec_sheet_records(
            h,
            *entry,
            s,
            node,
            pe,
            entry.sheet.rules@.len(),
        ),
{
    let ghost start = out@;
    let mut r: usize = 0;
    while r < entry.sheet.rules.len()
        invariant
            entry.sheet.wf(),
            r <= entry.sheet.rules@.len(),
            out@ == start + spec_sheet_records(h, *entry, s, node, pe, r as nat),
        decreases entry.sheet.rules@.len() - r,
    {
        push_rule_records(
            out,
            h,
            &entry.sheet.rules[r],
            &entry.sheet.specificities[r],
            entry.origin,
            s,
            r,
            node,
            pe,
        )?;
        assert(out@ =~= start + spec_sheet_records(h, *entry, s, node, pe, r as nat + 1));
        r = r + 1;
    }
    Ok(())
}

/// The positions, in order, of the first `n` stylesheets that come from
/// `origin`.
pub open spec fn spec_origin_positions(sheets: Seq<SheetEntry>, origin: CssOrigin, n: nat) -> Seq<usize>
    decreases n,
{
    if n == 0 {
        Seq::empty()
    } else {
        let rest = spec_origin_positions(sheets, origin, (n - 1) as nat);
        if sheets[n - 1].origin == origin {
            rest.push((n - 1) as usize)
        } else {
            rest
        }
    }
}

impl CssSelectCtx {
    /// The positions of the stylesheets that come from `origin`, in the
    /// order they were added.
    pub fn sheets_for_origin(&self, origin: CssOrigin) -> (r: Vec<usize>)
        ensures
            r@ == spec_origin_positions(self.sheets@, origin, self.sheets@.len()),
    {
        let mut out: Vec<usize> = Vec::new();
        let mut s: usize = 0;
        while s < self.sheets.len()
            invariant
                s <= self.sheets@.len(),
                out@ == spec_origin_positions(self.sheets@, origin, s as nat),
            decreases self.sheets@.len() - s,
        {
            if self.sheets[s].origin == origin {
                out.push(s);
            }
            s = s + 1;
        }
        out
    }

    /// Every stylesheet of the context is well formed.
    pub open spec fn wf(&self) -> bool {
        forall|s: int| 0 <= s < self.sheets@.len() ==> (#[trigger] self.sheets@[s]).sheet.wf()
    }

    /// The declarations that apply to a node for one pseudo-element, in the
    /// order their stylesheets, rules, selectors and blocks were added.
    pub open spec fn spec_match_set<H: CssSelectHandler>(
        &self,
        h: &H,
        node: NodeId,
        media: u64,
        pe: CssPseudoElement,
    ) -> Seq<MatchedDeclaration> {
        spec_ctx_records(h, self.sheets@, media, node, pe, self.sheets@.len())
    }

    /// Collects the declarations that apply to a node for one pseudo-element,
    /// from every stylesheet whose media meet `media`. A failed node query
    /// ends the collection with its error; none fails for a valid node, and
    /// none is made when no stylesheet's media meet `media`.
    pub fn match_set<H: CssSelectHandler>(
        &self,
        h: &H,
        node: NodeId,
        media: u64,
        pe: CssPseudoElement,
    ) -> (r: Result<Vec<MatchedDeclaration>, QueryError>)
        requires
            self.wf(),
        ensures
            r matches Ok(v) ==> v@ == self.spec_match_set(h, node, media, pe),
            h.spec_valid(node) ==> r is Ok,
            (forall|s: int| 0 <= s < self.sheets@.len() ==> #[trigger] self.sheets@[s].media & media
                == 0) ==> r is Ok,
    {
        let mut out: Vec<MatchedDeclaration> = Vec::new();
        let mut s: usize = 0;
        while s < self.sheets.len()
            invariant
                self.wf(),
                s <= self.sheets@.len(),
                out@ == spec_ctx_records(h, self.sheets@, media, node, pe, s as nat),
            decreases self.sheets@.len() - s,
        {
            let entry = &self.sheets[s];
            if entry.media & media != 0 {
                push_sheet_records(&mut out, h, entry, s, node, pe)?;
            }
            assert(out@ =~= spec_ctx_records(h, self.sheets@, media, node, pe, s as nat + 1));
            s = s + 1;
        }
        Ok(out)
    }
}

} // verus!
