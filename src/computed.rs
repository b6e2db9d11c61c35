//! Computed styles: each property's final value, composed from the winning
//! declarations and the parent's computed style.
use vstd::prelude::*;
use crate::cascade::{resolve, spec_resolve, spec_winner, winner};
use crate::fixed::{css_fixed, fixed_mul, fixed_percent, spec_fixed_mul, spec_fixed_percent};
use crate::handler::{CssSelectHandler, NodeId, QueryError};
use crate::properties::{
    property_from_uint,
    spec_property_from_uint,
    lemma_property_code_round_trip,
    CssHint,
    CssProperty,
    CssValue,
    CSS_PROPERTY_COUNT,
    MEDIUM_FONT_SIZE,
};
use crate::select::{CssSelectCtx, MatchedDeclaration, SheetEntry};
use crate::stylesheet::CssStylesheet;
use crate::types::{
    pseudo_element_at,
    spec_pseudo_element,
    CssColorProp,
    CssOrigin,
    CssPseudoElement,
    CssUnit,
    CSS_PSEUDO_ELEMENT_COUNT,
};

verus! {

/// The final values of every property for one element or pseudo-element:
/// the value of property `p` is `values[p.code()]`.
#[derive(Clone, Debug)]
pub struct CssComputedStyle {
    pub values: Vec<CssValue>,
}

/// Whether a value can stand in a computed style: no `inherit`, no `em`
/// length, and for `font-size` no percentage either.
pub open spec fn spec_is_computed(p: CssProperty, v: CssValue) -> bool {
    &&& v != CssValue::Inherit
    &&& !(v matches CssValue::Dimension(CssUnit::CssUnitEm(_)))
    &&& p == CssProperty::CssPropFontSize ==> !(v matches CssValue::Dimension(CssUnit::CssUnitPct(_)))
}

/// Every property has a value, and each value is a computed one.
pub open spec fn spec_computed_values_wf(values: Seq<CssValue>) -> bool {
    &&& values.len() == CSS_PROPERTY_COUNT
    &&& forall|i: int|
        0 <= i < CSS_PROPERTY_COUNT ==> spec_is_computed(
            spec_property_from_uint(i as u32),
            #[trigger] values[i],
        )
}

/// The value of property `p` that a child starts from: the parent's
/// computed value, or at the root the initial value in `initial`.
pub open spec fn spec_parent_value(
    parent: Option<Seq<CssValue>>,
    initial: Seq<CssValue>,
    p: CssProperty,
) -> CssValue {
    match parent {
        Some(v) => v[p.spec_code() as int],
        None => initial[p.spec_code() as int],
    }
}

/// The value the cascade gives `p`: the winning declaration's value, the
/// parent's value for `inherit` or for an inherited property that nothing
/// sets, and otherwise the initial value.
pub open spec fn spec_cascaded_value(
    resolved: Seq<MatchedDeclaration>,
    parent: Option<Seq<CssValue>>,
    initial: Seq<CssValue>,
    p: CssProperty,
) -> CssValue {
    match spec_winner(resolved, p) {
        Some(CssValue::Inherit) => spec_parent_value(parent, initial, p),
        Some(v) => v,
        None => if p.spec_is_inherited() {
            spec_parent_value(parent, initial, p)
        } else {
            initial[p.spec_code() as int]
        },
    }
}

/// The font size in pixels that relative lengths are taken against, given
/// a computed font size: its pixels, or the medium size where it is a
/// keyword that only a font collaborator can size.
pub open spec fn spec_base_font_size(size: CssValue) -> css_fixed {
    match size {
        CssValue::Dimension(CssUnit::CssUnitPx(f)) => f,
        _ => MEDIUM_FONT_SIZE,
    }
}

/// A `font-size` value with `em` and `%` taken against the parent's size.
pub open spec fn spec_absolute_font_size(v: CssValue, base: css_fixed) -> CssValue {
    match v {
        CssValue::Dimension(CssUnit::CssUnitEm(x)) => CssValue::Dimension(
            CssUnit::CssUnitPx(spec_fixed_mul(x, base)),
        ),
        CssValue::Dimension(CssUnit::CssUnitPct(x)) => CssValue::Dimension(
            CssUnit::CssUnitPx(spec_fixed_percent(x, base)),
        ),
        _ => v,
    }
}

/// Any other value with an `em` length taken against the element's own
/// font size.
pub open spec fn spec_absolute_length(v: CssValue, own: css_fixed) -> CssValue {
    match v {
        CssValue::Dimension(CssUnit::CssUnitEm(x)) => CssValue::Dimension(
            CssUnit::CssUnitPx(spec_fixed_mul(x, own)),
        ),
        _ => v,
    }
}

/// The element's computed font size.
pub open spec fn spec_font_size_value(
    resolved: Seq<MatchedDeclaration>,
    parent: Option<Seq<CssValue>>,
    initial: Seq<CssValue>,
) -> CssValue {
    let fs = CssProperty::CssPropFontSize;
    spec_absolute_font_size(
        spec_cascaded_value(resolved, parent, initial, fs),
        spec_base_font_size(spec_parent_value(parent, initial, fs)),
    )
}

/// The computed value of `p`: the cascaded value, with `em` and `%` of
/// `font-size` taken against the parent's font size, and `em` of any other
/// property against the element's own. Other relative lengths (`%` of a
/// containing block, `ex`) are left for layout.
pub open spec fn spec_computed_value(
    resolved: Seq<MatchedDeclaration>,
    parent: Option<Seq<CssValue>>,
    initial: Seq<CssValue>,
    p: CssProperty,
) -> CssValue {
    if p == CssProperty::CssPropFontSize {
        spec_font_size_value(resolved, parent, initial)
    } else {
        spec_absolute_length(
            spec_cascaded_value(resolved, parent, initial, p),
            spec_base_font_size(spec_font_size_value(resolved, parent, initial)),
        )
    }
}

/// The computed values of every property, by code.
pub open spec fn spec_compose(
    resolved: Seq<MatchedDeclaration>,
    parent: Option<Seq<CssValue>>,
    initial: Seq<CssValue>,
) -> Seq<CssValue> {
    Seq::new(
        CSS_PROPERTY_COUNT as nat,
        |i: int| spec_computed_value(resolved, parent, initial, spec_property_from_uint(i as u32)),
    )
}

/// The initial values of every property, by code, with the handler's
/// user-agent defaults for the properties whose initial value the user agent
/// chooses.
pub open spec fn spec_ua_initial_values<H: CssSelectHandler>(h: &H) -> Seq<CssValue> {
    Seq::new(
        CSS_PROPERTY_COUNT as nat,
        |i: int|
            {
                let p = spec_property_from_uint(i as u32);
                if p.spec_is_ua_dependent() {
                    h.spec_ua_default(p).spec_ua_initial(p)
                } else {
                    p.spec_initial_value()
                }
            },
    )
}

proof fn lemma_initial_value_computed(p: CssProperty)
    ensures
        spec_is_computed(p, p.spec_initial_value()),
        p.spec_is_ua_dependent() ==> forall|h: CssHint| spec_is_computed(p, #[trigger] h.spec_ua_initial(p)),
{
}

/// The values of an optional computed style.
pub open spec fn spec_values_of(style: Option<&CssComputedStyle>) -> Option<Seq<CssValue>> {
    match style {
        Some(s) => Some(s.values@),
        None => None,
    }
}

impl CssComputedStyle {
    pub open spec fn wf(&self) -> bool {
        spec_computed_values_wf(self.values@)
    }

    /// The computed value of a property.
    pub open spec fn spec_value(&self, p: CssProperty) -> CssValue {
        self.values@[p.spec_code() as int]
    }

    /// The computed value of a property.
    pub fn value(&self, p: CssProperty) -> (r: CssValue)
        requires
            self.wf(),
        ensures
            r == self.spec_value(p),
    {
        self.values[p.code() as usize]
    }

    /// The computed `color`: its colour, or `CssColorInherit` where the
    /// value is not a colour.
    pub fn color(&self) -> (r: CssColorProp)
        requires
            self.wf(),
        ensures
            r == match self.spec_value(CssProperty::CssPropColor) {
                CssValue::Color(c) => CssColorProp::CssColorValue(c),
                _ => CssColorProp::CssColorInherit,
            },
    {
        match self.value(CssProperty::CssPropColor) {
            CssValue::Color(c) => CssColorProp::CssColorValue(c),
            _ => CssColorProp::CssColorInherit,
        }
    }
}

fn absolute_font_size(v: CssValue, base: css_fixed) -> (r: CssValue)
    ensures
        r == spec_absolute_font_size(v, base),
{
    match v {
        CssValue::Dimension(CssUnit::CssUnitEm(x)) => CssValue::Dimension(
            CssUnit::CssUnitPx(fixed_mul(x, base)),
        ),
        CssValue::Dimension(CssUnit::CssUnitPct(x)) => CssValue::Dimension(
            CssUnit::CssUnitPx(fixed_percent(x, base)),
        ),
        _ => v,
    }
}

fn absolute_length(v: CssValue, own: css_fixed) -> (r: CssValue)
    ensures
        r == spec_absolute_length(v, own),
{
    match v {
        CssValue::Dimension(CssUnit::CssUnitEm(x)) => CssValue::Dimension(
            CssUnit::CssUnitPx(fixed_mul(x, own)),
        ),
        _ => v,
    }
}

fn base_font_size(size: CssValue) -> (r: css_fixed)
    ensures
        r == spec_base_font_size(size),
{
    match size {
        CssValue::Dimension(CssUnit::CssUnitPx(f)) => f,
        _ => MEDIUM_FONT_SIZE,
    }
}

fn parent_value(parent: Option<&CssComputedStyle>, initial: &Vec<CssValue>, p: CssProperty) -> (r:
    CssValue)
    requires
        parent matches Some(s) ==> s.wf(),
        spec_computed_values_wf(initial@),
    ensures
        r == spec_parent_value(spec_values_of(parent), initial@, p),
{
    match parent {
        Some(s) => s.value(p),
        None => initial[p.code() as usize],
    }
}

fn cascaded_value(
    resolved: &Vec<MatchedDeclaration>,
    parent: Option<&CssComputedStyle>,
    initial: &Vec<CssValue>,
    p: CssProperty,
) -> (r: CssValue)
    requires
        parent matches Some(s) ==> s.wf(),
        spec_computed_values_wf(initial@),
    ensures
        r == spec_cascaded_value(resolved@, spec_values_of(parent), initial@, p),
{
    match winner(resolved, p) {
        Some(CssValue::Inherit) => parent_value(parent, initial, p),
        Some(v) => v,
        None => if p.is_inherited() {
            parent_value(parent, initial, p)
        } else {
            initial[p.code() as usize]
        },
    }
}

/// The initial values of every property, by code, with the handler's
/// user-agent defaults for `color`, `font-family` and `quotes`.
pub fn ua_initial_values<H: CssSelectHandler>(h: &H) -> (r: Vec<CssValue>)
    ensures
        r@ == spec_ua_initial_values(h),
        spec_computed_values_wf(r@),
{
    let mut values: Vec<CssValue> = Vec::new();
    let mut i: u32 = 0;
    while i < CSS_PROPERTY_COUNT
        invariant
            i <= CSS_PROPERTY_COUNT,
            values@.len() == i,
            forall|j: int| 0 <= j < i ==> #[trigger] values@[j] == spec_ua_initial_values(h)[j],
        decreases CSS_PROPERTY_COUNT - i,
    {
        let p = property_from_uint(i);
        let v = if p.is_ua_dependent() {
            h.ua_default_for_property(p).ua_initial(p)
        } else {
            p.initial_value()
        };
        values.push(v);
        i = i + 1;
    }
    assert(values@ =~= spec_ua_initial_values(h));
    assert forall|j: int| 0 <= j < CSS_PROPERTY_COUNT implies spec_is_computed(
        spec_property_from_uint(j as u32),
        #[trigger] values@[j],
    ) by {
        lemma_initial_value_computed(spec_property_from_uint(j as u32));
    }
    values
}

proof fn lemma_computed_value_wf(
    resolved: Seq<MatchedDeclaration>,
    parent: Option<Seq<CssValue>>,
    initial: Seq<CssValue>,
    p: CssProperty,
)
    requires
        parent matches Some(v) ==> spec_computed_values_wf(v),
        spec_computed_values_wf(initial),
    ensures
        spec_is_computed(p, spec_computed_value(resolved, parent, initial, p)),
{
    lemma_property_code_round_trip(p);
    lemma_property_code_round_trip(CssProperty::CssPropFontSize);
    assert(spec_is_computed(spec_property_from_uint(p.spec_code()), initial[p.spec_code() as int]));
    if let Some(v) = parent {
        assert(spec_is_computed(spec_property_from_uint(p.spec_code()), v[p.spec_code() as int]));
    }
}

/// Composes the computed style of a node from its resolved declarations,
/// its parent's computed style (`None` at the root) and the initial values.
pub fn compose(
    parent: Option<&CssComputedStyle>,
    initial: &Vec<CssValue>,
    resolved: &Vec<MatchedDeclaration>,
) -> (r: CssComputedStyle)
    requires
        parent matches Some(s) ==> s.wf(),
        spec_computed_values_wf(initial@),
    ensures
        r.wf(),
        r.values@ == spec_compose(resolved@, spec_values_of(parent), initial@),
{
    let fs = CssProperty::CssPropFontSize;
    let base = base_font_size(parent_value(parent, initial, fs));
    let font_size = absolute_font_size(cascaded_value(resolved, parent, initial, fs), base);
    let own = base_font_size(font_size);
    let mut values: Vec<CssValue> = Vec::new();
    let mut i: u32 = 0;
    while i < CSS_PROPERTY_COUNT
        invariant
            parent matches Some(s) ==> s.wf(),
            spec_computed_values_wf(initial@),
            font_size == spec_font_size_value(resolved@, spec_values_of(parent), initial@),
            own == spec_base_font_size(font_size),
            i <= CSS_PROPERTY_COUNT,
            values@.len() == i,
            forall|j: int|
                0 <= j < i ==> #[trigger] values@[j] == spec_computed_value(
                    resolved@,
                    spec_values_of(parent),
                    initial@,
                    spec_property_from_uint(j as u32),
                ),
        decreases CSS_PROPERTY_COUNT - i,
    {
        let p = property_from_uint(i);
        let v = if p == CssProperty::CssPropFontSize {
            font_size
        } else {
            absolute_length(cascaded_value(resolved, parent, initial, p), own)
        };
        values.push(v);
        i = i + 1;
    }
    let r = CssComputedStyle { values };
    assert(r.values@ =~= spec_compose(resolved@, spec_values_of(parent), initial@));
    assert forall|j: int| 0 <= j < CSS_PROPERTY_COUNT implies spec_is_computed(
        spec_property_from_uint(j as u32),
        #[trigger] r.values@[j],
    ) by {
        lemma_computed_value_wf(resolved@, spec_values_of(parent), initial@, spec_property_from_uint(j as u32));
    }
    r
}

/// A property that nothing sets and that is inherited, or that is set to
/// `inherit`, takes the parent's computed value.
pub proof fn lemma_inherits_parent_value(
    resolved: Seq<MatchedDeclaration>,
    parent: Seq<CssValue>,
    initial: Seq<CssValue>,
    p: CssProperty,
)
    requires
        spec_computed_values_wf(parent),
        spec_winner(resolved, p) == Some(CssValue::Inherit) || (spec_winner(resolved, p) is None
            && p.spec_is_inherited()),
    ensures
        spec_computed_value(resolved, Some(parent), initial, p) == parent[p.spec_code() as int],
{
    lemma_property_code_round_trip(p);
    assert(spec_is_computed(spec_property_from_uint(p.spec_code()), parent[p.spec_code() as int]));
}

/// With no matching declaration, every property takes the parent's value if
/// it is inherited (the initial value at the root), and its initial value
/// otherwise.
pub proof fn lemma_no_declarations(parent: Option<Seq<CssValue>>, initial: Seq<CssValue>, p: CssProperty)
    requires
        parent matches Some(v) ==> spec_computed_values_wf(v),
        spec_computed_values_wf(initial),
    ensures
        spec_computed_value(Seq::empty(), parent, initial, p) == if p.spec_is_inherited() {
            spec_parent_value(parent, initial, p)
        } else {
            initial[p.spec_code() as int]
        },
{
    lemma_property_code_round_trip(p);
    lemma_property_code_round_trip(CssProperty::CssPropFontSize);
    let fs = CssProperty::CssPropFontSize;
    assert(spec_is_computed(spec_property_from_uint(p.spec_code()), initial[p.spec_code() as int]));
    assert(spec_is_computed(spec_property_from_uint(fs.spec_code()), initial[fs.spec_code() as int]));
    if let Some(v) = parent {
        assert(spec_is_computed(spec_property_from_uint(p.spec_code()), v[p.spec_code() as int]));
        assert(spec_is_computed(spec_property_from_uint(fs.spec_code()), v[fs.spec_code() as int]));
    }
}

/// The computed styles of one node: one for the element and one for each of
/// its pseudo-elements, by pseudo-element code.
#[derive(Clone, Debug)]
pub struct CssSelectResults {
    pub styles: Vec<CssComputedStyle>,
}

impl CssSelectResults {
    pub open spec fn wf(&self) -> bool {
        &&& self.styles@.len() == CSS_PSEUDO_ELEMENT_COUNT
        &&& forall|i: int| 0 <= i < CSS_PSEUDO_ELEMENT_COUNT ==> (#[trigger] self.styles@[i]).wf()
    }

    /// The computed style of the element or one of its pseudo-elements.
    pub fn computed_style(&self, element: CssPseudoElement) -> (r: &CssComputedStyle)
        requires
            self.wf(),
        ensures
            *r == self.styles@[element.spec_code() as int],
            r.wf(),
    {
        let i: usize = match element {
            CssPseudoElement::CssPseudoElementNone => 0,
            CssPseudoElement::CssPseudoElementFirstLine => 1,
            CssPseudoElement::CssPseudoElementFirstLetter => 2,
            CssPseudoElement::CssPseudoElementBefore => 3,
            CssPseudoElement::CssPseudoElementAfter => 4,
        };
        &self.styles[i]
    }
}

/// Creates a selection context with no stylesheets.
pub fn css_select_ctx_create() -> (c: CssSelectCtx)
    ensures
        c.wf(),
        c.sheets@.len() == 0,
{
    CssSelectCtx { sheets: Vec::new() }
}

impl CssSelectCtx {
    /// Adds a stylesheet after the others; the context keeps it alive.
    pub fn append_sheet(&mut self, sheet: CssStylesheet, origin: CssOrigin, media: u64)
        requires
            old(self).wf(),
            sheet.wf(),
        ensures
            final(self).wf(),
            final(self).sheets@ == old(self).sheets@.push(SheetEntry { sheet, origin, media }),
    {
        self.sheets.push(SheetEntry { sheet, origin, media });
        assert forall|s: int| 0 <= s < self.sheets@.len() implies (#[trigger] self.sheets@[s]).sheet.wf() by {
            if s < old(self).sheets@.len() {
                assert(self.sheets@[s] == old(self).sheets@[s]);
            }
        }
    }

    /// Number of stylesheets.
    pub fn count_sheets(&self) -> (n: usize)
        ensures
            n == self.sheets@.len(),
    {
        self.sheets.len()
    }

    /// The computed values that selection gives pseudo-element target `i`:
    /// target 0 (the element) composes on the parent's style, the others on
    /// the element's own style `element`.
    pub open spec fn spec_target_values<H: CssSelectHandler>(
        &self,
        h: &H,
        node: NodeId,
        media: u64,
        parent: Option<Seq<CssValue>>,
        element: Seq<CssValue>,
        i: int,
    ) -> Seq<CssValue> {
        spec_compose(
            spec_resolve(self.spec_match_set(h, node, media, spec_pseudo_element(i))),
            if i == 0 {
                parent
            } else {
                Some(element)
            },
            spec_ua_initial_values(h),
        )
    }

    /// `res` holds the styles that selection gives the node: well formed,
    /// and each target's values those of `spec_target_values`.
    pub open spec fn spec_selected<H: CssSelectHandler>(
        &self,
        h: &H,
        node: NodeId,
        media: u64,
        parent: Option<Seq<CssValue>>,
        res: CssSelectResults,
    ) -> bool {
        &&& res.wf()
        &&& forall|i: int|
            0 <= i < CSS_PSEUDO_ELEMENT_COUNT ==> (#[trigger] res.styles@[i]).values@
                == self.spec_target_values(h, node, media, parent, res.styles@[0].values@, i)
    }

    /// Selection is a function of the context, the tree's model, the node,
    /// the media and the parent's style: any two results of selecting the
    /// same node agree on every property of every target.
    pub proof fn lemma_selection_deterministic<H: CssSelectHandler>(
        &self,
        h: &H,
        node: NodeId,
        media: u64,
        parent: Option<Seq<CssValue>>,
        r1: CssSelectResults,
        r2: CssSelectResults,
    )
        requires
            self.spec_selected(h, node, media, parent, r1),
            self.spec_selected(h, node, media, parent, r2),
        ensures
            forall|i: int|
                0 <= i < CSS_PSEUDO_ELEMENT_COUNT ==> (#[trigger] r1.styles@[i]).values@
                    == r2.styles@[i].values@,
    {
        assert(r1.styles@[0].values@ == r2.styles@[0].values@);
    }

    /// An inherited property whose matched declarations (if any) are all
    /// `inherit` takes the parent's computed value in the element's style.
    pub proof fn lemma_selection_inherits<H: CssSelectHandler>(
        &self,
        h: &H,
        node: NodeId,
        media: u64,
        parent: Seq<CssValue>,
        res: CssSelectResults,
        p: CssProperty,
    )
        requires
            self.spec_selected(h, node, media, Some(parent), res),
            spec_computed_values_wf(parent),
            p.spec_is_inherited(),
            forall|j: int|
                0 <= j < self.spec_match_set(h, node, media, CssPseudoElement::CssPseudoElementNone).len()
                    && (#[trigger] self.spec_match_set(
                    h,
                    node,
                    media,
                    CssPseudoElement::CssPseudoElementNone,
                )[j]).declaration.property == p ==> self.spec_match_set(
                    h,
                    node,
                    media,
                    CssPseudoElement::CssPseudoElementNone,
                )[j].declaration.value == CssValue::Inherit,
        ensures
            res.styles@[0].spec_value(p) == parent[p.spec_code() as int],
    {
        let m = self.spec_match_set(h, node, media, CssPseudoElement::CssPseudoElementNone);
        crate::cascade::lemma_winner_is_highest_ranked(m, p);
        assert(spec_pseudo_element(0) == CssPseudoElement::CssPseudoElementNone);
        let initial = spec_ua_initial_values(h);
        lemma_inherits_parent_value(spec_resolve(m), parent, initial, p);
        lemma_property_code_round_trip(p);
        assert(res.styles@[0].values@ == spec_compose(spec_resolve(m), Some(parent), initial));
    }

    /// A node that no selector for the element matches, in any stylesheet
    /// whose media apply, gets every property from its parent if inherited
    /// (the initial value at the root) and its initial value otherwise.
    pub proof fn lemma_selection_without_matches<H: CssSelectHandler>(
        &self,
        h: &H,
        node: NodeId,
        media: u64,
        parent: Option<Seq<CssValue>>,
        res: CssSelectResults,
        p: CssProperty,
    )
        requires
            self.spec_selected(h, node, media, parent, res),
            parent matches Some(v) ==> spec_computed_values_wf(v),
            crate::select::spec_matches_nothing(
                h,
                self.sheets@,
                media,
                node,
                CssPseudoElement::CssPseudoElementNone,
            ),
        ensures
            res.styles@[0].spec_value(p) == if p.spec_is_inherited() {
                spec_parent_value(parent, spec_ua_initial_values(h), p)
            } else {
                spec_ua_initial_values(h)[p.spec_code() as int]
            },
    {
        let pe = CssPseudoElement::CssPseudoElementNone;
        crate::select::lemma_no_matches_no_records(h, self.sheets@, media, node, pe, self.sheets@.len());
        let m = self.spec_match_set(h, node, media, pe);
        assert(m =~= Seq::<MatchedDeclaration>::empty());
        assert(spec_resolve(m) =~= Seq::<MatchedDeclaration>::empty());
        assert(spec_pseudo_element(0) == pe);
        let initial = spec_ua_initial_values(h);
        assert(spec_computed_values_wf(initial)) by {
            assert forall|j: int| 0 <= j < CSS_PROPERTY_COUNT implies spec_is_computed(
                spec_property_from_uint(j as u32),
                #[trigger] initial[j],
            ) by {
                lemma_initial_value_computed(spec_property_from_uint(j as u32));
            }
        }
        lemma_no_declarations(parent, initial, p);
        lemma_property_code_round_trip(p);
    }

    /// Selects the computed styles of a node and of its pseudo-elements:
    /// the declarations that apply, in cascade order, composed on the
    /// parent's computed style (`None` at the root). A failed node query
    /// ends selection for this node with its error; none fails for a valid
    /// node, or when no stylesheet's media meet `media`.
    pub fn select_style<H: CssSelectHandler>(
        &self,
        node: NodeId,
        media: u64,
        parent: Option<&CssComputedStyle>,
        handler: &H,
    ) -> (r: Result<CssSelectResults, QueryError>)
        requires
            self.wf(),
            parent matches Some(s) ==> s.wf(),
        ensures
            handler.spec_valid(node) ==> r is Ok,
            (forall|s: int| 0 <= s < self.sheets@.len() ==> #[trigger] self.sheets@[s].media & media
                == 0) ==> r is Ok,
            r matches Ok(res) ==> self.spec_selected(handler, node, media, spec_values_of(parent), res),
    {
        let matched = self.match_set(handler, node, media, CssPseudoElement::CssPseudoElementNone)?;
        let resolved = resolve(&matched);
        let initial = ua_initial_values(handler);
        let element = compose(parent, &initial, &resolved);
        let ghost element_values = element.values@;
        let mut styles: Vec<CssComputedStyle> = Vec::new();
        styles.push(element);
        let mut i: usize = 1;
        while i < CSS_PSEUDO_ELEMENT_COUNT
            invariant
                self.wf(),
                initial@ == spec_ua_initial_values(handler),
                spec_computed_values_wf(initial@),
                element_values == spec_compose(resolved@, spec_values_of(parent), initial@),
                resolved@ == spec_resolve(self.spec_match_set(handler, node, media, CssPseudoElement::CssPseudoElementNone)),
                1 <= i <= CSS_PSEUDO_ELEMENT_COUNT,
                styles@.len() == i,
                styles@[0].values@ == element_values,
                forall|j: int| 0 <= j < i ==> (#[trigger] styles@[j]).wf(),
                forall|j: int|
                    0 <= j < i ==> (#[trigger] styles@[j]).values@ == self.spec_target_values(
                        handler,
                        node,
                        media,
                        spec_values_of(parent),
                        element_values,
                        j,
                    ),
            decreases CSS_PSEUDO_ELEMENT_COUNT - i,
        {
            let pe = pseudo_element_at(i);
            let m = self.match_set(handler, node, media, pe)?;
            let res = resolve(&m);
            let style = compose(Some(&styles[0]), &initial, &res);
            styles.push(style);
            i = i + 1;
        }
        Ok(CssSelectResults { styles })
    }
}

} // verus!
