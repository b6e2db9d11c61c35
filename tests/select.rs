use netsurfcss::cascade::{ranks_below, resolve, winner};
use netsurfcss::computed::{compose, css_select_ctx_create, ua_initial_values, CssComputedStyle};
use netsurfcss::dom::{DomAttribute, DomNode, DomTree};
use netsurfcss::handler::CssSelectHandler;
use netsurfcss::properties::{CssHint, CssProperty, CssValue, MEDIUM_FONT_SIZE};
use netsurfcss::select::{CssSelectCtx, MatchedDeclaration};
use netsurfcss::selector::{
    AttrOp, Combinator, CssQName, CssSelector, Predicate, PseudoClass, SelectorPart, Specificity,
};
use netsurfcss::stylesheet::{
    css_stylesheet_create, CssDeclaration, CssRule, CssStylesheet, CssStylesheetParams,
};
use netsurfcss::types::{
    CssColor, CssColorProp, CssError, CssFontFamily, CssLanguageLevel, CssOrigin, CssPseudoElement,
    CssStylesheetParamsVersion, CssUnit, CSS_MEDIA_ALL, CSS_MEDIA_PRINT, CSS_MEDIA_SCREEN,
};

const H1: u32 = 1;
const H2: u32 = 2;
const H4: u32 = 4;
const H5: u32 = 5;
const DIV: u32 = 10;
const P: u32 = 11;
const SPAN: u32 = 12;
const CLASS_A: u32 = 20;
const CLASS_B: u32 = 21;
const ID_MAIN: u32 = 30;
const ATTR_LANG: u32 = 40;

fn params() -> CssStylesheetParams {
    CssStylesheetParams {
        params_version: CssStylesheetParamsVersion::CssStylesheetParamsVersion1,
        level: CssLanguageLevel::CssLevel21,
        charset: "UTF-8".to_string(),
        url: "foo".to_string(),
        title: "foo".to_string(),
        allow_quirks: false,
        inline_style: false,
    }
}

fn simple(preds: Vec<Predicate>) -> CssSelector {
    CssSelector {
        parts: vec![SelectorPart { combinator: Combinator::Descendant, compound: preds }],
        pseudo_element: CssPseudoElement::CssPseudoElementNone,
    }
}

fn qn(name: u32) -> CssQName {
    CssQName { ns: None, name }
}

fn tag(name: u32) -> CssSelector {
    simple(vec![Predicate::Name(qn(name))])
}

fn color_decl(c: CssColor) -> CssDeclaration {
    CssDeclaration {
        property: CssProperty::CssPropColor,
        value: CssValue::Color(c),
        important: false,
    }
}

fn rule(selectors: Vec<CssSelector>, declarations: Vec<CssDeclaration>) -> CssRule {
    CssRule { selectors, declarations }
}

fn element(name: u32, parent: Option<usize>, prev_sibling: Option<usize>) -> DomNode {
    DomNode {
        name: qn(name),
        id: None,
        classes: vec![],
        attributes: vec![],
        parent,
        prev_sibling,
        states: vec![],
    }
}

fn one_sheet_ctx(rules: Vec<CssRule>) -> CssSelectCtx {
    let mut sheet = css_stylesheet_create(params());
    for r in rules {
        assert_eq!(sheet.append_rule(r), Ok(()));
    }
    let mut ctx = css_select_ctx_create();
    ctx.append_sheet(sheet, CssOrigin::CssOriginAuthor, CSS_MEDIA_ALL);
    ctx
}

fn style_of(ctx: &CssSelectCtx, dom: &DomTree, node: usize, parent: Option<&CssComputedStyle>) -> CssComputedStyle {
    let results = ctx.select_style(node, CSS_MEDIA_SCREEN, parent, dom).unwrap();
    results.computed_style(CssPseudoElement::CssPseudoElementNone).clone()
}

fn headings_ctx() -> CssSelectCtx {
    // h1 { color: red } h4 { color: #321 } h4, h5 { color: #123456 }
    one_sheet_ctx(vec![
        rule(vec![tag(H1)], vec![color_decl(CssColor::rgb(0xff, 0, 0))]),
        rule(vec![tag(H4)], vec![color_decl(CssColor::rgb(0x33, 0x22, 0x11))]),
        rule(vec![tag(H4), tag(H5)], vec![color_decl(CssColor::rgb(0x12, 0x34, 0x56))]),
    ])
}

#[test]
fn headings_scenario() {
    let ctx = headings_ctx();
    assert_eq!(ctx.count_sheets(), 1);
    let mut dom = DomTree::new();
    let h1 = dom.add_node(element(H1, None, None));
    let h2 = dom.add_node(element(H2, None, None));
    let h4 = dom.add_node(element(H4, None, None));
    assert_eq!(
        style_of(&ctx, &dom, h4, None).color(),
        CssColorProp::CssColorValue(CssColor { a: 255, r: 0x12, g: 0x34, b: 0x56 })
    );
    assert_eq!(
        style_of(&ctx, &dom, h1, None).color(),
        CssColorProp::CssColorValue(CssColor { a: 255, r: 0xff, g: 0, b: 0 })
    );
    // nothing sets the colour of h2: the initial colour, black
    assert_eq!(
        style_of(&ctx, &dom, h2, None).color(),
        CssColorProp::CssColorValue(CssColor { a: 255, r: 0, g: 0, b: 0 })
    );
}

#[test]
fn run() {
    let mut sheet = css_stylesheet_create(params());
    assert_eq!(sheet.append_rule(rule(vec![tag(H1)], vec![color_decl(CssColor::rgb(0xff, 0, 0))])), Ok(()));
    assert_eq!(sheet.append_rule(rule(vec![tag(H4)], vec![color_decl(CssColor::rgb(0x33, 0x22, 0x11))])), Ok(()));
    assert_eq!(
        sheet.append_rule(rule(vec![tag(H4), tag(H5)], vec![color_decl(CssColor::rgb(0x12, 0x34, 0x56))])),
        Ok(())
    );
    let mut ctx = css_select_ctx_create();
    assert!(ctx.count_sheets() == 0);
    ctx.append_sheet(sheet, CssOrigin::CssOriginAuthor, CSS_MEDIA_ALL);
    assert!(ctx.count_sheets() == 1);
    let mut dom = DomTree::new();
    let mut nodes = vec![];
    for hh in 1u32..7u32 {
        nodes.push(dom.add_node(element(hh, None, None)));
    }
    for (i, n) in nodes.iter().enumerate() {
        let results = ctx.select_style(*n, CSS_MEDIA_SCREEN, None, &dom).unwrap();
        let computed = results.computed_style(CssPseudoElement::CssPseudoElementNone);
        match computed.color() {
            CssColorProp::CssColorInherit => panic!("color of h{} is 'inherit'", i + 1),
            CssColorProp::CssColorValue(_) => {}
        }
    }
}

#[test]
fn specificity_counts() {
    let id = simple(vec![Predicate::Id(ID_MAIN)]);
    let classes = simple(vec![Predicate::Class(CLASS_A), Predicate::Class(CLASS_B)]);
    let div = tag(DIV);
    assert_eq!(id.specificity(), Specificity { ids: 1, classes: 0, tags: 0 });
    assert_eq!(classes.specificity(), Specificity { ids: 0, classes: 2, tags: 0 });
    assert_eq!(div.specificity(), Specificity { ids: 0, classes: 0, tags: 1 });
    let complex = CssSelector {
        parts: vec![
            SelectorPart { combinator: Combinator::Descendant, compound: vec![Predicate::Name(qn(DIV)), Predicate::Id(ID_MAIN)] },
            SelectorPart {
                combinator: Combinator::Child,
                compound: vec![
                    Predicate::Name(qn(P)),
                    Predicate::Attribute(ATTR_LANG, AttrOp::Presence, vec![]),
                    Predicate::Pseudo(PseudoClass::Hover),
                ],
            },
        ],
        pseudo_element: CssPseudoElement::CssPseudoElementNone,
    };
    assert_eq!(complex.specificity(), Specificity { ids: 1, classes: 2, tags: 2 });
}

fn record(important: bool, spec: Specificity, rule: usize) -> MatchedDeclaration {
    MatchedDeclaration {
        declaration: CssDeclaration { property: CssProperty::CssPropColor, value: CssValue::Keyword(rule as u32), important },
        origin: CssOrigin::CssOriginAuthor,
        specificity: spec,
        sheet: 0,
        rule,
        selector: 0,
        index: 0,
    }
}

#[test]
fn specificity_ordering_and_importance() {
    let id = record(false, Specificity { ids: 1, classes: 0, tags: 0 }, 0);
    let classes = record(false, Specificity { ids: 0, classes: 2, tags: 0 }, 1);
    let div = record(false, Specificity { ids: 0, classes: 0, tags: 1 }, 2);
    assert!(ranks_below(&classes, &id));
    assert!(ranks_below(&div, &classes));
    assert!(!ranks_below(&id, &div));
    let div_important = record(true, Specificity { ids: 0, classes: 0, tags: 1 }, 3);
    assert!(ranks_below(&id, &div_important));
    let resolved = resolve(&vec![div_important, id, classes]);
    assert_eq!(winner(&resolved, CssProperty::CssPropColor), Some(CssValue::Keyword(3)));
}

#[test]
fn important_beats_more_specific_selector() {
    let mut important = color_decl(CssColor::rgb(0, 0xff, 0));
    important.important = true;
    let ctx = one_sheet_ctx(vec![
        rule(vec![tag(DIV)], vec![important]),
        rule(vec![simple(vec![Predicate::Id(ID_MAIN)])], vec![color_decl(CssColor::rgb(0xff, 0, 0))]),
    ]);
    let mut dom = DomTree::new();
    let mut node = element(DIV, None, None);
    node.id = Some(ID_MAIN);
    let n = dom.add_node(node);
    assert_eq!(style_of(&ctx, &dom, n, None).color(), CssColorProp::CssColorValue(CssColor::rgb(0, 0xff, 0)));
}

#[test]
fn equal_rank_later_rule_wins_whatever_input_order() {
    let a = record(false, Specificity { ids: 0, classes: 0, tags: 1 }, 0);
    let b = record(false, Specificity { ids: 0, classes: 0, tags: 1 }, 1);
    let c = record(false, Specificity { ids: 0, classes: 0, tags: 1 }, 2);
    let r1 = resolve(&vec![a, b, c]);
    let r2 = resolve(&vec![c, a, b]);
    assert_eq!(r1, r2);
    assert_eq!(r1, vec![a, b, c]);
    assert_eq!(resolve(&r1), r1);
    assert_eq!(winner(&r2, CssProperty::CssPropColor), Some(CssValue::Keyword(2)));
}

#[test]
fn origins_rank_user_agent_user_author() {
    let mut ua = record(false, Specificity { ids: 1, classes: 0, tags: 0 }, 0);
    ua.origin = CssOrigin::CssOriginUa;
    let mut user = record(false, Specificity { ids: 0, classes: 1, tags: 0 }, 1);
    user.origin = CssOrigin::CssOriginUser;
    let author = record(false, Specificity { ids: 0, classes: 0, tags: 0 }, 2);
    assert!(ranks_below(&ua, &user));
    assert!(ranks_below(&user, &author));
    let mut ua_important = ua;
    ua_important.declaration.important = true;
    let mut author_important = author;
    author_important.declaration.important = true;
    assert!(ranks_below(&author_important, &ua_important));
    assert!(ranks_below(&author, &author_important));
}

#[test]
fn child_inherits_parent_color() {
    let blue = CssColor::rgb(0, 0, 0xff);
    let inherit_decl = CssDeclaration { property: CssProperty::CssPropColor, value: CssValue::Inherit, important: false };
    let ctx = one_sheet_ctx(vec![
        rule(vec![tag(DIV)], vec![color_decl(blue)]),
        rule(vec![tag(SPAN)], vec![inherit_decl]),
    ]);
    let mut dom = DomTree::new();
    let div = dom.add_node(element(DIV, None, None));
    let p = dom.add_node(element(P, Some(div), None));
    let span = dom.add_node(element(SPAN, Some(div), Some(p)));
    let parent = style_of(&ctx, &dom, div, None);
    assert_eq!(parent.color(), CssColorProp::CssColorValue(blue));
    assert_eq!(style_of(&ctx, &dom, p, Some(&parent)).color(), CssColorProp::CssColorValue(blue));
    assert_eq!(style_of(&ctx, &dom, span, Some(&parent)).color(), CssColorProp::CssColorValue(blue));
}

#[test]
fn no_matching_rules_gives_initial_and_inherited_values() {
    let ctx = headings_ctx();
    let mut dom = DomTree::new();
    let d = dom.add_node(element(DIV, None, None));
    let style = style_of(&ctx, &dom, d, None);
    assert_eq!(style.values.len(), 111);
    assert_eq!(style.value(CssProperty::CssPropWidth), CssValue::Auto);
    assert_eq!(style.value(CssProperty::CssPropFontSize), CssValue::Dimension(CssUnit::CssUnitPx(MEDIUM_FONT_SIZE)));
    assert_eq!(style.value(CssProperty::CssPropMarginTop), CssValue::Dimension(CssUnit::CssUnitPx(0)));
    // keyword properties start from their initial keywords, never from "inherit" (code 0)
    assert_eq!(style.value(CssProperty::CssPropFontStyle), CssValue::Keyword(1));
    assert_eq!(style.value(CssProperty::CssPropFontVariant), CssValue::Keyword(1));
    assert_eq!(style.value(CssProperty::CssPropFontWeight), CssValue::Keyword(1));
    assert_eq!(style.value(CssProperty::CssPropFontFamily), CssValue::Keyword(2));
    assert_eq!(style.value(CssProperty::CssPropQuotes), CssValue::Keyword(2));
    // a child of a parent with a non-default inherited and non-inherited value
    let mut parent_values = style.values.clone();
    parent_values[CssProperty::CssPropColor.code() as usize] = CssValue::Color(CssColor::rgb(1, 2, 3));
    parent_values[CssProperty::CssPropWidth.code() as usize] = CssValue::Dimension(CssUnit::CssUnitPx(5));
    let parent = CssComputedStyle { values: parent_values };
    let child = compose(Some(&parent), &ua_initial_values(&dom), &vec![]);
    assert_eq!(child.color(), CssColorProp::CssColorValue(CssColor::rgb(1, 2, 3)));
    assert_eq!(child.value(CssProperty::CssPropWidth), CssValue::Auto);
}

#[test]
fn media_that_does_not_apply_is_skipped() {
    let mut sheet = css_stylesheet_create(params());
    assert_eq!(sheet.append_rule(rule(vec![tag(DIV)], vec![color_decl(CssColor::rgb(9, 9, 9))])), Ok(()));
    let mut ctx = css_select_ctx_create();
    ctx.append_sheet(sheet, CssOrigin::CssOriginAuthor, CSS_MEDIA_PRINT);
    let mut dom = DomTree::new();
    let d = dom.add_node(element(DIV, None, None));
    let style = style_of(&ctx, &dom, d, None);
    assert_eq!(style.color(), CssColorProp::CssColorValue(CssColor::rgb(0, 0, 0)));
    // a node the tree does not hold still selects when no sheet applies
    assert!(ctx.select_style(99, CSS_MEDIA_SCREEN, None, &dom).is_ok());
}

#[test]
fn combinators_match_ancestors_and_siblings() {
    let mut dom = DomTree::new();
    let div = dom.add_node(element(DIV, None, None));
    let p = dom.add_node(element(P, Some(div), None));
    let span = dom.add_node(element(SPAN, Some(p), None));
    let p2 = dom.add_node(element(P, Some(div), Some(p)));
    let h1 = dom.add_node(element(H1, Some(div), Some(p2)));
    let two = |a: u32, c: Combinator, b: u32| CssSelector {
        parts: vec![
            SelectorPart { combinator: Combinator::Descendant, compound: vec![Predicate::Name(qn(a))] },
            SelectorPart { combinator: c, compound: vec![Predicate::Name(qn(b))] },
        ],
        pseudo_element: CssPseudoElement::CssPseudoElementNone,
    };
    assert_eq!(netsurfcss::matcher::matches(&dom, &two(DIV, Combinator::Descendant, SPAN), span), Ok(true));
    assert_eq!(netsurfcss::matcher::matches(&dom, &two(DIV, Combinator::Child, SPAN), span), Ok(false));
    assert_eq!(netsurfcss::matcher::matches(&dom, &two(P, Combinator::Child, SPAN), span), Ok(true));
    assert_eq!(netsurfcss::matcher::matches(&dom, &two(P, Combinator::AdjacentSibling, P), p2), Ok(true));
    assert_eq!(netsurfcss::matcher::matches(&dom, &two(P, Combinator::AdjacentSibling, H1), h1), Ok(true));
    assert_eq!(netsurfcss::matcher::matches(&dom, &two(DIV, Combinator::AdjacentSibling, H1), h1), Ok(false));
    assert_eq!(netsurfcss::matcher::matches(&dom, &two(P, Combinator::GeneralSibling, H1), h1), Ok(true));
    assert_eq!(netsurfcss::matcher::matches(&dom, &two(SPAN, Combinator::GeneralSibling, H1), h1), Ok(false));
    // the same test twice gives the same answer
    assert_eq!(
        netsurfcss::matcher::matches(&dom, &two(DIV, Combinator::Descendant, SPAN), span),
        netsurfcss::matcher::matches(&dom, &two(DIV, Combinator::Descendant, SPAN), span)
    );
    assert!(netsurfcss::matcher::matches(&dom, &tag(DIV), 42).is_err());
}

#[test]
fn attribute_and_state_predicates() {
    let mut dom = DomTree::new();
    let mut node = element(DIV, None, None);
    node.classes = vec![CLASS_A];
    node.attributes = vec![DomAttribute { name: ATTR_LANG, value: b"en-US big  red".to_vec() }];
    node.states = vec![PseudoClass::Hover];
    let n = dom.add_node(node);
    let attr = |op: AttrOp, v: &[u8]| dom.node_has_attribute(n, ATTR_LANG, op, &v.to_vec()).unwrap();
    assert!(attr(AttrOp::Presence, b""));
    assert!(attr(AttrOp::Equal, b"en-US big  red"));
    assert!(!attr(AttrOp::Equal, b"en-US"));
    assert!(attr(AttrOp::DashMatch, b"en"));
    assert!(!attr(AttrOp::DashMatch, b"e"));
    assert!(attr(AttrOp::Includes, b"big"));
    assert!(attr(AttrOp::Includes, b"red"));
    assert!(!attr(AttrOp::Includes, b"bi"));
    assert!(!attr(AttrOp::Includes, b"big red"));
    assert!(attr(AttrOp::Prefix, b"en-"));
    assert!(!attr(AttrOp::Prefix, b""));
    assert!(attr(AttrOp::Suffix, b" red"));
    assert!(attr(AttrOp::Substring, b"US b"));
    assert!(!attr(AttrOp::Substring, b"USA"));
    assert_eq!(dom.node_has_attribute(n, 99, AttrOp::Presence, &vec![]), Ok(false));
    assert_eq!(dom.node_has_class(n, CLASS_A), Ok(true));
    assert_eq!(dom.node_has_class(n, CLASS_B), Ok(false));
    assert_eq!(dom.node_has_state(n, PseudoClass::Hover), Ok(true));
    assert_eq!(dom.node_has_state(n, PseudoClass::Focus), Ok(false));
    assert!(dom.node_name(7).is_err());
}

#[test]
fn pseudo_element_rules_target_their_pseudo_element() {
    let mut before = tag(DIV);
    before.pseudo_element = CssPseudoElement::CssPseudoElementBefore;
    let ctx = one_sheet_ctx(vec![
        rule(vec![tag(DIV)], vec![color_decl(CssColor::rgb(1, 1, 1))]),
        rule(vec![before], vec![CssDeclaration {
            property: CssProperty::CssPropFontSize,
            value: CssValue::Dimension(CssUnit::CssUnitEm(2048)),
            important: false,
        }]),
    ]);
    let mut dom = DomTree::new();
    let d = dom.add_node(element(DIV, None, None));
    let results = ctx.select_style(d, CSS_MEDIA_SCREEN, None, &dom).unwrap();
    let el = results.computed_style(CssPseudoElement::CssPseudoElementNone);
    let bf = results.computed_style(CssPseudoElement::CssPseudoElementBefore);
    let af = results.computed_style(CssPseudoElement::CssPseudoElementAfter);
    assert_eq!(el.value(CssProperty::CssPropFontSize), CssValue::Dimension(CssUnit::CssUnitPx(16384)));
    // 2em of the element's 16px, and the colour inherited from the element
    assert_eq!(bf.value(CssProperty::CssPropFontSize), CssValue::Dimension(CssUnit::CssUnitPx(32768)));
    assert_eq!(bf.color(), CssColorProp::CssColorValue(CssColor::rgb(1, 1, 1)));
    assert_eq!(af.value(CssProperty::CssPropFontSize), CssValue::Dimension(CssUnit::CssUnitPx(16384)));
}

#[test]
fn percent_font_size_against_parent() {
    let decl = CssDeclaration {
        property: CssProperty::CssPropFontSize,
        value: CssValue::Dimension(CssUnit::CssUnitPct(150 * 1024)),
        important: false,
    };
    let ctx = one_sheet_ctx(vec![rule(vec![tag(P)], vec![decl])]);
    let mut dom = DomTree::new();
    let p = dom.add_node(element(P, None, None));
    let style = style_of(&ctx, &dom, p, None);
    assert_eq!(style.value(CssProperty::CssPropFontSize), CssValue::Dimension(CssUnit::CssUnitPx(24576)));
}

#[test]
fn invalid_rule_is_refused() {
    let mut sheet: CssStylesheet = css_stylesheet_create(params());
    let empty = CssSelector { parts: vec![], pseudo_element: CssPseudoElement::CssPseudoElementNone };
    assert_eq!(sheet.append_rule(rule(vec![empty], vec![])), Err(CssError::CssInvalid));
    assert_eq!(sheet.size(), 0);
    assert_eq!(sheet.append_rule(rule(vec![tag(DIV)], vec![])), Ok(()));
    assert_eq!(sheet.size(), 1);
}

#[test]
fn test_arc() {
    let sheet = css_stylesheet_create(params());
    let shared = std::sync::Arc::new(sheet);
    assert_eq!(shared.size(), 0);
}

#[test]
fn namespaced_type_selectors() {
    const SVG_NS: u32 = 50;
    let mut dom = DomTree::new();
    let mut node = element(DIV, None, None);
    node.name = CssQName { ns: Some(SVG_NS), name: DIV };
    let n = dom.add_node(node);
    let any_ns = tag(DIV);
    let svg = simple(vec![Predicate::Name(CssQName { ns: Some(SVG_NS), name: DIV })]);
    let other = simple(vec![Predicate::Name(CssQName { ns: Some(SVG_NS + 1), name: DIV })]);
    assert_eq!(netsurfcss::matcher::matches(&dom, &any_ns, n), Ok(true));
    assert_eq!(netsurfcss::matcher::matches(&dom, &svg, n), Ok(true));
    assert_eq!(netsurfcss::matcher::matches(&dom, &other, n), Ok(false));
    assert_eq!(dom.node_name(n), Ok(CssQName { ns: Some(SVG_NS), name: DIV }));
}

#[test]
fn hints_give_property_values() {
    assert_eq!(
        CssHint::CssHintDefault.value_for(CssProperty::CssPropColor),
        Ok(CssValue::Color(CssColor::rgb(0, 0, 0)))
    );
    assert_eq!(CssHint::CssHintDefault.value_for(CssProperty::CssPropFontFamily), Ok(CssValue::Keyword(2)));
    assert_eq!(CssHint::CssHintDefault.value_for(CssProperty::CssPropQuotes), Ok(CssValue::Keyword(2)));
    assert_eq!(
        CssHint::CssHintFontFamily(vec![], CssFontFamily::CssFontFamilyMonospace).value_for(CssProperty::CssPropFontFamily),
        Ok(CssValue::Keyword(5))
    );
    assert_eq!(CssHint::CssHintUnknown.value_for(CssProperty::CssPropColor), Err(CssError::CssInvalid));
    assert_eq!(CssHint::CssHintDefault.value_for(CssProperty::CssPropWidth), Err(CssError::CssInvalid));
}

#[test]
fn sheets_listed_by_origin() {
    let mut ctx = css_select_ctx_create();
    ctx.append_sheet(css_stylesheet_create(params()), CssOrigin::CssOriginUa, CSS_MEDIA_ALL);
    ctx.append_sheet(css_stylesheet_create(params()), CssOrigin::CssOriginAuthor, CSS_MEDIA_ALL);
    ctx.append_sheet(css_stylesheet_create(params()), CssOrigin::CssOriginUa, CSS_MEDIA_SCREEN);
    assert_eq!(ctx.count_sheets(), 3);
    assert_eq!(ctx.sheets_for_origin(CssOrigin::CssOriginUa), vec![0, 2]);
    assert_eq!(ctx.sheets_for_origin(CssOrigin::CssOriginAuthor), vec![1]);
    assert_eq!(ctx.sheets_for_origin(CssOrigin::CssOriginUser), Vec::<usize>::new());
}

#[test]
fn user_agent_sheet_loses_to_author_sheet() {
    let mut ua_sheet = css_stylesheet_create(params());
    assert_eq!(ua_sheet.append_rule(rule(vec![simple(vec![Predicate::Id(ID_MAIN)])], vec![color_decl(CssColor::rgb(7, 7, 7))])), Ok(()));
    let mut author_sheet = css_stylesheet_create(params());
    assert_eq!(author_sheet.append_rule(rule(vec![tag(DIV)], vec![color_decl(CssColor::rgb(8, 8, 8))])), Ok(()));
    let mut ctx = css_select_ctx_create();
    // the author sheet is added first: origin, not order of addition, decides
    ctx.append_sheet(author_sheet, CssOrigin::CssOriginAuthor, CSS_MEDIA_ALL);
    ctx.append_sheet(ua_sheet, CssOrigin::CssOriginUa, CSS_MEDIA_ALL);
    let mut dom = DomTree::new();
    let mut node = element(DIV, None, None);
    node.id = Some(ID_MAIN);
    let n = dom.add_node(node);
    assert_eq!(style_of(&ctx, &dom, n, None).color(), CssColorProp::CssColorValue(CssColor::rgb(8, 8, 8)));
}

#[test]
fn structural_pseudo_classes_follow_the_tree() {
    let mut dom = DomTree::new();
    let root = dom.add_node(element(DIV, None, None));
    let first = dom.add_node(element(P, Some(root), None));
    let second = dom.add_node(element(P, Some(root), Some(first)));
    assert_eq!(dom.node_has_state(root, PseudoClass::Root), Ok(true));
    assert_eq!(dom.node_has_state(first, PseudoClass::Root), Ok(false));
    assert_eq!(dom.node_has_state(first, PseudoClass::FirstChild), Ok(true));
    assert_eq!(dom.node_has_state(second, PseudoClass::FirstChild), Ok(false));
    let first_p = simple(vec![Predicate::Name(qn(P)), Predicate::Pseudo(PseudoClass::FirstChild)]);
    assert_eq!(netsurfcss::matcher::matches(&dom, &first_p, first), Ok(true));
    assert_eq!(netsurfcss::matcher::matches(&dom, &first_p, second), Ok(false));
}

#[test]
fn em_lengths_use_the_element_font_size() {
    let decls = vec![
        CssDeclaration {
            property: CssProperty::CssPropFontSize,
            value: CssValue::Dimension(CssUnit::CssUnitPx(20 * 1024)),
            important: false,
        },
        CssDeclaration {
            property: CssProperty::CssPropMarginLeft,
            value: CssValue::Dimension(CssUnit::CssUnitEm(1536)),
            important: false,
        },
        CssDeclaration {
            property: CssProperty::CssPropWidth,
            value: CssValue::Dimension(CssUnit::CssUnitPct(50 * 1024)),
            important: false,
        },
    ];
    let ctx = one_sheet_ctx(vec![rule(vec![tag(P)], decls)]);
    let mut dom = DomTree::new();
    let p = dom.add_node(element(P, None, None));
    let style = style_of(&ctx, &dom, p, None);
    // 1.5em of the element's own 20px
    assert_eq!(style.value(CssProperty::CssPropMarginLeft), CssValue::Dimension(CssUnit::CssUnitPx(30 * 1024)));
    // a percentage of the containing block is left for layout
    assert_eq!(style.value(CssProperty::CssPropWidth), CssValue::Dimension(CssUnit::CssUnitPct(50 * 1024)));
}
