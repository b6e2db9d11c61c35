use netsurfcss::fixed::{css_fixed_to_float, fixed_mul, fixed_percent, float_to_css_fixed, CssFraction};
use netsurfcss::properties::{property_from_uint, CssProperty};
use netsurfcss::types::{
    css_error_from_code, ll_color_to_hl_color, ll_result_to_rust_result, ll_unit_to_hl_unit,
    pseudo_element_at, CssColor, CssError, CssLanguageLevel, CssPseudoElement, CssUnit, ToLl,
};

#[test]
fn fixed_round_trip() {
    for x in [0, 1, -1, 1024, -1536, 123456, i32::MAX, i32::MIN] {
        assert_eq!(float_to_css_fixed(css_fixed_to_float(x)), Some(x));
    }
    let half = css_fixed_to_float(512);
    assert_eq!(half, CssFraction { num: 512, den: 1024 });
    assert_eq!(half.num as f64 / half.den as f64, 0.5f64);
}

#[test]
fn fraction_to_fixed_truncates_toward_zero() {
    assert_eq!(float_to_css_fixed(CssFraction { num: 1, den: 3 }), Some(341));
    assert_eq!(float_to_css_fixed(CssFraction { num: -1, den: 3 }), Some(-341));
    assert_eq!(float_to_css_fixed(CssFraction { num: -1, den: 2048 }), Some(0));
    assert_eq!(float_to_css_fixed(CssFraction { num: -3, den: 2048 }), Some(-1));
    assert_eq!(float_to_css_fixed(CssFraction { num: 5, den: 2 }), Some(2560));
    assert_eq!(float_to_css_fixed(CssFraction { num: 1 << 40, den: 1 }), None);
}

#[test]
fn fixed_products() {
    assert_eq!(fixed_mul(2048, 16384), 32768);
    assert_eq!(fixed_mul(-1, 1), -1);
    assert_eq!(fixed_mul(i32::MAX, i32::MAX), i32::MAX);
    assert_eq!(fixed_percent(50 * 1024, 16384), 8192);
}

#[test]
fn unit_codes() {
    assert_eq!(ll_unit_to_hl_unit(0, 7), CssUnit::CssUnitPx(7));
    assert_eq!(ll_unit_to_hl_unit(2, 9), CssUnit::CssUnitEm(9));
    assert_eq!(ll_unit_to_hl_unit(8, 1), CssUnit::CssUnitPct(1));
    assert_eq!(ll_unit_to_hl_unit(15, 3), CssUnit::CssUnitKHz(3));
    for code in 0u32..16u32 {
        assert_eq!(ll_unit_to_hl_unit(code, 42).to_ll(), (code, 42));
    }
}

#[test]
fn color_packing() {
    let c = CssColor { a: 0xff, r: 0x12, g: 0x34, b: 0x56 };
    assert_eq!(c.to_ll(), 0xff123456);
    assert_eq!(ll_color_to_hl_color(0x80abcdef), CssColor { a: 0x80, r: 0xab, g: 0xcd, b: 0xef });
}

#[test]
fn error_codes() {
    assert_eq!(ll_result_to_rust_result(0, 5u8), Ok(5u8));
    assert_eq!(ll_result_to_rust_result(1, 5u8), Err(CssError::CssNoMem));
    assert_eq!(ll_result_to_rust_result(9, ()), Err(CssError::CssPropertyNotSet));
    assert_eq!(ll_result_to_rust_result(77, ()), Err(CssError::CssInvalid));
    assert_eq!(css_error_from_code(3), Some(CssError::CssInvalid));
    assert_eq!(css_error_from_code(10), None);
    assert_eq!(CssError::CssNeedData.to_ll(), 5);
}

#[test]
fn enum_codes() {
    assert_eq!(CssLanguageLevel::CssLevel21.to_ll(), 2);
    assert_eq!(CssLanguageLevel::CssLevelDefault.to_ll(), 2);
    assert_eq!(CssLanguageLevel::CssLevel3.to_ll(), 3);
    assert_eq!(pseudo_element_at(3), CssPseudoElement::CssPseudoElementBefore);
    assert_eq!(CssPseudoElement::CssPseudoElementAfter.to_ll(), 4);
    assert_eq!(property_from_uint(0x18), CssProperty::CssPropColor);
    assert_eq!(CssProperty::CssPropColor.code(), 0x18);
    assert_eq!(property_from_uint(110), CssProperty::CssPropClomumnWidth);
    assert!(CssProperty::CssPropColor.is_inherited());
    assert!(!CssProperty::CssPropWidth.is_inherited());
}
