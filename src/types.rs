//! Plain value types of the engine: colours, units, language levels,
//! pseudo-elements, origins, error codes and font descriptors, with explicit
//! mapping tables to and from their numeric codes.
use vstd::prelude::*;
use crate::fixed::css_fixed;

verus! {

/// Conversion of a value into its numeric code. The codes are this
/// library's own, given by each type's `spec_code`.
pub trait ToLl<T> {
    fn to_ll(&self) -> T;
}

/// A colour with 8-bit channels.
#[derive(Clone, Copy, Debug, PartialEq, Eq, Structural)]
pub struct CssColor {
    pub a: u8,
    pub r: u8,
    pub g: u8,
    pub b: u8,
}

impl CssColor {
    /// The colour packed as `0xAARRGGBB`.
    pub open spec fn spec_packed(self) -> u32 {
        ((self.a as u32) << 24u32) | ((self.r as u32) << 16u32) | ((self.g as u32) << 8u32) | (self.b as u32)
    }

    /// Opaque colour from its red, green and blue channels.
    pub fn rgb(r: u8, g: u8, b: u8) -> (c: CssColor)
        ensures
            c == (CssColor { a: 255, r, g, b }),
    {
        CssColor { a: 255, r, g, b }
    }
}

impl ToLl<u32> for CssColor {
    fn to_ll(&self) -> (r: u32)
        ensures
            r == self.spec_packed(),
    {
        ((self.a as u32) << 24u32) | ((self.r as u32) << 16u32) | ((self.g as u32) << 8u32) | (self.b as u32)
    }
}

/// Converts a packed `0xAARRGGBB` colour into its channels.
pub fn ll_color_to_hl_color(color: u32) -> (c: CssColor)
    ensures
        c.spec_packed() == color,
{
    let a: u8 = (color >> 24u32) as u8;
    let r: u8 = ((color >> 16u32) & 0xffu32) as u8;
    let g: u8 = ((color >> 8u32) & 0xffu32) as u8;
    let b: u8 = (color & 0xffu32) as u8;
    assert(((a as u32) << 24u32) | ((r as u32) << 16u32) | ((g as u32) << 8u32) | (b as u32) == color)
        by (bit_vector)
        requires
            a == (color >> 24u32) as u8,
            r == ((color >> 16u32) & 0xffu32) as u8,
            g == ((color >> 8u32) & 0xffu32) as u8,
            b == (color & 0xffu32) as u8,
    ;
    CssColor { a, r, g, b }
}

/// A dimension: a fixed-point magnitude with its unit.
#[derive(Clone, Copy, Debug, PartialEq, Eq, Structural)]
pub enum CssUnit {
    CssUnitPx(css_fixed),
    CssUnitEx(css_fixed),
    CssUnitEm(css_fixed),
    CssUnitIn(css_fixed),
    CssUnitCm(css_fixed),
    CssUnitMm(css_fixed),
    CssUnitPt(css_fixed),
    CssUnitPc(css_fixed),
    CssUnitPct(css_fixed),
    CssUnitDeg(css_fixed),
    CssUnitGrad(css_fixed),
    CssUnitRad(css_fixed),
    CssUnitMs(css_fixed),
    CssUnitS(css_fixed),
    CssUnitHz(css_fixed),
    CssUnitKHz(css_fixed),
}

/// Number of distinct unit codes.
pub const CSS_UNIT_COUNT: u32 = 16;

impl CssUnit {
    /// The numeric code of the unit.
    pub open spec fn spec_code(self) -> u32 {
        match self {
            CssUnit::CssUnitPx(_) => 0,
            CssUnit::CssUnitEx(_) => 1,
            CssUnit::CssUnitEm(_) => 2,
            CssUnit::CssUnitIn(_) => 3,
            CssUnit::CssUnitCm(_) => 4,
            CssUnit::CssUnitMm(_) => 5,
            CssUnit::CssUnitPt(_) => 6,
            CssUnit::CssUnitPc(_) => 7,
            CssUnit::CssUnitPct(_) => 8,
            CssUnit::CssUnitDeg(_) => 9,
            CssUnit::CssUnitGrad(_) => 10,
            CssUnit::CssUnitRad(_) => 11,
            CssUnit::CssUnitMs(_) => 12,
            CssUnit::CssUnitS(_) => 13,
            CssUnit::CssUnitHz(_) => 14,
            CssUnit::CssUnitKHz(_) => 15,
        }
    }

    /// The magnitude, whatever the unit.
    pub open spec fn spec_value(self) -> css_fixed {
        match self {
            CssUnit::CssUnitPx(v) => v,
            CssUnit::CssUnitEx(v) => v,
            CssUnit::CssUnitEm(v) => v,
            CssUnit::CssUnitIn(v) => v,
            CssUnit::CssUnitCm(v) => v,
            CssUnit::CssUnitMm(v) => v,
            CssUnit::CssUnitPt(v) => v,
            CssUnit::CssUnitPc(v) => v,
            CssUnit::CssUnitPct(v) => v,
            CssUnit::CssUnitDeg(v) => v,
            CssUnit::CssUnitGrad(v) => v,
            CssUnit::CssUnitRad(v) => v,
            CssUnit::CssUnitMs(v) => v,
            CssUnit::CssUnitS(v) => v,
            CssUnit::CssUnitHz(v) => v,
            CssUnit::CssUnitKHz(v) => v,
        }
    }

    /// The unit built from a code and a magnitude.
    pub open spec fn spec_from_code(unit: u32, value: css_fixed) -> CssUnit
        recommends
            unit < CSS_UNIT_COUNT,
    {
        if unit == 0 {
            CssUnit::CssUnitPx(value)
        } else if unit == 1 {
            CssUnit::CssUnitEx(value)
        } else if unit == 2 {
            CssUnit::CssUnitEm(value)
        } else if unit == 3 {
            CssUnit::CssUnitIn(value)
        } else if unit == 4 {
            CssUnit::CssUnitCm(value)
        } else if unit == 5 {
            CssUnit::CssUnitMm(value)
        } else if unit == 6 {
            CssUnit::CssUnitPt(value)
        } else if unit == 7 {
            CssUnit::CssUnitPc(value)
        } else if unit == 8 {
            CssUnit::CssUnitPct(value)
        } else if unit == 9 {
            CssUnit::CssUnitDeg(value)
        } else if unit == 10 {
            CssUnit::CssUnitGrad(value)
        } else if unit == 11 {
            CssUnit::CssUnitRad(value)
        } else if unit == 12 {
            CssUnit::CssUnitMs(value)
        } else if unit == 13 {
            CssUnit::CssUnitS(value)
        } else if unit == 14 {
            CssUnit::CssUnitHz(value)
        } else {
            CssUnit::CssUnitKHz(value)
        }
    }

    /// The magnitude of the dimension.
    pub fn value(&self) -> (v: css_fixed)
        ensures
            v == self.spec_value(),
    {
        match *self {
            CssUnit::CssUnitPx(v) => v,
            CssUnit::CssUnitEx(v) => v,
            CssUnit::CssUnitEm(v) => v,
            CssUnit::CssUnitIn(v) => v,
            CssUnit::CssUnitCm(v) => v,
            CssUnit::CssUnitMm(v) => v,
            CssUnit::CssUnitPt(v) => v,
            CssUnit::CssUnitPc(v) => v,
            CssUnit::CssUnitPct(v) => v,
            CssUnit::CssUnitDeg(v) => v,
            CssUnit::CssUnitGrad(v) => v,
            CssUnit::CssUnitRad(v) => v,
            CssUnit::CssUnitMs(v) => v,
            CssUnit::CssUnitS(v) => v,
            CssUnit::CssUnitHz(v) => v,
            CssUnit::CssUnitKHz(v) => v,
        }
    }
}

impl ToLl<(u32, css_fixed)> for CssUnit {
    fn to_ll(&self) -> (r: (u32, css_fixed))
        ensures
            r == (self.spec_code(), self.spec_value()),
    {
        match *self {
            CssUnit::CssUnitPx(v) => (0, v),
            CssUnit::CssUnitEx(v) => (1, v),
            CssUnit::CssUnitEm(v) => (2, v),
            CssUnit::CssUnitIn(v) => (3, v),
            CssUnit::CssUnitCm(v) => (4, v),
            CssUnit::CssUnitMm(v) => (5, v),
            CssUnit::CssUnitPt(v) => (6, v),
            CssUnit::CssUnitPc(v) => (7, v),
            CssUnit::CssUnitPct(v) => (8, v),
            CssUnit::CssUnitDeg(v) => (9, v),
            CssUnit::CssUnitGrad(v) => (10, v),
            CssUnit::CssUnitRad(v) => (11, v),
            CssUnit::CssUnitMs(v) => (12, v),
            CssUnit::CssUnitS(v) => (13, v),
            CssUnit::CssUnitHz(v) => (14, v),
            CssUnit::CssUnitKHz(v) => (15, v),
        }
    }
}

/// Builds a dimension from a unit code and a magnitude.
pub fn ll_unit_to_hl_unit(unit: u32, value: css_fixed) -> (r: CssUnit)
    requires
        unit < CSS_UNIT_COUNT,
    ensures
        r == CssUnit::spec_from_code(unit, value),
        r.spec_code() == unit,
        r.spec_value() == value,
{
    if unit == 0 {
        CssUnit::CssUnitPx(value)
    } else if unit == 1 {
        CssUnit::CssUnitEx(value)
    } else if unit == 2 {
        CssUnit::CssUnitEm(value)
    } else if unit == 3 {
        CssUnit::CssUnitIn(value)
    } else if unit == 4 {
        CssUnit::CssUnitCm(value)
    } else if unit == 5 {
        CssUnit::CssUnitMm(value)
    } else if unit == 6 {
        CssUnit::CssUnitPt(value)
    } else if unit == 7 {
        CssUnit::CssUnitPc(value)
    } else if unit == 8 {
        CssUnit::CssUnitPct(value)
    } else if unit == 9 {
        CssUnit::CssUnitDeg(value)
    } else if unit == 10 {
        CssUnit::CssUnitGrad(value)
    } else if unit == 11 {
        CssUnit::CssUnitRad(value)
    } else if unit == 12 {
        CssUnit::CssUnitMs(value)
    } else if unit == 13 {
        CssUnit::CssUnitS(value)
    } else if unit == 14 {
        CssUnit::CssUnitHz(value)
    } else {
        CssUnit::CssUnitKHz(value)
    }
}

/// Encoding a dimension to its code and magnitude and decoding them gives
/// the same dimension.
pub proof fn lemma_unit_round_trip(u: CssUnit)
    ensures
        u.spec_code() < CSS_UNIT_COUNT,
        CssUnit::spec_from_code(u.spec_code(), u.spec_value()) == u,
{
}

/// The level of the CSS language a stylesheet is read at.
#[derive(Clone, Copy, Debug, PartialEq, Eq, Structural)]
pub enum CssLanguageLevel {
    CssLevel1,
    CssLevel2,
    CssLevel21,
    CssLevel3,
    CssLevelDefault,
}

impl CssLanguageLevel {
    /// The numeric code of the value.
    pub open spec fn spec_code(self) -> u32 {
        match self {
            CssLanguageLevel::CssLevel1 => 0,
            CssLanguageLevel::CssLevel2 => 1,
            CssLanguageLevel::CssLevel21 => 2,
            CssLanguageLevel::CssLevel3 => 3,
            CssLanguageLevel::CssLevelDefault => 2,
        }
    }
}

impl ToLl<u32> for CssLanguageLevel {
    fn to_ll(&self) -> (r: u32)
        ensures
            r == self.spec_code(),
    {
        match *self {
            CssLanguageLevel::CssLevel1 => 0,
            CssLanguageLevel::CssLevel2 => 1,
            CssLanguageLevel::CssLevel21 => 2,
            CssLanguageLevel::CssLevel3 => 3,
            CssLanguageLevel::CssLevelDefault => 2,
        }
    }
}

/// Status codes of the engine's low-level interface.
#[derive(Clone, Copy, Debug, PartialEq, Eq, Structural)]
pub enum CssError {
    CssOk,
    CssNoMem,
    CssBadParm,
    CssInvalid,
    CssFileNotFound,
    CssNeedData,
    CssBadCharset,
    CssEof,
    CssImportsPending,
    CssPropertyNotSet,
}

impl CssError {
    /// The numeric code of the value.
    pub open spec fn spec_code(self) -> u32 {
        match self {
            CssError::CssOk => 0,
            CssError::CssNoMem => 1,
            CssError::CssBadParm => 2,
            CssError::CssInvalid => 3,
            CssError::CssFileNotFound => 4,
            CssError::CssNeedData => 5,
            CssError::CssBadCharset => 6,
            CssError::CssEof => 7,
            CssError::CssImportsPending => 8,
            CssError::CssPropertyNotSet => 9,
        }
    }
}

impl ToLl<u32> for CssError {
    fn to_ll(&self) -> (r: u32)
        ensures
            r == self.spec_code(),
    {
        match *self {
            CssError::CssOk => 0,
            CssError::CssNoMem => 1,
            CssError::CssBadParm => 2,
            CssError::CssInvalid => 3,
            CssError::CssFileNotFound => 4,
            CssError::CssNeedData => 5,
            CssError::CssBadCharset => 6,
            CssError::CssEof => 7,
            CssError::CssImportsPending => 8,
            CssError::CssPropertyNotSet => 9,
        }
    }
}

/// Number of status codes.
pub const CSS_ERROR_COUNT: u32 = 10;

/// The status with a given code.
pub open spec fn spec_error_from_code(code: u32) -> CssError
    recommends
        code < CSS_ERROR_COUNT,
{
    if code == 0 {
        CssError::CssOk
    } else if code == 1 {
        CssError::CssNoMem
    } else if code == 2 {
        CssError::CssBadParm
    } else if code == 3 {
        CssError::CssInvalid
    } else if code == 4 {
        CssError::CssFileNotFound
    } else if code == 5 {
        CssError::CssNeedData
    } else if code == 6 {
        CssError::CssBadCharset
    } else if code == 7 {
        CssError::CssEof
    } else if code == 8 {
        CssError::CssImportsPending
    } else {
        CssError::CssPropertyNotSet
    }
}

/// The status with a given code, or `None` for a code that names none.
pub fn css_error_from_code(code: u32) -> (r: Option<CssError>)
    ensures
        r is Some <==> code < CSS_ERROR_COUNT,
        r matches Some(e) ==> e == spec_error_from_code(code) && e.spec_code() == code,
{
    if code == 0 {
        Some(CssError::CssOk)
    } else if code == 1 {
        Some(CssError::CssNoMem)
    } else if code == 2 {
        Some(CssError::CssBadParm)
    } else if code == 3 {
        Some(CssError::CssInvalid)
    } else if code == 4 {
        Some(CssError::CssFileNotFound)
    } else if code == 5 {
        Some(CssError::CssNeedData)
    } else if code == 6 {
        Some(CssError::CssBadCharset)
    } else if code == 7 {
        Some(CssError::CssEof)
    } else if code == 8 {
        Some(CssError::CssImportsPending)
    } else if code == 9 {
        Some(CssError::CssPropertyNotSet)
    } else {
        None
    }
}

/// Turns a status code and a value into a `Result`: the value on success
/// (code zero), else the status that the code names, or `CssInvalid` for a
/// code that names none.
pub fn ll_result_to_rust_result<T>(code: u32, val: T) -> (r: Result<T, CssError>)
    ensures
        code == 0 ==> r == Ok::<T, CssError>(val),
        0 < code < CSS_ERROR_COUNT ==> r == Err::<T, CssError>(spec_error_from_code(code)),
        code >= CSS_ERROR_COUNT ==> r == Err::<T, CssError>(CssError::CssInvalid),
{
    if code == 0 {
        Ok(val)
    } else {
        match css_error_from_code(code) {
            Some(e) => Err(e),
            None => Err(CssError::CssInvalid),
        }
    }
}

/// The style targets computed for one element: the element itself and its
/// four pseudo-elements.
#[derive(Clone, Copy, Debug, PartialEq, Eq, Structural)]
pub enum CssPseudoElement {
    CssPseudoElementNone,
    CssPseudoElementFirstLine,
    CssPseudoElementFirstLetter,
    CssPseudoElementBefore,
    CssPseudoElementAfter,
}

impl CssPseudoElement {
    /// The numeric code of the value.
    pub open spec fn spec_code(self) -> u32 {
        match self {
            CssPseudoElement::CssPseudoElementNone => 0,
            CssPseudoElement::CssPseudoElementFirstLine => 1,
            CssPseudoElement::CssPseudoElementFirstLetter => 2,
            CssPseudoElement::CssPseudoElementBefore => 3,
            CssPseudoElement::CssPseudoElementAfter => 4,
        }
    }
}

impl ToLl<u32> for CssPseudoElement {
    fn to_ll(&self) -> (r: u32)
        ensures
            r == self.spec_code(),
    {
        match *self {
            CssPseudoElement::CssPseudoElementNone => 0,
            CssPseudoElement::CssPseudoElementFirstLine => 1,
            CssPseudoElement::CssPseudoElementFirstLetter => 2,
            CssPseudoElement::CssPseudoElementBefore => 3,
            CssPseudoElement::CssPseudoElementAfter => 4,
        }
    }
}

/// Number of pseudo-element targets.
pub const CSS_PSEUDO_ELEMENT_COUNT: usize = 5;

/// The pseudo-element target with a given index.
pub open spec fn spec_pseudo_element(i: int) -> CssPseudoElement {
    if i == 0 {
        CssPseudoElement::CssPseudoElementNone
    } else if i == 1 {
        CssPseudoElement::CssPseudoElementFirstLine
    } else if i == 2 {
        CssPseudoElement::CssPseudoElementFirstLetter
    } else if i == 3 {
        CssPseudoElement::CssPseudoElementBefore
    } else {
        CssPseudoElement::CssPseudoElementAfter
    }
}

/// The pseudo-element target with a given index, `i < 5`.
pub fn pseudo_element_at(i: usize) -> (r: CssPseudoElement)
    requires
        i < CSS_PSEUDO_ELEMENT_COUNT,
    ensures
        r == spec_pseudo_element(i as int),
        r.spec_code() == i,
{
    if i == 0 {
        CssPseudoElement::CssPseudoElementNone
    } else if i == 1 {
        CssPseudoElement::CssPseudoElementFirstLine
    } else if i == 2 {
        CssPseudoElement::CssPseudoElementFirstLetter
    } else if i == 3 {
        CssPseudoElement::CssPseudoElementBefore
    } else {
        CssPseudoElement::CssPseudoElementAfter
    }
}

/// Where a stylesheet comes from: the user agent, the user or the author.
#[derive(Clone, Copy, Debug, PartialEq, Eq, Structural)]
pub enum CssOrigin {
    CssOriginUa,
    CssOriginUser,
    CssOriginAuthor,
}

impl CssOrigin {
    /// The numeric code of the value.
    pub open spec fn spec_code(self) -> u32 {
        match self {
            CssOrigin::CssOriginUa => 0,
            CssOrigin::CssOriginUser => 1,
            CssOrigin::CssOriginAuthor => 2,
        }
    }
}

impl ToLl<u32> for CssOrigin {
    fn to_ll(&self) -> (r: u32)
        ensures
            r == self.spec_code(),
    {
        match *self {
            CssOrigin::CssOriginUa => 0,
            CssOrigin::CssOriginUser => 1,
            CssOrigin::CssOriginAuthor => 2,
        }
    }
}

/// Every media type.
pub const CSS_MEDIA_ALL: u64 = 0x3ff;

/// The screen media type.
pub const CSS_MEDIA_SCREEN: u64 = 0x40;

/// The print media type.
pub const CSS_MEDIA_PRINT: u64 = 0x10;

/// The computed value of the `color` property: inherited, or a colour.
#[derive(Clone, Copy, Debug, PartialEq, Eq, Structural)]
pub enum CssColorProp {
    CssColorInherit,
    CssColorValue(CssColor),
}

/// Values of `font-style`.
#[derive(Clone, Copy, Debug, PartialEq, Eq, Structural)]
pub enum CssFontStyle {
    CssFontStyleInherit,
    CssFontStyleNormal,
    CssFontStyleItalic,
    CssFontStyleOblique,
}

impl CssFontStyle {
    /// The numeric code of the value.
    pub open spec fn spec_code(self) -> u32 {
        match self {
            CssFontStyle::CssFontStyleInherit => 0,
            CssFontStyle::CssFontStyleNormal => 1,
            CssFontStyle::CssFontStyleItalic => 2,
            CssFontStyle::CssFontStyleOblique => 3,
        }
    }
}

impl ToLl<u32> for CssFontStyle {
    fn to_ll(&self) -> (r: u32)
        ensures
            r == self.spec_code(),
    {
        match *self {
            CssFontStyle::CssFontStyleInherit => 0,
            CssFontStyle::CssFontStyleNormal => 1,
            CssFontStyle::CssFontStyleItalic => 2,
            CssFontStyle::CssFontStyleOblique => 3,
        }
    }
}

/// Generic font families.
#[derive(Clone, Copy, Debug, PartialEq, Eq, Structural)]
pub enum CssFontFamily {
    CssFontFamilyInherit,
    CssFontFamilySerif,
    CssFontFamilySansSerif,
    CssFontFamilyCursive,
    CssFontFamilyFantasy,
    CssFontFamilyMonospace,
}

impl CssFontFamily {
    /// The numeric code of the value.
    pub open spec fn spec_code(self) -> u32 {
        match self {
            CssFontFamily::CssFontFamilyInherit => 0,
            CssFontFamily::CssFontFamilySerif => 1,
            CssFontFamily::CssFontFamilySansSerif => 2,
            CssFontFamily::CssFontFamilyCursive => 3,
            CssFontFamily::CssFontFamilyFantasy => 4,
            CssFontFamily::CssFontFamilyMonospace => 5,
        }
    }
}

impl ToLl<u32> for CssFontFamily {
    fn to_ll(&self) -> (r: u32)
        ensures
            r == self.spec_code(),
    {
        match *self {
            CssFontFamily::CssFontFamilyInherit => 0,
            CssFontFamily::CssFontFamilySerif => 1,
            CssFontFamily::CssFontFamilySansSerif => 2,
            CssFontFamily::CssFontFamilyCursive => 3,
            CssFontFamily::CssFontFamilyFantasy => 4,
            CssFontFamily::CssFontFamilyMonospace => 5,
        }
    }
}

/// Values of `font-variant`.
#[derive(Clone, Copy, Debug, PartialEq, Eq, Structural)]
pub enum CssFontVariant {
    CssFontVariantInherit,
    CssFontVariantNormal,
    CssFontVariantSmallCaps,
}

impl CssFontVariant {
    /// The numeric code of the value.
    pub open spec fn spec_code(self) -> u32 {
        match self {
            CssFontVariant::CssFontVariantInherit => 0,
            CssFontVariant::CssFontVariantNormal => 1,
            CssFontVariant::CssFontVariantSmallCaps => 2,
        }
    }
}

impl ToLl<u32> for CssFontVariant {
    fn to_ll(&self) -> (r: u32)
        ensures
            r == self.spec_code(),
    {
        match *self {
            CssFontVariant::CssFontVariantInherit => 0,
            CssFontVariant::CssFontVariantNormal => 1,
            CssFontVariant::CssFontVariantSmallCaps => 2,
        }
    }
}

/// Values of `font-weight`.
#[derive(Clone, Copy, Debug, PartialEq, Eq, Structural)]
pub enum CssFontWeight {
    CssFontWeightInherit,
    CssFontWeightNormal,
    CssFontWeightBold,
    CssFontWeightBolder,
    CssFontWeightLighter,
    CssFontWeight100,
    CssFontWeight200,
    CssFontWeight300,
    CssFontWeight400,
    CssFontWeight500,
    CssFontWeight600,
    CssFontWeight700,
    CssFontWeight800,
    CssFontWeight900,
}

impl CssFontWeight {
    /// The numeric code of the value.
    pub open spec fn spec_code(self) -> u32 {
        match self {
            CssFontWeight::CssFontWeightInherit => 0,
            CssFontWeight::CssFontWeightNormal => 1,
            CssFontWeight::CssFontWeightBold => 2,
            CssFontWeight::CssFontWeightBolder => 3,
            CssFontWeight::CssFontWeightLighter => 4,
            CssFontWeight::CssFontWeight100 => 5,
            CssFontWeight::CssFontWeight200 => 6,
            CssFontWeight::CssFontWeight300 => 7,
            CssFontWeight::CssFontWeight400 => 8,
            CssFontWeight::CssFontWeight500 => 9,
            CssFontWeight::CssFontWeight600 => 10,
            CssFontWeight::CssFontWeight700 => 11,
            CssFontWeight::CssFontWeight800 => 12,
            CssFontWeight::CssFontWeight900 => 13,
        }
    }
}

impl ToLl<u32> for CssFontWeight {
    fn to_ll(&self) -> (r: u32)
        ensures
            r == self.spec_code(),
    {
        match *self {
            CssFontWeight::CssFontWeightInherit => 0,
            CssFontWeight::CssFontWeightNormal => 1,
            CssFontWeight::CssFontWeightBold => 2,
            CssFontWeight::CssFontWeightBolder => 3,
            CssFontWeight::CssFontWeightLighter => 4,
            CssFontWeight::CssFontWeight100 => 5,
            CssFontWeight::CssFontWeight200 => 6,
            CssFontWeight::CssFontWeight300 => 7,
            CssFontWeight::CssFontWeight400 => 8,
            CssFontWeight::CssFontWeight500 => 9,
            CssFontWeight::CssFontWeight600 => 10,
            CssFontWeight::CssFontWeight700 => 11,
            CssFontWeight::CssFontWeight800 => 12,
            CssFontWeight::CssFontWeight900 => 13,
        }
    }
}

/// Values of `quotes`.
#[derive(Clone, Copy, Debug, PartialEq, Eq, Structural)]
pub enum CssQuotes {
    CssQuotesInherit,
    CssQuotesString,
    CssQuotesNone,
}

impl CssQuotes {
    /// The numeric code of the value.
    pub open spec fn spec_code(self) -> u32 {
        match self {
            CssQuotes::CssQuotesInherit => 0,
            CssQuotes::CssQuotesString => 1,
            CssQuotes::CssQuotesNone => 2,
        }
    }
}

impl ToLl<u32> for CssQuotes {
    fn to_ll(&self) -> (r: u32)
        ensures
            r == self.spec_code(),
    {
        match *self {
            CssQuotes::CssQuotesInherit => 0,
            CssQuotes::CssQuotesString => 1,
            CssQuotes::CssQuotesNone => 2,
        }
    }
}

/// Versions of the stylesheet parameter block.
#[derive(Clone, Copy, Debug, PartialEq, Eq, Structural)]
pub enum CssStylesheetParamsVersion {
    CssStylesheetParamsVersion1,
}

/// A size: a fixed-point magnitude and a unit code.
#[derive(Clone, Copy, Debug, PartialEq, Eq, Structural)]
#[allow(non_camel_case_types)]
pub struct css_size {
    pub size: css_fixed,
    pub unit: u32,
}

/// A length given as a presentational hint: a magnitude and a unit code.
#[derive(Clone, Copy, Debug, PartialEq, Eq, Structural)]
#[allow(non_camel_case_types)]
pub struct css_hint_length {
    pub value: css_fixed,
    pub unit: u32,
}

/// A system font, as a font-resolution collaborator describes it.
#[derive(Clone, Debug)]
pub struct CssSystemFont {
    pub style: CssFontStyle,
    pub variant: CssFontVariant,
    pub weight: CssFontWeight,
    pub size: css_size,
    pub line_height: css_size,
    pub family: String,
}

} // verus!
