//! The properties a computed style holds, their codes, which of them are
//! inherited by default, their initial values, and the values a
//! declaration can give them.
use vstd::prelude::*;
use crate::fixed::css_fixed;
use crate::types::{CssColor, CssError, CssFontFamily, CssQuotes, CssUnit};

verus! {

/// An interned name: equal names have equal atoms.
pub type Atom = u32;

/// The properties of a computed style.
#[derive(Clone, Copy, Debug, PartialEq, Eq, Structural)]
pub enum CssProperty {
    CssPropAzimuth,
    CssPropBackgroundAttachment,
    CssPropBackgroundColor,
    CssPropBackgroundImage,
    CssPropBackgroundPosition,
    CssPropBackgroundRepeat,
    CssPropBorderCollapse,
    CssPropBorderSpacing,
    CssPropBorderTopColor,
    CssPropBorderRightColor,
    CssPropBorderBottomColor,
    CssPropBorderLeftColor,
    CssPropBorderTopStyle,
    CssPropBorderRightStyle,
    CssPropBorderBottomStyle,
    CssPropBorderLeftStyle,
    CssPropBorderTopWidth,
    CssPropBorderRightWidth,
    CssPropBorderBottomWidth,
    CssPropBorderLeftWidth,
    CssPropBottom,
    CssPropCaptionSide,
    CssPropClear,
    CssPropClip,
    CssPropColor,
    CssPropContent,
    CssPropCounterIncrement,
    CssPropCounterReset,
    CssPropCueAfter,
    CssPropCueBefore,
    CssPropCursor,
    CssPropDirection,
    CssPropDisplay,
    CssPropElevation,
    CssPropEmptyCells,
    CssPropFloat,
    CssPropFontFamily,
    CssPropFontSize,
    CssPropFontStyle,
    CssPropFontVariant,
    CssPropFontWeight,
    CssPropHeight,
    CssPropLeft,
    CssPropLetterSpacing,
    CssPropLineHeight,
    CssPropListStyleImage,
    CssPropListStylePosition,
    CssPropListStyleType,
    CssPropMarginTop,
    CssPropMarginRight,
    CssPropMarginBottom,
    CssPropMarginLeft,
    CssPropMaxHeight,
    CssPropMaxWidth,
    CssPropMinHeight,
    CssPropMinWidth,
    CssPropOrphans,
    CssPropOutlineColor,
    CssPropOutlineStyle,
    CssPropOutlineWidth,
    CssPropOverflow,
    CssPropPaddingTop,
    CssPropPaddingRight,
    CssPropPaddingBottom,
    CssPropPaddingLeft,
    CssPropPageBreakAfter,
    CssPropPageBreakBefore,
    CssPropPageBreakInside,
    CssPropPauseAfter,
    CssPropPauseBefore,
    CssPropPitchRange,
    CssPropPitch,
    CssPropPlayDuring,
    CssPropPosition,
    CssPropQuotes,
    CssPropRichness,
    CssPropRight,
    CssPropSpeakHeader,
    CssPropSpeakNumeral,
    CssPropSpeakPunctuation,
    CssPropSpeak,
    CssPropSpeechRate,
    CssPropStress,
    CssPropTableLayout,
    CssPropTextAlign,
    CssPropTextDecoration,
    CssPropTextIndent,
    CssPropTextTransform,
    CssPropTop,
    CssPropUnicodeBidi,
    CssPropVerticalAlign,
    CssPropVisibility,
    CssPropVoiceFamily,
    CssPropVolume,
    CssPropWhiteSpace,
    CssPropWidows,
    CssPropWidth,
    CssPropWordSpacing,
    CssPropZIndex,
    CssPropOpacity,
    CssPropBreakAfter,
    CssPropBreakBefore,
    CssPropBreakInside,
    CssPropColumnCount,
    CssPropColumnFill,
    CssPropColumnGap,
    CssPropColumnRuleColor,
    CssPropColumnRuleStyle,
    CssPropColumnRuleWidth,
    CssPropColumnSpan,
    CssPropClomumnWidth,
}

/// Number of properties.
pub const CSS_PROPERTY_COUNT: u32 = 111;

impl CssProperty {
    /// The numeric code of the property.
    pub open spec fn spec_code(self) -> u32 {
        match self {
            CssProperty::CssPropAzimuth => 0,
            CssProperty::CssPropBackgroundAttachment => 1,
            CssProperty::CssPropBackgroundColor => 2,
            CssProperty::CssPropBackgroundImage => 3,
            CssProperty::CssPropBackgroundPosition => 4,
            CssProperty::CssPropBackgroundRepeat => 5,
            CssProperty::CssPropBorderCollapse => 6,
            CssProperty::CssPropBorderSpacing => 7,
            CssProperty::CssPropBorderTopColor => 8,
            CssProperty::CssPropBorderRightColor => 9,
            CssProperty::CssPropBorderBottomColor => 10,
            CssProperty::CssPropBorderLeftColor => 11,
            CssProperty::CssPropBorderTopStyle => 12,
            CssProperty::CssPropBorderRightStyle => 13,
            CssProperty::CssPropBorderBottomStyle => 14,
            CssProperty::CssPropBorderLeftStyle => 15,
            CssProperty::CssPropBorderTopWidth => 16,
            CssProperty::CssPropBorderRightWidth => 17,
            CssProperty::CssPropBorderBottomWidth => 18,
            CssProperty::CssPropBorderLeftWidth => 19,
            CssProperty::CssPropBottom => 20,
            CssProperty::CssPropCaptionSide => 21,
            CssProperty::CssPropClear => 22,
            CssProperty::CssPropClip => 23,
            CssProperty::CssPropColor => 24,
            CssProperty::CssPropContent => 25,
            CssProperty::CssPropCounterIncrement => 26,
            CssProperty::CssPropCounterReset => 27,
            CssProperty::CssPropCueAfter => 28,
            CssProperty::CssPropCueBefore => 29,
            CssProperty::CssPropCursor => 30,
            CssProperty::CssPropDirection => 31,
            CssProperty::CssPropDisplay => 32,
            CssProperty::CssPropElevation => 33,
            CssProperty::CssPropEmptyCells => 34,
            CssProperty::CssPropFloat => 35,
            CssProperty::CssPropFontFamily => 36,
            CssProperty::CssPropFontSize => 37,
            CssProperty::CssPropFontStyle => 38,
            CssProperty::CssPropFontVariant => 39,
            CssProperty::CssPropFontWeight => 40,
            CssProperty::CssPropHeight => 41,
            CssProperty::CssPropLeft => 42,
            CssProperty::CssPropLetterSpacing => 43,
            CssProperty::CssPropLineHeight => 44,
            CssProperty::CssPropListStyleImage => 45,
            CssProperty::CssPropListStylePosition => 46,
            CssProperty::CssPropListStyleType => 47,
            CssProperty::CssPropMarginTop => 48,
            CssProperty::CssPropMarginRight => 49,
            CssProperty::CssPropMarginBottom => 50,
            CssProperty::CssPropMarginLeft => 51,
            CssProperty::CssPropMaxHeight => 52,
            CssProperty::CssPropMaxWidth => 53,
            CssProperty::CssPropMinHeight => 54,
            CssProperty::CssPropMinWidth => 55,
            CssProperty::CssPropOrphans => 56,
            CssProperty::CssPropOutlineColor => 57,
            CssProperty::CssPropOutlineStyle => 58,
            CssProperty::CssPropOutlineWidth => 59,
            CssProperty::CssPropOverflow => 60,
            CssProperty::CssPropPaddingTop => 61,
            CssProperty::CssPropPaddingRight => 62,
            CssProperty::CssPropPaddingBottom => 63,
            CssProperty::CssPropPaddingLeft => 64,
            CssProperty::CssPropPageBreakAfter => 65,
            CssProperty::CssPropPageBreakBefore => 66,
            CssProperty::CssPropPageBreakInside => 67,
            CssProperty::CssPropPauseAfter => 68,
            CssProperty::CssPropPauseBefore => 69,
            CssProperty::CssPropPitchRange => 70,
            CssProperty::CssPropPitch => 71,
            CssProperty::CssPropPlayDuring => 72,
            CssProperty::CssPropPosition => 73,
            CssProperty::CssPropQuotes => 74,
            CssProperty::CssPropRichness => 75,
            CssProperty::CssPropRight => 76,
            CssProperty::CssPropSpeakHeader => 77,
            CssProperty::CssPropSpeakNumeral => 78,
            CssProperty::CssPropSpeakPunctuation => 79,
            CssProperty::CssPropSpeak => 80,
            CssProperty::CssPropSpeechRate => 81,
            CssProperty::CssPropStress => 82,
            CssProperty::CssPropTableLayout => 83,
            CssProperty::CssPropTextAlign => 84,
            CssProperty::CssPropTextDecoration => 85,
            CssProperty::CssPropTextIndent => 86,
            CssProperty::CssPropTextTransform => 87,
            CssProperty::CssPropTop => 88,
            CssProperty::CssPropUnicodeBidi => 89,
            CssProperty::CssPropVerticalAlign => 90,
            CssProperty::CssPropVisibility => 91,
            CssProperty::CssPropVoiceFamily => 92,
            CssProperty::CssPropVolume => 93,
            CssProperty::CssPropWhiteSpace => 94,
            CssProperty::CssPropWidows => 95,
            CssProperty::CssPropWidth => 96,
            CssProperty::CssPropWordSpacing => 97,
            CssProperty::CssPropZIndex => 98,
            CssProperty::CssPropOpacity => 99,
            CssProperty::CssPropBreakAfter => 100,
            CssProperty::CssPropBreakBefore => 101,
            CssProperty::CssPropBreakInside => 102,
            CssProperty::CssPropColumnCount => 103,
            CssProperty::CssPropColumnFill => 104,
            CssProperty::CssPropColumnGap => 105,
            CssProperty::CssPropColumnRuleColor => 106,
            CssProperty::CssPropColumnRuleStyle => 107,
            CssProperty::CssPropColumnRuleWidth => 108,
            CssProperty::CssPropColumnSpan => 109,
            CssProperty::CssPropClomumnWidth => 110,
        }
    }

    /// Whether a child takes the parent's value when nothing sets the property.
    pub open spec fn spec_is_inherited(self) -> bool {
        match self {
            CssProperty::CssPropAzimuth
            | CssProperty::CssPropBorderCollapse
            | CssProperty::CssPropBorderSpacing
            | CssProperty::CssPropCaptionSide
            | CssProperty::CssPropColor
            | CssProperty::CssPropCursor
            | CssProperty::CssPropDirection
            | CssProperty::CssPropElevation
            | CssProperty::CssPropEmptyCells
            | CssProperty::CssPropFontFamily
            | CssProperty::CssPropFontSize
            | CssProperty::CssPropFontStyle
            | CssProperty::CssPropFontVariant
            | CssProperty::CssPropFontWeight
            | CssProperty::CssPropLetterSpacing
            | CssProperty::CssPropLineHeight
            | CssProperty::CssPropListStyleImage
            | CssProperty::CssPropListStylePosition
            | CssProperty::CssPropListStyleType
            | CssProperty::CssPropOrphans
            | CssProperty::CssPropPitchRange
            | CssProperty::CssPropPitch
            | CssProperty::CssPropQuotes
            | CssProperty::CssPropRichness
            | CssProperty::CssPropSpeakHeader
            | CssProperty::CssPropSpeakNumeral
            | CssProperty::CssPropSpeakPunctuation
            | CssProperty::CssPropSpeak
            | CssProperty::CssPropSpeechRate
            | CssProperty::CssPropStress
            | CssProperty::CssPropTextAlign
            | CssProperty::CssPropTextIndent
            | CssProperty::CssPropTextTransform
            | CssProperty::CssPropVisibility
            | CssProperty::CssPropVoiceFamily
            | CssProperty::CssPropVolume
            | CssProperty::CssPropWhiteSpace
            | CssProperty::CssPropWidows
            | CssProperty::CssPropWordSpacing => true,
            _ => false,
        }
    }

    /// Whether the user agent chooses the property's initial value: `color`,
    /// `font-family` and `quotes`.
    pub open spec fn spec_is_ua_dependent(self) -> bool {
        self == CssProperty::CssPropColor || self == CssProperty::CssPropFontFamily || self
            == CssProperty::CssPropQuotes
    }

    /// The value the property has on a root element that sets nothing, when
    /// the user agent supplies no default of its own. Keyword codes are the
    /// library's own (see `types`): font style, variant and weight normal,
    /// font family sans-serif, quotes none.
    pub open spec fn spec_initial_value(self) -> CssValue {
        match self {
            CssProperty::CssPropColor => CssValue::Color(CssColor { a: 255, r: 0, g: 0, b: 0 }),
            CssProperty::CssPropBackgroundColor => CssValue::Color(CssColor { a: 0, r: 0, g: 0, b: 0 }),
            CssProperty::CssPropFontSize => CssValue::Dimension(CssUnit::CssUnitPx(MEDIUM_FONT_SIZE)),
            CssProperty::CssPropWidth
            | CssProperty::CssPropHeight
            | CssProperty::CssPropTop
            | CssProperty::CssPropLeft
            | CssProperty::CssPropRight
            | CssProperty::CssPropBottom
            | CssProperty::CssPropZIndex
            | CssProperty::CssPropColumnCount
            | CssProperty::CssPropClomumnWidth => CssValue::Auto,
            CssProperty::CssPropMarginTop
            | CssProperty::CssPropMarginRight
            | CssProperty::CssPropMarginBottom
            | CssProperty::CssPropMarginLeft
            | CssProperty::CssPropPaddingTop
            | CssProperty::CssPropPaddingRight
            | CssProperty::CssPropPaddingBottom
            | CssProperty::CssPropPaddingLeft
            | CssProperty::CssPropTextIndent => CssValue::Dimension(
                CssUnit::CssUnitPx(0),
            ),
            CssProperty::CssPropOpacity => CssValue::Number(1024),
            CssProperty::CssPropOrphans | CssProperty::CssPropWidows => CssValue::Number(2048),
            CssProperty::CssPropFontFamily => CssValue::Keyword(2),
            CssProperty::CssPropQuotes => CssValue::Keyword(2),
            CssProperty::CssPropFontStyle
            | CssProperty::CssPropFontVariant
            | CssProperty::CssPropFontWeight => CssValue::Keyword(1),
            _ => CssValue::Keyword(0),
        }
    }

    /// Whether a child takes the parent's value when nothing sets the property.
    pub fn is_inherited(&self) -> (r: bool)
        ensures
            r == self.spec_is_inherited(),
    {
        match *self {
            CssProperty::CssPropAzimuth
            | CssProperty::CssPropBorderCollapse
            | CssProperty::CssPropBorderSpacing
            | CssProperty::CssPropCaptionSide
            | CssProperty::CssPropColor
            | CssProperty::CssPropCursor
            | CssProperty::CssPropDirection
            | CssProperty::CssPropElevation
            | CssProperty::CssPropEmptyCells
            | CssProperty::CssPropFontFamily
            | CssProperty::CssPropFontSize
            | CssProperty::CssPropFontStyle
            | CssProperty::CssPropFontVariant
            | CssProperty::CssPropFontWeight
            | CssProperty::CssPropLetterSpacing
            | CssProperty::CssPropLineHeight
            | CssProperty::CssPropListStyleImage
            | CssProperty::CssPropListStylePosition
            | CssProperty::CssPropListStyleType
            | CssProperty::CssPropOrphans
            | CssProperty::CssPropPitchRange
            | CssProperty::CssPropPitch
            | CssProperty::CssPropQuotes
            | CssProperty::CssPropRichness
            | CssProperty::CssPropSpeakHeader
            | CssProperty::CssPropSpeakNumeral
            | CssProperty::CssPropSpeakPunctuation
            | CssProperty::CssPropSpeak
            | CssProperty::CssPropSpeechRate
            | CssProperty::CssPropStress
            | CssProperty::CssPropTextAlign
            | CssProperty::CssPropTextIndent
            | CssProperty::CssPropTextTransform
            | CssProperty::CssPropVisibility
            | CssProperty::CssPropVoiceFamily
            | CssProperty::CssPropVolume
            | CssProperty::CssPropWhiteSpace
            | CssProperty::CssPropWidows
            | CssProperty::CssPropWordSpacing => true,
            _ => false,
        }
    }

    /// Whether the user agent chooses the property's initial value.
    pub fn is_ua_dependent(&self) -> (r: bool)
        ensures
            r == self.spec_is_ua_dependent(),
    {
        match *self {
            CssProperty::CssPropColor | CssProperty::CssPropFontFamily | CssProperty::CssPropQuotes => true,
            _ => false,
        }
    }

    /// The value the property has on a root element that sets nothing, when
    /// the user agent supplies no default of its own.
    pub fn initial_value(&self) -> (r: CssValue)
        ensures
            r == self.spec_initial_value(),
    {
        match *self {
            CssProperty::CssPropColor => CssValue::Color(CssColor { a: 255, r: 0, g: 0, b: 0 }),
            CssProperty::CssPropBackgroundColor => CssValue::Color(CssColor { a: 0, r: 0, g: 0, b: 0 }),
            CssProperty::CssPropFontSize => CssValue::Dimension(CssUnit::CssUnitPx(MEDIUM_FONT_SIZE)),
            CssProperty::CssPropWidth
            | CssProperty::CssPropHeight
            | CssProperty::CssPropTop
            | CssProperty::CssPropLeft
            | CssProperty::CssPropRight
            | CssProperty::CssPropBottom
            | CssProperty::CssPropZIndex
            | CssProperty::CssPropColumnCount
            | CssProperty::CssPropClomumnWidth => CssValue::Auto,
            CssProperty::CssPropMarginTop
            | CssProperty::CssPropMarginRight
            | CssProperty::CssPropMarginBottom
            | CssProperty::CssPropMarginLeft
            | CssProperty::CssPropPaddingTop
            | CssProperty::CssPropPaddingRight
            | CssProperty::CssPropPaddingBottom
            | CssProperty::CssPropPaddingLeft
            | CssProperty::CssPropTextIndent => CssValue::Dimension(
                CssUnit::CssUnitPx(0),
            ),
            CssProperty::CssPropOpacity => CssValue::Number(1024),
            CssProperty::CssPropOrphans | CssProperty::CssPropWidows => CssValue::Number(2048),
            CssProperty::CssPropFontFamily => CssValue::Keyword(2),
            CssProperty::CssPropQuotes => CssValue::Keyword(2),
            CssProperty::CssPropFontStyle
            | CssProperty::CssPropFontVariant
            | CssProperty::CssPropFontWeight => CssValue::Keyword(1),
            _ => CssValue::Keyword(0),
        }
    }

    /// The numeric code of the property.
    pub fn code(&self) -> (r: u32)
        ensures
            r == self.spec_code(),
            r < CSS_PROPERTY_COUNT,
    {
        match *self {
            CssProperty::CssPropAzimuth => 0,
            CssProperty::CssPropBackgroundAttachment => 1,
            CssProperty::CssPropBackgroundColor => 2,
            CssProperty::CssPropBackgroundImage => 3,
            CssProperty::CssPropBackgroundPosition => 4,
            CssProperty::CssPropBackgroundRepeat => 5,
            CssProperty::CssPropBorderCollapse => 6,
            CssProperty::CssPropBorderSpacing => 7,
            CssProperty::CssPropBorderTopColor => 8,
            CssProperty::CssPropBorderRightColor => 9,
            CssProperty::CssPropBorderBottomColor => 10,
            CssProperty::CssPropBorderLeftColor => 11,
            CssProperty::CssPropBorderTopStyle => 12,
            CssProperty::CssPropBorderRightStyle => 13,
            CssProperty::CssPropBorderBottomStyle => 14,
            CssProperty::CssPropBorderLeftStyle => 15,
            CssProperty::CssPropBorderTopWidth => 16,
            CssProperty::CssPropBorderRightWidth => 17,
            CssProperty::CssPropBorderBottomWidth => 18,
            CssProperty::CssPropBorderLeftWidth => 19,
            CssProperty::CssPropBottom => 20,
            CssProperty::CssPropCaptionSide => 21,
            CssProperty::CssPropClear => 22,
            CssProperty::CssPropClip => 23,
            CssProperty::CssPropColor => 24,
            CssProperty::CssPropContent => 25,
            CssProperty::CssPropCounterIncrement => 26,
            CssProperty::CssPropCounterReset => 27,
            CssProperty::CssPropCueAfter => 28,
            CssProperty::CssPropCueBefore => 29,
            CssProperty::CssPropCursor => 30,
            CssProperty::CssPropDirection => 31,
            CssProperty::CssPropDisplay => 32,
            CssProperty::CssPropElevation => 33,
            CssProperty::CssPropEmptyCells => 34,
            CssProperty::CssPropFloat => 35,
            CssProperty::CssPropFontFamily => 36,
            CssProperty::CssPropFontSize => 37,
            CssProperty::CssPropFontStyle => 38,
            CssProperty::CssPropFontVariant => 39,
            CssProperty::CssPropFontWeight => 40,
            CssProperty::CssPropHeight => 41,
            CssProperty::CssPropLeft => 42,
            CssProperty::CssPropLetterSpacing => 43,
            CssProperty::CssPropLineHeight => 44,
            CssProperty::CssPropListStyleImage => 45,
            CssProperty::CssPropListStylePosition => 46,
            CssProperty::CssPropListStyleType => 47,
            CssProperty::CssPropMarginTop => 48,
            CssProperty::CssPropMarginRight => 49,
            CssProperty::CssPropMarginBottom => 50,
            CssProperty::CssPropMarginLeft => 51,
            CssProperty::CssPropMaxHeight => 52,
            CssProperty::CssPropMaxWidth => 53,
            CssProperty::CssPropMinHeight => 54,
            CssProperty::CssPropMinWidth => 55,
            CssProperty::CssPropOrphans => 56,
            CssProperty::CssPropOutlineColor => 57,
            CssProperty::CssPropOutlineStyle => 58,
            CssProperty::CssPropOutlineWidth => 59,
            CssProperty::CssPropOverflow => 60,
            CssProperty::CssPropPaddingTop => 61,
            CssProperty::CssPropPaddingRight => 62,
            CssProperty::CssPropPaddingBottom => 63,
            CssProperty::CssPropPaddingLeft => 64,
            CssProperty::CssPropPageBreakAfter => 65,
            CssProperty::CssPropPageBreakBefore => 66,
            CssProperty::CssPropPageBreakInside => 67,
            CssProperty::CssPropPauseAfter => 68,
            CssProperty::CssPropPauseBefore => 69,
            CssProperty::CssPropPitchRange => 70,
            CssProperty::CssPropPitch => 71,
            CssProperty::CssPropPlayDuring => 72,
            CssProperty::CssPropPosition => 73,
            CssProperty::CssPropQuotes => 74,
            CssProperty::CssPropRichness => 75,
            CssProperty::CssPropRight => 76,
            CssProperty::CssPropSpeakHeader => 77,
            CssProperty::CssPropSpeakNumeral => 78,
            CssProperty::CssPropSpeakPunctuation => 79,
            CssProperty::CssPropSpeak => 80,
            CssProperty::CssPropSpeechRate => 81,
            CssProperty::CssPropStress => 82,
            CssProperty::CssPropTableLayout => 83,
            CssProperty::CssPropTextAlign => 84,
            CssProperty::CssPropTextDecoration => 85,
            CssProperty::CssPropTextIndent => 86,
            CssProperty::CssPropTextTransform => 87,
            CssProperty::CssPropTop => 88,
            CssProperty::CssPropUnicodeBidi => 89,
            CssProperty::CssPropVerticalAlign => 90,
            CssProperty::CssPropVisibility => 91,
            CssProperty::CssPropVoiceFamily => 92,
            CssProperty::CssPropVolume => 93,
            CssProperty::CssPropWhiteSpace => 94,
            CssProperty::CssPropWidows => 95,
            CssProperty::CssPropWidth => 96,
            CssProperty::CssPropWordSpacing => 97,
            CssProperty::CssPropZIndex => 98,
            CssProperty::CssPropOpacity => 99,
            CssProperty::CssPropBreakAfter => 100,
            CssProperty::CssPropBreakBefore => 101,
            CssProperty::CssPropBreakInside => 102,
            CssProperty::CssPropColumnCount => 103,
            CssProperty::CssPropColumnFill => 104,
            CssProperty::CssPropColumnGap => 105,
            CssProperty::CssPropColumnRuleColor => 106,
            CssProperty::CssPropColumnRuleStyle => 107,
            CssProperty::CssPropColumnRuleWidth => 108,
            CssProperty::CssPropColumnSpan => 109,
            CssProperty::CssPropClomumnWidth => 110,
        }
    }
}

/// The property with a given code.
pub open spec fn spec_property_from_uint(code: u32) -> CssProperty
    recommends
        code < CSS_PROPERTY_COUNT,
{
    if code == 0 {
        CssProperty::CssPropAzimuth
    } else if code == 1 {
        CssProperty::CssPropBackgroundAttachment
    } else if code == 2 {
        CssProperty::CssPropBackgroundColor
    } else if code == 3 {
        CssProperty::CssPropBackgroundImage
    } else if code == 4 {
        CssProperty::CssPropBackgroundPosition
    } else if code == 5 {
        CssProperty::CssPropBackgroundRepeat
    } else if code == 6 {
        CssProperty::CssPropBorderCollapse
    } else if code == 7 {
        CssProperty::CssPropBorderSpacing
    } else if code == 8 {
        CssProperty::CssPropBorderTopColor
    } else if code == 9 {
        CssProperty::CssPropBorderRightColor
    } else if code == 10 {
        CssProperty::CssPropBorderBottomColor
    } else if code == 11 {
        CssProperty::CssPropBorderLeftColor
    } else if code == 12 {
        CssProperty::CssPropBorderTopStyle
    } else if code == 13 {
        CssProperty::CssPropBorderRightStyle
    } else if code == 14 {
        CssProperty::CssPropBorderBottomStyle
    } else if code == 15 {
        CssProperty::CssPropBorderLeftStyle
    } else if code == 16 {
        CssProperty::CssPropBorderTopWidth
    } else if code == 17 {
        CssProperty::CssPropBorderRightWidth
    } else if code == 18 {
        CssProperty::CssPropBorderBottomWidth
    } else if code == 19 {
        CssProperty::CssPropBorderLeftWidth
    } else if code == 20 {
        CssProperty::CssPropBottom
    } else if code == 21 {
        CssProperty::CssPropCaptionSide
    } else if code == 22 {
        CssProperty::CssPropClear
    } else if code == 23 {
        CssProperty::CssPropClip
    } else if code == 24 {
        CssProperty::CssPropColor
    } else if code == 25 {
        CssProperty::CssPropContent
    } else if code == 26 {
        CssProperty::CssPropCounterIncrement
    } else if code == 27 {
        CssProperty::CssPropCounterReset
    } else if code == 28 {
        CssProperty::CssPropCueAfter
    } else if code == 29 {
        CssProperty::CssPropCueBefore
    } else if code == 30 {
        CssProperty::CssPropCursor
    } else if code == 31 {
        CssProperty::CssPropDirection
    } else if code == 32 {
        CssProperty::CssPropDisplay
    } else if code == 33 {
        CssProperty::CssPropElevation
    } else if code == 34 {
        CssProperty::CssPropEmptyCells
    } else if code == 35 {
        CssProperty::CssPropFloat
    } else if code == 36 {
        CssProperty::CssPropFontFamily
    } else if code == 37 {
        CssProperty::CssPropFontSize
    } else if code == 38 {
        CssProperty::CssPropFontStyle
    } else if code == 39 {
        CssProperty::CssPropFontVariant
    } else if code == 40 {
        CssProperty::CssPropFontWeight
    } else if code == 41 {
        CssProperty::CssPropHeight
    } else if code == 42 {
        CssProperty::CssPropLeft
    } else if code == 43 {
        CssProperty::CssPropLetterSpacing
    } else if code == 44 {
        CssProperty::CssPropLineHeight
    } else if code == 45 {
        CssProperty::CssPropListStyleImage
    } else if code == 46 {
        CssProperty::CssPropListStylePosition
    } else if code == 47 {
        CssProperty::CssPropListStyleType
    } else if code == 48 {
        CssProperty::CssPropMarginTop
    } else if code == 49 {
        CssProperty::CssPropMarginRight
    } else if code == 50 {
        CssProperty::CssPropMarginBottom
    } else if code == 51 {
        CssProperty::CssPropMarginLeft
    } else if code == 52 {
        CssProperty::CssPropMaxHeight
    } else if code == 53 {
        CssProperty::CssPropMaxWidth
    } else if code == 54 {
        CssProperty::CssPropMinHeight
    } else if code == 55 {
        CssProperty::CssPropMinWidth
    } else if code == 56 {
        CssProperty::CssPropOrphans
    } else if code == 57 {
        CssProperty::CssPropOutlineColor
    } else if code == 58 {
        CssProperty::CssPropOutlineStyle
    } else if code == 59 {
        CssProperty::CssPropOutlineWidth
    } else if code == 60 {
        CssProperty::CssPropOverflow
    } else if code == 61 {
        CssProperty::CssPropPaddingTop
    } else if code == 62 {
        CssProperty::CssPropPaddingRight
    } else if code == 63 {
        CssProperty::CssPropPaddingBottom
    } else if code == 64 {
        CssProperty::CssPropPaddingLeft
    } else if code == 65 {
        CssProperty::CssPropPageBreakAfter
    } else if code == 66 {
        CssProperty::CssPropPageBreakBefore
    } else if code == 67 {
        CssProperty::CssPropPageBreakInside
    } else if code == 68 {
        CssProperty::CssPropPauseAfter
    } else if code == 69 {
        CssProperty::CssPropPauseBefore
    } else if code == 70 {
        CssProperty::CssPropPitchRange
    } else if code == 71 {
        CssProperty::CssPropPitch
    } else if code == 72 {
        CssProperty::CssPropPlayDuring
    } else if code == 73 {
        CssProperty::CssPropPosition
    } else if code == 74 {
        CssProperty::CssPropQuotes
    } else if code == 75 {
        CssProperty::CssPropRichness
    } else if code == 76 {
        CssProperty::CssPropRight
    } else if code == 77 {
        CssProperty::CssPropSpeakHeader
    } else if code == 78 {
        CssProperty::CssPropSpeakNumeral
    } else if code == 79 {
        CssProperty::CssPropSpeakPunctuation
    } else if code == 80 {
        CssProperty::CssPropSpeak
    } else if code == 81 {
        CssProperty::CssPropSpeechRate
    } else if code == 82 {
        CssProperty::CssPropStress
    } else if code == 83 {
        CssProperty::CssPropTableLayout
    } else if code == 84 {
        CssProperty::CssPropTextAlign
    } else if code == 85 {
        CssProperty::CssPropTextDecoration
    } else if code == 86 {
        CssProperty::CssPropTextIndent
    } else if code == 87 {
        CssProperty::CssPropTextTransform
    } else if code == 88 {
        CssProperty::CssPropTop
    } else if code == 89 {
        CssProperty::CssPropUnicodeBidi
    } else if code == 90 {
        CssProperty::CssPropVerticalAlign
    } else if code == 91 {
        CssProperty::CssPropVisibility
    } else if code == 92 {
        CssProperty::CssPropVoiceFamily
    } else if code == 93 {
        CssProperty::CssPropVolume
    } else if code == 94 {
        CssProperty::CssPropWhiteSpace
    } else if code == 95 {
        CssProperty::CssPropWidows
    } else if code == 96 {
        CssProperty::CssPropWidth
    } else if code == 97 {
        CssProperty::CssPropWordSpacing
    } else if code == 98 {
        CssProperty::CssPropZIndex
    } else if code == 99 {
        CssProperty::CssPropOpacity
    } else if code == 100 {
        CssProperty::CssPropBreakAfter
    } else if code == 101 {
        CssProperty::CssPropBreakBefore
    } else if code == 102 {
        CssProperty::CssPropBreakInside
    } else if code == 103 {
        CssProperty::CssPropColumnCount
    } else if code == 104 {
        CssProperty::CssPropColumnFill
    } else if code == 105 {
        CssProperty::CssPropColumnGap
    } else if code == 106 {
        CssProperty::CssPropColumnRuleColor
    } else if code == 107 {
        CssProperty::CssPropColumnRuleStyle
    } else if code == 108 {
        CssProperty::CssPropColumnRuleWidth
    } else if code == 109 {
        CssProperty::CssPropColumnSpan
    } else {
        CssProperty::CssPropClomumnWidth
    }
}

/// The property with a given code, which must name one.
pub fn property_from_uint(code: u32) -> (r: CssProperty)
    requires
        code < CSS_PROPERTY_COUNT,
    ensures
        r == spec_property_from_uint(code),
        r.spec_code() == code,
{
    if code == 0 {
        CssProperty::CssPropAzimuth
    } else if code == 1 {
        CssProperty::CssPropBackgroundAttachment
    } else if code == 2 {
        CssProperty::CssPropBackgroundColor
    } else if code == 3 {
        CssProperty::CssPropBackgroundImage
    } else if code == 4 {
        CssProperty::CssPropBackgroundPosition
    } else if code == 5 {
        CssProperty::CssPropBackgroundRepeat
    } else if code == 6 {
        CssProperty::CssPropBorderCollapse
    } else if code == 7 {
        CssProperty::CssPropBorderSpacing
    } else if code == 8 {
        CssProperty::CssPropBorderTopColor
    } else if code == 9 {
        CssProperty::CssPropBorderRightColor
    } else if code == 10 {
        CssProperty::CssPropBorderBottomColor
    } else if code == 11 {
        CssProperty::CssPropBorderLeftColor
    } else if code == 12 {
        CssProperty::CssPropBorderTopStyle
    } else if code == 13 {
        CssProperty::CssPropBorderRightStyle
    } else if code == 14 {
        CssProperty::CssPropBorderBottomStyle
    } else if code == 15 {
        CssProperty::CssPropBorderLeftStyle
    } else if code == 16 {
        CssProperty::CssPropBorderTopWidth
    } else if code == 17 {
        CssProperty::CssPropBorderRightWidth
    } else if code == 18 {
        CssProperty::CssPropBorderBottomWidth
    } else if code == 19 {
        CssProperty::CssPropBorderLeftWidth
    } else if code == 20 {
        CssProperty::CssPropBottom
    } else if code == 21 {
        CssProperty::CssPropCaptionSide
    } else if code == 22 {
        CssProperty::CssPropClear
    } else if code == 23 {
        CssProperty::CssPropClip
    } else if code == 24 {
        CssProperty::CssPropColor
    } else if code == 25 {
        CssProperty::CssPropContent
    } else if code == 26 {
        CssProperty::CssPropCounterIncrement
    } else if code == 27 {
        CssProperty::CssPropCounterReset
    } else if code == 28 {
        CssProperty::CssPropCueAfter
    } else if code == 29 {
        CssProperty::CssPropCueBefore
    } else if code == 30 {
        CssProperty::CssPropCursor
    } else if code == 31 {
        CssProperty::CssPropDirection
    } else if code == 32 {
        CssProperty::CssPropDisplay
    } else if code == 33 {
        CssProperty::CssPropElevation
    } else if code == 34 {
        CssProperty::CssPropEmptyCells
    } else if code == 35 {
        CssProperty::CssPropFloat
    } else if code == 36 {
        CssProperty::CssPropFontFamily
    } else if code == 37 {
        CssProperty::CssPropFontSize
    } else if code == 38 {
        CssProperty::CssPropFontStyle
    } else if code == 39 {
        CssProperty::CssPropFontVariant
    } else if code == 40 {
        CssProperty::CssPropFontWeight
    } else if code == 41 {
        CssProperty::CssPropHeight
    } else if code == 42 {
        CssProperty::CssPropLeft
    } else if code == 43 {
        CssProperty::CssPropLetterSpacing
    } else if code == 44 {
        CssProperty::CssPropLineHeight
    } else if code == 45 {
        CssProperty::CssPropListStyleImage
    } else if code == 46 {
        CssProperty::CssPropListStylePosition
    } else if code == 47 {
        CssProperty::CssPropListStyleType
    } else if code == 48 {
        CssProperty::CssPropMarginTop
    } else if code == 49 {
        CssProperty::CssPropMarginRight
    } else if code == 50 {
        CssProperty::CssPropMarginBottom
    } else if code == 51 {
        CssProperty::CssPropMarginLeft
    } else if code == 52 {
        CssProperty::CssPropMaxHeight
    } else if code == 53 {
        CssProperty::CssPropMaxWidth
    } else if code == 54 {
        CssProperty::CssPropMinHeight
    } else if code == 55 {
        CssProperty::CssPropMinWidth
    } else if code == 56 {
        CssProperty::CssPropOrphans
    } else if code == 57 {
        CssProperty::CssPropOutlineColor
    } else if code == 58 {
        CssProperty::CssPropOutlineStyle
    } else if code == 59 {
        CssProperty::CssPropOutlineWidth
    } else if code == 60 {
        CssProperty::CssPropOverflow
    } else if code == 61 {
        CssProperty::CssPropPaddingTop
    } else if code == 62 {
        CssProperty::CssPropPaddingRight
    } else if code == 63 {
        CssProperty::CssPropPaddingBottom
    } else if code == 64 {
        CssProperty::CssPropPaddingLeft
    } else if code == 65 {
        CssProperty::CssPropPageBreakAfter
    } else if code == 66 {
        CssProperty::CssPropPageBreakBefore
    } else if code == 67 {
        CssProperty::CssPropPageBreakInside
    } else if code == 68 {
        CssProperty::CssPropPauseAfter
    } else if code == 69 {
        CssProperty::CssPropPauseBefore
    } else if code == 70 {
        CssProperty::CssPropPitchRange
    } else if code == 71 {
        CssProperty::CssPropPitch
    } else if code == 72 {
        CssProperty::CssPropPlayDuring
    } else if code == 73 {
        CssProperty::CssPropPosition
    } else if code == 74 {
        CssProperty::CssPropQuotes
    } else if code == 75 {
        CssProperty::CssPropRichness
    } else if code == 76 {
        CssProperty::CssPropRight
    } else if code == 77 {
        CssProperty::CssPropSpeakHeader
    } else if code == 78 {
        CssProperty::CssPropSpeakNumeral
    } else if code == 79 {
        CssProperty::CssPropSpeakPunctuation
    } else if code == 80 {
        CssProperty::CssPropSpeak
    } else if code == 81 {
        CssProperty::CssPropSpeechRate
    } else if code == 82 {
        CssProperty::CssPropStress
    } else if code == 83 {
        CssProperty::CssPropTableLayout
    } else if code == 84 {
        CssProperty::CssPropTextAlign
    } else if code == 85 {
        CssProperty::CssPropTextDecoration
    } else if code == 86 {
        CssProperty::CssPropTextIndent
    } else if code == 87 {
        CssProperty::CssPropTextTransform
    } else if code == 88 {
        CssProperty::CssPropTop
    } else if code == 89 {
        CssProperty::CssPropUnicodeBidi
    } else if code == 90 {
        CssProperty::CssPropVerticalAlign
    } else if code == 91 {
        CssProperty::CssPropVisibility
    } else if code == 92 {
        CssProperty::CssPropVoiceFamily
    } else if code == 93 {
        CssProperty::CssPropVolume
    } else if code == 94 {
        CssProperty::CssPropWhiteSpace
    } else if code == 95 {
        CssProperty::CssPropWidows
    } else if code == 96 {
        CssProperty::CssPropWidth
    } else if code == 97 {
        CssProperty::CssPropWordSpacing
    } else if code == 98 {
        CssProperty::CssPropZIndex
    } else if code == 99 {
        CssProperty::CssPropOpacity
    } else if code == 100 {
        CssProperty::CssPropBreakAfter
    } else if code == 101 {
        CssProperty::CssPropBreakBefore
    } else if code == 102 {
        CssProperty::CssPropBreakInside
    } else if code == 103 {
        CssProperty::CssPropColumnCount
    } else if code == 104 {
        CssProperty::CssPropColumnFill
    } else if code == 105 {
        CssProperty::CssPropColumnGap
    } else if code == 106 {
        CssProperty::CssPropColumnRuleColor
    } else if code == 107 {
        CssProperty::CssPropColumnRuleStyle
    } else if code == 108 {
        CssProperty::CssPropColumnRuleWidth
    } else if code == 109 {
        CssProperty::CssPropColumnSpan
    } else {
        CssProperty::CssPropClomumnWidth
    }
}

/// Decoding the code of a property gives the property back.
pub proof fn lemma_property_code_round_trip(p: CssProperty)
    ensures
        p.spec_code() < CSS_PROPERTY_COUNT,
        spec_property_from_uint(p.spec_code()) == p,
{
}

/// The medium font size, 16px, in fixed point.
pub const MEDIUM_FONT_SIZE: css_fixed = 16384;

/// A value that a declaration gives to a property, or that a computed style
/// holds.
#[derive(Clone, Copy, Debug, PartialEq, Eq, Structural)]
pub enum CssValue {
    /// Take the parent's computed value.
    Inherit,
    Auto,
    /// One of the property's enumerated keywords, by its code.
    Keyword(u32),
    Color(CssColor),
    Dimension(CssUnit),
    Number(css_fixed),
    /// A name, such as a font family or a URL, as an interned atom.
    Ident(Atom),
}

/// A value that a node or the user agent supplies for a property, outside
/// any stylesheet.
#[derive(Clone, Debug)]
pub enum CssHint {
    /// A font family: the named families, then the generic one.
    CssHintFontFamily(Vec<Atom>, CssFontFamily),
    /// The user agent's default for the property.
    CssHintDefault,
    /// No hint is known for the property.
    CssHintUnknown,
}

impl CssHint {
    /// The value a hint gives a property, if the pair is one the engine
    /// handles: a generic font family for `font-family`, and the defaults of
    /// `font-family` (sans-serif), `quotes` (none) and `color` (opaque
    /// black). Any other pair is refused with `CssInvalid`.
    pub open spec fn spec_value_for(&self, property: CssProperty) -> Result<CssValue, CssError> {
        match (property, self) {
            (CssProperty::CssPropFontFamily, CssHint::CssHintFontFamily(_, f)) => Ok(
                CssValue::Keyword(f.spec_code()),
            ),
            (CssProperty::CssPropFontFamily, CssHint::CssHintDefault) => Ok(
                CssValue::Keyword(CssFontFamily::CssFontFamilySansSerif.spec_code()),
            ),
            (CssProperty::CssPropQuotes, CssHint::CssHintDefault) => Ok(
                CssValue::Keyword(CssQuotes::CssQuotesNone.spec_code()),
            ),
            (CssProperty::CssPropColor, CssHint::CssHintDefault) => Ok(
                CssValue::Color(CssColor { a: 255, r: 0, g: 0, b: 0 }),
            ),
            _ => Err(CssError::CssInvalid),
        }
    }

    /// The initial value of a property whose initial value the user agent
    /// chooses, given the user agent's hint: the hint's value, or the
    /// property's own initial value where the hint gives none.
    pub open spec fn spec_ua_initial(&self, property: CssProperty) -> CssValue {
        match self.spec_value_for(property) {
            Ok(v) => v,
            Err(_) => property.spec_initial_value(),
        }
    }

    /// The initial value a user-agent hint gives a property; see
    /// `spec_ua_initial`.
    pub fn ua_initial(&self, property: CssProperty) -> (r: CssValue)
        ensures
            r == self.spec_ua_initial(property),
    {
        match self.value_for(property) {
            Ok(v) => v,
            Err(_) => property.initial_value(),
        }
    }

    /// The value the hint gives a property; see `spec_value_for`.
    pub fn value_for(&self, property: CssProperty) -> (r: Result<CssValue, CssError>)
        ensures
            r == self.spec_value_for(property),
    {
        match (property, self) {
            (CssProperty::CssPropFontFamily, CssHint::CssHintFontFamily(_, f)) => {
                let code: u32 = match *f {
                    CssFontFamily::CssFontFamilyInherit => 0,
                    CssFontFamily::CssFontFamilySerif => 1,
                    CssFontFamily::CssFontFamilySansSerif => 2,
                    CssFontFamily::CssFontFamilyCursive => 3,
                    CssFontFamily::CssFontFamilyFantasy => 4,
                    CssFontFamily::CssFontFamilyMonospace => 5,
                };
                Ok(CssValue::Keyword(code))
            },
            (CssProperty::CssPropFontFamily, CssHint::CssHintDefault) => Ok(CssValue::Keyword(2)),
            (CssProperty::CssPropQuotes, CssHint::CssHintDefault) => Ok(CssValue::Keyword(2)),
            (CssProperty::CssPropColor, CssHint::CssHintDefault) => Ok(
                CssValue::Color(CssColor { a: 255, r: 0, g: 0, b: 0 }),
            ),
            _ => Err(CssError::CssInvalid),
        }
    }
}

} // verus!
