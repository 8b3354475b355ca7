//! Character property tables: the word break category of a character, its
//! Extended_Pictographic property, and the range lookup that reads them.
use vstd::prelude::*;
use crate::ascii_rules::{is_digit_byte, is_alpha_byte};

verus! {

/// The Word_Break property values that the segmentation rules distinguish.
#[allow(non_camel_case_types)]
#[derive(Clone, Copy, Debug, PartialEq, Eq, Structural)]
pub enum WordCat {
    WC_Any,
    WC_ALetter,
    WC_CR,
    WC_Double_Quote,
    WC_Extend,
    WC_ExtendNumLet,
    WC_Format,
    WC_Hebrew_Letter,
    WC_Katakana,
    WC_LF,
    WC_MidLetter,
    WC_MidNum,
    WC_MidNumLet,
    WC_Newline,
    WC_Numeric,
    WC_Regional_Indicator,
    WC_Single_Quote,
    WC_WSegSpace,
    WC_ZWJ,
}

/// The emoji property values that the segmentation rules distinguish.
#[allow(non_camel_case_types)]
#[derive(Clone, Copy, Debug, PartialEq, Eq, Structural)]
pub enum EmojiCat {
    EC_Any,
    EC_Extended_Pictographic,
}

/// Word break categories by code point range, sorted and disjoint, from the
/// Word_Break property of the Unicode Character Database (version 17.0),
/// with adjacent ranges of one category merged; a code point that no range
/// holds is `WC_Any`.
pub const WORD_CAT_TABLE: [(u32, u32, WordCat); 1100] = [
    (0xA, 0xA, WordCat::WC_LF),
    (0xB, 0xC, WordCat::WC_Newline),
    (0xD, 0xD, WordCat::WC_CR),
    (0x20, 0x20, WordCat::WC_WSegSpace),
    (0x22, 0x22, WordCat::WC_Double_Quote),
    (0x27, 0x27, WordCat::WC_Single_Quote),
    (0x2C, 0x2C, WordCat::WC_MidNum),
    (0x2E, 0x2E, WordCat::WC_MidNumLet),
    (0x30, 0x39, WordCat::WC_Numeric),
    (0x3A, 0x3A, WordCat::WC_MidLetter),
    (0x3B, 0x3B, WordCat::WC_MidNum),
    (0x41, 0x5A, WordCat::WC_ALetter),
    (0x5F, 0x5F, WordCat::WC_ExtendNumLet),
    (0x61, 0x7A, WordCat::WC_ALetter),
    (0x85, 0x85, WordCat::WC_Newline),
    (0xAA, 0xAA, WordCat::WC_ALetter),
    (0xAD, 0xAD, WordCat::WC_Format),
    (0xB5, 0xB5, WordCat::WC_ALetter),
    (0xB7, 0xB7, WordCat::WC_MidLetter),
    (0xB8, 0xB8, WordCat::WC_ALetter),
    (0xBA, 0xBA, WordCat::WC_ALetter),
    (0xC0, 0xD6, WordCat::WC_ALetter),
    (0xD8, 0xF6, WordCat::WC_ALetter),
    (0xF8, 0x2D7, WordCat::WC_ALetter),
    (0x2DE, 0x2FF, WordCat::WC_ALetter),
    (0x300, 0x36F, WordCat::WC_Extend),
    (0x370, 0x374, WordCat::WC_ALetter),
    (0x376, 0x377, WordCat::WC_ALetter),
    (0x37A, 0x37D, WordCat::WC_ALetter),
    (0x37E, 0x37E, WordCat::WC_MidNum),
    (0x37F, 0x37F, WordCat::WC_ALetter),
    (0x386, 0x386, WordCat::WC_ALetter),
    (0x387, 0x387, WordCat::WC_MidLetter),
    (0x388, 0x38A, WordCat::WC_ALetter),
    (0x38C, 0x38C, WordCat::WC_ALetter),
    (0x38E, 0x3A1, WordCat::WC_ALetter),
    (0x3A3, 0x3F5, WordCat::WC_ALetter),
    (0x3F7, 0x481, WordCat::WC_ALetter),
    (0x483, 0x489, WordCat::WC_Extend),
    (0x48A, 0x52F, WordCat::WC_ALetter),
    (0x531, 0x556, WordCat::WC_ALetter),
    (0x559, 0x55C, WordCat::WC_ALetter),
    (0x55E, 0x55E, WordCat::WC_ALetter),
    (0x55F, 0x55F, WordCat::WC_MidLetter),
    (0x560, 0x588, WordCat::WC_ALetter),
    (0x589, 0x589, WordCat::WC_MidNum),
    (0x58A, 0x58A, WordCat::WC_ALetter),
    (0x591, 0x5BD, WordCat::WC_Extend),
    (0x5BF, 0x5BF, WordCat::WC_Extend),
    (0x5C1, 0x5C2, WordCat::WC_Extend),
    (0x5C4, 0x5C5, WordCat::WC_Extend),
    (0x5C7, 0x5C7, WordCat::WC_Extend),
    (0x5D0, 0x5EA, WordCat::WC_Hebrew_Letter),
    (0x5EF, 0x5F2, WordCat::WC_Hebrew_Letter),
    (0x5F3, 0x5F3, WordCat::WC_ALetter),
    (0x5F4, 0x5F4, WordCat::WC_MidLetter),
    (0x600, 0x605, WordCat::WC_Numeric),
    (0x60C, 0x60D, WordCat::WC_MidNum),
    (0x610, 0x61A, WordCat::WC_Extend),
    (0x61C, 0x61C, WordCat::WC_Format),
    (0x620, 0x64A, WordCat::WC_ALetter),
    (0x64B, 0x65F, WordCat::WC_Extend),
    (0x660, 0x669, WordCat::WC_Numeric),
    (0x66B, 0x66B, WordCat::WC_Numeric),
    (0x66C, 0x66C, WordCat::WC_MidNum),
    (0x66E, 0x66F, WordCat::WC_ALetter),
    (0x670, 0x670, WordCat::WC_Extend),
    (0x671, 0x6D3, WordCat::WC_ALetter),
    (0x6D5, 0x6D5, WordCat::WC_ALetter),
    (0x6D6, 0x6DC, WordCat::WC_Extend),
    (0x6DD, 0x6DD, WordCat::WC_Numeric),
    (0x6DF, 0x6E4, WordCat::WC_Extend),
    (0x6E5, 0x6E6, WordCat::WC_ALetter),
    (0x6E7, 0x6E8, WordCat::WC_Extend),
    (0x6EA, 0x6ED, WordCat::WC_Extend),
    (0x6EE, 0x6EF, WordCat::WC_ALetter),
    (0x6F0, 0x6F9, WordCat::WC_Numeric),
    (0x6FA, 0x6FC, WordCat::WC_ALetter),
    (0x6FF, 0x6FF, WordCat::WC_ALetter),
    (0x70F, 0x710, WordCat::WC_ALetter),
    (0x711, 0x711, WordCat::WC_Extend),
    (0x712, 0x72F, WordCat::WC_ALetter),
    (0x730, 0x74A, WordCat::WC_Extend),
    (0x74D, 0x7A5, WordCat::WC_ALetter),
    (0x7A6, 0x7B0, WordCat::WC_Extend),
    (0x7B1, 0x7B1, WordCat::WC_ALetter),
    (0x7C0, 0x7C9, WordCat::WC_Numeric),
    (0x7CA, 0x7EA, WordCat::WC_ALetter),
    (0x7EB, 0x7F3, WordCat::WC_Extend),
    (0x7F4, 0x7F5, WordCat::WC_ALetter),
    (0x7F8, 0x7F8, WordCat::WC_MidNum),
    (0x7FA, 0x7FA, WordCat::WC_ALetter),
    (0x7FD, 0x7FD, WordCat::WC_Extend),
    (0x800, 0x815, WordCat::WC_ALetter),
    (0x816, 0x819, WordCat::WC_Extend),
    (0x81A, 0x81A, WordCat::WC_ALetter),
    (0x81B, 0x823, WordCat::WC_Extend),
    (0x824, 0x824, WordCat::WC_ALetter),
    (0x825, 0x827, WordCat::WC_Extend),
    (0x828, 0x828, WordCat::WC_ALetter),
    (0x829, 0x82D, WordCat::WC_Extend),
    (0x840, 0x858, WordCat::WC_ALetter),
    (0x859, 0x85B, WordCat::WC_Extend),
    (0x860, 0x86A, WordCat::WC_ALetter),
    (0x870, 0x887, WordCat::WC_ALetter),
    (0x889, 0x88F, WordCat::WC_ALetter),
    (0x890, 0x891, WordCat::WC_Numeric),
    (0x897, 0x89F, WordCat::WC_Extend),
    (0x8A0, 0x8C9, WordCat::WC_ALetter),
    (0x8CA, 0x8E1, WordCat::WC_Extend),
    (0x8E2, 0x8E2, WordCat::WC_Numeric),
    (0x8E3, 0x903, WordCat::WC_Extend),
    (0x904, 0x939, WordCat::WC_ALetter),
    (0x93A, 0x93C, WordCat::WC_Extend),
    (0x93D, 0x93D, WordCat::WC_ALetter),
    (0x93E, 0x94F, WordCat::WC_Extend),
    (0x950, 0x950, WordCat::WC_ALetter),
    (0x951, 0x957, WordCat::WC_Extend),
    (0x958, 0x961, WordCat::WC_ALetter),
    (0x962, 0x963, WordCat::WC_Extend),
    (0x966, 0x96F, WordCat::WC_Numeric),
    (0x971, 0x980, WordCat::WC_ALetter),
    (0x981, 0x983, WordCat::WC_Extend),
    (0x985, 0x98C, WordCat::WC_ALetter),
    (0x98F, 0x990, WordCat::WC_ALetter),
    (0x993, 0x9A8, WordCat::WC_ALetter),
    (0x9AA, 0x9B0, WordCat::WC_ALetter),
    (0x9B2, 0x9B2, WordCat::WC_ALetter),
    (0x9B6, 0x9B9, WordCat::WC_ALetter),
    (0x9BC, 0x9BC, WordCat::WC_Extend),
    (0x9BD, 0x9BD, WordCat::WC_ALetter),
    (0x9BE, 0x9C4, WordCat::WC_Extend),
    (0x9C7, 0x9C8, WordCat::WC_Extend),
    (0x9CB, 0x9CD, WordCat::WC_Extend),
    (0x9CE, 0x9CE, WordCat::WC_ALetter),
    (0x9D7, 0x9D7, WordCat::WC_Extend),
    (0x9DC, 0x9DD, WordCat::WC_ALetter),
    (0x9DF, 0x9E1, WordCat::WC_ALetter),
    (0x9E2, 0x9E3, WordCat::WC_Extend),
    (0x9E6, 0x9EF, WordCat::WC_Numeric),
    (0x9F0, 0x9F1, WordCat::WC_ALetter),
    (0x9FC, 0x9FC, WordCat::WC_ALetter),
    (0x9FE, 0x9FE, WordCat::WC_Extend),
    (0xA01, 0xA03, WordCat::WC_Extend),
    (0xA05, 0xA0A, WordCat::WC_ALetter),
    (0xA0F, 0xA10, WordCat::WC_ALetter),
    (0xA13, 0xA28, WordCat::WC_ALetter),
    (0xA2A, 0xA30, WordCat::WC_ALetter),
    (0xA32, 0xA33, WordCat::WC_ALetter),
    (0xA35, 0xA36, WordCat::WC_ALetter),
    (0xA38, 0xA39, WordCat::WC_ALetter),
    (0xA3C, 0xA3C, WordCat::WC_Extend),
    (0xA3E, 0xA42, WordCat::WC_Extend),
    (0xA47, 0xA48, WordCat::WC_Extend),
    (0xA4B, 0xA4D, WordCat::WC_Extend),
    (0xA51, 0xA51, WordCat::WC_Extend),
    (0xA59, 0xA5C, WordCat::WC_ALetter),
    (0xA5E, 0xA5E, WordCat::WC_ALetter),
    (0xA66, 0xA6F, WordCat::WC_Numeric),
    (0xA70, 0xA71, WordCat::WC_Extend),
    (0xA72, 0xA74, WordCat::WC_ALetter),
    (0xA75, 0xA75, WordCat::WC_Extend),
    (0xA81, 0xA83, WordCat::WC_Extend),
    (0xA85, 0xA8D, WordCat::WC_ALetter),
    (0xA8F, 0xA91, WordCat::WC_ALetter),
    (0xA93, 0xAA8, WordCat::WC_ALetter),
    (0xAAA, 0xAB0, WordCat::WC_ALetter),
    (0xAB2, 0xAB3, WordCat::WC_ALetter),
    (0xAB5, 0xAB9, WordCat::WC_ALetter),
    (0xABC, 0xABC, WordCat::WC_Extend),
    (0xABD, 0xABD, WordCat::WC_ALetter),
    (0xABE, 0xAC5, WordCat::WC_Extend),
    (0xAC7, 0xAC9, WordCat::WC_Extend),
    (0xACB, 0xACD, WordCat::WC_Extend),
    (0xAD0, 0xAD0, WordCat::WC_ALetter),
    (0xAE0, 0xAE1, WordCat::WC_ALetter),
    (0xAE2, 0xAE3, WordCat::WC_Extend),
    (0xAE6, 0xAEF, WordCat::WC_Numeric),
    (0xAF9, 0xAF9, WordCat::WC_ALetter),
    (0xAFA, 0xAFF, WordCat::WC_Extend),
    (0xB01, 0xB03, WordCat::WC_Extend),
    (0xB05, 0xB0C, WordCat::WC_ALetter),
    (0xB0F, 0xB10, WordCat::WC_ALetter),
    (0xB13, 0xB28, WordCat::WC_ALetter),
    (0xB2A, 0xB30, WordCat::WC_ALetter),
    (0xB32, 0xB33, WordCat::WC_ALetter),
    (0xB35, 0xB39, WordCat::WC_ALetter),
    (0xB3C, 0xB3C, WordCat::WC_Extend),
    (0xB3D, 0xB3D, WordCat::WC_ALetter),
    (0xB3E, 0xB44, WordCat::WC_Extend),
    (0xB47, 0xB48, WordCat::WC_Extend),
    (0xB4B, 0xB4D, WordCat::WC_Extend),
    (0xB55, 0xB57, WordCat::WC_Extend),
    (0xB5C, 0xB5D, WordCat::WC_ALetter),
    (0xB5F, 0xB61, WordCat::WC_ALetter),
    (0xB62, 0xB63, WordCat::WC_Extend),
    (0xB66, 0xB6F, WordCat::WC_Numeric),
    (0xB71, 0xB71, WordCat::WC_ALetter),
    (0xB82, 0xB82, WordCat::WC_Extend),
    (0xB83, 0xB83, WordCat::WC_ALetter),
    (0xB85, 0xB8A, WordCat::WC_ALetter),
    (0xB8E, 0xB90, WordCat::WC_ALetter),
    (0xB92, 0xB95, WordCat::WC_ALetter),
    (0xB99, 0xB9A, WordCat::WC_ALetter),
    (0xB9C, 0xB9C, WordCat::WC_ALetter),
    (0xB9E, 0xB9F, WordCat::WC_ALetter),
    (0xBA3, 0xBA4, WordCat::WC_ALetter),
    (0xBA8, 0xBAA, WordCat::WC_ALetter),
    (0xBAE, 0xBB9, WordCat::WC_ALetter),
    (0xBBE, 0xBC2, WordCat::WC_Extend),
    (0xBC6, 0xBC8, WordCat::WC_Extend),
    (0xBCA, 0xBCD, WordCat::WC_Extend),
    (0xBD0, 0xBD0, WordCat::WC_ALetter),
    (0xBD7, 0xBD7, WordCat::WC_Extend),
    (0xBE6, 0xBEF, WordCat::WC_Numeric),
    (0xC00, 0xC04, WordCat::WC_Extend),
    (0xC05, 0xC0C, WordCat::WC_ALetter),
    (0xC0E, 0xC10, WordCat::WC_ALetter),
    (0xC12, 0xC28, WordCat::WC_ALetter),
    (0xC2A, 0xC39, WordCat::WC_ALetter),
    (0xC3C, 0xC3C, WordCat::WC_Extend),
    (0xC3D, 0xC3D, WordCat::WC_ALetter),
    (0xC3E, 0xC44, WordCat::WC_Extend),
    (0xC46, 0xC48, WordCat::WC_Extend),
    (0xC4A, 0xC4D, WordCat::WC_Extend),
    (0xC55, 0xC56, WordCat::WC_Extend),
    (0xC58, 0xC5A, WordCat::WC_ALetter),
    (0xC5C, 0xC5D, WordCat::WC_ALetter),
    (0xC60, 0xC61, WordCat::WC_ALetter),
    (0xC62, 0xC63, WordCat::WC_Extend),
    (0xC66, 0xC6F, WordCat::WC_Numeric),
    (0xC80, 0xC80, WordCat::WC_ALetter),
    (0xC81, 0xC83, WordCat::WC_Extend),
    (0xC85, 0xC8C, WordCat::WC_ALetter),
    (0xC8E, 0xC90, WordCat::WC_ALetter),
    (0xC92, 0xCA8, WordCat::WC_ALetter),
    (0xCAA, 0xCB3, WordCat::WC_ALetter),
    (0xCB5, 0xCB9, WordCat::WC_ALetter),
    (0xCBC, 0xCBC, WordCat::WC_Extend),
    (0xCBD, 0xCBD, WordCat::WC_ALetter),
    (0xCBE, 0xCC4, WordCat::WC_Extend),
    (0xCC6, 0xCC8, WordCat::WC_Extend),
    (0xCCA, 0xCCD, WordCat::WC_Extend),
    (0xCD5, 0xCD6, WordCat::WC_Extend),
    (0xCDC, 0xCDE, WordCat::WC_ALetter),
    (0xCE0, 0xCE1, WordCat::WC_ALetter),
    (0xCE2, 0xCE3, WordCat::WC_Extend),
    (0xCE6, 0xCEF, WordCat::WC_Numeric),
    (0xCF1, 0xCF2, WordCat::WC_ALetter),
    (0xCF3, 0xCF3, WordCat::WC_Extend),
    (0xD00, 0xD03, WordCat::WC_Extend),
    (0xD04, 0xD0C, WordCat::WC_ALetter),
    (0xD0E, 0xD10, WordCat::WC_ALetter),
    (0xD12, 0xD3A, WordCat::WC_ALetter),
    (0xD3B, 0xD3C, WordCat::WC_Extend),
    (0xD3D, 0xD3D, WordCat::WC_ALetter),
    (0xD3E, 0xD44, WordCat::WC_Extend),
    (0xD46, 0xD48, WordCat::WC_Extend),
    (0xD4A, 0xD4D, WordCat::WC_Extend),
    (0xD4E, 0xD4E, WordCat::WC_ALetter),
    (0xD54, 0xD56, WordCat::WC_ALetter),
    (0xD57, 0xD57, WordCat::WC_Extend),
    (0xD5F, 0xD61, WordCat::WC_ALetter),
    (0xD62, 0xD63, WordCat::WC_Extend),
    (0xD66, 0xD6F, WordCat::WC_Numeric),
    (0xD7A, 0xD7F, WordCat::WC_ALetter),
    (0xD81, 0xD83, WordCat::WC_Extend),
    (0xD85, 0xD96, WordCat::WC_ALetter),
    (0xD9A, 0xDB1, WordCat::WC_ALetter),
    (0xDB3, 0xDBB, WordCat::WC_ALetter),
    (0xDBD, 0xDBD, WordCat::WC_ALetter),
    (0xDC0, 0xDC6, WordCat::WC_ALetter),
    (0xDCA, 0xDCA, WordCat::WC_Extend),
    (0xDCF, 0xDD4, WordCat::WC_Extend),
    (0xDD6, 0xDD6, WordCat::WC_Extend),
    (0xDD8, 0xDDF, WordCat::WC_Extend),
    (0xDE6, 0xDEF, WordCat::WC_Numeric),
    (0xDF2, 0xDF3, WordCat::WC_Extend),
    (0xE31, 0xE31, WordCat::WC_Extend),
    (0xE34, 0xE3A, WordCat::WC_Extend),
    (0xE47, 0xE4E, WordCat::WC_Extend),
    (0xE50, 0xE59, WordCat::WC_Numeric),
    (0xEB1, 0xEB1, WordCat::WC_Extend),
    (0xEB4, 0xEBC, WordCat::WC_Extend),
    (0xEC8, 0xECE, WordCat::WC_Extend),
    (0xED0, 0xED9, WordCat::WC_Numeric),
    (0xF00, 0xF00, WordCat::WC_ALetter),
    (0xF18, 0xF19, WordCat::WC_Extend),
    (0xF20, 0xF29, WordCat::WC_Numeric),
    (0xF35, 0xF35, WordCat::WC_Extend),
    (0xF37, 0xF37, WordCat::WC_Extend),
    (0xF39, 0xF39, WordCat::WC_Extend),
    (0xF3E, 0xF3F, WordCat::WC_Extend),
    (0xF40, 0xF47, WordCat::WC_ALetter),
    (0xF49, 0xF6C, WordCat::WC_ALetter),
    (0xF71, 0xF84, WordCat::WC_Extend),
    (0xF86, 0xF87, WordCat::WC_Extend),
    (0xF88, 0xF8C, WordCat::WC_ALetter),
    (0xF8D, 0xF97, WordCat::WC_Extend),
    (0xF99, 0xFBC, WordCat::WC_Extend),
    (0xFC6, 0xFC6, WordCat::WC_Extend),
    (0x102B, 0x103E, WordCat::WC_Extend),
    (0x1040, 0x1049, WordCat::WC_Numeric),
    (0x1056, 0x1059, WordCat::WC_Extend),
    (0x105E, 0x1060, WordCat::WC_Extend),
    (0x1062, 0x1064, WordCat::WC_Extend),
    (0x1067, 0x106D, WordCat::WC_Extend),
    (0x1071, 0x1074, WordCat::WC_Extend),
    (0x1082, 0x108D, WordCat::WC_Extend),
    (0x108F, 0x108F, WordCat::WC_Extend),
    (0x1090, 0x1099, WordCat::WC_Numeric),
    (0x109A, 0x109D, WordCat::WC_Extend),
    (0x10A0, 0x10C5, WordCat::WC_ALetter),
    (0x10C7, 0x10C7, WordCat::WC_ALetter),
    (0x10CD, 0x10CD, WordCat::WC_ALetter),
    (0x10D0, 0x10FA, WordCat::WC_ALetter),
    (0x10FC, 0x1248, WordCat::WC_ALetter),
    (0x124A, 0x124D, WordCat::WC_ALetter),
    (0x1250, 0x1256, WordCat::WC_ALetter),
    (0x1258, 0x1258, WordCat::WC_ALetter),
    (0x125A, 0x125D, WordCat::WC_ALetter),
    (0x1260, 0x1288, WordCat::WC_ALetter),
    (0x128A, 0x128D, WordCat::WC_ALetter),
    (0x1290, 0x12B0, WordCat::WC_ALetter),
    (0x12B2, 0x12B5, WordCat::WC_ALetter),
    (0x12B8, 0x12BE, WordCat::WC_ALetter),
    (0x12C0, 0x12C0, WordCat::WC_ALetter),
    (0x12C2, 0x12C5, WordCat::WC_ALetter),
    (0x12C8, 0x12D6, WordCat::WC_ALetter),
    (0x12D8, 0x1310, WordCat::WC_ALetter),
    (0x1312, 0x1315, WordCat::WC_ALetter),
    (0x1318, 0x135A, WordCat::WC_ALetter),
    (0x135D, 0x135F, WordCat::WC_Extend),
    (0x1380, 0x138F, WordCat::WC_ALetter),
    (0x13A0, 0x13F5, WordCat::WC_ALetter),
    (0x13F8, 0x13FD, WordCat::WC_ALetter),
    (0x1401, 0x166C, WordCat::WC_ALetter),
    (0x166F, 0x167F, WordCat::WC_ALetter),
    (0x1680, 0x1680, WordCat::WC_WSegSpace),
    (0x1681, 0x169A, WordCat::WC_ALetter),
    (0x16A0, 0x16EA, WordCat::WC_ALetter),
    (0x16EE, 0x16F8, WordCat::WC_ALetter),
    (0x1700, 0x1711, WordCat::WC_ALetter),
    (0x1712, 0x1715, WordCat::WC_Extend),
    (0x171F, 0x1731, WordCat::WC_ALetter),
    (0x1732, 0x1734, WordCat::WC_Extend),
    (0x1740, 0x1751, WordCat::WC_ALetter),
    (0x1752, 0x1753, WordCat::WC_Extend),
    (0x1760, 0x176C, WordCat::WC_ALetter),
    (0x176E, 0x1770, WordCat::WC_ALetter),
    (0x1772, 0x1773, WordCat::WC_Extend),
    (0x17B4, 0x17D3, WordCat::WC_Extend),
    (0x17DD, 0x17DD, WordCat::WC_Extend),
    (0x17E0, 0x17E9, WordCat::WC_Numeric),
    (0x180B, 0x180D, WordCat::WC_Extend),
    (0x180E, 0x180E, WordCat::WC_Format),
    (0x180F, 0x180F, WordCat::WC_Extend),
    (0x1810, 0x1819, WordCat::WC_Numeric),
    (0x1820, 0x1878, WordCat::WC_ALetter),
    (0x1880, 0x1884, WordCat::WC_ALetter),
    (0x1885, 0x1886, WordCat::WC_Extend),
    (0x1887, 0x18A8, WordCat::WC_ALetter),
    (0x18A9, 0x18A9, WordCat::WC_Extend),
    (0x18AA, 0x18AA, WordCat::WC_ALetter),
    (0x18B0, 0x18F5, WordCat::WC_ALetter),
    (0x1900, 0x191E, WordCat::WC_ALetter),
    (0x1920, 0x192B, WordCat::WC_Extend),
    (0x1930, 0x193B, WordCat::WC_Extend),
    (0x1946, 0x194F, WordCat::WC_Numeric),
    (0x19D0, 0x19DA, WordCat::WC_Numeric),
    (0x1A00, 0x1A16, WordCat::WC_ALetter),
    (0x1A17, 0x1A1B, WordCat::WC_Extend),
    (0x1A55, 0x1A5E, WordCat::WC_Extend),
    (0x1A60, 0x1A7C, WordCat::WC_Extend),
    (0x1A7F, 0x1A7F, WordCat::WC_Extend),
    (0x1A80, 0x1A89, WordCat::WC_Numeric),
    (0x1A90, 0x1A99, WordCat::WC_Numeric),
    (0x1AB0, 0x1ADD, WordCat::WC_Extend),
    (0x1AE0, 0x1AEB, WordCat::WC_Extend),
    (0x1B00, 0x1B04, WordCat::WC_Extend),
    (0x1B05, 0x1B33, WordCat::WC_ALetter),
    (0x1B34, 0x1B44, WordCat::WC_Extend),
    (0x1B45, 0x1B4C, WordCat::WC_ALetter),
    (0x1B50, 0x1B59, WordCat::WC_Numeric),
    (0x1B6B, 0x1B73, WordCat::WC_Extend),
    (0x1B80, 0x1B82, WordCat::WC_Extend),
    (0x1B83, 0x1BA0, WordCat::WC_ALetter),
    (0x1BA1, 0x1BAD, WordCat::WC_Extend),
    (0x1BAE, 0x1BAF, WordCat::WC_ALetter),
    (0x1BB0, 0x1BB9, WordCat::WC_Numeric),
    (0x1BBA, 0x1BE5, WordCat::WC_ALetter),
    (0x1BE6, 0x1BF3, WordCat::WC_Extend),
    (0x1C00, 0x1C23, WordCat::WC_ALetter),
    (0x1C24, 0x1C37, WordCat::WC_Extend),
    (0x1C40, 0x1C49, WordCat::WC_Numeric),
    (0x1C4D, 0x1C4F, WordCat::WC_ALetter),
    (0x1C50, 0x1C59, WordCat::WC_Numeric),
    (0x1C5A, 0x1C7D, WordCat::WC_ALetter),
    (0x1C80, 0x1C8A, WordCat::WC_ALetter),
    (0x1C90, 0x1CBA, WordCat::WC_ALetter),
    (0x1CBD, 0x1CBF, WordCat::WC_ALetter),
    (0x1CD0, 0x1CD2, WordCat::WC_Extend),
    (0x1CD4, 0x1CE8, WordCat::WC_Extend),
    (0x1CE9, 0x1CEC, WordCat::WC_ALetter),
    (0x1CED, 0x1CED, WordCat::WC_Extend),
    (0x1CEE, 0x1CF3, WordCat::WC_ALetter),
    (0x1CF4, 0x1CF4, WordCat::WC_Extend),
    (0x1CF5, 0x1CF6, WordCat::WC_ALetter),
    (0x1CF7, 0x1CF9, WordCat::WC_Extend),
    (0x1CFA, 0x1CFA, WordCat::WC_ALetter),
    (0x1D00, 0x1DBF, WordCat::WC_ALetter),
    (0x1DC0, 0x1DFF, WordCat::WC_Extend),
    (0x1E00, 0x1F15, WordCat::WC_ALetter),
    (0x1F18, 0x1F1D, WordCat::WC_ALetter),
    (0x1F20, 0x1F45, WordCat::WC_ALetter),
    (0x1F48, 0x1F4D, WordCat::WC_ALetter),
    (0x1F50, 0x1F57, WordCat::WC_ALetter),
    (0x1F59, 0x1F59, WordCat::WC_ALetter),
    (0x1F5B, 0x1F5B, WordCat::WC_ALetter),
    (0x1F5D, 0x1F5D, WordCat::WC_ALetter),
    (0x1F5F, 0x1F7D, WordCat::WC_ALetter),
    (0x1F80, 0x1FB4, WordCat::WC_ALetter),
    (0x1FB6, 0x1FBC, WordCat::WC_ALetter),
    (0x1FBE, 0x1FBE, WordCat::WC_ALetter),
    (0x1FC2, 0x1FC4, WordCat::WC_ALetter),
    (0x1FC6, 0x1FCC, WordCat::WC_ALetter),
    (0x1FD0, 0x1FD3, WordCat::WC_ALetter),
    (0x1FD6, 0x1FDB, WordCat::WC_ALetter),
    (0x1FE0, 0x1FEC, WordCat::WC_ALetter),
    (0x1FF2, 0x1FF4, WordCat::WC_ALetter),
    (0x1FF6, 0x1FFC, WordCat::WC_ALetter),
    (0x2000, 0x2006, WordCat::WC_WSegSpace),
    (0x2008, 0x200A, WordCat::WC_WSegSpace),
    (0x200C, 0x200C, WordCat::WC_Extend),
    (0x200D, 0x200D, WordCat::WC_ZWJ),
    (0x200E, 0x200F, WordCat::WC_Format),
    (0x2018, 0x2019, WordCat::WC_MidNumLet),
    (0x2024, 0x2024, WordCat::WC_MidNumLet),
    (0x2027, 0x2027, WordCat::WC_MidLetter),
    (0x2028, 0x2029, WordCat::WC_Newline),
    (0x202A, 0x202E, WordCat::WC_Format),
    (0x202F, 0x202F, WordCat::WC_ExtendNumLet),
    (0x203F, 0x2040, WordCat::WC_ExtendNumLet),
    (0x2044, 0x2044, WordCat::WC_MidNum),
    (0x2054, 0x2054, WordCat::WC_ExtendNumLet),
    (0x205F, 0x205F, WordCat::WC_WSegSpace),
    (0x2060, 0x2064, WordCat::WC_Format),
    (0x2066, 0x206F, WordCat::WC_Format),
    (0x2071, 0x2071, WordCat::WC_ALetter),
    (0x207F, 0x207F, WordCat::WC_ALetter),
    (0x2090, 0x209C, WordCat::WC_ALetter),
    (0x20D0, 0x20F0, WordCat::WC_Extend),
    (0x2102, 0x2102, WordCat::WC_ALetter),
    (0x2107, 0x2107, WordCat::WC_ALetter),
    (0x210A, 0x2113, WordCat::WC_ALetter),
    (0x2115, 0x2115, WordCat::WC_ALetter),
    (0x2119, 0x211D, WordCat::WC_ALetter),
    (0x2124, 0x2124, WordCat::WC_ALetter),
    (0x2126, 0x2126, WordCat::WC_ALetter),
    (0x2128, 0x2128, WordCat::WC_ALetter),
    (0x212A, 0x212D, WordCat::WC_ALetter),
    (0x212F, 0x2139, WordCat::WC_ALetter),
    (0x213C, 0x213F, WordCat::WC_ALetter),
    (0x2145, 0x2149, WordCat::WC_ALetter),
    (0x214E, 0x214E, WordCat::WC_ALetter),
    (0x2160, 0x2188, WordCat::WC_ALetter),
    (0x24B6, 0x24E9, WordCat::WC_ALetter),
    (0x2C00, 0x2CE4, WordCat::WC_ALetter),
    (0x2CEB, 0x2CEE, WordCat::WC_ALetter),
    (0x2CEF, 0x2CF1, WordCat::WC_Extend),
    (0x2CF2, 0x2CF3, WordCat::WC_ALetter),
    (0x2D00, 0x2D25, WordCat::WC_ALetter),
    (0x2D27, 0x2D27, WordCat::WC_ALetter),
    (0x2D2D, 0x2D2D, WordCat::WC_ALetter),
    (0x2D30, 0x2D67, WordCat::WC_ALetter),
    (0x2D6F, 0x2D6F, WordCat::WC_ALetter),
    (0x2D7F, 0x2D7F, WordCat::WC_Extend),
    (0x2D80, 0x2D96, WordCat::WC_ALetter),
    (0x2DA0, 0x2DA6, WordCat::WC_ALetter),
    (0x2DA8, 0x2DAE, WordCat::WC_ALetter),
    (0x2DB0, 0x2DB6, WordCat::WC_ALetter),
    (0x2DB8, 0x2DBE, WordCat::WC_ALetter),
    (0x2DC0, 0x2DC6, WordCat::WC_ALetter),
    (0x2DC8, 0x2DCE, WordCat::WC_ALetter),
    (0x2DD0, 0x2DD6, WordCat::WC_ALetter),
    (0x2DD8, 0x2DDE, WordCat::WC_ALetter),
    (0x2DE0, 0x2DFF, WordCat::WC_Extend),
    (0x2E2F, 0x2E2F, WordCat::WC_ALetter),
    (0x3000, 0x3000, WordCat::WC_WSegSpace),
    (0x3005, 0x3005, WordCat::WC_ALetter),
    (0x302A, 0x302F, WordCat::WC_Extend),
    (0x3031, 0x3035, WordCat::WC_Katakana),
    (0x303B, 0x303C, WordCat::WC_ALetter),
    (0x3099, 0x309A, WordCat::WC_Extend),
    (0x309B, 0x309C, WordCat::WC_Katakana),
    (0x30A0, 0x30FA, WordCat::WC_Katakana),
    (0x30FC, 0x30FF, WordCat::WC_Katakana),
    (0x3105, 0x312F, WordCat::WC_ALetter),
    (0x3131, 0x318E, WordCat::WC_ALetter),
    (0x31A0, 0x31BF, WordCat::WC_ALetter),
    (0x31F0, 0x31FF, WordCat::WC_Katakana),
    (0x32D0, 0x32FE, WordCat::WC_Katakana),
    (0x3300, 0x3357, WordCat::WC_Katakana),
    (0xA000, 0xA48C, WordCat::WC_ALetter),
    (0xA4D0, 0xA4FD, WordCat::WC_ALetter),
    (0xA500, 0xA60C, WordCat::WC_ALetter),
    (0xA610, 0xA61F, WordCat::WC_ALetter),
    (0xA620, 0xA629, WordCat::WC_Numeric),
    (0xA62A, 0xA62B, WordCat::WC_ALetter),
    (0xA640, 0xA66E, WordCat::WC_ALetter),
    (0xA66F, 0xA672, WordCat::WC_Extend),
    (0xA674, 0xA67D, WordCat::WC_Extend),
    (0xA67F, 0xA69D, WordCat::WC_ALetter),
    (0xA69E, 0xA69F, WordCat::WC_Extend),
    (0xA6A0, 0xA6EF, WordCat::WC_ALetter),
    (0xA6F0, 0xA6F1, WordCat::WC_Extend),
    (0xA708, 0xA7DC, WordCat::WC_ALetter),
    (0xA7F1, 0xA801, WordCat::WC_ALetter),
    (0xA802, 0xA802, WordCat::WC_Extend),
    (0xA803, 0xA805, WordCat::WC_ALetter),
    (0xA806, 0xA806, WordCat::WC_Extend),
    (0xA807, 0xA80A, WordCat::WC_ALetter),
    (0xA80B, 0xA80B, WordCat::WC_Extend),
    (0xA80C, 0xA822, WordCat::WC_ALetter),
    (0xA823, 0xA827, WordCat::WC_Extend),
    (0xA82C, 0xA82C, WordCat::WC_Extend),
    (0xA840, 0xA873, WordCat::WC_ALetter),
    (0xA880, 0xA881, WordCat::WC_Extend),
    (0xA882, 0xA8B3, WordCat::WC_ALetter),
    (0xA8B4, 0xA8C5, WordCat::WC_Extend),
    (0xA8D0, 0xA8D9, WordCat::WC_Numeric),
    (0xA8E0, 0xA8F1, WordCat::WC_Extend),
    (0xA8F2, 0xA8F7, WordCat::WC_ALetter),
    (0xA8FB, 0xA8FB, WordCat::WC_ALetter),
    (0xA8FD, 0xA8FE, WordCat::WC_ALetter),
    (0xA8FF, 0xA8FF, WordCat::WC_Extend),
    (0xA900, 0xA909, WordCat::WC_Numeric),
    (0xA90A, 0xA925, WordCat::WC_ALetter),
    (0xA926, 0xA92D, WordCat::WC_Extend),
    (0xA930, 0xA946, WordCat::WC_ALetter),
    (0xA947, 0xA953, WordCat::WC_Extend),
    (0xA960, 0xA97C, WordCat::WC_ALetter),
    (0xA980, 0xA983, WordCat::WC_Extend),
    (0xA984, 0xA9B2, WordCat::WC_ALetter),
    (0xA9B3, 0xA9C0, WordCat::WC_Extend),
    (0xA9CF, 0xA9CF, WordCat::WC_ALetter),
    (0xA9D0, 0xA9D9, WordCat::WC_Numeric),
    (0xA9E5, 0xA9E5, WordCat::WC_Extend),
    (0xA9F0, 0xA9F9, WordCat::WC_Numeric),
    (0xAA00, 0xAA28, WordCat::WC_ALetter),
    (0xAA29, 0xAA36, WordCat::WC_Extend),
    (0xAA40, 0xAA42, WordCat::WC_ALetter),
    (0xAA43, 0xAA43, WordCat::WC_Extend),
    (0xAA44, 0xAA4B, WordCat::WC_ALetter),
    (0xAA4C, 0xAA4D, WordCat::WC_Extend),
    (0xAA50, 0xAA59, WordCat::WC_Numeric),
    (0xAA7B, 0xAA7D, WordCat::WC_Extend),
    (0xAAB0, 0xAAB0, WordCat::WC_Extend),
    (0xAAB2, 0xAAB4, WordCat::WC_Extend),
    (0xAAB7, 0xAAB8, WordCat::WC_Extend),
    (0xAABE, 0xAABF, WordCat::WC_Extend),
    (0xAAC1, 0xAAC1, WordCat::WC_Extend),
    (0xAAE0, 0xAAEA, WordCat::WC_ALetter),
    (0xAAEB, 0xAAEF, WordCat::WC_Extend),
    (0xAAF2, 0xAAF4, WordCat::WC_ALetter),
    (0xAAF5, 0xAAF6, WordCat::WC_Extend),
    (0xAB01, 0xAB06, WordCat::WC_ALetter),
    (0xAB09, 0xAB0E, WordCat::WC_ALetter),
    (0xAB11, 0xAB16, WordCat::WC_ALetter),
    (0xAB20, 0xAB26, WordCat::WC_ALetter),
    (0xAB28, 0xAB2E, WordCat::WC_ALetter),
    (0xAB30, 0xAB69, WordCat::WC_ALetter),
    (0xAB70, 0xABE2, WordCat::WC_ALetter),
    (0xABE3, 0xABEA, WordCat::WC_Extend),
    (0xABEC, 0xABED, WordCat::WC_Extend),
    (0xABF0, 0xABF9, WordCat::WC_Numeric),
    (0xAC00, 0xD7A3, WordCat::WC_ALetter),
    (0xD7B0, 0xD7C6, WordCat::WC_ALetter),
    (0xD7CB, 0xD7FB, WordCat::WC_ALetter),
    (0xFB00, 0xFB06, WordCat::WC_ALetter),
    (0xFB13, 0xFB17, WordCat::WC_ALetter),
    (0xFB1D, 0xFB1D, WordCat::WC_Hebrew_Letter),
    (0xFB1E, 0xFB1E, WordCat::WC_Extend),
    (0xFB1F, 0xFB28, WordCat::WC_Hebrew_Letter),
    (0xFB2A, 0xFB36, WordCat::WC_Hebrew_Letter),
    (0xFB38, 0xFB3C, WordCat::WC_Hebrew_Letter),
    (0xFB3E, 0xFB3E, WordCat::WC_Hebrew_Letter),
    (0xFB40, 0xFB41, WordCat::WC_Hebrew_Letter),
    (0xFB43, 0xFB44, WordCat::WC_Hebrew_Letter),
    (0xFB46, 0xFB4F, WordCat::WC_Hebrew_Letter),
    (0xFB50, 0xFBB1, WordCat::WC_ALetter),
    (0xFBD3, 0xFD3D, WordCat::WC_ALetter),
    (0xFD50, 0xFD8F, WordCat::WC_ALetter),
    (0xFD92, 0xFDC7, WordCat::WC_ALetter),
    (0xFDF0, 0xFDFB, WordCat::WC_ALetter),
    (0xFE00, 0xFE0F, WordCat::WC_Extend),
    (0xFE13, 0xFE13, WordCat::WC_MidLetter),
    (0xFE20, 0xFE2F, WordCat::WC_Extend),
    (0xFE33, 0xFE34, WordCat::WC_ExtendNumLet),
    (0xFE4D, 0xFE4F, WordCat::WC_ExtendNumLet),
    (0xFE50, 0xFE50, WordCat::WC_MidNum),
    (0xFE52, 0xFE52, WordCat::WC_MidNumLet),
    (0xFE54, 0xFE54, WordCat::WC_MidNum),
    (0xFE55, 0xFE55, WordCat::WC_MidLetter),
    (0xFE70, 0xFE74, WordCat::WC_ALetter),
    (0xFE76, 0xFEFC, WordCat::WC_ALetter),
    (0xFEFF, 0xFEFF, WordCat::WC_Format),
    (0xFF07, 0xFF07, WordCat::WC_MidNumLet),
    (0xFF0C, 0xFF0C, WordCat::WC_MidNum),
    (0xFF0E, 0xFF0E, WordCat::WC_MidNumLet),
    (0xFF10, 0xFF19, WordCat::WC_Numeric),
    (0xFF1A, 0xFF1A, WordCat::WC_MidLetter),
    (0xFF1B, 0xFF1B, WordCat::WC_MidNum),
    (0xFF21, 0xFF3A, WordCat::WC_ALetter),
    (0xFF3F, 0xFF3F, WordCat::WC_ExtendNumLet),
    (0xFF41, 0xFF5A, WordCat::WC_ALetter),
    (0xFF66, 0xFF9D, WordCat::WC_Katakana),
    (0xFF9E, 0xFF9F, WordCat::WC_Extend),
    (0xFFA0, 0xFFBE, WordCat::WC_ALetter),
    (0xFFC2, 0xFFC7, WordCat::WC_ALetter),
    (0xFFCA, 0xFFCF, WordCat::WC_ALetter),
    (0xFFD2, 0xFFD7, WordCat::WC_ALetter),
    (0xFFDA, 0xFFDC, WordCat::WC_ALetter),
    (0xFFF9, 0xFFFB, WordCat::WC_Format),
    (0x10000, 0x1000B, WordCat::WC_ALetter),
    (0x1000D, 0x10026, WordCat::WC_ALetter),
    (0x10028, 0x1003A, WordCat::WC_ALetter),
    (0x1003C, 0x1003D, WordCat::WC_ALetter),
    (0x1003F, 0x1004D, WordCat::WC_ALetter),
    (0x10050, 0x1005D, WordCat::WC_ALetter),
    (0x10080, 0x100FA, WordCat::WC_ALetter),
    (0x10140, 0x10174, WordCat::WC_ALetter),
    (0x101FD, 0x101FD, WordCat::WC_Extend),
    (0x10280, 0x1029C, WordCat::WC_ALetter),
    (0x102A0, 0x102D0, WordCat::WC_ALetter),
    (0x102E0, 0x102E0, WordCat::WC_Extend),
    (0x10300, 0x1031F, WordCat::WC_ALetter),
    (0x1032D, 0x1034A, WordCat::WC_ALetter),
    (0x10350, 0x10375, WordCat::WC_ALetter),
    (0x10376, 0x1037A, WordCat::WC_Extend),
    (0x10380, 0x1039D, WordCat::WC_ALetter),
    (0x103A0, 0x103C3, WordCat::WC_ALetter),
    (0x103C8, 0x103CF, WordCat::WC_ALetter),
    (0x103D1, 0x103D5, WordCat::WC_ALetter),
    (0x10400, 0x1049D, WordCat::WC_ALetter),
    (0x104A0, 0x104A9, WordCat::WC_Numeric),
    (0x104B0, 0x104D3, WordCat::WC_ALetter),
    (0x104D8, 0x104FB, WordCat::WC_ALetter),
    (0x10500, 0x10527, WordCat::WC_ALetter),
    (0x10530, 0x10563, WordCat::WC_ALetter),
    (0x10570, 0x1057A, WordCat::WC_ALetter),
    (0x1057C, 0x1058A, WordCat::WC_ALetter),
    (0x1058C, 0x10592, WordCat::WC_ALetter),
    (0x10594, 0x10595, WordCat::WC_ALetter),
    (0x10597, 0x105A1, WordCat::WC_ALetter),
    (0x105A3, 0x105B1, WordCat::WC_ALetter),
    (0x105B3, 0x105B9, WordCat::WC_ALetter),
    (0x105BB, 0x105BC, WordCat::WC_ALetter),
    (0x105C0, 0x105F3, WordCat::WC_ALetter),
    (0x10600, 0x10736, WordCat::WC_ALetter),
    (0x10740, 0x10755, WordCat::WC_ALetter),
    (0x10760, 0x10767, WordCat::WC_ALetter),
    (0x10780, 0x10785, WordCat::WC_ALetter),
    (0x10787, 0x107B0, WordCat::WC_ALetter),
    (0x107B2, 0x107BA, WordCat::WC_ALetter),
    (0x10800, 0x10805, WordCat::WC_ALetter),
    (0x10808, 0x10808, WordCat::WC_ALetter),
    (0x1080A, 0x10835, WordCat::WC_ALetter),
    (0x10837, 0x10838, WordCat::WC_ALetter),
    (0x1083C, 0x1083C, WordCat::WC_ALetter),
    (0x1083F, 0x10855, WordCat::WC_ALetter),
    (0x10860, 0x10876, WordCat::WC_ALetter),
    (0x10880, 0x1089E, WordCat::WC_ALetter),
    (0x108E0, 0x108F2, WordCat::WC_ALetter),
    (0x108F4, 0x108F5, WordCat::WC_ALetter),
    (0x10900, 0x10915, WordCat::WC_ALetter),
    (0x10920, 0x10939, WordCat::WC_ALetter),
    (0x10940, 0x10959, WordCat::WC_ALetter),
    (0x10980, 0x109B7, WordCat::WC_ALetter),
    (0x109BE, 0x109BF, WordCat::WC_ALetter),
    (0x10A00, 0x10A00, WordCat::WC_ALetter),
    (0x10A01, 0x10A03, WordCat::WC_Extend),
    (0x10A05, 0x10A06, WordCat::WC_Extend),
    (0x10A0C, 0x10A0F, WordCat::WC_Extend),
    (0x10A10, 0x10A13, WordCat::WC_ALetter),
    (0x10A15, 0x10A17, WordCat::WC_ALetter),
    (0x10A19, 0x10A35, WordCat::WC_ALetter),
    (0x10A38, 0x10A3A, WordCat::WC_Extend),
    (0x10A3F, 0x10A3F, WordCat::WC_Extend),
    (0x10A60, 0x10A7C, WordCat::WC_ALetter),
    (0x10A80, 0x10A9C, WordCat::WC_ALetter),
    (0x10AC0, 0x10AC7, WordCat::WC_ALetter),
    (0x10AC9, 0x10AE4, WordCat::WC_ALetter),
    (0x10AE5, 0x10AE6, WordCat::WC_Extend),
    (0x10B00, 0x10B35, WordCat::WC_ALetter),
    (0x10B40, 0x10B55, WordCat::WC_ALetter),
    (0x10B60, 0x10B72, WordCat::WC_ALetter),
    (0x10B80, 0x10B91, WordCat::WC_ALetter),
    (0x10C00, 0x10C48, WordCat::WC_ALetter),
    (0x10C80, 0x10CB2, WordCat::WC_ALetter),
    (0x10CC0, 0x10CF2, WordCat::WC_ALetter),
    (0x10D00, 0x10D23, WordCat::WC_ALetter),
    (0x10D24, 0x10D27, WordCat::WC_Extend),
    (0x10D30, 0x10D39, WordCat::WC_Numeric),
    (0x10D40, 0x10D49, WordCat::WC_Numeric),
    (0x10D4A, 0x10D65, WordCat::WC_ALetter),
    (0x10D69, 0x10D6D, WordCat::WC_Extend),
    (0x10D6F, 0x10D85, WordCat::WC_ALetter),
    (0x10E80, 0x10EA9, WordCat::WC_ALetter),
    (0x10EAB, 0x10EAC, WordCat::WC_Extend),
    (0x10EB0, 0x10EB1, WordCat::WC_ALetter),
    (0x10EC2, 0x10EC7, WordCat::WC_ALetter),
    (0x10EFA, 0x10EFF, WordCat::WC_Extend),
    (0x10F00, 0x10F1C, WordCat::WC_ALetter),
    (0x10F27, 0x10F27, WordCat::WC_ALetter),
    (0x10F30, 0x10F45, WordCat::WC_ALetter),
    (0x10F46, 0x10F50, WordCat::WC_Extend),
    (0x10F70, 0x10F81, WordCat::WC_ALetter),
    (0x10F82, 0x10F85, WordCat::WC_Extend),
    (0x10FB0, 0x10FC4, WordCat::WC_ALetter),
    (0x10FE0, 0x10FF6, WordCat::WC_ALetter),
    (0x11000, 0x11002, WordCat::WC_Extend),
    (0x11003, 0x11037, WordCat::WC_ALetter),
    (0x11038, 0x11046, WordCat::WC_Extend),
    (0x11066, 0x1106F, WordCat::WC_Numeric),
    (0x11070, 0x11070, WordCat::WC_Extend),
    (0x11071, 0x11072, WordCat::WC_ALetter),
    (0x11073, 0x11074, WordCat::WC_Extend),
    (0x11075, 0x11075, WordCat::WC_ALetter),
    (0x1107F, 0x11082, WordCat::WC_Extend),
    (0x11083, 0x110AF, WordCat::WC_ALetter),
    (0x110B0, 0x110BA, WordCat::WC_Extend),
    (0x110BD, 0x110BD, WordCat::WC_Numeric),
    (0x110C2, 0x110C2, WordCat::WC_Extend),
    (0x110CD, 0x110CD, WordCat::WC_Numeric),
    (0x110D0, 0x110E8, WordCat::WC_ALetter),
    (0x110F0, 0x110F9, WordCat::WC_Numeric),
    (0x11100, 0x11102, WordCat::WC_Extend),
    (0x11103, 0x11126, WordCat::WC_ALetter),
    (0x11127, 0x11134, WordCat::WC_Extend),
    (0x11136, 0x1113F, WordCat::WC_Numeric),
    (0x11144, 0x11144, WordCat::WC_ALetter),
    (0x11145, 0x11146, WordCat::WC_Extend),
    (0x11147, 0x11147, WordCat::WC_ALetter),
    (0x11150, 0x11172, WordCat::WC_ALetter),
    (0x11173, 0x11173, WordCat::WC_Extend),
    (0x11176, 0x11176, WordCat::WC_ALetter),
    (0x11180, 0x11182, WordCat::WC_Extend),
    (0x11183, 0x111B2, WordCat::WC_ALetter),
    (0x111B3, 0x111C0, WordCat::WC_Extend),
    (0x111C1, 0x111C4, WordCat::WC_ALetter),
    (0x111C9, 0x111CC, WordCat::WC_Extend),
    (0x111CE, 0x111CF, WordCat::WC_Extend),
    (0x111D0, 0x111D9, WordCat::WC_Numeric),
    (0x111DA, 0x111DA, WordCat::WC_ALetter),
    (0x111DC, 0x111DC, WordCat::WC_ALetter),
    (0x11200, 0x11211, WordCat::WC_ALetter),
    (0x11213, 0x1122B, WordCat::WC_ALetter),
    (0x1122C, 0x11237, WordCat::WC_Extend),
    (0x1123E, 0x1123E, WordCat::WC_Extend),
    (0x1123F, 0x11240, WordCat::WC_ALetter),
    (0x11241, 0x11241, WordCat::WC_Extend),
    (0x11280, 0x11286, WordCat::WC_ALetter),
    (0x11288, 0x11288, WordCat::WC_ALetter),
    (0x1128A, 0x1128D, WordCat::WC_ALetter),
    (0x1128F, 0x1129D, WordCat::WC_ALetter),
    (0x1129F, 0x112A8, WordCat::WC_ALetter),
    (0x112B0, 0x112DE, WordCat::WC_ALetter),
    (0x112DF, 0x112EA, WordCat::WC_Extend),
    (0x112F0, 0x112F9, WordCat::WC_Numeric),
    (0x11300, 0x11303, WordCat::WC_Extend),
    (0x11305, 0x1130C, WordCat::WC_ALetter),
    (0x1130F, 0x11310, WordCat::WC_ALetter),
    (0x11313, 0x11328, WordCat::WC_ALetter),
    (0x1132A, 0x11330, WordCat::WC_ALetter),
    (0x11332, 0x11333, WordCat::WC_ALetter),
    (0x11335, 0x11339, WordCat::WC_ALetter),
    (0x1133B, 0x1133C, WordCat::WC_Extend),
    (0x1133D, 0x1133D, WordCat::WC_ALetter),
    (0x1133E, 0x11344, WordCat::WC_Extend),
    (0x11347, 0x11348, WordCat::WC_Extend),
    (0x1134B, 0x1134D, WordCat::WC_Extend),
    (0x11350, 0x11350, WordCat::WC_ALetter),
    (0x11357, 0x11357, WordCat::WC_Extend),
    (0x1135D, 0x11361, WordCat::WC_ALetter),
    (0x11362, 0x11363, WordCat::WC_Extend),
    (0x11366, 0x1136C, WordCat::WC_Extend),
    (0x11370, 0x11374, WordCat::WC_Extend),
    (0x11380, 0x11389, WordCat::WC_ALetter),
    (0x1138B, 0x1138B, WordCat::WC_ALetter),
    (0x1138E, 0x1138E, WordCat::WC_ALetter),
    (0x11390, 0x113B5, WordCat::WC_ALetter),
    (0x113B7, 0x113B7, WordCat::WC_ALetter),
    (0x113B8, 0x113C0, WordCat::WC_Extend),
    (0x113C2, 0x113C2, WordCat::WC_Extend),
    (0x113C5, 0x113C5, WordCat::WC_Extend),
    (0x113C7, 0x113CA, WordCat::WC_Extend),
    (0x113CC, 0x113D0, WordCat::WC_Extend),
    (0x113D1, 0x113D1, WordCat::WC_ALetter),
    (0x113D2, 0x113D2, WordCat::WC_Extend),
    (0x113D3, 0x113D3, WordCat::WC_ALetter),
    (0x113E1, 0x113E2, WordCat::WC_Extend),
    (0x11400, 0x11434, WordCat::WC_ALetter),
    (0x11435, 0x11446, WordCat::WC_Extend),
    (0x11447, 0x1144A, WordCat::WC_ALetter),
    (0x11450, 0x11459, WordCat::WC_Numeric),
    (0x1145E, 0x1145E, WordCat::WC_Extend),
    (0x1145F, 0x11461, WordCat::WC_ALetter),
    (0x11480, 0x114AF, WordCat::WC_ALetter),
    (0x114B0, 0x114C3, WordCat::WC_Extend),
    (0x114C4, 0x114C5, WordCat::WC_ALetter),
    (0x114C7, 0x114C7, WordCat::WC_ALetter),
    (0x114D0, 0x114D9, WordCat::WC_Numeric),
    (0x11580, 0x115AE, WordCat::WC_ALetter),
    (0x115AF, 0x115B5, WordCat::WC_Extend),
    (0x115B8, 0x115C0, WordCat::WC_Extend),
    (0x115D8, 0x115DB, WordCat::WC_ALetter),
    (0x115DC, 0x115DD, WordCat::WC_Extend),
    (0x11600, 0x1162F, WordCat::WC_ALetter),
    (0x11630, 0x11640, WordCat::WC_Extend),
    (0x11644, 0x11644, WordCat::WC_ALetter),
    (0x11650, 0x11659, WordCat::WC_Numeric),
    (0x11680, 0x116AA, WordCat::WC_ALetter),
    (0x116AB, 0x116B7, WordCat::WC_Extend),
    (0x116B8, 0x116B8, WordCat::WC_ALetter),
    (0x116C0, 0x116C9, WordCat::WC_Numeric),
    (0x116D0, 0x116E3, WordCat::WC_Numeric),
    (0x1171D, 0x1172B, WordCat::WC_Extend),
    (0x11730, 0x11739, WordCat::WC_Numeric),
    (0x11800, 0x1182B, WordCat::WC_ALetter),
    (0x1182C, 0x1183A, WordCat::WC_Extend),
    (0x118A0, 0x118DF, WordCat::WC_ALetter),
    (0x118E0, 0x118E9, WordCat::WC_Numeric),
    (0x118FF, 0x11906, WordCat::WC_ALetter),
    (0x11909, 0x11909, WordCat::WC_ALetter),
    (0x1190C, 0x11913, WordCat::WC_ALetter),
    (0x11915, 0x11916, WordCat::WC_ALetter),
    (0x11918, 0x1192F, WordCat::WC_ALetter),
    (0x11930, 0x11935, WordCat::WC_Extend),
    (0x11937, 0x11938, WordCat::WC_Extend),
    (0x1193B, 0x1193E, WordCat::WC_Extend),
    (0x1193F, 0x1193F, WordCat::WC_ALetter),
    (0x11940, 0x11940, WordCat::WC_Extend),
    (0x11941, 0x11941, WordCat::WC_ALetter),
    (0x11942, 0x11943, WordCat::WC_Extend),
    (0x11950, 0x11959, WordCat::WC_Numeric),
    (0x119A0, 0x119A7, WordCat::WC_ALetter),
    (0x119AA, 0x119D0, WordCat::WC_ALetter),
    (0x119D1, 0x119D7, WordCat::WC_Extend),
    (0x119DA, 0x119E0, WordCat::WC_Extend),
    (0x119E1, 0x119E1, WordCat::WC_ALetter),
    (0x119E3, 0x119E3, WordCat::WC_ALetter),
    (0x119E4, 0x119E4, WordCat::WC_Extend),
    (0x11A00, 0x11A00, WordCat::WC_ALetter),
    (0x11A01, 0x11A0A, WordCat::WC_Extend),
    (0x11A0B, 0x11A32, WordCat::WC_ALetter),
    (0x11A33, 0x11A39, WordCat::WC_Extend),
    (0x11A3A, 0x11A3A, WordCat::WC_ALetter),
    (0x11A3B, 0x11A3E, WordCat::WC_Extend),
    (0x11A47, 0x11A47, WordCat::WC_Extend),
    (0x11A50, 0x11A50, WordCat::WC_ALetter),
    (0x11A51, 0x11A5B, WordCat::WC_Extend),
    (0x11A5C, 0x11A89, WordCat::WC_ALetter),
    (0x11A8A, 0x11A99, WordCat::WC_Extend),
    (0x11A9D, 0x11A9D, WordCat::WC_ALetter),
    (0x11AB0, 0x11AF8, WordCat::WC_ALetter),
    (0x11B60, 0x11B67, WordCat::WC_Extend),
    (0x11BC0, 0x11BE0, WordCat::WC_ALetter),
    (0x11BF0, 0x11BF9, WordCat::WC_Numeric),
    (0x11C00, 0x11C08, WordCat::WC_ALetter),
    (0x11C0A, 0x11C2E, WordCat::WC_ALetter),
    (0x11C2F, 0x11C36, WordCat::WC_Extend),
    (0x11C38, 0x11C3F, WordCat::WC_Extend),
    (0x11C40, 0x11C40, WordCat::WC_ALetter),
    (0x11C50, 0x11C59, WordCat::WC_Numeric),
    (0x11C72, 0x11C8F, WordCat::WC_ALetter),
    (0x11C92, 0x11CA7, WordCat::WC_Extend),
    (0x11CA9, 0x11CB6, WordCat::WC_Extend),
    (0x11D00, 0x11D06, WordCat::WC_ALetter),
    (0x11D08, 0x11D09, WordCat::WC_ALetter),
    (0x11D0B, 0x11D30, WordCat::WC_ALetter),
    (0x11D31, 0x11D36, WordCat::WC_Extend),
    (0x11D3A, 0x11D3A, WordCat::WC_Extend),
    (0x11D3C, 0x11D3D, WordCat::WC_Extend),
    (0x11D3F, 0x11D45, WordCat::WC_Extend),
    (0x11D46, 0x11D46, WordCat::WC_ALetter),
    (0x11D47, 0x11D47, WordCat::WC_Extend),
    (0x11D50, 0x11D59, WordCat::WC_Numeric),
    (0x11D60, 0x11D65, WordCat::WC_ALetter),
    (0x11D67, 0x11D68, WordCat::WC_ALetter),
    (0x11D6A, 0x11D89, WordCat::WC_ALetter),
    (0x11D8A, 0x11D8E, WordCat::WC_Extend),
    (0x11D90, 0x11D91, WordCat::WC_Extend),
    (0x11D93, 0x11D97, WordCat::WC_Extend),
    (0x11D98, 0x11D98, WordCat::WC_ALetter),
    (0x11DA0, 0x11DA9, WordCat::WC_Numeric),
    (0x11DB0, 0x11DDB, WordCat::WC_ALetter),
    (0x11DE0, 0x11DE9, WordCat::WC_Numeric),
    (0x11EE0, 0x11EF2, WordCat::WC_ALetter),
    (0x11EF3, 0x11EF6, WordCat::WC_Extend),
    (0x11F00, 0x11F01, WordCat::WC_Extend),
    (0x11F02, 0x11F02, WordCat::WC_ALetter),
    (0x11F03, 0x11F03, WordCat::WC_Extend),
    (0x11F04, 0x11F10, WordCat::WC_ALetter),
    (0x11F12, 0x11F33, WordCat::WC_ALetter),
    (0x11F34, 0x11F3A, WordCat::WC_Extend),
    (0x11F3E, 0x11F42, WordCat::WC_Extend),
    (0x11F50, 0x11F59, WordCat::WC_Numeric),
    (0x11F5A, 0x11F5A, WordCat::WC_Extend),
    (0x11FB0, 0x11FB0, WordCat::WC_ALetter),
    (0x12000, 0x12399, WordCat::WC_ALetter),
    (0x12400, 0x1246E, WordCat::WC_ALetter),
    (0x12480, 0x12543, WordCat::WC_ALetter),
    (0x12F90, 0x12FF0, WordCat::WC_ALetter),
    (0x13000, 0x1342F, WordCat::WC_ALetter),
    (0x13430, 0x1343F, WordCat::WC_Format),
    (0x13440, 0x13440, WordCat::WC_Extend),
    (0x13441, 0x13446, WordCat::WC_ALetter),
    (0x13447, 0x13455, WordCat::WC_Extend),
    (0x13460, 0x143FA, WordCat::WC_ALetter),
    (0x14400, 0x14646, WordCat::WC_ALetter),
    (0x16100, 0x1611D, WordCat::WC_ALetter),
    (0x1611E, 0x1612F, WordCat::WC_Extend),
    (0x16130, 0x16139, WordCat::WC_Numeric),
    (0x16800, 0x16A38, WordCat::WC_ALetter),
    (0x16A40, 0x16A5E, WordCat::WC_ALetter),
    (0x16A60, 0x16A69, WordCat::WC_Numeric),
    (0x16A70, 0x16ABE, WordCat::WC_ALetter),
    (0x16AC0, 0x16AC9, WordCat::WC_Numeric),
    (0x16AD0, 0x16AED, WordCat::WC_ALetter),
    (0x16AF0, 0x16AF4, WordCat::WC_Extend),
    (0x16B00, 0x16B2F, WordCat::WC_ALetter),
    (0x16B30, 0x16B36, WordCat::WC_Extend),
    (0x16B40, 0x16B43, WordCat::WC_ALetter),
    (0x16B50, 0x16B59, WordCat::WC_Numeric),
    (0x16B63, 0x16B77, WordCat::WC_ALetter),
    (0x16B7D, 0x16B8F, WordCat::WC_ALetter),
    (0x16D40, 0x16D6C, WordCat::WC_ALetter),
    (0x16D70, 0x16D79, WordCat::WC_Numeric),
    (0x16E40, 0x16E7F, WordCat::WC_ALetter),
    (0x16EA0, 0x16EB8, WordCat::WC_ALetter),
    (0x16EBB, 0x16ED3, WordCat::WC_ALetter),
    (0x16F00, 0x16F4A, WordCat::WC_ALetter),
    (0x16F4F, 0x16F4F, WordCat::WC_Extend),
    (0x16F50, 0x16F50, WordCat::WC_ALetter),
    (0x16F51, 0x16F87, WordCat::WC_Extend),
    (0x16F8F, 0x16F92, WordCat::WC_Extend),
    (0x16F93, 0x16F9F, WordCat::WC_ALetter),
    (0x16FE0, 0x16FE1, WordCat::WC_ALetter),
    (0x16FE3, 0x16FE3, WordCat::WC_ALetter),
    (0x16FE4, 0x16FE4, WordCat::WC_Extend),
    (0x16FF0, 0x16FF1, WordCat::WC_Extend),
    (0x1AFF0, 0x1AFF3, WordCat::WC_Katakana),
    (0x1AFF5, 0x1AFFB, WordCat::WC_Katakana),
    (0x1AFFD, 0x1AFFE, WordCat::WC_Katakana),
    (0x1B000, 0x1B000, WordCat::WC_Katakana),
    (0x1B120, 0x1B122, WordCat::WC_Katakana),
    (0x1B155, 0x1B155, WordCat::WC_Katakana),
    (0x1B164, 0x1B167, WordCat::WC_Katakana),
    (0x1BC00, 0x1BC6A, WordCat::WC_ALetter),
    (0x1BC70, 0x1BC7C, WordCat::WC_ALetter),
    (0x1BC80, 0x1BC88, WordCat::WC_ALetter),
    (0x1BC90, 0x1BC99, WordCat::WC_ALetter),
    (0x1BC9D, 0x1BC9E, WordCat::WC_Extend),
    (0x1BCA0, 0x1BCA3, WordCat::WC_Format),
    (0x1CCF0, 0x1CCF9, WordCat::WC_Numeric),
    (0x1CF00, 0x1CF2D, WordCat::WC_Extend),
    (0x1CF30, 0x1CF46, WordCat::WC_Extend),
    (0x1D165, 0x1D169, WordCat::WC_Extend),
    (0x1D16D, 0x1D172, WordCat::WC_Extend),
    (0x1D173, 0x1D17A, WordCat::WC_Format),
    (0x1D17B, 0x1D182, WordCat::WC_Extend),
    (0x1D185, 0x1D18B, WordCat::WC_Extend),
    (0x1D1AA, 0x1D1AD, WordCat::WC_Extend),
    (0x1D242, 0x1D244, WordCat::WC_Extend),
    (0x1D400, 0x1D454, WordCat::WC_ALetter),
    (0x1D456, 0x1D49C, WordCat::WC_ALetter),
    (0x1D49E, 0x1D49F, WordCat::WC_ALetter),
    (0x1D4A2, 0x1D4A2, WordCat::WC_ALetter),
    (0x1D4A5, 0x1D4A6, WordCat::WC_ALetter),
    (0x1D4A9, 0x1D4AC, WordCat::WC_ALetter),
    (0x1D4AE, 0x1D4B9, WordCat::WC_ALetter),
    (0x1D4BB, 0x1D4BB, WordCat::WC_ALetter),
    (0x1D4BD, 0x1D4C3, WordCat::WC_ALetter),
    (0x1D4C5, 0x1D505, WordCat::WC_ALetter),
    (0x1D507, 0x1D50A, WordCat::WC_ALetter),
    (0x1D50D, 0x1D514, WordCat::WC_ALetter),
    (0x1D516, 0x1D51C, WordCat::WC_ALetter),
    (0x1D51E, 0x1D539, WordCat::WC_ALetter),
    (0x1D53B, 0x1D53E, WordCat::WC_ALetter),
    (0x1D540, 0x1D544, WordCat::WC_ALetter),
    (0x1D546, 0x1D546, WordCat::WC_ALetter),
    (0x1D54A, 0x1D550, WordCat::WC_ALetter),
    (0x1D552, 0x1D6A5, WordCat::WC_ALetter),
    (0x1D6A8, 0x1D6C0, WordCat::WC_ALetter),
    (0x1D6C2, 0x1D6DA, WordCat::WC_ALetter),
    (0x1D6DC, 0x1D6FA, WordCat::WC_ALetter),
    (0x1D6FC, 0x1D714, WordCat::WC_ALetter),
    (0x1D716, 0x1D734, WordCat::WC_ALetter),
    (0x1D736, 0x1D74E, WordCat::WC_ALetter),
    (0x1D750, 0x1D76E, WordCat::WC_ALetter),
    (0x1D770, 0x1D788, WordCat::WC_ALetter),
    (0x1D78A, 0x1D7A8, WordCat::WC_ALetter),
    (0x1D7AA, 0x1D7C2, WordCat::WC_ALetter),
    (0x1D7C4, 0x1D7CB, WordCat::WC_ALetter),
    (0x1D7CE, 0x1D7FF, WordCat::WC_Numeric),
    (0x1DA00, 0x1DA36, WordCat::WC_Extend),
    (0x1DA3B, 0x1DA6C, WordCat::WC_Extend),
    (0x1DA75, 0x1DA75, WordCat::WC_Extend),
    (0x1DA84, 0x1DA84, WordCat::WC_Extend),
    (0x1DA9B, 0x1DA9F, WordCat::WC_Extend),
    (0x1DAA1, 0x1DAAF, WordCat::WC_Extend),
    (0x1DF00, 0x1DF1E, WordCat::WC_ALetter),
    (0x1DF25, 0x1DF2A, WordCat::WC_ALetter),
    (0x1E000, 0x1E006, WordCat::WC_Extend),
    (0x1E008, 0x1E018, WordCat::WC_Extend),
    (0x1E01B, 0x1E021, WordCat::WC_Extend),
    (0x1E023, 0x1E024, WordCat::WC_Extend),
    (0x1E026, 0x1E02A, WordCat::WC_Extend),
    (0x1E030, 0x1E06D, WordCat::WC_ALetter),
    (0x1E08F, 0x1E08F, WordCat::WC_Extend),
    (0x1E100, 0x1E12C, WordCat::WC_ALetter),
    (0x1E130, 0x1E136, WordCat::WC_Extend),
    (0x1E137, 0x1E13D, WordCat::WC_ALetter),
    (0x1E140, 0x1E149, WordCat::WC_Numeric),
    (0x1E14E, 0x1E14E, WordCat::WC_ALetter),
    (0x1E290, 0x1E2AD, WordCat::WC_ALetter),
    (0x1E2AE, 0x1E2AE, WordCat::WC_Extend),
    (0x1E2C0, 0x1E2EB, WordCat::WC_ALetter),
    (0x1E2EC, 0x1E2EF, WordCat::WC_Extend),
    (0x1E2F0, 0x1E2F9, WordCat::WC_Numeric),
    (0x1E4D0, 0x1E4EB, WordCat::WC_ALetter),
    (0x1E4EC, 0x1E4EF, WordCat::WC_Extend),
    (0x1E4F0, 0x1E4F9, WordCat::WC_Numeric),
    (0x1E5D0, 0x1E5ED, WordCat::WC_ALetter),
    (0x1E5EE, 0x1E5EF, WordCat::WC_Extend),
    (0x1E5F0, 0x1E5F0, WordCat::WC_ALetter),
    (0x1E5F1, 0x1E5FA, WordCat::WC_Numeric),
    (0x1E6C0, 0x1E6DE, WordCat::WC_ALetter),
    (0x1E6E0, 0x1E6E2, WordCat::WC_ALetter),
    (0x1E6E3, 0x1E6E3, WordCat::WC_Extend),
    (0x1E6E4, 0x1E6E5, WordCat::WC_ALetter),
    (0x1E6E6, 0x1E6E6, WordCat::WC_Extend),
    (0x1E6E7, 0x1E6ED, WordCat::WC_ALetter),
    (0x1E6EE, 0x1E6EF, WordCat::WC_Extend),
    (0x1E6F0, 0x1E6F4, WordCat::WC_ALetter),
    (0x1E6F5, 0x1E6F5, WordCat::WC_Extend),
    (0x1E6FE, 0x1E6FF, WordCat::WC_ALetter),
    (0x1E7E0, 0x1E7E6, WordCat::WC_ALetter),
    (0x1E7E8, 0x1E7EB, WordCat::WC_ALetter),
    (0x1E7ED, 0x1E7EE, WordCat::WC_ALetter),
    (0x1E7F0, 0x1E7FE, WordCat::WC_ALetter),
    (0x1E800, 0x1E8C4, WordCat::WC_ALetter),
    (0x1E8D0, 0x1E8D6, WordCat::WC_Extend),
    (0x1E900, 0x1E943, WordCat::WC_ALetter),
    (0x1E944, 0x1E94A, WordCat::WC_Extend),
    (0x1E94B, 0x1E94B, WordCat::WC_ALetter),
    (0x1E950, 0x1E959, WordCat::WC_Numeric),
    (0x1EE00, 0x1EE03, WordCat::WC_ALetter),
    (0x1EE05, 0x1EE1F, WordCat::WC_ALetter),
    (0x1EE21, 0x1EE22, WordCat::WC_ALetter),
    (0x1EE24, 0x1EE24, WordCat::WC_ALetter),
    (0x1EE27, 0x1EE27, WordCat::WC_ALetter),
    (0x1EE29, 0x1EE32, WordCat::WC_ALetter),
    (0x1EE34, 0x1EE37, WordCat::WC_ALetter),
    (0x1EE39, 0x1EE39, WordCat::WC_ALetter),
    (0x1EE3B, 0x1EE3B, WordCat::WC_ALetter),
    (0x1EE42, 0x1EE42, WordCat::WC_ALetter),
    (0x1EE47, 0x1EE47, WordCat::WC_ALetter),
    (0x1EE49, 0x1EE49, WordCat::WC_ALetter),
    (0x1EE4B, 0x1EE4B, WordCat::WC_ALetter),
    (0x1EE4D, 0x1EE4F, WordCat::WC_ALetter),
    (0x1EE51, 0x1EE52, WordCat::WC_ALetter),
    (0x1EE54, 0x1EE54, WordCat::WC_ALetter),
    (0x1EE57, 0x1EE57, WordCat::WC_ALetter),
    (0x1EE59, 0x1EE59, WordCat::WC_ALetter),
    (0x1EE5B, 0x1EE5B, WordCat::WC_ALetter),
    (0x1EE5D, 0x1EE5D, WordCat::WC_ALetter),
    (0x1EE5F, 0x1EE5F, WordCat::WC_ALetter),
    (0x1EE61, 0x1EE62, WordCat::WC_ALetter),
    (0x1EE64, 0x1EE64, WordCat::WC_ALetter),
    (0x1EE67, 0x1EE6A, WordCat::WC_ALetter),
    (0x1EE6C, 0x1EE72, WordCat::WC_ALetter),
    (0x1EE74, 0x1EE77, WordCat::WC_ALetter),
    (0x1EE79, 0x1EE7C, WordCat::WC_ALetter),
    (0x1EE7E, 0x1EE7E, WordCat::WC_ALetter),
    (0x1EE80, 0x1EE89, WordCat::WC_ALetter),
    (0x1EE8B, 0x1EE9B, WordCat::WC_ALetter),
    (0x1EEA1, 0x1EEA3, WordCat::WC_ALetter),
    (0x1EEA5, 0x1EEA9, WordCat::WC_ALetter),
    (0x1EEAB, 0x1EEBB, WordCat::WC_ALetter),
    (0x1F130, 0x1F149, WordCat::WC_ALetter),
    (0x1F150, 0x1F169, WordCat::WC_ALetter),
    (0x1F170, 0x1F189, WordCat::WC_ALetter),
    (0x1F1E6, 0x1F1FF, WordCat::WC_Regional_Indicator),
    (0x1F3FB, 0x1F3FF, WordCat::WC_Extend),
    (0x1FBF0, 0x1FBF9, WordCat::WC_Numeric),
    (0xE0001, 0xE0001, WordCat::WC_Format),
    (0xE0020, 0xE007F, WordCat::WC_Extend),
    (0xE0100, 0xE01EF, WordCat::WC_Extend),
];

/// Code point ranges with the Extended_Pictographic property of the Unicode
/// Character Database (version 17.0), sorted and disjoint.
pub const EMOJI_CAT_TABLE: [(u32, u32, EmojiCat); 156] = [
    (0xA9, 0xA9, EmojiCat::EC_Extended_Pictographic),
    (0xAE, 0xAE, EmojiCat::EC_Extended_Pictographic),
    (0x203C, 0x203C, EmojiCat::EC_Extended_Pictographic),
    (0x2049, 0x2049, EmojiCat::EC_Extended_Pictographic),
    (0x2122, 0x2122, EmojiCat::EC_Extended_Pictographic),
    (0x2139, 0x2139, EmojiCat::EC_Extended_Pictographic),
    (0x2194, 0x2199, EmojiCat::EC_Extended_Pictographic),
    (0x21A9, 0x21AA, EmojiCat::EC_Extended_Pictographic),
    (0x231A, 0x231B, EmojiCat::EC_Extended_Pictographic),
    (0x2328, 0x2328, EmojiCat::EC_Extended_Pictographic),
    (0x23CF, 0x23CF, EmojiCat::EC_Extended_Pictographic),
    (0x23E9, 0x23F3, EmojiCat::EC_Extended_Pictographic),
    (0x23F8, 0x23FA, EmojiCat::EC_Extended_Pictographic),
    (0x24C2, 0x24C2, EmojiCat::EC_Extended_Pictographic),
    (0x25AA, 0x25AB, EmojiCat::EC_Extended_Pictographic),
    (0x25B6, 0x25B6, EmojiCat::EC_Extended_Pictographic),
    (0x25C0, 0x25C0, EmojiCat::EC_Extended_Pictographic),
    (0x25FB, 0x25FE, EmojiCat::EC_Extended_Pictographic),
    (0x2600, 0x2604, EmojiCat::EC_Extended_Pictographic),
    (0x260E, 0x260E, EmojiCat::EC_Extended_Pictographic),
    (0x2611, 0x2611, EmojiCat::EC_Extended_Pictographic),
    (0x2614, 0x2615, EmojiCat::EC_Extended_Pictographic),
    (0x2618, 0x2618, EmojiCat::EC_Extended_Pictographic),
    (0x261D, 0x261D, EmojiCat::EC_Extended_Pictographic),
    (0x2620, 0x2620, EmojiCat::EC_Extended_Pictographic),
    (0x2622, 0x2623, EmojiCat::EC_Extended_Pictographic),
    (0x2626, 0x2626, EmojiCat::EC_Extended_Pictographic),
    (0x262A, 0x262A, EmojiCat::EC_Extended_Pictographic),
    (0x262E, 0x262F, EmojiCat::EC_Extended_Pictographic),
    (0x2638, 0x263A, EmojiCat::EC_Extended_Pictographic),
    (0x2640, 0x2640, EmojiCat::EC_Extended_Pictographic),
    (0x2642, 0x2642, EmojiCat::EC_Extended_Pictographic),
    (0x2648, 0x2653, EmojiCat::EC_Extended_Pictographic),
    (0x265F, 0x2660, EmojiCat::EC_Extended_Pictographic),
    (0x2663, 0x2663, EmojiCat::EC_Extended_Pictographic),
    (0x2665, 0x2666, EmojiCat::EC_Extended_Pictographic),
    (0x2668, 0x2668, EmojiCat::EC_Extended_Pictographic),
    (0x267B, 0x267B, EmojiCat::EC_Extended_Pictographic),
    (0x267E, 0x267F, EmojiCat::EC_Extended_Pictographic),
    (0x2692, 0x2697, EmojiCat::EC_Extended_Pictographic),
    (0x2699, 0x2699, EmojiCat::EC_Extended_Pictographic),
    (0x269B, 0x269C, EmojiCat::EC_Extended_Pictographic),
    (0x26A0, 0x26A1, EmojiCat::EC_Extended_Pictographic),
    (0x26A7, 0x26A7, EmojiCat::EC_Extended_Pictographic),
    (0x26AA, 0x26AB, EmojiCat::EC_Extended_Pictographic),
    (0x26B0, 0x26B1, EmojiCat::EC_Extended_Pictographic),
    (0x26BD, 0x26BE, EmojiCat::EC_Extended_Pictographic),
    (0x26C4, 0x26C5, EmojiCat::EC_Extended_Pictographic),
    (0x26C8, 0x26C8, EmojiCat::EC_Extended_Pictographic),
    (0x26CE, 0x26CF, EmojiCat::EC_Extended_Pictographic),
    (0x26D1, 0x26D1, EmojiCat::EC_Extended_Pictographic),
    (0x26D3, 0x26D4, EmojiCat::EC_Extended_Pictographic),
    (0x26E9, 0x26EA, EmojiCat::EC_Extended_Pictographic),
    (0x26F0, 0x26F5, EmojiCat::EC_Extended_Pictographic),
    (0x26F7, 0x26FA, EmojiCat::EC_Extended_Pictographic),
    (0x26FD, 0x26FD, EmojiCat::EC_Extended_Pictographic),
    (0x2702, 0x2702, EmojiCat::EC_Extended_Pictographic),
    (0x2705, 0x2705, EmojiCat::EC_Extended_Pictographic),
    (0x2708, 0x270D, EmojiCat::EC_Extended_Pictographic),
    (0x270F, 0x270F, EmojiCat::EC_Extended_Pictographic),
    (0x2712, 0x2712, EmojiCat::EC_Extended_Pictographic),
    (0x2714, 0x2714, EmojiCat::EC_Extended_Pictographic),
    (0x2716, 0x2716, EmojiCat::EC_Extended_Pictographic),
    (0x271D, 0x271D, EmojiCat::EC_Extended_Pictographic),
    (0x2721, 0x2721, EmojiCat::EC_Extended_Pictographic),
    (0x2728, 0x2728, EmojiCat::EC_Extended_Pictographic),
    (0x2733, 0x2734, EmojiCat::EC_Extended_Pictographic),
    (0x2744, 0x2744, EmojiCat::EC_Extended_Pictographic),
    (0x2747, 0x2747, EmojiCat::EC_Extended_Pictographic),
    (0x274C, 0x274C, EmojiCat::EC_Extended_Pictographic),
    (0x274E, 0x274E, EmojiCat::EC_Extended_Pictographic),
    (0x2753, 0x2755, EmojiCat::EC_Extended_Pictographic),
    (0x2757, 0x2757, EmojiCat::EC_Extended_Pictographic),
    (0x2763, 0x2764, EmojiCat::EC_Extended_Pictographic),
    (0x2795, 0x2797, EmojiCat::EC_Extended_Pictographic),
    (0x27A1, 0x27A1, EmojiCat::EC_Extended_Pictographic),
    (0x27B0, 0x27B0, EmojiCat::EC_Extended_Pictographic),
    (0x27BF, 0x27BF, EmojiCat::EC_Extended_Pictographic),
    (0x2934, 0x2935, EmojiCat::EC_Extended_Pictographic),
    (0x2B05, 0x2B07, EmojiCat::EC_Extended_Pictographic),
    (0x2B1B, 0x2B1C, EmojiCat::EC_Extended_Pictographic),
    (0x2B50, 0x2B50, EmojiCat::EC_Extended_Pictographic),
    (0x2B55, 0x2B55, EmojiCat::EC_Extended_Pictographic),
    (0x3030, 0x3030, EmojiCat::EC_Extended_Pictographic),
    (0x303D, 0x303D, EmojiCat::EC_Extended_Pictographic),
    (0x3297, 0x3297, EmojiCat::EC_Extended_Pictographic),
    (0x3299, 0x3299, EmojiCat::EC_Extended_Pictographic),
    (0x1F004, 0x1F004, EmojiCat::EC_Extended_Pictographic),
    (0x1F02C, 0x1F02F, EmojiCat::EC_Extended_Pictographic),
    (0x1F094, 0x1F09F, EmojiCat::EC_Extended_Pictographic),
    (0x1F0AF, 0x1F0B0, EmojiCat::EC_Extended_Pictographic),
    (0x1F0C0, 0x1F0C0, EmojiCat::EC_Extended_Pictographic),
    (0x1F0CF, 0x1F0D0, EmojiCat::EC_Extended_Pictographic),
    (0x1F0F6, 0x1F0FF, EmojiCat::EC_Extended_Pictographic),
    (0x1F170, 0x1F171, EmojiCat::EC_Extended_Pictographic),
    (0x1F17E, 0x1F17F, EmojiCat::EC_Extended_Pictographic),
    (0x1F18E, 0x1F18E, EmojiCat::EC_Extended_Pictographic),
    (0x1F191, 0x1F19A, EmojiCat::EC_Extended_Pictographic),
    (0x1F1AE, 0x1F1E5, EmojiCat::EC_Extended_Pictographic),
    (0x1F201, 0x1F20F, EmojiCat::EC_Extended_Pictographic),
    (0x1F21A, 0x1F21A, EmojiCat::EC_Extended_Pictographic),
    (0x1F22F, 0x1F22F, EmojiCat::EC_Extended_Pictographic),
    (0x1F232, 0x1F23A, EmojiCat::EC_Extended_Pictographic),
    (0x1F23C, 0x1F23F, EmojiCat::EC_Extended_Pictographic),
    (0x1F249, 0x1F25F, EmojiCat::EC_Extended_Pictographic),
    (0x1F266, 0x1F321, EmojiCat::EC_Extended_Pictographic),
    (0x1F324, 0x1F393, EmojiCat::EC_Extended_Pictographic),
    (0x1F396, 0x1F397, EmojiCat::EC_Extended_Pictographic),
    (0x1F399, 0x1F39B, EmojiCat::EC_Extended_Pictographic),
    (0x1F39E, 0x1F3F0, EmojiCat::EC_Extended_Pictographic),
    (0x1F3F3, 0x1F3F5, EmojiCat::EC_Extended_Pictographic),
    (0x1F3F7, 0x1F3FA, EmojiCat::EC_Extended_Pictographic),
    (0x1F400, 0x1F4FD, EmojiCat::EC_Extended_Pictographic),
    (0x1F4FF, 0x1F53D, EmojiCat::EC_Extended_Pictographic),
    (0x1F549, 0x1F54E, EmojiCat::EC_Extended_Pictographic),
    (0x1F550, 0x1F567, EmojiCat::EC_Extended_Pictographic),
    (0x1F56F, 0x1F570, EmojiCat::EC_Extended_Pictographic),
    (0x1F573, 0x1F57A, EmojiCat::EC_Extended_Pictographic),
    (0x1F587, 0x1F587, EmojiCat::EC_Extended_Pictographic),
    (0x1F58A, 0x1F58D, EmojiCat::EC_Extended_Pictographic),
    (0x1F590, 0x1F590, EmojiCat::EC_Extended_Pictographic),
    (0x1F595, 0x1F596, EmojiCat::EC_Extended_Pictographic),
    (0x1F5A4, 0x1F5A5, EmojiCat::EC_Extended_Pictographic),
    (0x1F5A8, 0x1F5A8, EmojiCat::EC_Extended_Pictographic),
    (0x1F5B1, 0x1F5B2, EmojiCat::EC_Extended_Pictographic),
    (0x1F5BC, 0x1F5BC, EmojiCat::EC_Extended_Pictographic),
    (0x1F5C2, 0x1F5C4, EmojiCat::EC_Extended_Pictographic),
    (0x1F5D1, 0x1F5D3, EmojiCat::EC_Extended_Pictographic),
    (0x1F5DC, 0x1F5DE, EmojiCat::EC_Extended_Pictographic),
    (0x1F5E1, 0x1F5E1, EmojiCat::EC_Extended_Pictographic),
    (0x1F5E3, 0x1F5E3, EmojiCat::EC_Extended_Pictographic),
    (0x1F5E8, 0x1F5E8, EmojiCat::EC_Extended_Pictographic),
    (0x1F5EF, 0x1F5EF, EmojiCat::EC_Extended_Pictographic),
    (0x1F5F3, 0x1F5F3, EmojiCat::EC_Extended_Pictographic),
    (0x1F5FA, 0x1F64F, EmojiCat::EC_Extended_Pictographic),
    (0x1F680, 0x1F6C5, EmojiCat::EC_Extended_Pictographic),
    (0x1F6CB, 0x1F6D2, EmojiCat::EC_Extended_Pictographic),
    (0x1F6D5, 0x1F6E5, EmojiCat::EC_Extended_Pictographic),
    (0x1F6E9, 0x1F6E9, EmojiCat::EC_Extended_Pictographic),
    (0x1F6EB, 0x1F6F0, EmojiCat::EC_Extended_Pictographic),
    (0x1F6F3, 0x1F6FF, EmojiCat::EC_Extended_Pictographic),
    (0x1F7DA, 0x1F7FF, EmojiCat::EC_Extended_Pictographic),
    (0x1F80C, 0x1F80F, EmojiCat::EC_Extended_Pictographic),
    (0x1F848, 0x1F84F, EmojiCat::EC_Extended_Pictographic),
    (0x1F85A, 0x1F85F, EmojiCat::EC_Extended_Pictographic),
    (0x1F888, 0x1F88F, EmojiCat::EC_Extended_Pictographic),
    (0x1F8AE, 0x1F8AF, EmojiCat::EC_Extended_Pictographic),
    (0x1F8BC, 0x1F8BF, EmojiCat::EC_Extended_Pictographic),
    (0x1F8C2, 0x1F8CF, EmojiCat::EC_Extended_Pictographic),
    (0x1F8D9, 0x1F8FF, EmojiCat::EC_Extended_Pictographic),
    (0x1F90C, 0x1F93A, EmojiCat::EC_Extended_Pictographic),
    (0x1F93C, 0x1F945, EmojiCat::EC_Extended_Pictographic),
    (0x1F947, 0x1F9FF, EmojiCat::EC_Extended_Pictographic),
    (0x1FA58, 0x1FA5F, EmojiCat::EC_Extended_Pictographic),
    (0x1FA6E, 0x1FAFF, EmojiCat::EC_Extended_Pictographic),
    (0x1FC00, 0x1FFFD, EmojiCat::EC_Extended_Pictographic),
];

/// Each row of `t` is a non-empty range, and the rows are in increasing order
/// without overlap.
#[verifier::opaque]
pub open spec fn table_sorted<T>(t: Seq<(u32, u32, T)>) -> bool {
    &&& forall|i: int| 0 <= i < t.len() ==> #[trigger] t[i].0 <= t[i].1
    &&& forall|i: int, j: int| #![trigger t[i], t[j]] 0 <= i < j < t.len() ==> t[i].1 < t[j].0
}

/// `t` is sorted from row `i` on, stated one row pair at a time.
pub open spec fn sorted_from<T>(t: Seq<(u32, u32, T)>, i: nat) -> bool
    decreases t.len() - i,
{
    if i + 1 >= t.len() {
        i < t.len() ==> t[i as int].0 <= t[i as int].1
    } else {
        t[i as int].0 <= t[i as int].1 && t[i as int].1 < t[i + 1int].0 && sorted_from(t, i + 1)
    }
}

proof fn lemma_sorted_from<T>(t: Seq<(u32, u32, T)>, i: nat)
    requires
        sorted_from(t, i),
    ensures
        forall|a: int| i <= a < t.len() ==> #[trigger] t[a].0 <= t[a].1,
        forall|a: int, b: int| #![trigger t[a], t[b]] i <= a < b < t.len() ==> t[a].1 < t[b].0,
    decreases t.len() - i,
{
    if i + 1 < t.len() {
        lemma_sorted_from(t, i + 1);
    }
}

/// Whether row `k` of `t` holds the code point `c`.
pub open spec fn row_holds<T>(t: Seq<(u32, u32, T)>, k: int, c: u32) -> bool {
    0 <= k < t.len() && t[k].0 <= c <= t[k].1
}

/// Rows before `p` lie wholly below `c`, and rows from `p` on wholly above it.
pub open spec fn splits_at<T>(t: Seq<(u32, u32, T)>, c: u32, p: int) -> bool {
    &&& 0 <= p <= t.len()
    &&& forall|k: int| 0 <= k < p ==> #[trigger] t[k].1 < c
    &&& forall|k: int| p <= k < t.len() ==> c < #[trigger] t[k].0
}

/// The number of rows of `t` that lie wholly below `c`, where no row holds `c`.
pub open spec fn gap_index<T>(t: Seq<(u32, u32, T)>, c: u32) -> int {
    choose|p: int| #[trigger] splits_at(t, c, p)
}

/// The row of `t` that holds `c`; where none does, the gap between rows that
/// holds `c`, from one past the row below (or 0) to one before the row above
/// (or U+10FFFF), with the value `default`.
pub open spec fn range_lookup<T>(t: Seq<(u32, u32, T)>, c: u32, default: T) -> (u32, u32, T) {
    if exists|k: int| row_holds(t, k, c) {
        t[choose|k: int| row_holds(t, k, c)]
    } else {
        let p = gap_index(t, c);
        (
            if p > 0 { (t[p - 1].1 + 1) as u32 } else { 0 },
            if p < t.len() { (t[p].0 - 1) as u32 } else { 0x10FFFF },
            default,
        )
    }
}

/// The row of the word table that holds `c`, or the gap around it.
pub closed spec fn word_range(c: char) -> (u32, u32, WordCat) {
    range_lookup(WORD_CAT_TABLE@, c as u32, WordCat::WC_Any)
}

/// The row of the emoji table that holds `c`, or the gap around it.
pub closed spec fn emoji_range(c: char) -> (u32, u32, EmojiCat) {
    range_lookup(EMOJI_CAT_TABLE@, c as u32, EmojiCat::EC_Any)
}

/// The word break category of `c`.
pub closed spec fn word_cat(c: char) -> WordCat {
    word_range(c).2
}

/// Whether `c` has the Extended_Pictographic property.
pub closed spec fn is_extended_pictographic(c: char) -> bool {
    emoji_range(c).2 == EmojiCat::EC_Extended_Pictographic
}

/// A table sorted row pair by row pair from its first row is sorted.
proof fn lemma_sorted_table<T>(t: Seq<(u32, u32, T)>)
    requires
        sorted_from(t, 0),
    ensures
        table_sorted(t),
{
    reveal(table_sorted);
    lemma_sorted_from(t, 0);
}

/// The rows of a table sorted from row `i` on start no lower than row `i`.
pub proof fn lemma_sorted_from_lower<T>(t: Seq<(u32, u32, T)>, i: nat)
    requires
        sorted_from(t, i),
        i < t.len(),
    ensures
        forall|k: int| i <= k < t.len() ==> t[i as int].0 <= #[trigger] t[k].0,
{
    lemma_sorted_from(t, i);
    assert forall|k: int| i <= k < t.len() implies t[i as int].0 <= #[trigger] t[k].0 by {
        if k > i {
            assert(t[i as int].1 < t[k].0);
        }
    }
}

/// The emoji table is sorted, stated row pair by row pair.
pub proof fn lemma_emoji_table_sorted_from_start()
    ensures
        sorted_from(EMOJI_CAT_TABLE@, 0),
{
    lemma_emoji_table_sorted();
}

/// The word table is sorted from its first non-ASCII row on.
pub proof fn lemma_word_table_sorted_past_ascii()
    ensures
        sorted_from(WORD_CAT_TABLE@, 14),
{
    lemma_word_table_sorted();
}

/// Rows 1000 to 1099 of the word table are in order.
proof fn lemma_word_rows_sorted_1000()
    ensures
        sorted_from(WORD_CAT_TABLE@, 1000),
{
    assert(sorted_from(WORD_CAT_TABLE@, 1090)) by {
        reveal_with_fuel(sorted_from, 11);
    }
    assert(sorted_from(WORD_CAT_TABLE@, 1080)) by {
        reveal_with_fuel(sorted_from, 11);
    }
    assert(sorted_from(WORD_CAT_TABLE@, 1070)) by {
        reveal_with_fuel(sorted_from, 11);
    }
    assert(sorted_from(WORD_CAT_TABLE@, 1060)) by {
        reveal_with_fuel(sorted_from, 11);
    }
    assert(sorted_from(WORD_CAT_TABLE@, 1050)) by {
        reveal_with_fuel(sorted_from, 11);
    }
    assert(sorted_from(WORD_CAT_TABLE@, 1040)) by {
        reveal_with_fuel(sorted_from, 11);
    }
    assert(sorted_from(WORD_CAT_TABLE@, 1030)) by {
        reveal_with_fuel(sorted_from, 11);
    }
    assert(sorted_from(WORD_CAT_TABLE@, 1020)) by {
        reveal_with_fuel(sorted_from, 11);
    }
    assert(sorted_from(WORD_CAT_TABLE@, 1010)) by {
        reveal_with_fuel(sorted_from, 11);
    }
    assert(sorted_from(WORD_CAT_TABLE@, 1000)) by {
        reveal_with_fuel(sorted_from, 11);
    }
}

/// Rows 900 to 999 of the word table are in order.
proof fn lemma_word_rows_sorted_900()
    requires
        sorted_from(WORD_CAT_TABLE@, 1000),
    ensures
        sorted_from(WORD_CAT_TABLE@, 900),
{
    assert(sorted_from(WORD_CAT_TABLE@, 990)) by {
        reveal_with_fuel(sorted_from, 11);
    }
    assert(sorted_from(WORD_CAT_TABLE@, 980)) by {
        reveal_with_fuel(sorted_from, 11);
    }
    assert(sorted_from(WORD_CAT_TABLE@, 970)) by {
        reveal_with_fuel(sorted_from, 11);
    }
    assert(sorted_from(WORD_CAT_TABLE@, 960)) by {
        reveal_with_fuel(sorted_from, 11);
    }
    assert(sorted_from(WORD_CAT_TABLE@, 950)) by {
        reveal_with_fuel(sorted_from, 11);
    }
    assert(sorted_from(WORD_CAT_TABLE@, 940)) by {
        reveal_with_fuel(sorted_from, 11);
    }
    assert(sorted_from(WORD_CAT_TABLE@, 930)) by {
        reveal_with_fuel(sorted_from, 11);
    }
    assert(sorted_from(WORD_CAT_TABLE@, 920)) by {
        reveal_with_fuel(sorted_from, 11);
    }
    assert(sorted_from(WORD_CAT_TABLE@, 910)) by {
        reveal_with_fuel(sorted_from, 11);
    }
    assert(sorted_from(WORD_CAT_TABLE@, 900)) by {
        reveal_with_fuel(sorted_from, 11);
    }
}

/// Rows 800 to 899 of the word table are in order.
proof fn lemma_word_rows_sorted_800()
    requires
        sorted_from(WORD_CAT_TABLE@, 900),
    ensures
        sorted_from(WORD_CAT_TABLE@, 800),
{
    assert(sorted_from(WORD_CAT_TABLE@, 890)) by {
        reveal_with_fuel(sorted_from, 11);
    }
    assert(sorted_from(WORD_CAT_TABLE@, 880)) by {
        reveal_with_fuel(sorted_from, 11);
    }
    assert(sorted_from(WORD_CAT_TABLE@, 870)) by {
        reveal_with_fuel(sorted_from, 11);
    }
    assert(sorted_from(WORD_CAT_TABLE@, 860)) by {
        reveal_with_fuel(sorted_from, 11);
    }
    assert(sorted_from(WORD_CAT_TABLE@, 850)) by {
        reveal_with_fuel(sorted_from, 11);
    }
    assert(sorted_from(WORD_CAT_TABLE@, 840)) by {
        reveal_with_fuel(sorted_from, 11);
    }
    assert(sorted_from(WORD_CAT_TABLE@, 830)) by {
        reveal_with_fuel(sorted_from, 11);
    }
    assert(sorted_from(WORD_CAT_TABLE@, 820)) by {
        reveal_with_fuel(sorted_from, 11);
    }
    assert(sorted_from(WORD_CAT_TABLE@, 810)) by {
        reveal_with_fuel(sorted_from, 11);
    }
    assert(sorted_from(WORD_CAT_TABLE@, 800)) by {
        reveal_with_fuel(sorted_from, 11);
    }
}

/// Rows 700 to 799 of the word table are in order.
proof fn lemma_word_rows_sorted_700()
    requires
        sorted_from(WORD_CAT_TABLE@, 800),
    ensures
        sorted_from(WORD_CAT_TABLE@, 700),
{
    assert(sorted_from(WORD_CAT_TABLE@, 790)) by {
        reveal_with_fuel(sorted_from, 11);
    }
    assert(sorted_from(WORD_CAT_TABLE@, 780)) by {
        reveal_with_fuel(sorted_from, 11);
    }
    assert(sorted_from(WORD_CAT_TABLE@, 770)) by {
        reveal_with_fuel(sorted_from, 11);
    }
    assert(sorted_from(WORD_CAT_TABLE@, 760)) by {
        reveal_with_fuel(sorted_from, 11);
    }
    assert(sorted_from(WORD_CAT_TABLE@, 750)) by {
        reveal_with_fuel(sorted_from, 11);
    }
    assert(sorted_from(WORD_CAT_TABLE@, 740)) by {
        reveal_with_fuel(sorted_from, 11);
    }
    assert(sorted_from(WORD_CAT_TABLE@, 730)) by {
        reveal_with_fuel(sorted_from, 11);
    }
    assert(sorted_from(WORD_CAT_TABLE@, 720)) by {
        reveal_with_fuel(sorted_from, 11);
    }
    assert(sorted_from(WORD_CAT_TABLE@, 710)) by {
        reveal_with_fuel(sorted_from, 11);
    }
    assert(sorted_from(WORD_CAT_TABLE@, 700)) by {
        reveal_with_fuel(sorted_from, 11);
    }
}

/// Rows 600 to 699 of the word table are in order.
proof fn lemma_word_rows_sorted_600()
    requires
        sorted_from(WORD_CAT_TABLE@, 700),
    ensures
        sorted_from(WORD_CAT_TABLE@, 600),
{
    assert(sorted_from(WORD_CAT_TABLE@, 690)) by {
        reveal_with_fuel(sorted_from, 11);
    }
    assert(sorted_from(WORD_CAT_TABLE@, 680)) by {
        reveal_with_fuel(sorted_from, 11);
    }
    assert(sorted_from(WORD_CAT_TABLE@, 670)) by {
        reveal_with_fuel(sorted_from, 11);
    }
    assert(sorted_from(WORD_CAT_TABLE@, 660)) by {
        reveal_with_fuel(sorted_from, 11);
    }
    assert(sorted_from(WORD_CAT_TABLE@, 650)) by {
        reveal_with_fuel(sorted_from, 11);
    }
    assert(sorted_from(WORD_CAT_TABLE@, 640)) by {
        reveal_with_fuel(sorted_from, 11);
    }
    assert(sorted_from(WORD_CAT_TABLE@, 630)) by {
        reveal_with_fuel(sorted_from, 11);
    }
    assert(sorted_from(WORD_CAT_TABLE@, 620)) by {
        reveal_with_fuel(sorted_from, 11);
    }
    assert(sorted_from(WORD_CAT_TABLE@, 610)) by {
        reveal_with_fuel(sorted_from, 11);
    }
    assert(sorted_from(WORD_CAT_TABLE@, 600)) by {
        reveal_with_fuel(sorted_from, 11);
    }
}

/// Rows 500 to 599 of the word table are in order.
proof fn lemma_word_rows_sorted_500()
    requires
        sorted_from(WORD_CAT_TABLE@, 600),
    ensures
        sorted_from(WORD_CAT_TABLE@, 500),
{
    assert(sorted_from(WORD_CAT_TABLE@, 590)) by {
        reveal_with_fuel(sorted_from, 11);
    }
    assert(sorted_from(WORD_CAT_TABLE@, 580)) by {
        reveal_with_fuel(sorted_from, 11);
    }
    assert(sorted_from(WORD_CAT_TABLE@, 570)) by {
        reveal_with_fuel(sorted_from, 11);
    }
    assert(sorted_from(WORD_CAT_TABLE@, 560)) by {
        reveal_with_fuel(sorted_from, 11);
    }
    assert(sorted_from(WORD_CAT_TABLE@, 550)) by {
        reveal_with_fuel(sorted_from, 11);
    }
    assert(sorted_from(WORD_CAT_TABLE@, 540)) by {
        reveal_with_fuel(sorted_from, 11);
    }
    assert(sorted_from(WORD_CAT_TABLE@, 530)) by {
        reveal_with_fuel(sorted_from, 11);
    }
    assert(sorted_from(WORD_CAT_TABLE@, 520)) by {
        reveal_with_fuel(sorted_from, 11);
    }
    assert(sorted_from(WORD_CAT_TABLE@, 510)) by {
        reveal_with_fuel(sorted_from, 11);
    }
    assert(sorted_from(WORD_CAT_TABLE@, 500)) by {
        reveal_with_fuel(sorted_from, 11);
    }
}

/// Rows 400 to 499 of the word table are in order.
proof fn lemma_word_rows_sorted_400()
    requires
        sorted_from(WORD_CAT_TABLE@, 500),
    ensures
        sorted_from(WORD_CAT_TABLE@, 400),
{
    assert(sorted_from(WORD_CAT_TABLE@, 490)) by {
        reveal_with_fuel(sorted_from, 11);
    }
    assert(sorted_from(WORD_CAT_TABLE@, 480)) by {
        reveal_with_fuel(sorted_from, 11);
    }
    assert(sorted_from(WORD_CAT_TABLE@, 470)) by {
        reveal_with_fuel(sorted_from, 11);
    }
    assert(sorted_from(WORD_CAT_TABLE@, 460)) by {
        reveal_with_fuel(sorted_from, 11);
    }
    assert(sorted_from(WORD_CAT_TABLE@, 450)) by {
        reveal_with_fuel(sorted_from, 11);
    }
    assert(sorted_from(WORD_CAT_TABLE@, 440)) by {
        reveal_with_fuel(sorted_from, 11);
    }
    assert(sorted_from(WORD_CAT_TABLE@, 430)) by {
        reveal_with_fuel(sorted_from, 11);
    }
    assert(sorted_from(WORD_CAT_TABLE@, 420)) by {
        reveal_with_fuel(sorted_from, 11);
    }
    assert(sorted_from(WORD_CAT_TABLE@, 410)) by {
        reveal_with_fuel(sorted_from, 11);
    }
    assert(sorted_from(WORD_CAT_TABLE@, 400)) by {
        reveal_with_fuel(sorted_from, 11);
    }
}

/// Rows 300 to 399 of the word table are in order.
proof fn lemma_word_rows_sorted_300()
    requires
        sorted_from(WORD_CAT_TABLE@, 400),
    ensures
        sorted_from(WORD_CAT_TABLE@, 300),
{
    assert(sorted_from(WORD_CAT_TABLE@, 390)) by {
        reveal_with_fuel(sorted_from, 11);
    }
    assert(sorted_from(WORD_CAT_TABLE@, 380)) by {
        reveal_with_fuel(sorted_from, 11);
    }
    assert(sorted_from(WORD_CAT_TABLE@, 370)) by {
        reveal_with_fuel(sorted_from, 11);
    }
    assert(sorted_from(WORD_CAT_TABLE@, 360)) by {
        reveal_with_fuel(sorted_from, 11);
    }
    assert(sorted_from(WORD_CAT_TABLE@, 350)) by {
        reveal_with_fuel(sorted_from, 11);
    }
    assert(sorted_from(WORD_CAT_TABLE@, 340)) by {
        reveal_with_fuel(sorted_from, 11);
    }
    assert(sorted_from(WORD_CAT_TABLE@, 330)) by {
        reveal_with_fuel(sorted_from, 11);
    }
    assert(sorted_from(WORD_CAT_TABLE@, 320)) by {
        reveal_with_fuel(sorted_from, 11);
    }
    assert(sorted_from(WORD_CAT_TABLE@, 310)) by {
        reveal_with_fuel(sorted_from, 11);
    }
    assert(sorted_from(WORD_CAT_TABLE@, 300)) by {
        reveal_with_fuel(sorted_from, 11);
    }
}

/// Rows 200 to 299 of the word table are in order.
proof fn lemma_word_rows_sorted_200()
    requires
        sorted_from(WORD_CAT_TABLE@, 300),
    ensures
        sorted_from(WORD_CAT_TABLE@, 200),
{
    assert(sorted_from(WORD_CAT_TABLE@, 290)) by {
        reveal_with_fuel(sorted_from, 11);
    }
    assert(sorted_from(WORD_CAT_TABLE@, 280)) by {
        reveal_with_fuel(sorted_from, 11);
    }
    assert(sorted_from(WORD_CAT_TABLE@, 270)) by {
        reveal_with_fuel(sorted_from, 11);
    }
    assert(sorted_from(WORD_CAT_TABLE@, 260)) by {
        reveal_with_fuel(sorted_from, 11);
    }
    assert(sorted_from(WORD_CAT_TABLE@, 250)) by {
        reveal_with_fuel(sorted_from, 11);
    }
    assert(sorted_from(WORD_CAT_TABLE@, 240)) by {
        reveal_with_fuel(sorted_from, 11);
    }
    assert(sorted_from(WORD_CAT_TABLE@, 230)) by {
        reveal_with_fuel(sorted_from, 11);
    }
    assert(sorted_from(WORD_CAT_TABLE@, 220)) by {
        reveal_with_fuel(sorted_from, 11);
    }
    assert(sorted_from(WORD_CAT_TABLE@, 210)) by {
        reveal_with_fuel(sorted_from, 11);
    }
    assert(sorted_from(WORD_CAT_TABLE@, 200)) by {
        reveal_with_fuel(sorted_from, 11);
    }
}

/// Rows 100 to 199 of the word table are in order.
proof fn lemma_word_rows_sorted_100()
    requires
        sorted_from(WORD_CAT_TABLE@, 200),
    ensures
        sorted_from(WORD_CAT_TABLE@, 100),
{
    assert(sorted_from(WORD_CAT_TABLE@, 190)) by {
        reveal_with_fuel(sorted_from, 11);
    }
    assert(sorted_from(WORD_CAT_TABLE@, 180)) by {
        reveal_with_fuel(sorted_from, 11);
    }
    assert(sorted_from(WORD_CAT_TABLE@, 170)) by {
        reveal_with_fuel(sorted_from, 11);
    }
    assert(sorted_from(WORD_CAT_TABLE@, 160)) by {
        reveal_with_fuel(sorted_from, 11);
    }
    assert(sorted_from(WORD_CAT_TABLE@, 150)) by {
        reveal_with_fuel(sorted_from, 11);
    }
    assert(sorted_from(WORD_CAT_TABLE@, 140)) by {
        reveal_with_fuel(sorted_from, 11);
    }
    assert(sorted_from(WORD_CAT_TABLE@, 130)) by {
        reveal_with_fuel(sorted_from, 11);
    }
    assert(sorted_from(WORD_CAT_TABLE@, 120)) by {
        reveal_with_fuel(sorted_from, 11);
    }
    assert(sorted_from(WORD_CAT_TABLE@, 110)) by {
        reveal_with_fuel(sorted_from, 11);
    }
    assert(sorted_from(WORD_CAT_TABLE@, 100)) by {
        reveal_with_fuel(sorted_from, 11);
    }
}

/// Rows 0 to 99 of the word table are in order.
proof fn lemma_word_rows_sorted_0()
    requires
        sorted_from(WORD_CAT_TABLE@, 100),
    ensures
        sorted_from(WORD_CAT_TABLE@, 14),
        sorted_from(WORD_CAT_TABLE@, 0),
{
    assert(sorted_from(WORD_CAT_TABLE@, 90)) by {
        reveal_with_fuel(sorted_from, 11);
    }
    assert(sorted_from(WORD_CAT_TABLE@, 80)) by {
        reveal_with_fuel(sorted_from, 11);
    }
    assert(sorted_from(WORD_CAT_TABLE@, 70)) by {
        reveal_with_fuel(sorted_from, 11);
    }
    assert(sorted_from(WORD_CAT_TABLE@, 60)) by {
        reveal_with_fuel(sorted_from, 11);
    }
    assert(sorted_from(WORD_CAT_TABLE@, 50)) by {
        reveal_with_fuel(sorted_from, 11);
    }
    assert(sorted_from(WORD_CAT_TABLE@, 40)) by {
        reveal_with_fuel(sorted_from, 11);
    }
    assert(sorted_from(WORD_CAT_TABLE@, 30)) by {
        reveal_with_fuel(sorted_from, 11);
    }
    assert(sorted_from(WORD_CAT_TABLE@, 20)) by {
        reveal_with_fuel(sorted_from, 11);
    }
    assert(sorted_from(WORD_CAT_TABLE@, 14)) by {
        reveal_with_fuel(sorted_from, 11);
    }
    assert(sorted_from(WORD_CAT_TABLE@, 10)) by {
        reveal_with_fuel(sorted_from, 11);
    }
    assert(sorted_from(WORD_CAT_TABLE@, 0)) by {
        reveal_with_fuel(sorted_from, 11);
    }
}

/// The word table is sorted, as a whole and row pair by row pair from its
/// first non-ASCII row on.
pub proof fn lemma_word_table_sorted()
    ensures
        table_sorted(WORD_CAT_TABLE@),
        sorted_from(WORD_CAT_TABLE@, 14),
{
    lemma_word_rows_sorted_1000();
    lemma_word_rows_sorted_900();
    lemma_word_rows_sorted_800();
    lemma_word_rows_sorted_700();
    lemma_word_rows_sorted_600();
    lemma_word_rows_sorted_500();
    lemma_word_rows_sorted_400();
    lemma_word_rows_sorted_300();
    lemma_word_rows_sorted_200();
    lemma_word_rows_sorted_100();
    lemma_word_rows_sorted_0();
    lemma_sorted_table(WORD_CAT_TABLE@);
}

/// The emoji table is sorted, as a whole and row pair by row pair.
pub proof fn lemma_emoji_table_sorted()
    ensures
        table_sorted(EMOJI_CAT_TABLE@),
        sorted_from(EMOJI_CAT_TABLE@, 0),
{
    assert(sorted_from(EMOJI_CAT_TABLE@, 150)) by {
        reveal_with_fuel(sorted_from, 11);
    }
    assert(sorted_from(EMOJI_CAT_TABLE@, 140)) by {
        reveal_with_fuel(sorted_from, 11);
    }
    assert(sorted_from(EMOJI_CAT_TABLE@, 130)) by {
        reveal_with_fuel(sorted_from, 11);
    }
    assert(sorted_from(EMOJI_CAT_TABLE@, 120)) by {
        reveal_with_fuel(sorted_from, 11);
    }
    assert(sorted_from(EMOJI_CAT_TABLE@, 110)) by {
        reveal_with_fuel(sorted_from, 11);
    }
    assert(sorted_from(EMOJI_CAT_TABLE@, 100)) by {
        reveal_with_fuel(sorted_from, 11);
    }
    assert(sorted_from(EMOJI_CAT_TABLE@, 90)) by {
        reveal_with_fuel(sorted_from, 11);
    }
    assert(sorted_from(EMOJI_CAT_TABLE@, 80)) by {
        reveal_with_fuel(sorted_from, 11);
    }
    assert(sorted_from(EMOJI_CAT_TABLE@, 70)) by {
        reveal_with_fuel(sorted_from, 11);
    }
    assert(sorted_from(EMOJI_CAT_TABLE@, 60)) by {
        reveal_with_fuel(sorted_from, 11);
    }
    assert(sorted_from(EMOJI_CAT_TABLE@, 50)) by {
        reveal_with_fuel(sorted_from, 11);
    }
    assert(sorted_from(EMOJI_CAT_TABLE@, 40)) by {
        reveal_with_fuel(sorted_from, 11);
    }
    assert(sorted_from(EMOJI_CAT_TABLE@, 30)) by {
        reveal_with_fuel(sorted_from, 11);
    }
    assert(sorted_from(EMOJI_CAT_TABLE@, 20)) by {
        reveal_with_fuel(sorted_from, 11);
    }
    assert(sorted_from(EMOJI_CAT_TABLE@, 10)) by {
        reveal_with_fuel(sorted_from, 11);
    }
    assert(sorted_from(EMOJI_CAT_TABLE@, 0)) by {
        reveal_with_fuel(sorted_from, 11);
    }
    lemma_sorted_table(EMOJI_CAT_TABLE@);
}

/// Finds the row of a sorted range table that holds `c` by binary search.
pub fn bsearch_range_value_table<T: Copy>(c: u32, r: &[(u32, u32, T)], default: T) -> (res: (
    u32,
    u32,
    T,
))
    requires
        table_sorted(r@),
        c <= 0x10FFFF,
    ensures
        res == range_lookup(r@, c, default),
        res.0 <= c <= res.1,
{
    reveal(table_sorted);
    let n = r.len();
    let mut lo: usize = 0;
    let mut hi: usize = n;
    while lo < hi
        invariant
            0 <= lo <= hi <= n,
            n == r@.len(),
            table_sorted(r@),
            forall|k: int| 0 <= k < lo ==> #[trigger] r@[k].1 < c,
            forall|k: int| hi <= k < n ==> c < #[trigger] r@[k].0,
        decreases hi - lo,
    {
        proof {
            reveal(table_sorted);
        }
        let mid = lo + (hi - lo) / 2;
        let (rlo, rhi, v) = r[mid];
        if rhi < c {
            lo = mid + 1;
        } else if c < rlo {
            hi = mid;
        } else {
            proof {
                reveal(table_sorted);
                assert(row_holds(r@, mid as int, c));
                let k = choose|k: int| row_holds(r@, k, c);
                assert(k == mid) by {
                    if k < mid {
                        assert(r@[k].1 < r@[mid as int].0);
                    } else if k > mid {
                        assert(r@[mid as int].1 < r@[k].0);
                    }
                }
            }
            return (rlo, rhi, v);
        }
    }
    proof {
        assert(!exists|k: int| row_holds(r@, k, c)) by {
            assert forall|k: int| !row_holds(r@, k, c) by {
                if 0 <= k < n {
                    if k < lo {
                        assert(r@[k].1 < c);
                    } else {
                        assert(c < r@[k].0);
                    }
                }
            }
        }
        let p = gap_index(r@, c);
        assert(splits_at(r@, c, lo as int));
        assert(p == lo) by {
            if p < lo {
                assert(c < r@[p].0);
                assert(r@[p].1 < c);
            } else if p > lo {
                assert(r@[lo as int].1 < c);
                assert(c < r@[lo as int].0);
            }
        }
    }
    let lower = if lo > 0 {
        r[lo - 1].1 + 1
    } else {
        0
    };
    let upper = if lo < n {
        r[lo].0 - 1
    } else {
        0x10FFFF
    };
    (lower, upper, default)
}

/// The code point range around `c` that shares its word break category, and
/// that category.
pub fn word_category(c: char) -> (r: (u32, u32, WordCat))
    ensures
        r == word_range(c),
        r.2 == word_cat(c),
{
    proof {
        lemma_word_table_sorted();
    }
    let t = WORD_CAT_TABLE;
    bsearch_range_value_table(c as u32, t.as_slice(), WordCat::WC_Any)
}

/// The code point range around `c` that shares its emoji category, and that
/// category.
pub fn emoji_category(c: char) -> (r: (u32, u32, EmojiCat))
    ensures
        r == emoji_range(c),
        (r.2 == EmojiCat::EC_Extended_Pictographic) == is_extended_pictographic(c),
{
    proof {
        lemma_emoji_table_sorted();
    }
    let t = EMOJI_CAT_TABLE;
    bsearch_range_value_table(c as u32, t.as_slice(), EmojiCat::EC_Any)
}

/// Code point ranges with the Alphabetic property or a Number general
/// category (Nd, Nl, No) in the Unicode Character Database (version 17.0),
/// sorted and disjoint, with adjacent ranges merged.
pub const ALNUM_TABLE: [(u32, u32, bool); 844] = [
    (0x30, 0x39, true),
    (0x41, 0x5A, true),
    (0x61, 0x7A, true),
    (0xAA, 0xAA, true),
    (0xB2, 0xB3, true),
    (0xB5, 0xB5, true),
    (0xB9, 0xBA, true),
    (0xBC, 0xBE, true),
    (0xC0, 0xD6, true),
    (0xD8, 0xF6, true),
    (0xF8, 0x2C1, true),
    (0x2C6, 0x2D1, true),
    (0x2E0, 0x2E4, true),
    (0x2EC, 0x2EC, true),
    (0x2EE, 0x2EE, true),
    (0x345, 0x345, true),
    (0x363, 0x374, true),
    (0x376, 0x377, true),
    (0x37A, 0x37D, true),
    (0x37F, 0x37F, true),
    (0x386, 0x386, true),
    (0x388, 0x38A, true),
    (0x38C, 0x38C, true),
    (0x38E, 0x3A1, true),
    (0x3A3, 0x3F5, true),
    (0x3F7, 0x481, true),
    (0x48A, 0x52F, true),
    (0x531, 0x556, true),
    (0x559, 0x559, true),
    (0x560, 0x588, true),
    (0x5B0, 0x5BD, true),
    (0x5BF, 0x5BF, true),
    (0x5C1, 0x5C2, true),
    (0x5C4, 0x5C5, true),
    (0x5C7, 0x5C7, true),
    (0x5D0, 0x5EA, true),
    (0x5EF, 0x5F2, true),
    (0x610, 0x61A, true),
    (0x620, 0x657, true),
    (0x659, 0x669, true),
    (0x66E, 0x6D3, true),
    (0x6D5, 0x6DC, true),
    (0x6E1, 0x6E8, true),
    (0x6ED, 0x6FC, true),
    (0x6FF, 0x6FF, true),
    (0x710, 0x73F, true),
    (0x74D, 0x7B1, true),
    (0x7C0, 0x7EA, true),
    (0x7F4, 0x7F5, true),
    (0x7FA, 0x7FA, true),
    (0x800, 0x817, true),
    (0x81A, 0x82C, true),
    (0x840, 0x858, true),
    (0x860, 0x86A, true),
    (0x870, 0x887, true),
    (0x889, 0x88F, true),
    (0x897, 0x897, true),
    (0x8A0, 0x8C9, true),
    (0x8D4, 0x8DF, true),
    (0x8E3, 0x8E9, true),
    (0x8F0, 0x93B, true),
    (0x93D, 0x94C, true),
    (0x94E, 0x950, true),
    (0x955, 0x963, true),
    (0x966, 0x96F, true),
    (0x971, 0x983, true),
    (0x985, 0x98C, true),
    (0x98F, 0x990, true),
    (0x993, 0x9A8, true),
    (0x9AA, 0x9B0, true),
    (0x9B2, 0x9B2, true),
    (0x9B6, 0x9B9, true),
    (0x9BD, 0x9C4, true),
    (0x9C7, 0x9C8, true),
    (0x9CB, 0x9CC, true),
    (0x9CE, 0x9CE, true),
    (0x9D7, 0x9D7, true),
    (0x9DC, 0x9DD, true),
    (0x9DF, 0x9E3, true),
    (0x9E6, 0x9F1, true),
    (0x9F4, 0x9F9, true),
    (0x9FC, 0x9FC, true),
    (0xA01, 0xA03, true),
    (0xA05, 0xA0A, true),
    (0xA0F, 0xA10, true),
    (0xA13, 0xA28, true),
    (0xA2A, 0xA30, true),
    (0xA32, 0xA33, true),
    (0xA35, 0xA36, true),
    (0xA38, 0xA39, true),
    (0xA3E, 0xA42, true),
    (0xA47, 0xA48, true),
    (0xA4B, 0xA4C, true),
    (0xA51, 0xA51, true),
    (0xA59, 0xA5C, true),
    (0xA5E, 0xA5E, true),
    (0xA66, 0xA75, true),
    (0xA81, 0xA83, true),
    (0xA85, 0xA8D, true),
    (0xA8F, 0xA91, true),
    (0xA93, 0xAA8, true),
    (0xAAA, 0xAB0, true),
    (0xAB2, 0xAB3, true),
    (0xAB5, 0xAB9, true),
    (0xABD, 0xAC5, true),
    (0xAC7, 0xAC9, true),
    (0xACB, 0xACC, true),
    (0xAD0, 0xAD0, true),
    (0xAE0, 0xAE3, true),
    (0xAE6, 0xAEF, true),
    (0xAF9, 0xAFC, true),
    (0xB01, 0xB03, true),
    (0xB05, 0xB0C, true),
    (0xB0F, 0xB10, true),
    (0xB13, 0xB28, true),
    (0xB2A, 0xB30, true),
    (0xB32, 0xB33, true),
    (0xB35, 0xB39, true),
    (0xB3D, 0xB44, true),
    (0xB47, 0xB48, true),
    (0xB4B, 0xB4C, true),
    (0xB56, 0xB57, true),
    (0xB5C, 0xB5D, true),
    (0xB5F, 0xB63, true),
    (0xB66, 0xB6F, true),
    (0xB71, 0xB77, true),
    (0xB82, 0xB83, true),
    (0xB85, 0xB8A, true),
    (0xB8E, 0xB90, true),
    (0xB92, 0xB95, true),
    (0xB99, 0xB9A, true),
    (0xB9C, 0xB9C, true),
    (0xB9E, 0xB9F, true),
    (0xBA3, 0xBA4, true),
    (0xBA8, 0xBAA, true),
    (0xBAE, 0xBB9, true),
    (0xBBE, 0xBC2, true),
    (0xBC6, 0xBC8, true),
    (0xBCA, 0xBCC, true),
    (0xBD0, 0xBD0, true),
    (0xBD7, 0xBD7, true),
    (0xBE6, 0xBF2, true),
    (0xC00, 0xC0C, true),
    (0xC0E, 0xC10, true),
    (0xC12, 0xC28, true),
    (0xC2A, 0xC39, true),
    (0xC3D, 0xC44, true),
    (0xC46, 0xC48, true),
    (0xC4A, 0xC4C, true),
    (0xC55, 0xC56, true),
    (0xC58, 0xC5A, true),
    (0xC5C, 0xC5D, true),
    (0xC60, 0xC63, true),
    (0xC66, 0xC6F, true),
    (0xC78, 0xC7E, true),
    (0xC80, 0xC83, true),
    (0xC85, 0xC8C, true),
    (0xC8E, 0xC90, true),
    (0xC92, 0xCA8, true),
    (0xCAA, 0xCB3, true),
    (0xCB5, 0xCB9, true),
    (0xCBD, 0xCC4, true),
    (0xCC6, 0xCC8, true),
    (0xCCA, 0xCCC, true),
    (0xCD5, 0xCD6, true),
    (0xCDC, 0xCDE, true),
    (0xCE0, 0xCE3, true),
    (0xCE6, 0xCEF, true),
    (0xCF1, 0xCF3, true),
    (0xD00, 0xD0C, true),
    (0xD0E, 0xD10, true),
    (0xD12, 0xD3A, true),
    (0xD3D, 0xD44, true),
    (0xD46, 0xD48, true),
    (0xD4A, 0xD4C, true),
    (0xD4E, 0xD4E, true),
    (0xD54, 0xD63, true),
    (0xD66, 0xD78, true),
    (0xD7A, 0xD7F, true),
    (0xD81, 0xD83, true),
    (0xD85, 0xD96, true),
    (0xD9A, 0xDB1, true),
    (0xDB3, 0xDBB, true),
    (0xDBD, 0xDBD, true),
    (0xDC0, 0xDC6, true),
    (0xDCF, 0xDD4, true),
    (0xDD6, 0xDD6, true),
    (0xDD8, 0xDDF, true),
    (0xDE6, 0xDEF, true),
    (0xDF2, 0xDF3, true),
    (0xE01, 0xE3A, true),
    (0xE40, 0xE46, true),
    (0xE4D, 0xE4D, true),
    (0xE50, 0xE59, true),
    (0xE81, 0xE82, true),
    (0xE84, 0xE84, true),
    (0xE86, 0xE8A, true),
    (0xE8C, 0xEA3, true),
    (0xEA5, 0xEA5, true),
    (0xEA7, 0xEB9, true),
    (0xEBB, 0xEBD, true),
    (0xEC0, 0xEC4, true),
    (0xEC6, 0xEC6, true),
    (0xECD, 0xECD, true),
    (0xED0, 0xED9, true),
    (0xEDC, 0xEDF, true),
    (0xF00, 0xF00, true),
    (0xF20, 0xF33, true),
    (0xF40, 0xF47, true),
    (0xF49, 0xF6C, true),
    (0xF71, 0xF83, true),
    (0xF88, 0xF97, true),
    (0xF99, 0xFBC, true),
    (0x1000, 0x1036, true),
    (0x1038, 0x1038, true),
    (0x103B, 0x1049, true),
    (0x1050, 0x109D, true),
    (0x10A0, 0x10C5, true),
    (0x10C7, 0x10C7, true),
    (0x10CD, 0x10CD, true),
    (0x10D0, 0x10FA, true),
    (0x10FC, 0x1248, true),
    (0x124A, 0x124D, true),
    (0x1250, 0x1256, true),
    (0x1258, 0x1258, true),
    (0x125A, 0x125D, true),
    (0x1260, 0x1288, true),
    (0x128A, 0x128D, true),
    (0x1290, 0x12B0, true),
    (0x12B2, 0x12B5, true),
    (0x12B8, 0x12BE, true),
    (0x12C0, 0x12C0, true),
    (0x12C2, 0x12C5, true),
    (0x12C8, 0x12D6, true),
    (0x12D8, 0x1310, true),
    (0x1312, 0x1315, true),
    (0x1318, 0x135A, true),
    (0x1369, 0x137C, true),
    (0x1380, 0x138F, true),
    (0x13A0, 0x13F5, true),
    (0x13F8, 0x13FD, true),
    (0x1401, 0x166C, true),
    (0x166F, 0x167F, true),
    (0x1681, 0x169A, true),
    (0x16A0, 0x16EA, true),
    (0x16EE, 0x16F8, true),
    (0x1700, 0x1713, true),
    (0x171F, 0x1733, true),
    (0x1740, 0x1753, true),
    (0x1760, 0x176C, true),
    (0x176E, 0x1770, true),
    (0x1772, 0x1773, true),
    (0x1780, 0x17B3, true),
    (0x17B6, 0x17C8, true),
    (0x17D7, 0x17D7, true),
    (0x17DC, 0x17DC, true),
    (0x17E0, 0x17E9, true),
    (0x17F0, 0x17F9, true),
    (0x1810, 0x1819, true),
    (0x1820, 0x1878, true),
    (0x1880, 0x18AA, true),
    (0x18B0, 0x18F5, true),
    (0x1900, 0x191E, true),
    (0x1920, 0x192B, true),
    (0x1930, 0x1938, true),
    (0x1946, 0x196D, true),
    (0x1970, 0x1974, true),
    (0x1980, 0x19AB, true),
    (0x19B0, 0x19C9, true),
    (0x19D0, 0x19DA, true),
    (0x1A00, 0x1A1B, true),
    (0x1A20, 0x1A5E, true),
    (0x1A61, 0x1A74, true),
    (0x1A80, 0x1A89, true),
    (0x1A90, 0x1A99, true),
    (0x1AA7, 0x1AA7, true),
    (0x1ABF, 0x1AC0, true),
    (0x1ACC, 0x1ACE, true),
    (0x1B00, 0x1B33, true),
    (0x1B35, 0x1B43, true),
    (0x1B45, 0x1B4C, true),
    (0x1B50, 0x1B59, true),
    (0x1B80, 0x1BA9, true),
    (0x1BAC, 0x1BE5, true),
    (0x1BE7, 0x1BF1, true),
    (0x1C00, 0x1C36, true),
    (0x1C40, 0x1C49, true),
    (0x1C4D, 0x1C7D, true),
    (0x1C80, 0x1C8A, true),
    (0x1C90, 0x1CBA, true),
    (0x1CBD, 0x1CBF, true),
    (0x1CE9, 0x1CEC, true),
    (0x1CEE, 0x1CF3, true),
    (0x1CF5, 0x1CF6, true),
    (0x1CFA, 0x1CFA, true),
    (0x1D00, 0x1DBF, true),
    (0x1DD3, 0x1DF4, true),
    (0x1E00, 0x1F15, true),
    (0x1F18, 0x1F1D, true),
    (0x1F20, 0x1F45, true),
    (0x1F48, 0x1F4D, true),
    (0x1F50, 0x1F57, true),
    (0x1F59, 0x1F59, true),
    (0x1F5B, 0x1F5B, true),
    (0x1F5D, 0x1F5D, true),
    (0x1F5F, 0x1F7D, true),
    (0x1F80, 0x1FB4, true),
    (0x1FB6, 0x1FBC, true),
    (0x1FBE, 0x1FBE, true),
    (0x1FC2, 0x1FC4, true),
    (0x1FC6, 0x1FCC, true),
    (0x1FD0, 0x1FD3, true),
    (0x1FD6, 0x1FDB, true),
    (0x1FE0, 0x1FEC, true),
    (0x1FF2, 0x1FF4, true),
    (0x1FF6, 0x1FFC, true),
    (0x2070, 0x2071, true),
    (0x2074, 0x2079, true),
    (0x207F, 0x2089, true),
    (0x2090, 0x209C, true),
    (0x2102, 0x2102, true),
    (0x2107, 0x2107, true),
    (0x210A, 0x2113, true),
    (0x2115, 0x2115, true),
    (0x2119, 0x211D, true),
    (0x2124, 0x2124, true),
    (0x2126, 0x2126, true),
    (0x2128, 0x2128, true),
    (0x212A, 0x212D, true),
    (0x212F, 0x2139, true),
    (0x213C, 0x213F, true),
    (0x2145, 0x2149, true),
    (0x214E, 0x214E, true),
    (0x2150, 0x2189, true),
    (0x2460, 0x249B, true),
    (0x24B6, 0x24FF, true),
    (0x2776, 0x2793, true),
    (0x2C00, 0x2CE4, true),
    (0x2CEB, 0x2CEE, true),
    (0x2CF2, 0x2CF3, true),
    (0x2CFD, 0x2CFD, true),
    (0x2D00, 0x2D25, true),
    (0x2D27, 0x2D27, true),
    (0x2D2D, 0x2D2D, true),
    (0x2D30, 0x2D67, true),
    (0x2D6F, 0x2D6F, true),
    (0x2D80, 0x2D96, true),
    (0x2DA0, 0x2DA6, true),
    (0x2DA8, 0x2DAE, true),
    (0x2DB0, 0x2DB6, true),
    (0x2DB8, 0x2DBE, true),
    (0x2DC0, 0x2DC6, true),
    (0x2DC8, 0x2DCE, true),
    (0x2DD0, 0x2DD6, true),
    (0x2DD8, 0x2DDE, true),
    (0x2DE0, 0x2DFF, true),
    (0x2E2F, 0x2E2F, true),
    (0x3005, 0x3007, true),
    (0x3021, 0x3029, true),
    (0x3031, 0x3035, true),
    (0x3038, 0x303C, true),
    (0x3041, 0x3096, true),
    (0x309D, 0x309F, true),
    (0x30A1, 0x30FA, true),
    (0x30FC, 0x30FF, true),
    (0x3105, 0x312F, true),
    (0x3131, 0x318E, true),
    (0x3192, 0x3195, true),
    (0x31A0, 0x31BF, true),
    (0x31F0, 0x31FF, true),
    (0x3220, 0x3229, true),
    (0x3248, 0x324F, true),
    (0x3251, 0x325F, true),
    (0x3280, 0x3289, true),
    (0x32B1, 0x32BF, true),
    (0x3400, 0x4DBF, true),
    (0x4E00, 0xA48C, true),
    (0xA4D0, 0xA4FD, true),
    (0xA500, 0xA60C, true),
    (0xA610, 0xA62B, true),
    (0xA640, 0xA66E, true),
    (0xA674, 0xA67B, true),
    (0xA67F, 0xA6EF, true),
    (0xA717, 0xA71F, true),
    (0xA722, 0xA788, true),
    (0xA78B, 0xA7DC, true),
    (0xA7F1, 0xA805, true),
    (0xA807, 0xA827, true),
    (0xA830, 0xA835, true),
    (0xA840, 0xA873, true),
    (0xA880, 0xA8C3, true),
    (0xA8C5, 0xA8C5, true),
    (0xA8D0, 0xA8D9, true),
    (0xA8F2, 0xA8F7, true),
    (0xA8FB, 0xA8FB, true),
    (0xA8FD, 0xA92A, true),
    (0xA930, 0xA952, true),
    (0xA960, 0xA97C, true),
    (0xA980, 0xA9B2, true),
    (0xA9B4, 0xA9BF, true),
    (0xA9CF, 0xA9D9, true),
    (0xA9E0, 0xA9FE, true),
    (0xAA00, 0xAA36, true),
    (0xAA40, 0xAA4D, true),
    (0xAA50, 0xAA59, true),
    (0xAA60, 0xAA76, true),
    (0xAA7A, 0xAABE, true),
    (0xAAC0, 0xAAC0, true),
    (0xAAC2, 0xAAC2, true),
    (0xAADB, 0xAADD, true),
    (0xAAE0, 0xAAEF, true),
    (0xAAF2, 0xAAF5, true),
    (0xAB01, 0xAB06, true),
    (0xAB09, 0xAB0E, true),
    (0xAB11, 0xAB16, true),
    (0xAB20, 0xAB26, true),
    (0xAB28, 0xAB2E, true),
    (0xAB30, 0xAB5A, true),
    (0xAB5C, 0xAB69, true),
    (0xAB70, 0xABEA, true),
    (0xABF0, 0xABF9, true),
    (0xAC00, 0xD7A3, true),
    (0xD7B0, 0xD7C6, true),
    (0xD7CB, 0xD7FB, true),
    (0xF900, 0xFA6D, true),
    (0xFA70, 0xFAD9, true),
    (0xFB00, 0xFB06, true),
    (0xFB13, 0xFB17, true),
    (0xFB1D, 0xFB28, true),
    (0xFB2A, 0xFB36, true),
    (0xFB38, 0xFB3C, true),
    (0xFB3E, 0xFB3E, true),
    (0xFB40, 0xFB41, true),
    (0xFB43, 0xFB44, true),
    (0xFB46, 0xFBB1, true),
    (0xFBD3, 0xFD3D, true),
    (0xFD50, 0xFD8F, true),
    (0xFD92, 0xFDC7, true),
    (0xFDF0, 0xFDFB, true),
    (0xFE70, 0xFE74, true),
    (0xFE76, 0xFEFC, true),
    (0xFF10, 0xFF19, true),
    (0xFF21, 0xFF3A, true),
    (0xFF41, 0xFF5A, true),
    (0xFF66, 0xFFBE, true),
    (0xFFC2, 0xFFC7, true),
    (0xFFCA, 0xFFCF, true),
    (0xFFD2, 0xFFD7, true),
    (0xFFDA, 0xFFDC, true),
    (0x10000, 0x1000B, true),
    (0x1000D, 0x10026, true),
    (0x10028, 0x1003A, true),
    (0x1003C, 0x1003D, true),
    (0x1003F, 0x1004D, true),
    (0x10050, 0x1005D, true),
    (0x10080, 0x100FA, true),
    (0x10107, 0x10133, true),
    (0x10140, 0x10178, true),
    (0x1018A, 0x1018B, true),
    (0x10280, 0x1029C, true),
    (0x102A0, 0x102D0, true),
    (0x102E1, 0x102FB, true),
    (0x10300, 0x10323, true),
    (0x1032D, 0x1034A, true),
    (0x10350, 0x1037A, true),
    (0x10380, 0x1039D, true),
    (0x103A0, 0x103C3, true),
    (0x103C8, 0x103CF, true),
    (0x103D1, 0x103D5, true),
    (0x10400, 0x1049D, true),
    (0x104A0, 0x104A9, true),
    (0x104B0, 0x104D3, true),
    (0x104D8, 0x104FB, true),
    (0x10500, 0x10527, true),
    (0x10530, 0x10563, true),
    (0x10570, 0x1057A, true),
    (0x1057C, 0x1058A, true),
    (0x1058C, 0x10592, true),
    (0x10594, 0x10595, true),
    (0x10597, 0x105A1, true),
    (0x105A3, 0x105B1, true),
    (0x105B3, 0x105B9, true),
    (0x105BB, 0x105BC, true),
    (0x105C0, 0x105F3, true),
    (0x10600, 0x10736, true),
    (0x10740, 0x10755, true),
    (0x10760, 0x10767, true),
    (0x10780, 0x10785, true),
    (0x10787, 0x107B0, true),
    (0x107B2, 0x107BA, true),
    (0x10800, 0x10805, true),
    (0x10808, 0x10808, true),
    (0x1080A, 0x10835, true),
    (0x10837, 0x10838, true),
    (0x1083C, 0x1083C, true),
    (0x1083F, 0x10855, true),
    (0x10858, 0x10876, true),
    (0x10879, 0x1089E, true),
    (0x108A7, 0x108AF, true),
    (0x108E0, 0x108F2, true),
    (0x108F4, 0x108F5, true),
    (0x108FB, 0x1091B, true),
    (0x10920, 0x10939, true),
    (0x10940, 0x10959, true),
    (0x10980, 0x109B7, true),
    (0x109BC, 0x109CF, true),
    (0x109D2, 0x10A03, true),
    (0x10A05, 0x10A06, true),
    (0x10A0C, 0x10A13, true),
    (0x10A15, 0x10A17, true),
    (0x10A19, 0x10A35, true),
    (0x10A40, 0x10A48, true),
    (0x10A60, 0x10A7E, true),
    (0x10A80, 0x10A9F, true),
    (0x10AC0, 0x10AC7, true),
    (0x10AC9, 0x10AE4, true),
    (0x10AEB, 0x10AEF, true),
    (0x10B00, 0x10B35, true),
    (0x10B40, 0x10B55, true),
    (0x10B58, 0x10B72, true),
    (0x10B78, 0x10B91, true),
    (0x10BA9, 0x10BAF, true),
    (0x10C00, 0x10C48, true),
    (0x10C80, 0x10CB2, true),
    (0x10CC0, 0x10CF2, true),
    (0x10CFA, 0x10D27, true),
    (0x10D30, 0x10D39, true),
    (0x10D40, 0x10D65, true),
    (0x10D69, 0x10D69, true),
    (0x10D6F, 0x10D85, true),
    (0x10E60, 0x10E7E, true),
    (0x10E80, 0x10EA9, true),
    (0x10EAB, 0x10EAC, true),
    (0x10EB0, 0x10EB1, true),
    (0x10EC2, 0x10EC7, true),
    (0x10EFA, 0x10EFC, true),
    (0x10F00, 0x10F27, true),
    (0x10F30, 0x10F45, true),
    (0x10F51, 0x10F54, true),
    (0x10F70, 0x10F81, true),
    (0x10FB0, 0x10FCB, true),
    (0x10FE0, 0x10FF6, true),
    (0x11000, 0x11045, true),
    (0x11052, 0x1106F, true),
    (0x11071, 0x11075, true),
    (0x11080, 0x110B8, true),
    (0x110C2, 0x110C2, true),
    (0x110D0, 0x110E8, true),
    (0x110F0, 0x110F9, true),
    (0x11100, 0x11132, true),
    (0x11136, 0x1113F, true),
    (0x11144, 0x11147, true),
    (0x11150, 0x11172, true),
    (0x11176, 0x11176, true),
    (0x11180, 0x111BF, true),
    (0x111C1, 0x111C4, true),
    (0x111CE, 0x111DA, true),
    (0x111DC, 0x111DC, true),
    (0x111E1, 0x111F4, true),
    (0x11200, 0x11211, true),
    (0x11213, 0x11234, true),
    (0x11237, 0x11237, true),
    (0x1123E, 0x11241, true),
    (0x11280, 0x11286, true),
    (0x11288, 0x11288, true),
    (0x1128A, 0x1128D, true),
    (0x1128F, 0x1129D, true),
    (0x1129F, 0x112A8, true),
    (0x112B0, 0x112E8, true),
    (0x112F0, 0x112F9, true),
    (0x11300, 0x11303, true),
    (0x11305, 0x1130C, true),
    (0x1130F, 0x11310, true),
    (0x11313, 0x11328, true),
    (0x1132A, 0x11330, true),
    (0x11332, 0x11333, true),
    (0x11335, 0x11339, true),
    (0x1133D, 0x11344, true),
    (0x11347, 0x11348, true),
    (0x1134B, 0x1134C, true),
    (0x11350, 0x11350, true),
    (0x11357, 0x11357, true),
    (0x1135D, 0x11363, true),
    (0x11380, 0x11389, true),
    (0x1138B, 0x1138B, true),
    (0x1138E, 0x1138E, true),
    (0x11390, 0x113B5, true),
    (0x113B7, 0x113C0, true),
    (0x113C2, 0x113C2, true),
    (0x113C5, 0x113C5, true),
    (0x113C7, 0x113CA, true),
    (0x113CC, 0x113CD, true),
    (0x113D1, 0x113D1, true),
    (0x113D3, 0x113D3, true),
    (0x11400, 0x11441, true),
    (0x11443, 0x11445, true),
    (0x11447, 0x1144A, true),
    (0x11450, 0x11459, true),
    (0x1145F, 0x11461, true),
    (0x11480, 0x114C1, true),
    (0x114C4, 0x114C5, true),
    (0x114C7, 0x114C7, true),
    (0x114D0, 0x114D9, true),
    (0x11580, 0x115B5, true),
    (0x115B8, 0x115BE, true),
    (0x115D8, 0x115DD, true),
    (0x11600, 0x1163E, true),
    (0x11640, 0x11640, true),
    (0x11644, 0x11644, true),
    (0x11650, 0x11659, true),
    (0x11680, 0x116B5, true),
    (0x116B8, 0x116B8, true),
    (0x116C0, 0x116C9, true),
    (0x116D0, 0x116E3, true),
    (0x11700, 0x1171A, true),
    (0x1171D, 0x1172A, true),
    (0x11730, 0x1173B, true),
    (0x11740, 0x11746, true),
    (0x11800, 0x11838, true),
    (0x118A0, 0x118F2, true),
    (0x118FF, 0x11906, true),
    (0x11909, 0x11909, true),
    (0x1190C, 0x11913, true),
    (0x11915, 0x11916, true),
    (0x11918, 0x11935, true),
    (0x11937, 0x11938, true),
    (0x1193B, 0x1193C, true),
    (0x1193F, 0x11942, true),
    (0x11950, 0x11959, true),
    (0x119A0, 0x119A7, true),
    (0x119AA, 0x119D7, true),
    (0x119DA, 0x119DF, true),
    (0x119E1, 0x119E1, true),
    (0x119E3, 0x119E4, true),
    (0x11A00, 0x11A32, true),
    (0x11A35, 0x11A3E, true),
    (0x11A50, 0x11A97, true),
    (0x11A9D, 0x11A9D, true),
    (0x11AB0, 0x11AF8, true),
    (0x11B60, 0x11B67, true),
    (0x11BC0, 0x11BE0, true),
    (0x11BF0, 0x11BF9, true),
    (0x11C00, 0x11C08, true),
    (0x11C0A, 0x11C36, true),
    (0x11C38, 0x11C3E, true),
    (0x11C40, 0x11C40, true),
    (0x11C50, 0x11C6C, true),
    (0x11C72, 0x11C8F, true),
    (0x11C92, 0x11CA7, true),
    (0x11CA9, 0x11CB6, true),
    (0x11D00, 0x11D06, true),
    (0x11D08, 0x11D09, true),
    (0x11D0B, 0x11D36, true),
    (0x11D3A, 0x11D3A, true),
    (0x11D3C, 0x11D3D, true),
    (0x11D3F, 0x11D41, true),
    (0x11D43, 0x11D43, true),
    (0x11D46, 0x11D47, true),
    (0x11D50, 0x11D59, true),
    (0x11D60, 0x11D65, true),
    (0x11D67, 0x11D68, true),
    (0x11D6A, 0x11D8E, true),
    (0x11D90, 0x11D91, true),
    (0x11D93, 0x11D96, true),
    (0x11D98, 0x11D98, true),
    (0x11DA0, 0x11DA9, true),
    (0x11DB0, 0x11DDB, true),
    (0x11DE0, 0x11DE9, true),
    (0x11EE0, 0x11EF6, true),
    (0x11F00, 0x11F10, true),
    (0x11F12, 0x11F3A, true),
    (0x11F3E, 0x11F40, true),
    (0x11F50, 0x11F59, true),
    (0x11FB0, 0x11FB0, true),
    (0x11FC0, 0x11FD4, true),
    (0x12000, 0x12399, true),
    (0x12400, 0x1246E, true),
    (0x12480, 0x12543, true),
    (0x12F90, 0x12FF0, true),
    (0x13000, 0x1342F, true),
    (0x13441, 0x13446, true),
    (0x13460, 0x143FA, true),
    (0x14400, 0x14646, true),
    (0x16100, 0x1612E, true),
    (0x16130, 0x16139, true),
    (0x16800, 0x16A38, true),
    (0x16A40, 0x16A5E, true),
    (0x16A60, 0x16A69, true),
    (0x16A70, 0x16ABE, true),
    (0x16AC0, 0x16AC9, true),
    (0x16AD0, 0x16AED, true),
    (0x16B00, 0x16B2F, true),
    (0x16B40, 0x16B43, true),
    (0x16B50, 0x16B59, true),
    (0x16B5B, 0x16B61, true),
    (0x16B63, 0x16B77, true),
    (0x16B7D, 0x16B8F, true),
    (0x16D40, 0x16D6C, true),
    (0x16D70, 0x16D79, true),
    (0x16E40, 0x16E96, true),
    (0x16EA0, 0x16EB8, true),
    (0x16EBB, 0x16ED3, true),
    (0x16F00, 0x16F4A, true),
    (0x16F4F, 0x16F87, true),
    (0x16F8F, 0x16F9F, true),
    (0x16FE0, 0x16FE1, true),
    (0x16FE3, 0x16FE3, true),
    (0x16FF0, 0x16FF6, true),
    (0x17000, 0x18CD5, true),
    (0x18CFF, 0x18D1E, true),
    (0x18D80, 0x18DF2, true),
    (0x1AFF0, 0x1AFF3, true),
    (0x1AFF5, 0x1AFFB, true),
    (0x1AFFD, 0x1AFFE, true),
    (0x1B000, 0x1B122, true),
    (0x1B132, 0x1B132, true),
    (0x1B150, 0x1B152, true),
    (0x1B155, 0x1B155, true),
    (0x1B164, 0x1B167, true),
    (0x1B170, 0x1B2FB, true),
    (0x1BC00, 0x1BC6A, true),
    (0x1BC70, 0x1BC7C, true),
    (0x1BC80, 0x1BC88, true),
    (0x1BC90, 0x1BC99, true),
    (0x1BC9E, 0x1BC9E, true),
    (0x1CCF0, 0x1CCF9, true),
    (0x1D2C0, 0x1D2D3, true),
    (0x1D2E0, 0x1D2F3, true),
    (0x1D360, 0x1D378, true),
    (0x1D400, 0x1D454, true),
    (0x1D456, 0x1D49C, true),
    (0x1D49E, 0x1D49F, true),
    (0x1D4A2, 0x1D4A2, true),
    (0x1D4A5, 0x1D4A6, true),
    (0x1D4A9, 0x1D4AC, true),
    (0x1D4AE, 0x1D4B9, true),
    (0x1D4BB, 0x1D4BB, true),
    (0x1D4BD, 0x1D4C3, true),
    (0x1D4C5, 0x1D505, true),
    (0x1D507, 0x1D50A, true),
    (0x1D50D, 0x1D514, true),
    (0x1D516, 0x1D51C, true),
    (0x1D51E, 0x1D539, true),
    (0x1D53B, 0x1D53E, true),
    (0x1D540, 0x1D544, true),
    (0x1D546, 0x1D546, true),
    (0x1D54A, 0x1D550, true),
    (0x1D552, 0x1D6A5, true),
    (0x1D6A8, 0x1D6C0, true),
    (0x1D6C2, 0x1D6DA, true),
    (0x1D6DC, 0x1D6FA, true),
    (0x1D6FC, 0x1D714, true),
    (0x1D716, 0x1D734, true),
    (0x1D736, 0x1D74E, true),
    (0x1D750, 0x1D76E, true),
    (0x1D770, 0x1D788, true),
    (0x1D78A, 0x1D7A8, true),
    (0x1D7AA, 0x1D7C2, true),
    (0x1D7C4, 0x1D7CB, true),
    (0x1D7CE, 0x1D7FF, true),
    (0x1DF00, 0x1DF1E, true),
    (0x1DF25, 0x1DF2A, true),
    (0x1E000, 0x1E006, true),
    (0x1E008, 0x1E018, true),
    (0x1E01B, 0x1E021, true),
    (0x1E023, 0x1E024, true),
    (0x1E026, 0x1E02A, true),
    (0x1E030, 0x1E06D, true),
    (0x1E08F, 0x1E08F, true),
    (0x1E100, 0x1E12C, true),
    (0x1E137, 0x1E13D, true),
    (0x1E140, 0x1E149, true),
    (0x1E14E, 0x1E14E, true),
    (0x1E290, 0x1E2AD, true),
    (0x1E2C0, 0x1E2EB, true),
    (0x1E2F0, 0x1E2F9, true),
    (0x1E4D0, 0x1E4EB, true),
    (0x1E4F0, 0x1E4F9, true),
    (0x1E5D0, 0x1E5ED, true),
    (0x1E5F0, 0x1E5FA, true),
    (0x1E6C0, 0x1E6DE, true),
    (0x1E6E0, 0x1E6F5, true),
    (0x1E6FE, 0x1E6FF, true),
    (0x1E7E0, 0x1E7E6, true),
    (0x1E7E8, 0x1E7EB, true),
    (0x1E7ED, 0x1E7EE, true),
    (0x1E7F0, 0x1E7FE, true),
    (0x1E800, 0x1E8C4, true),
    (0x1E8C7, 0x1E8CF, true),
    (0x1E900, 0x1E943, true),
    (0x1E947, 0x1E947, true),
    (0x1E94B, 0x1E94B, true),
    (0x1E950, 0x1E959, true),
    (0x1EC71, 0x1ECAB, true),
    (0x1ECAD, 0x1ECAF, true),
    (0x1ECB1, 0x1ECB4, true),
    (0x1ED01, 0x1ED2D, true),
    (0x1ED2F, 0x1ED3D, true),
    (0x1EE00, 0x1EE03, true),
    (0x1EE05, 0x1EE1F, true),
    (0x1EE21, 0x1EE22, true),
    (0x1EE24, 0x1EE24, true),
    (0x1EE27, 0x1EE27, true),
    (0x1EE29, 0x1EE32, true),
    (0x1EE34, 0x1EE37, true),
    (0x1EE39, 0x1EE39, true),
    (0x1EE3B, 0x1EE3B, true),
    (0x1EE42, 0x1EE42, true),
    (0x1EE47, 0x1EE47, true),
    (0x1EE49, 0x1EE49, true),
    (0x1EE4B, 0x1EE4B, true),
    (0x1EE4D, 0x1EE4F, true),
    (0x1EE51, 0x1EE52, true),
    (0x1EE54, 0x1EE54, true),
    (0x1EE57, 0x1EE57, true),
    (0x1EE59, 0x1EE59, true),
    (0x1EE5B, 0x1EE5B, true),
    (0x1EE5D, 0x1EE5D, true),
    (0x1EE5F, 0x1EE5F, true),
    (0x1EE61, 0x1EE62, true),
    (0x1EE64, 0x1EE64, true),
    (0x1EE67, 0x1EE6A, true),
    (0x1EE6C, 0x1EE72, true),
    (0x1EE74, 0x1EE77, true),
    (0x1EE79, 0x1EE7C, true),
    (0x1EE7E, 0x1EE7E, true),
    (0x1EE80, 0x1EE89, true),
    (0x1EE8B, 0x1EE9B, true),
    (0x1EEA1, 0x1EEA3, true),
    (0x1EEA5, 0x1EEA9, true),
    (0x1EEAB, 0x1EEBB, true),
    (0x1F100, 0x1F10C, true),
    (0x1F130, 0x1F149, true),
    (0x1F150, 0x1F169, true),
    (0x1F170, 0x1F189, true),
    (0x1FBF0, 0x1FBF9, true),
    (0x20000, 0x2A6DF, true),
    (0x2A700, 0x2B81D, true),
    (0x2B820, 0x2CEAD, true),
    (0x2CEB0, 0x2EBE0, true),
    (0x2EBF0, 0x2EE5D, true),
    (0x2F800, 0x2FA1D, true),
    (0x30000, 0x3134A, true),
    (0x31350, 0x33479, true),
];

/// The row of the alphanumeric table that holds `c`, or the gap around it.
pub closed spec fn alnum_range(c: char) -> (u32, u32, bool) {
    range_lookup(ALNUM_TABLE@, c as u32, false)
}

/// Whether `c` has the Alphabetic property or a Number general category.
pub closed spec fn alnum_of(c: char) -> bool {
    alnum_range(c).2
}

/// Rows 800 to 843 of the alphanumeric table are in order.
proof fn lemma_alnum_rows_sorted_800()
    ensures
        sorted_from(ALNUM_TABLE@, 800),
{
    assert(sorted_from(ALNUM_TABLE@, 840)) by {
        reveal_with_fuel(sorted_from, 11);
    }
    assert(sorted_from(ALNUM_TABLE@, 830)) by {
        reveal_with_fuel(sorted_from, 11);
    }
    assert(sorted_from(ALNUM_TABLE@, 820)) by {
        reveal_with_fuel(sorted_from, 11);
    }
    assert(sorted_from(ALNUM_TABLE@, 810)) by {
        reveal_with_fuel(sorted_from, 11);
    }
    assert(sorted_from(ALNUM_TABLE@, 800)) by {
        reveal_with_fuel(sorted_from, 11);
    }
}

/// Rows 700 to 799 of the alphanumeric table are in order.
proof fn lemma_alnum_rows_sorted_700()
    requires
        sorted_from(ALNUM_TABLE@, 800),
    ensures
        sorted_from(ALNUM_TABLE@, 700),
{
    assert(sorted_from(ALNUM_TABLE@, 790)) by {
        reveal_with_fuel(sorted_from, 11);
    }
    assert(sorted_from(ALNUM_TABLE@, 780)) by {
        reveal_with_fuel(sorted_from, 11);
    }
    assert(sorted_from(ALNUM_TABLE@, 770)) by {
        reveal_with_fuel(sorted_from, 11);
    }
    assert(sorted_from(ALNUM_TABLE@, 760)) by {
        reveal_with_fuel(sorted_from, 11);
    }
    assert(sorted_from(ALNUM_TABLE@, 750)) by {
        reveal_with_fuel(sorted_from, 11);
    }
    assert(sorted_from(ALNUM_TABLE@, 740)) by {
        reveal_with_fuel(sorted_from, 11);
    }
    assert(sorted_from(ALNUM_TABLE@, 730)) by {
        reveal_with_fuel(sorted_from, 11);
    }
    assert(sorted_from(ALNUM_TABLE@, 720)) by {
        reveal_with_fuel(sorted_from, 11);
    }
    assert(sorted_from(ALNUM_TABLE@, 710)) by {
        reveal_with_fuel(sorted_from, 11);
    }
    assert(sorted_from(ALNUM_TABLE@, 700)) by {
        reveal_with_fuel(sorted_from, 11);
    }
}

/// Rows 600 to 699 of the alphanumeric table are in order.
proof fn lemma_alnum_rows_sorted_600()
    requires
        sorted_from(ALNUM_TABLE@, 700),
    ensures
        sorted_from(ALNUM_TABLE@, 600),
{
    assert(sorted_from(ALNUM_TABLE@, 690)) by {
        reveal_with_fuel(sorted_from, 11);
    }
    assert(sorted_from(ALNUM_TABLE@, 680)) by {
        reveal_with_fuel(sorted_from, 11);
    }
    assert(sorted_from(ALNUM_TABLE@, 670)) by {
        reveal_with_fuel(sorted_from, 11);
    }
    assert(sorted_from(ALNUM_TABLE@, 660)) by {
        reveal_with_fuel(sorted_from, 11);
    }
    assert(sorted_from(ALNUM_TABLE@, 650)) by {
        reveal_with_fuel(sorted_from, 11);
    }
    assert(sorted_from(ALNUM_TABLE@, 640)) by {
        reveal_with_fuel(sorted_from, 11);
    }
    assert(sorted_from(ALNUM_TABLE@, 630)) by {
        reveal_with_fuel(sorted_from, 11);
    }
    assert(sorted_from(ALNUM_TABLE@, 620)) by {
        reveal_with_fuel(sorted_from, 11);
    }
    assert(sorted_from(ALNUM_TABLE@, 610)) by {
        reveal_with_fuel(sorted_from, 11);
    }
    assert(sorted_from(ALNUM_TABLE@, 600)) by {
        reveal_with_fuel(sorted_from, 11);
    }
}

/// Rows 500 to 599 of the alphanumeric table are in order.
proof fn lemma_alnum_rows_sorted_500()
    requires
        sorted_from(ALNUM_TABLE@, 600),
    ensures
        sorted_from(ALNUM_TABLE@, 500),
{
    assert(sorted_from(ALNUM_TABLE@, 590)) by {
        reveal_with_fuel(sorted_from, 11);
    }
    assert(sorted_from(ALNUM_TABLE@, 580)) by {
        reveal_with_fuel(sorted_from, 11);
    }
    assert(sorted_from(ALNUM_TABLE@, 570)) by {
        reveal_with_fuel(sorted_from, 11);
    }
    assert(sorted_from(ALNUM_TABLE@, 560)) by {
        reveal_with_fuel(sorted_from, 11);
    }
    assert(sorted_from(ALNUM_TABLE@, 550)) by {
        reveal_with_fuel(sorted_from, 11);
    }
    assert(sorted_from(ALNUM_TABLE@, 540)) by {
        reveal_with_fuel(sorted_from, 11);
    }
    assert(sorted_from(ALNUM_TABLE@, 530)) by {
        reveal_with_fuel(sorted_from, 11);
    }
    assert(sorted_from(ALNUM_TABLE@, 520)) by {
        reveal_with_fuel(sorted_from, 11);
    }
    assert(sorted_from(ALNUM_TABLE@, 510)) by {
        reveal_with_fuel(sorted_from, 11);
    }
    assert(sorted_from(ALNUM_TABLE@, 500)) by {
        reveal_with_fuel(sorted_from, 11);
    }
}

/// Rows 400 to 499 of the alphanumeric table are in order.
proof fn lemma_alnum_rows_sorted_400()
    requires
        sorted_from(ALNUM_TABLE@, 500),
    ensures
        sorted_from(ALNUM_TABLE@, 400),
{
    assert(sorted_from(ALNUM_TABLE@, 490)) by {
        reveal_with_fuel(sorted_from, 11);
    }
    assert(sorted_from(ALNUM_TABLE@, 480)) by {
        reveal_with_fuel(sorted_from, 11);
    }
    assert(sorted_from(ALNUM_TABLE@, 470)) by {
        reveal_with_fuel(sorted_from, 11);
    }
    assert(sorted_from(ALNUM_TABLE@, 460)) by {
        reveal_with_fuel(sorted_from, 11);
    }
    assert(sorted_from(ALNUM_TABLE@, 450)) by {
        reveal_with_fuel(sorted_from, 11);
    }
    assert(sorted_from(ALNUM_TABLE@, 440)) by {
        reveal_with_fuel(sorted_from, 11);
    }
    assert(sorted_from(ALNUM_TABLE@, 430)) by {
        reveal_with_fuel(sorted_from, 11);
    }
    assert(sorted_from(ALNUM_TABLE@, 420)) by {
        reveal_with_fuel(sorted_from, 11);
    }
    assert(sorted_from(ALNUM_TABLE@, 410)) by {
        reveal_with_fuel(sorted_from, 11);
    }
    assert(sorted_from(ALNUM_TABLE@, 400)) by {
        reveal_with_fuel(sorted_from, 11);
    }
}

/// Rows 300 to 399 of the alphanumeric table are in order.
proof fn lemma_alnum_rows_sorted_300()
    requires
        sorted_from(ALNUM_TABLE@, 400),
    ensures
        sorted_from(ALNUM_TABLE@, 300),
{
    assert(sorted_from(ALNUM_TABLE@, 390)) by {
        reveal_with_fuel(sorted_from, 11);
    }
    assert(sorted_from(ALNUM_TABLE@, 380)) by {
        reveal_with_fuel(sorted_from, 11);
    }
    assert(sorted_from(ALNUM_TABLE@, 370)) by {
        reveal_with_fuel(sorted_from, 11);
    }
    assert(sorted_from(ALNUM_TABLE@, 360)) by {
        reveal_with_fuel(sorted_from, 11);
    }
    assert(sorted_from(ALNUM_TABLE@, 350)) by {
        reveal_with_fuel(sorted_from, 11);
    }
    assert(sorted_from(ALNUM_TABLE@, 340)) by {
        reveal_with_fuel(sorted_from, 11);
    }
    assert(sorted_from(ALNUM_TABLE@, 330)) by {
        reveal_with_fuel(sorted_from, 11);
    }
    assert(sorted_from(ALNUM_TABLE@, 320)) by {
        reveal_with_fuel(sorted_from, 11);
    }
    assert(sorted_from(ALNUM_TABLE@, 310)) by {
        reveal_with_fuel(sorted_from, 11);
    }
    assert(sorted_from(ALNUM_TABLE@, 300)) by {
        reveal_with_fuel(sorted_from, 11);
    }
}

/// Rows 200 to 299 of the alphanumeric table are in order.
proof fn lemma_alnum_rows_sorted_200()
    requires
        sorted_from(ALNUM_TABLE@, 300),
    ensures
        sorted_from(ALNUM_TABLE@, 200),
{
    assert(sorted_from(ALNUM_TABLE@, 290)) by {
        reveal_with_fuel(sorted_from, 11);
    }
    assert(sorted_from(ALNUM_TABLE@, 280)) by {
        reveal_with_fuel(sorted_from, 11);
    }
    assert(sorted_from(ALNUM_TABLE@, 270)) by {
        reveal_with_fuel(sorted_from, 11);
    }
    assert(sorted_from(ALNUM_TABLE@, 260)) by {
        reveal_with_fuel(sorted_from, 11);
    }
    assert(sorted_from(ALNUM_TABLE@, 250)) by {
        reveal_with_fuel(sorted_from, 11);
    }
    assert(sorted_from(ALNUM_TABLE@, 240)) by {
        reveal_with_fuel(sorted_from, 11);
    }
    assert(sorted_from(ALNUM_TABLE@, 230)) by {
        reveal_with_fuel(sorted_from, 11);
    }
    assert(sorted_from(ALNUM_TABLE@, 220)) by {
        reveal_with_fuel(sorted_from, 11);
    }
    assert(sorted_from(ALNUM_TABLE@, 210)) by {
        reveal_with_fuel(sorted_from, 11);
    }
    assert(sorted_from(ALNUM_TABLE@, 200)) by {
        reveal_with_fuel(sorted_from, 11);
    }
}

/// Rows 100 to 199 of the alphanumeric table are in order.
proof fn lemma_alnum_rows_sorted_100()
    requires
        sorted_from(ALNUM_TABLE@, 200),
    ensures
        sorted_from(ALNUM_TABLE@, 100),
{
    assert(sorted_from(ALNUM_TABLE@, 190)) by {
        reveal_with_fuel(sorted_from, 11);
    }
    assert(sorted_from(ALNUM_TABLE@, 180)) by {
        reveal_with_fuel(sorted_from, 11);
    }
    assert(sorted_from(ALNUM_TABLE@, 170)) by {
        reveal_with_fuel(sorted_from, 11);
    }
    assert(sorted_from(ALNUM_TABLE@, 160)) by {
        reveal_with_fuel(sorted_from, 11);
    }
    assert(sorted_from(ALNUM_TABLE@, 150)) by {
        reveal_with_fuel(sorted_from, 11);
    }
    assert(sorted_from(ALNUM_TABLE@, 140)) by {
        reveal_with_fuel(sorted_from, 11);
    }
    assert(sorted_from(ALNUM_TABLE@, 130)) by {
        reveal_with_fuel(sorted_from, 11);
    }
    assert(sorted_from(ALNUM_TABLE@, 120)) by {
        reveal_with_fuel(sorted_from, 11);
    }
    assert(sorted_from(ALNUM_TABLE@, 110)) by {
        reveal_with_fuel(sorted_from, 11);
    }
    assert(sorted_from(ALNUM_TABLE@, 100)) by {
        reveal_with_fuel(sorted_from, 11);
    }
}

/// Rows 0 to 99 of the alphanumeric table are in order.
proof fn lemma_alnum_rows_sorted_0()
    requires
        sorted_from(ALNUM_TABLE@, 100),
    ensures
        sorted_from(ALNUM_TABLE@, 0),
{
    assert(sorted_from(ALNUM_TABLE@, 90)) by {
        reveal_with_fuel(sorted_from, 11);
    }
    assert(sorted_from(ALNUM_TABLE@, 80)) by {
        reveal_with_fuel(sorted_from, 11);
    }
    assert(sorted_from(ALNUM_TABLE@, 70)) by {
        reveal_with_fuel(sorted_from, 11);
    }
    assert(sorted_from(ALNUM_TABLE@, 60)) by {
        reveal_with_fuel(sorted_from, 11);
    }
    assert(sorted_from(ALNUM_TABLE@, 50)) by {
        reveal_with_fuel(sorted_from, 11);
    }
    assert(sorted_from(ALNUM_TABLE@, 40)) by {
        reveal_with_fuel(sorted_from, 11);
    }
    assert(sorted_from(ALNUM_TABLE@, 30)) by {
        reveal_with_fuel(sorted_from, 11);
    }
    assert(sorted_from(ALNUM_TABLE@, 20)) by {
        reveal_with_fuel(sorted_from, 11);
    }
    assert(sorted_from(ALNUM_TABLE@, 10)) by {
        reveal_with_fuel(sorted_from, 11);
    }
    assert(sorted_from(ALNUM_TABLE@, 0)) by {
        reveal_with_fuel(sorted_from, 11);
    }
}

/// The alphanumeric table is sorted.
pub proof fn lemma_alnum_table_sorted()
    ensures
        table_sorted(ALNUM_TABLE@),
        sorted_from(ALNUM_TABLE@, 3),
{
    lemma_alnum_rows_sorted_800();
    lemma_alnum_rows_sorted_700();
    lemma_alnum_rows_sorted_600();
    lemma_alnum_rows_sorted_500();
    lemma_alnum_rows_sorted_400();
    lemma_alnum_rows_sorted_300();
    lemma_alnum_rows_sorted_200();
    lemma_alnum_rows_sorted_100();
    lemma_alnum_rows_sorted_0();
    assert(sorted_from(ALNUM_TABLE@, 3)) by {
        lemma_alnum_rows_sorted_0();
        reveal_with_fuel(sorted_from, 5);
    }
    lemma_sorted_table(ALNUM_TABLE@);
}

/// Whether `c` has the Alphabetic property or a Number general category,
/// found by binary search in the alphanumeric table.
pub fn is_alphanumeric(c: char) -> (r: bool)
    ensures
        r == alnum_of(c),
{
    proof {
        lemma_alnum_table_sorted();
    }
    let t = ALNUM_TABLE;
    let (_, _, v) = bsearch_range_value_table(c as u32, t.as_slice(), false);
    v
}

/// Among ASCII characters, exactly the digits and the Latin letters are
/// alphanumeric.
pub proof fn lemma_ascii_alnum(c: char)
    requires
        (c as u32) < 0x80,
    ensures
        alnum_of(c) == (('0' <= c <= '9') || ('A' <= c <= 'Z') || ('a' <= c <= 'z')),
{
    let t = ALNUM_TABLE@;
    let u = c as u32;
    lemma_alnum_table_sorted();
    assert(t[0] == (0x30u32, 0x39u32, true));
    assert(t[1] == (0x41u32, 0x5Au32, true));
    assert(t[2] == (0x61u32, 0x7Au32, true));
    assert(t[3].0 == 0xAA);
    if 0x30 <= u <= 0x39 {
        lemma_lookup_hit(t, 0, u, false);
    } else if 0x41 <= u <= 0x5A {
        lemma_lookup_hit(t, 1, u, false);
    } else if 0x61 <= u <= 0x7A {
        lemma_lookup_hit(t, 2, u, false);
    } else {
        lemma_sorted_from_lower(t, 3);
        assert forall|k: int| !row_holds(t, k, u) by {
            if 3 <= k < t.len() {
                assert(t[3].0 <= t[k].0);
            }
        }
        lemma_lookup_miss(t, u, false);
    }
}

// ---------------------------------------------------------------------------
// Reading the tables off for given characters
/// The value that a binary search of the table `t` between rows `lo` and
/// `hi` finds for `u`, or `d` where no row holds it.
pub open spec fn search_value<T>(t: Seq<(u32, u32, T)>, lo: int, hi: int, u: u32, d: T) -> T
    decreases hi - lo,
{
    if lo >= hi {
        d
    } else {
        let mid = lo + (hi - lo) / 2;
        if t[mid].1 < u {
            search_value(t, mid + 1, hi, u, d)
        } else if u < t[mid].0 {
            search_value(t, lo, mid, u, d)
        } else {
            t[mid].2
        }
    }
}

proof fn lemma_search_value<T>(t: Seq<(u32, u32, T)>, lo: int, hi: int, u: u32, d: T)
    requires
        table_sorted(t),
        0 <= lo <= hi <= t.len(),
        forall|k: int| 0 <= k < lo ==> #[trigger] t[k].1 < u,
        forall|k: int| hi <= k < t.len() ==> u < #[trigger] t[k].0,
    ensures
        search_value(t, lo, hi, u, d) == range_lookup(t, u, d).2,
    decreases hi - lo,
{
    reveal(table_sorted);
    if lo >= hi {
        assert forall|k: int| !row_holds(t, k, u) by {
            if 0 <= k < t.len() {
                if k < lo {
                    assert(t[k].1 < u);
                } else {
                    assert(u < t[k].0);
                }
            }
        }
        lemma_lookup_miss(t, u, d);
    } else {
        let mid = lo + (hi - lo) / 2;
        if t[mid].1 < u {
            assert forall|k: int| 0 <= k < mid + 1 implies #[trigger] t[k].1 < u by {
                if k < mid {
                    assert(t[k].1 < t[mid].0);
                }
            }
            lemma_search_value(t, mid + 1, hi, u, d);
        } else if u < t[mid].0 {
            assert forall|k: int| mid <= k < t.len() implies u < #[trigger] t[k].0 by {
                if k > mid {
                    assert(t[mid].1 < t[k].0);
                }
            }
            lemma_search_value(t, lo, mid, u, d);
        } else {
            lemma_lookup_hit(t, mid, u, d);
        }
    }
}

/// The word break category of `c` is what a binary search of the word
/// table finds, which a proof about a given character can unfold.
pub proof fn lemma_word_cat_search(c: char)
    ensures
        word_cat(c) == search_value(WORD_CAT_TABLE@, 0, 1100, c as u32, WordCat::WC_Any),
{
    lemma_word_table_sorted();
    lemma_search_value(WORD_CAT_TABLE@, 0, 1100, c as u32, WordCat::WC_Any);
}

/// Whether `c` is Extended_Pictographic is what a binary search of the
/// emoji table finds.
pub proof fn lemma_pictographic_search(c: char)
    ensures
        is_extended_pictographic(c) == (search_value(
            EMOJI_CAT_TABLE@,
            0,
            156,
            c as u32,
            EmojiCat::EC_Any,
        ) == EmojiCat::EC_Extended_Pictographic),
{
    lemma_emoji_table_sorted();
    lemma_search_value(EMOJI_CAT_TABLE@, 0, 156, c as u32, EmojiCat::EC_Any);
}

/// Whether `c` is alphanumeric is what a binary search of the alphanumeric
/// table finds.
pub proof fn lemma_alnum_search(c: char)
    ensures
        alnum_of(c) == search_value(ALNUM_TABLE@, 0, 844, c as u32, false),
{
    lemma_alnum_table_sorted();
    lemma_search_value(ALNUM_TABLE@, 0, 844, c as u32, false);
}


// ---------------------------------------------------------------------------
// Facts about the tables
/// The word break category of an ASCII byte.
pub open spec fn ascii_word_cat(b: u8) -> WordCat {
    if b == 0x0A {
        WordCat::WC_LF
    } else if b == 0x0B || b == 0x0C {
        WordCat::WC_Newline
    } else if b == 0x0D {
        WordCat::WC_CR
    } else if b == 0x20 {
        WordCat::WC_WSegSpace
    } else if b == 0x22 {
        WordCat::WC_Double_Quote
    } else if b == 0x27 {
        WordCat::WC_Single_Quote
    } else if b == 0x2C || b == 0x3B {
        WordCat::WC_MidNum
    } else if b == 0x2E {
        WordCat::WC_MidNumLet
    } else if is_digit_byte(b) {
        WordCat::WC_Numeric
    } else if b == 0x3A {
        WordCat::WC_MidLetter
    } else if is_alpha_byte(b) {
        WordCat::WC_ALetter
    } else if b == 0x5F {
        WordCat::WC_ExtendNumLet
    } else {
        WordCat::WC_Any
    }
}

proof fn lemma_lookup_hit<T>(t: Seq<(u32, u32, T)>, k: int, c: u32, d: T)
    requires
        table_sorted(t),
        row_holds(t, k, c),
    ensures
        range_lookup(t, c, d) == t[k],
{
    reveal(table_sorted);
    let k2 = choose|k2: int| row_holds(t, k2, c);
    assert(row_holds(t, k2, c));
    if k2 < k {
        assert(t[k2].1 < t[k].0);
    } else if k2 > k {
        assert(t[k].1 < t[k2].0);
    }
}

proof fn lemma_lookup_miss<T>(t: Seq<(u32, u32, T)>, c: u32, d: T)
    requires
        forall|k: int| !row_holds(t, k, c),
    ensures
        range_lookup(t, c, d).2 == d,
{
}

/// The rows of the word table that cover the ASCII range, and the row after.
proof fn lemma_word_table_ascii_rows()
    ensures
        ({
            let t = WORD_CAT_TABLE@;
            &&& t.len() == 1100
            &&& t[0] == (0xAu32, 0xAu32, WordCat::WC_LF)
            &&& t[1] == (0xBu32, 0xCu32, WordCat::WC_Newline)
            &&& t[2] == (0xDu32, 0xDu32, WordCat::WC_CR)
            &&& t[3] == (0x20u32, 0x20u32, WordCat::WC_WSegSpace)
            &&& t[4] == (0x22u32, 0x22u32, WordCat::WC_Double_Quote)
            &&& t[5] == (0x27u32, 0x27u32, WordCat::WC_Single_Quote)
            &&& t[6] == (0x2Cu32, 0x2Cu32, WordCat::WC_MidNum)
            &&& t[7] == (0x2Eu32, 0x2Eu32, WordCat::WC_MidNumLet)
            &&& t[8] == (0x30u32, 0x39u32, WordCat::WC_Numeric)
            &&& t[9] == (0x3Au32, 0x3Au32, WordCat::WC_MidLetter)
            &&& t[10] == (0x3Bu32, 0x3Bu32, WordCat::WC_MidNum)
            &&& t[11] == (0x41u32, 0x5Au32, WordCat::WC_ALetter)
            &&& t[12] == (0x5Fu32, 0x5Fu32, WordCat::WC_ExtendNumLet)
            &&& t[13] == (0x61u32, 0x7Au32, WordCat::WC_ALetter)
            &&& t[14] == (0x85u32, 0x85u32, WordCat::WC_Newline)
        }),
{
}

/// The category of a character that row `k` of the word table holds.
proof fn lemma_row_cat(c: char, k: int)
    requires
        row_holds(WORD_CAT_TABLE@, k, c as u32),
    ensures
        word_cat(c) == WORD_CAT_TABLE@[k].2,
{
    lemma_word_table_sorted();
    lemma_lookup_hit(WORD_CAT_TABLE@, k, c as u32, WordCat::WC_Any);
}

/// The rows after the ASCII ones start above the ASCII range.
proof fn lemma_rows_above_ascii()
    ensures
        forall|k: int| 14 <= k < WORD_CAT_TABLE@.len() ==> 0x85 <= #[trigger] WORD_CAT_TABLE@[k].0,
{
    let t = WORD_CAT_TABLE@;
    crate::tables::lemma_word_table_sorted_past_ascii();
    assert(t[14].0 == 0x85);
    lemma_sorted_from_lower(t, 14);
}

/// An ASCII character that no ASCII row holds has no category.
proof fn lemma_ascii_gap_cat(c: char)
    requires
        (c as u32) < 0x80,
        ascii_word_cat(c as u8) == WordCat::WC_Any,
    ensures
        word_cat(c) == WordCat::WC_Any,
{
    lemma_word_table_ascii_rows();
    let t = WORD_CAT_TABLE@;
    let u = c as u32;
    lemma_rows_above_ascii();
    assert((c as u8) as u32 == u);
    assert forall|k: int| !row_holds(t, k, u) by {
        if 0 <= k < 7 {
            if k == 0 {
            } else if k == 1 {
            } else if k == 2 {
            } else if k == 3 {
            } else if k == 4 {
            } else if k == 5 {
            } else {
            }
        } else if 7 <= k < 14 {
            if k == 7 {
            } else if k == 8 {
            } else if k == 9 {
            } else if k == 10 {
            } else if k == 11 {
            } else if k == 12 {
            } else {
            }
        }
    }
    lemma_lookup_miss(t, u, WordCat::WC_Any);
}

/// The table gives every ASCII character the category the ASCII rows state.
pub proof fn lemma_ascii_word_cat(c: char)
    requires
        (c as u32) < 0x80,
    ensures
        word_cat(c) == ascii_word_cat(c as u8),
{
    lemma_word_table_ascii_rows();
    let t = WORD_CAT_TABLE@;
    let u = c as u32;
    assert((c as u8) as u32 == u);
    if u == 0x0A {
        lemma_row_cat(c, 0);
    } else if 0x0B <= u <= 0x0C {
        lemma_row_cat(c, 1);
    } else if u == 0x0D {
        lemma_row_cat(c, 2);
    } else if u == 0x20 {
        lemma_row_cat(c, 3);
    } else if u == 0x22 {
        lemma_row_cat(c, 4);
    } else if u == 0x27 {
        lemma_row_cat(c, 5);
    } else if u == 0x2C {
        lemma_row_cat(c, 6);
    } else if u == 0x2E {
        lemma_row_cat(c, 7);
    } else if 0x30 <= u <= 0x39 {
        lemma_row_cat(c, 8);
    } else if u == 0x3A {
        lemma_row_cat(c, 9);
    } else if u == 0x3B {
        lemma_row_cat(c, 10);
    } else if 0x41 <= u <= 0x5A {
        lemma_row_cat(c, 11);
    } else if u == 0x5F {
        lemma_row_cat(c, 12);
    } else if 0x61 <= u <= 0x7A {
        lemma_row_cat(c, 13);
    } else {
        lemma_ascii_gap_cat(c);
    }
}

/// A code point below the first row of a sorted table falls in no row.
proof fn lemma_below_first_row<T>(t: Seq<(u32, u32, T)>, c: u32, d: T)
    requires
        sorted_from(t, 0),
        t.len() > 0,
        c < t[0].0,
    ensures
        range_lookup(t, c, d).2 == d,
{
    lemma_sorted_from_lower(t, 0);
    assert forall|k: int| !row_holds(t, k, c) by {
        if 0 <= k < t.len() {
            assert(t[0].0 <= t[k].0);
        }
    }
    lemma_lookup_miss(t, c, d);
}

/// No ASCII character is Extended_Pictographic.
pub proof fn lemma_ascii_not_pictographic(c: char)
    requires
        (c as u32) < 0x80,
    ensures
        !is_extended_pictographic(c),
{
    let e = EMOJI_CAT_TABLE@;
    lemma_emoji_table_sorted_from_start();
    assert(e[0].0 == 0xA9);
    lemma_below_first_row(e, c as u32, EmojiCat::EC_Any);
}

/// Walking the word and emoji tables side by side from rows `i` and `k`,
/// every word row that overlaps an emoji row is an ALetter row.
spec fn ep_cat_ok(
    w: Seq<(u32, u32, WordCat)>,
    e: Seq<(u32, u32, EmojiCat)>,
    i: nat,
    k: nat,
) -> bool
    decreases w.len() + e.len() - i - k,
{
    if i >= w.len() || k >= e.len() {
        true
    } else if w[i as int].1 < e[k as int].0 {
        ep_cat_ok(w, e, i + 1, k)
    } else if e[k as int].1 < w[i as int].0 {
        ep_cat_ok(w, e, i, k + 1)
    } else {
        w[i as int].2 == WordCat::WC_ALetter && if w[i as int].1 <= e[k as int].1 {
            ep_cat_ok(w, e, i + 1, k)
        } else {
            ep_cat_ok(w, e, i, k + 1)
        }
    }
}

proof fn lemma_ep_cat(
    w: Seq<(u32, u32, WordCat)>,
    ee: Seq<(u32, u32, EmojiCat)>,
    i: nat,
    k: nat,
    m: int,
    x: int,
    c: u32,
)
    requires
        table_sorted(w),
        table_sorted(ee),
        ep_cat_ok(w, ee, i, k),
        i <= m,
        k <= x,
        row_holds(w, m, c),
        row_holds(ee, x, c),
    ensures
        w[m].2 == WordCat::WC_ALetter,
    decreases w.len() + ee.len() - i - k,
{
    reveal(table_sorted);
    if w[i as int].1 < ee[k as int].0 {
        if m == i {
            assert(ee[k as int].0 <= ee[x].0);
        }
        lemma_ep_cat(w, ee, i + 1, k, m, x, c);
    } else if ee[k as int].1 < w[i as int].0 {
        if x == k {
            assert(w[i as int].0 <= w[m].0);
        }
        lemma_ep_cat(w, ee, i, k + 1, m, x, c);
    } else if m == i && x == k {
    } else if w[i as int].1 <= ee[k as int].1 {
        if m == i {
            assert(ee[k as int].1 < ee[x].0);
        }
        lemma_ep_cat(w, ee, i + 1, k, m, x, c);
    } else {
        if x == k {
            assert(w[i as int].1 < w[m].0);
        }
        lemma_ep_cat(w, ee, i, k + 1, m, x, c);
    }
}

#[verifier::rlimit(50)]
proof fn lemma_pict_rows_0()
    ensures
        ep_cat_ok(WORD_CAT_TABLE@, EMOJI_CAT_TABLE@, 1096, 122),
{
    assert(ep_cat_ok(WORD_CAT_TABLE@, EMOJI_CAT_TABLE@, 1097, 156)) by {
        reveal_with_fuel(ep_cat_ok, 6);
    }
    assert(ep_cat_ok(WORD_CAT_TABLE@, EMOJI_CAT_TABLE@, 1096, 152)) by {
        reveal_with_fuel(ep_cat_ok, 6);
    }
    assert(ep_cat_ok(WORD_CAT_TABLE@, EMOJI_CAT_TABLE@, 1096, 147)) by {
        reveal_with_fuel(ep_cat_ok, 6);
    }
    assert(ep_cat_ok(WORD_CAT_TABLE@, EMOJI_CAT_TABLE@, 1096, 142)) by {
        reveal_with_fuel(ep_cat_ok, 6);
    }
    assert(ep_cat_ok(WORD_CAT_TABLE@, EMOJI_CAT_TABLE@, 1096, 137)) by {
        reveal_with_fuel(ep_cat_ok, 6);
    }
    assert(ep_cat_ok(WORD_CAT_TABLE@, EMOJI_CAT_TABLE@, 1096, 132)) by {
        reveal_with_fuel(ep_cat_ok, 6);
    }
    assert(ep_cat_ok(WORD_CAT_TABLE@, EMOJI_CAT_TABLE@, 1096, 127)) by {
        reveal_with_fuel(ep_cat_ok, 6);
    }
    assert(ep_cat_ok(WORD_CAT_TABLE@, EMOJI_CAT_TABLE@, 1096, 122)) by {
        reveal_with_fuel(ep_cat_ok, 6);
    }
}

#[verifier::rlimit(50)]
proof fn lemma_pict_rows_1()
    requires
        ep_cat_ok(WORD_CAT_TABLE@, EMOJI_CAT_TABLE@, 1096, 122),
    ensures
        ep_cat_ok(WORD_CAT_TABLE@, EMOJI_CAT_TABLE@, 1091, 87),
{
    assert(ep_cat_ok(WORD_CAT_TABLE@, EMOJI_CAT_TABLE@, 1096, 117)) by {
        reveal_with_fuel(ep_cat_ok, 6);
    }
    assert(ep_cat_ok(WORD_CAT_TABLE@, EMOJI_CAT_TABLE@, 1096, 112)) by {
        reveal_with_fuel(ep_cat_ok, 6);
    }
    assert(ep_cat_ok(WORD_CAT_TABLE@, EMOJI_CAT_TABLE@, 1095, 108)) by {
        reveal_with_fuel(ep_cat_ok, 6);
    }
    assert(ep_cat_ok(WORD_CAT_TABLE@, EMOJI_CAT_TABLE@, 1095, 103)) by {
        reveal_with_fuel(ep_cat_ok, 6);
    }
    assert(ep_cat_ok(WORD_CAT_TABLE@, EMOJI_CAT_TABLE@, 1094, 99)) by {
        reveal_with_fuel(ep_cat_ok, 6);
    }
    assert(ep_cat_ok(WORD_CAT_TABLE@, EMOJI_CAT_TABLE@, 1093, 95)) by {
        reveal_with_fuel(ep_cat_ok, 6);
    }
    assert(ep_cat_ok(WORD_CAT_TABLE@, EMOJI_CAT_TABLE@, 1091, 92)) by {
        reveal_with_fuel(ep_cat_ok, 6);
    }
    assert(ep_cat_ok(WORD_CAT_TABLE@, EMOJI_CAT_TABLE@, 1091, 87)) by {
        reveal_with_fuel(ep_cat_ok, 6);
    }
}

#[verifier::rlimit(50)]
proof fn lemma_pict_rows_2()
    requires
        ep_cat_ok(WORD_CAT_TABLE@, EMOJI_CAT_TABLE@, 1091, 87),
    ensures
        ep_cat_ok(WORD_CAT_TABLE@, EMOJI_CAT_TABLE@, 1051, 87),
{
    assert(ep_cat_ok(WORD_CAT_TABLE@, EMOJI_CAT_TABLE@, 1086, 87)) by {
        reveal_with_fuel(ep_cat_ok, 6);
    }
    assert(ep_cat_ok(WORD_CAT_TABLE@, EMOJI_CAT_TABLE@, 1081, 87)) by {
        reveal_with_fuel(ep_cat_ok, 6);
    }
    assert(ep_cat_ok(WORD_CAT_TABLE@, EMOJI_CAT_TABLE@, 1076, 87)) by {
        reveal_with_fuel(ep_cat_ok, 6);
    }
    assert(ep_cat_ok(WORD_CAT_TABLE@, EMOJI_CAT_TABLE@, 1071, 87)) by {
        reveal_with_fuel(ep_cat_ok, 6);
    }
    assert(ep_cat_ok(WORD_CAT_TABLE@, EMOJI_CAT_TABLE@, 1066, 87)) by {
        reveal_with_fuel(ep_cat_ok, 6);
    }
    assert(ep_cat_ok(WORD_CAT_TABLE@, EMOJI_CAT_TABLE@, 1061, 87)) by {
        reveal_with_fuel(ep_cat_ok, 6);
    }
    assert(ep_cat_ok(WORD_CAT_TABLE@, EMOJI_CAT_TABLE@, 1056, 87)) by {
        reveal_with_fuel(ep_cat_ok, 6);
    }
    assert(ep_cat_ok(WORD_CAT_TABLE@, EMOJI_CAT_TABLE@, 1051, 87)) by {
        reveal_with_fuel(ep_cat_ok, 6);
    }
}

#[verifier::rlimit(50)]
proof fn lemma_pict_rows_3()
    requires
        ep_cat_ok(WORD_CAT_TABLE@, EMOJI_CAT_TABLE@, 1051, 87),
    ensures
        ep_cat_ok(WORD_CAT_TABLE@, EMOJI_CAT_TABLE@, 1011, 87),
{
    assert(ep_cat_ok(WORD_CAT_TABLE@, EMOJI_CAT_TABLE@, 1046, 87)) by {
        reveal_with_fuel(ep_cat_ok, 6);
    }
    assert(ep_cat_ok(WORD_CAT_TABLE@, EMOJI_CAT_TABLE@, 1041, 87)) by {
        reveal_with_fuel(ep_cat_ok, 6);
    }
    assert(ep_cat_ok(WORD_CAT_TABLE@, EMOJI_CAT_TABLE@, 1036, 87)) by {
        reveal_with_fuel(ep_cat_ok, 6);
    }
    assert(ep_cat_ok(WORD_CAT_TABLE@, EMOJI_CAT_TABLE@, 1031, 87)) by {
        reveal_with_fuel(ep_cat_ok, 6);
    }
    assert(ep_cat_ok(WORD_CAT_TABLE@, EMOJI_CAT_TABLE@, 1026, 87)) by {
        reveal_with_fuel(ep_cat_ok, 6);
    }
    assert(ep_cat_ok(WORD_CAT_TABLE@, EMOJI_CAT_TABLE@, 1021, 87)) by {
        reveal_with_fuel(ep_cat_ok, 6);
    }
    assert(ep_cat_ok(WORD_CAT_TABLE@, EMOJI_CAT_TABLE@, 1016, 87)) by {
        reveal_with_fuel(ep_cat_ok, 6);
    }
    assert(ep_cat_ok(WORD_CAT_TABLE@, EMOJI_CAT_TABLE@, 1011, 87)) by {
        reveal_with_fuel(ep_cat_ok, 6);
    }
}

#[verifier::rlimit(50)]
proof fn lemma_pict_rows_4()
    requires
        ep_cat_ok(WORD_CAT_TABLE@, EMOJI_CAT_TABLE@, 1011, 87),
    ensures
        ep_cat_ok(WORD_CAT_TABLE@, EMOJI_CAT_TABLE@, 971, 87),
{
    assert(ep_cat_ok(WORD_CAT_TABLE@, EMOJI_CAT_TABLE@, 1006, 87)) by {
        reveal_with_fuel(ep_cat_ok, 6);
    }
    assert(ep_cat_ok(WORD_CAT_TABLE@, EMOJI_CAT_TABLE@, 1001, 87)) by {
        reveal_with_fuel(ep_cat_ok, 6);
    }
    assert(ep_cat_ok(WORD_CAT_TABLE@, EMOJI_CAT_TABLE@, 996, 87)) by {
        reveal_with_fuel(ep_cat_ok, 6);
    }
    assert(ep_cat_ok(WORD_CAT_TABLE@, EMOJI_CAT_TABLE@, 991, 87)) by {
        reveal_with_fuel(ep_cat_ok, 6);
    }
    assert(ep_cat_ok(WORD_CAT_TABLE@, EMOJI_CAT_TABLE@, 986, 87)) by {
        reveal_with_fuel(ep_cat_ok, 6);
    }
    assert(ep_cat_ok(WORD_CAT_TABLE@, EMOJI_CAT_TABLE@, 981, 87)) by {
        reveal_with_fuel(ep_cat_ok, 6);
    }
    assert(ep_cat_ok(WORD_CAT_TABLE@, EMOJI_CAT_TABLE@, 976, 87)) by {
        reveal_with_fuel(ep_cat_ok, 6);
    }
    assert(ep_cat_ok(WORD_CAT_TABLE@, EMOJI_CAT_TABLE@, 971, 87)) by {
        reveal_with_fuel(ep_cat_ok, 6);
    }
}

#[verifier::rlimit(50)]
proof fn lemma_pict_rows_5()
    requires
        ep_cat_ok(WORD_CAT_TABLE@, EMOJI_CAT_TABLE@, 971, 87),
    ensures
        ep_cat_ok(WORD_CAT_TABLE@, EMOJI_CAT_TABLE@, 931, 87),
{
    assert(ep_cat_ok(WORD_CAT_TABLE@, EMOJI_CAT_TABLE@, 966, 87)) by {
        reveal_with_fuel(ep_cat_ok, 6);
    }
    assert(ep_cat_ok(WORD_CAT_TABLE@, EMOJI_CAT_TABLE@, 961, 87)) by {
        reveal_with_fuel(ep_cat_ok, 6);
    }
    assert(ep_cat_ok(WORD_CAT_TABLE@, EMOJI_CAT_TABLE@, 956, 87)) by {
        reveal_with_fuel(ep_cat_ok, 6);
    }
    assert(ep_cat_ok(WORD_CAT_TABLE@, EMOJI_CAT_TABLE@, 951, 87)) by {
        reveal_with_fuel(ep_cat_ok, 6);
    }
    assert(ep_cat_ok(WORD_CAT_TABLE@, EMOJI_CAT_TABLE@, 946, 87)) by {
        reveal_with_fuel(ep_cat_ok, 6);
    }
    assert(ep_cat_ok(WORD_CAT_TABLE@, EMOJI_CAT_TABLE@, 941, 87)) by {
        reveal_with_fuel(ep_cat_ok, 6);
    }
    assert(ep_cat_ok(WORD_CAT_TABLE@, EMOJI_CAT_TABLE@, 936, 87)) by {
        reveal_with_fuel(ep_cat_ok, 6);
    }
    assert(ep_cat_ok(WORD_CAT_TABLE@, EMOJI_CAT_TABLE@, 931, 87)) by {
        reveal_with_fuel(ep_cat_ok, 6);
    }
}

#[verifier::rlimit(50)]
proof fn lemma_pict_rows_6()
    requires
        ep_cat_ok(WORD_CAT_TABLE@, EMOJI_CAT_TABLE@, 931, 87),
    ensures
        ep_cat_ok(WORD_CAT_TABLE@, EMOJI_CAT_TABLE@, 891, 87),
{
    assert(ep_cat_ok(WORD_CAT_TABLE@, EMOJI_CAT_TABLE@, 926, 87)) by {
        reveal_with_fuel(ep_cat_ok, 6);
    }
    assert(ep_cat_ok(WORD_CAT_TABLE@, EMOJI_CAT_TABLE@, 921, 87)) by {
        reveal_with_fuel(ep_cat_ok, 6);
    }
    assert(ep_cat_ok(WORD_CAT_TABLE@, EMOJI_CAT_TABLE@, 916, 87)) by {
        reveal_with_fuel(ep_cat_ok, 6);
    }
    assert(ep_cat_ok(WORD_CAT_TABLE@, EMOJI_CAT_TABLE@, 911, 87)) by {
        reveal_with_fuel(ep_cat_ok, 6);
    }
    assert(ep_cat_ok(WORD_CAT_TABLE@, EMOJI_CAT_TABLE@, 906, 87)) by {
        reveal_with_fuel(ep_cat_ok, 6);
    }
    assert(ep_cat_ok(WORD_CAT_TABLE@, EMOJI_CAT_TABLE@, 901, 87)) by {
        reveal_with_fuel(ep_cat_ok, 6);
    }
    assert(ep_cat_ok(WORD_CAT_TABLE@, EMOJI_CAT_TABLE@, 896, 87)) by {
        reveal_with_fuel(ep_cat_ok, 6);
    }
    assert(ep_cat_ok(WORD_CAT_TABLE@, EMOJI_CAT_TABLE@, 891, 87)) by {
        reveal_with_fuel(ep_cat_ok, 6);
    }
}

#[verifier::rlimit(50)]
proof fn lemma_pict_rows_7()
    requires
        ep_cat_ok(WORD_CAT_TABLE@, EMOJI_CAT_TABLE@, 891, 87),
    ensures
        ep_cat_ok(WORD_CAT_TABLE@, EMOJI_CAT_TABLE@, 851, 87),
{
    assert(ep_cat_ok(WORD_CAT_TABLE@, EMOJI_CAT_TABLE@, 886, 87)) by {
        reveal_with_fuel(ep_cat_ok, 6);
    }
    assert(ep_cat_ok(WORD_CAT_TABLE@, EMOJI_CAT_TABLE@, 881, 87)) by {
        reveal_with_fuel(ep_cat_ok, 6);
    }
    assert(ep_cat_ok(WORD_CAT_TABLE@, EMOJI_CAT_TABLE@, 876, 87)) by {
        reveal_with_fuel(ep_cat_ok, 6);
    }
    assert(ep_cat_ok(WORD_CAT_TABLE@, EMOJI_CAT_TABLE@, 871, 87)) by {
        reveal_with_fuel(ep_cat_ok, 6);
    }
    assert(ep_cat_ok(WORD_CAT_TABLE@, EMOJI_CAT_TABLE@, 866, 87)) by {
        reveal_with_fuel(ep_cat_ok, 6);
    }
    assert(ep_cat_ok(WORD_CAT_TABLE@, EMOJI_CAT_TABLE@, 861, 87)) by {
        reveal_with_fuel(ep_cat_ok, 6);
    }
    assert(ep_cat_ok(WORD_CAT_TABLE@, EMOJI_CAT_TABLE@, 856, 87)) by {
        reveal_with_fuel(ep_cat_ok, 6);
    }
    assert(ep_cat_ok(WORD_CAT_TABLE@, EMOJI_CAT_TABLE@, 851, 87)) by {
        reveal_with_fuel(ep_cat_ok, 6);
    }
}

#[verifier::rlimit(50)]
proof fn lemma_pict_rows_8()
    requires
        ep_cat_ok(WORD_CAT_TABLE@, EMOJI_CAT_TABLE@, 851, 87),
    ensures
        ep_cat_ok(WORD_CAT_TABLE@, EMOJI_CAT_TABLE@, 811, 87),
{
    assert(ep_cat_ok(WORD_CAT_TABLE@, EMOJI_CAT_TABLE@, 846, 87)) by {
        reveal_with_fuel(ep_cat_ok, 6);
    }
    assert(ep_cat_ok(WORD_CAT_TABLE@, EMOJI_CAT_TABLE@, 841, 87)) by {
        reveal_with_fuel(ep_cat_ok, 6);
    }
    assert(ep_cat_ok(WORD_CAT_TABLE@, EMOJI_CAT_TABLE@, 836, 87)) by {
        reveal_with_fuel(ep_cat_ok, 6);
    }
    assert(ep_cat_ok(WORD_CAT_TABLE@, EMOJI_CAT_TABLE@, 831, 87)) by {
        reveal_with_fuel(ep_cat_ok, 6);
    }
    assert(ep_cat_ok(WORD_CAT_TABLE@, EMOJI_CAT_TABLE@, 826, 87)) by {
        reveal_with_fuel(ep_cat_ok, 6);
    }
    assert(ep_cat_ok(WORD_CAT_TABLE@, EMOJI_CAT_TABLE@, 821, 87)) by {
        reveal_with_fuel(ep_cat_ok, 6);
    }
    assert(ep_cat_ok(WORD_CAT_TABLE@, EMOJI_CAT_TABLE@, 816, 87)) by {
        reveal_with_fuel(ep_cat_ok, 6);
    }
    assert(ep_cat_ok(WORD_CAT_TABLE@, EMOJI_CAT_TABLE@, 811, 87)) by {
        reveal_with_fuel(ep_cat_ok, 6);
    }
}

#[verifier::rlimit(50)]
proof fn lemma_pict_rows_9()
    requires
        ep_cat_ok(WORD_CAT_TABLE@, EMOJI_CAT_TABLE@, 811, 87),
    ensures
        ep_cat_ok(WORD_CAT_TABLE@, EMOJI_CAT_TABLE@, 771, 87),
{
    assert(ep_cat_ok(WORD_CAT_TABLE@, EMOJI_CAT_TABLE@, 806, 87)) by {
        reveal_with_fuel(ep_cat_ok, 6);
    }
    assert(ep_cat_ok(WORD_CAT_TABLE@, EMOJI_CAT_TABLE@, 801, 87)) by {
        reveal_with_fuel(ep_cat_ok, 6);
    }
    assert(ep_cat_ok(WORD_CAT_TABLE@, EMOJI_CAT_TABLE@, 796, 87)) by {
        reveal_with_fuel(ep_cat_ok, 6);
    }
    assert(ep_cat_ok(WORD_CAT_TABLE@, EMOJI_CAT_TABLE@, 791, 87)) by {
        reveal_with_fuel(ep_cat_ok, 6);
    }
    assert(ep_cat_ok(WORD_CAT_TABLE@, EMOJI_CAT_TABLE@, 786, 87)) by {
        reveal_with_fuel(ep_cat_ok, 6);
    }
    assert(ep_cat_ok(WORD_CAT_TABLE@, EMOJI_CAT_TABLE@, 781, 87)) by {
        reveal_with_fuel(ep_cat_ok, 6);
    }
    assert(ep_cat_ok(WORD_CAT_TABLE@, EMOJI_CAT_TABLE@, 776, 87)) by {
        reveal_with_fuel(ep_cat_ok, 6);
    }
    assert(ep_cat_ok(WORD_CAT_TABLE@, EMOJI_CAT_TABLE@, 771, 87)) by {
        reveal_with_fuel(ep_cat_ok, 6);
    }
}

#[verifier::rlimit(50)]
proof fn lemma_pict_rows_10()
    requires
        ep_cat_ok(WORD_CAT_TABLE@, EMOJI_CAT_TABLE@, 771, 87),
    ensures
        ep_cat_ok(WORD_CAT_TABLE@, EMOJI_CAT_TABLE@, 731, 87),
{
    assert(ep_cat_ok(WORD_CAT_TABLE@, EMOJI_CAT_TABLE@, 766, 87)) by {
        reveal_with_fuel(ep_cat_ok, 6);
    }
    assert(ep_cat_ok(WORD_CAT_TABLE@, EMOJI_CAT_TABLE@, 761, 87)) by {
        reveal_with_fuel(ep_cat_ok, 6);
    }
    assert(ep_cat_ok(WORD_CAT_TABLE@, EMOJI_CAT_TABLE@, 756, 87)) by {
        reveal_with_fuel(ep_cat_ok, 6);
    }
    assert(ep_cat_ok(WORD_CAT_TABLE@, EMOJI_CAT_TABLE@, 751, 87)) by {
        reveal_with_fuel(ep_cat_ok, 6);
    }
    assert(ep_cat_ok(WORD_CAT_TABLE@, EMOJI_CAT_TABLE@, 746, 87)) by {
        reveal_with_fuel(ep_cat_ok, 6);
    }
    assert(ep_cat_ok(WORD_CAT_TABLE@, EMOJI_CAT_TABLE@, 741, 87)) by {
        reveal_with_fuel(ep_cat_ok, 6);
    }
    assert(ep_cat_ok(WORD_CAT_TABLE@, EMOJI_CAT_TABLE@, 736, 87)) by {
        reveal_with_fuel(ep_cat_ok, 6);
    }
    assert(ep_cat_ok(WORD_CAT_TABLE@, EMOJI_CAT_TABLE@, 731, 87)) by {
        reveal_with_fuel(ep_cat_ok, 6);
    }
}

#[verifier::rlimit(50)]
proof fn lemma_pict_rows_11()
    requires
        ep_cat_ok(WORD_CAT_TABLE@, EMOJI_CAT_TABLE@, 731, 87),
    ensures
        ep_cat_ok(WORD_CAT_TABLE@, EMOJI_CAT_TABLE@, 691, 87),
{
    assert(ep_cat_ok(WORD_CAT_TABLE@, EMOJI_CAT_TABLE@, 726, 87)) by {
        reveal_with_fuel(ep_cat_ok, 6);
    }
    assert(ep_cat_ok(WORD_CAT_TABLE@, EMOJI_CAT_TABLE@, 721, 87)) by {
        reveal_with_fuel(ep_cat_ok, 6);
    }
    assert(ep_cat_ok(WORD_CAT_TABLE@, EMOJI_CAT_TABLE@, 716, 87)) by {
        reveal_with_fuel(ep_cat_ok, 6);
    }
    assert(ep_cat_ok(WORD_CAT_TABLE@, EMOJI_CAT_TABLE@, 711, 87)) by {
        reveal_with_fuel(ep_cat_ok, 6);
    }
    assert(ep_cat_ok(WORD_CAT_TABLE@, EMOJI_CAT_TABLE@, 706, 87)) by {
        reveal_with_fuel(ep_cat_ok, 6);
    }
    assert(ep_cat_ok(WORD_CAT_TABLE@, EMOJI_CAT_TABLE@, 701, 87)) by {
        reveal_with_fuel(ep_cat_ok, 6);
    }
    assert(ep_cat_ok(WORD_CAT_TABLE@, EMOJI_CAT_TABLE@, 696, 87)) by {
        reveal_with_fuel(ep_cat_ok, 6);
    }
    assert(ep_cat_ok(WORD_CAT_TABLE@, EMOJI_CAT_TABLE@, 691, 87)) by {
        reveal_with_fuel(ep_cat_ok, 6);
    }
}

#[verifier::rlimit(50)]
proof fn lemma_pict_rows_12()
    requires
        ep_cat_ok(WORD_CAT_TABLE@, EMOJI_CAT_TABLE@, 691, 87),
    ensures
        ep_cat_ok(WORD_CAT_TABLE@, EMOJI_CAT_TABLE@, 651, 87),
{
    assert(ep_cat_ok(WORD_CAT_TABLE@, EMOJI_CAT_TABLE@, 686, 87)) by {
        reveal_with_fuel(ep_cat_ok, 6);
    }
    assert(ep_cat_ok(WORD_CAT_TABLE@, EMOJI_CAT_TABLE@, 681, 87)) by {
        reveal_with_fuel(ep_cat_ok, 6);
    }
    assert(ep_cat_ok(WORD_CAT_TABLE@, EMOJI_CAT_TABLE@, 676, 87)) by {
        reveal_with_fuel(ep_cat_ok, 6);
    }
    assert(ep_cat_ok(WORD_CAT_TABLE@, EMOJI_CAT_TABLE@, 671, 87)) by {
        reveal_with_fuel(ep_cat_ok, 6);
    }
    assert(ep_cat_ok(WORD_CAT_TABLE@, EMOJI_CAT_TABLE@, 666, 87)) by {
        reveal_with_fuel(ep_cat_ok, 6);
    }
    assert(ep_cat_ok(WORD_CAT_TABLE@, EMOJI_CAT_TABLE@, 661, 87)) by {
        reveal_with_fuel(ep_cat_ok, 6);
    }
    assert(ep_cat_ok(WORD_CAT_TABLE@, EMOJI_CAT_TABLE@, 656, 87)) by {
        reveal_with_fuel(ep_cat_ok, 6);
    }
    assert(ep_cat_ok(WORD_CAT_TABLE@, EMOJI_CAT_TABLE@, 651, 87)) by {
        reveal_with_fuel(ep_cat_ok, 6);
    }
}

#[verifier::rlimit(50)]
proof fn lemma_pict_rows_13()
    requires
        ep_cat_ok(WORD_CAT_TABLE@, EMOJI_CAT_TABLE@, 651, 87),
    ensures
        ep_cat_ok(WORD_CAT_TABLE@, EMOJI_CAT_TABLE@, 611, 87),
{
    assert(ep_cat_ok(WORD_CAT_TABLE@, EMOJI_CAT_TABLE@, 646, 87)) by {
        reveal_with_fuel(ep_cat_ok, 6);
    }
    assert(ep_cat_ok(WORD_CAT_TABLE@, EMOJI_CAT_TABLE@, 641, 87)) by {
        reveal_with_fuel(ep_cat_ok, 6);
    }
    assert(ep_cat_ok(WORD_CAT_TABLE@, EMOJI_CAT_TABLE@, 636, 87)) by {
        reveal_with_fuel(ep_cat_ok, 6);
    }
    assert(ep_cat_ok(WORD_CAT_TABLE@, EMOJI_CAT_TABLE@, 631, 87)) by {
        reveal_with_fuel(ep_cat_ok, 6);
    }
    assert(ep_cat_ok(WORD_CAT_TABLE@, EMOJI_CAT_TABLE@, 626, 87)) by {
        reveal_with_fuel(ep_cat_ok, 6);
    }
    assert(ep_cat_ok(WORD_CAT_TABLE@, EMOJI_CAT_TABLE@, 621, 87)) by {
        reveal_with_fuel(ep_cat_ok, 6);
    }
    assert(ep_cat_ok(WORD_CAT_TABLE@, EMOJI_CAT_TABLE@, 616, 87)) by {
        reveal_with_fuel(ep_cat_ok, 6);
    }
    assert(ep_cat_ok(WORD_CAT_TABLE@, EMOJI_CAT_TABLE@, 611, 87)) by {
        reveal_with_fuel(ep_cat_ok, 6);
    }
}

#[verifier::rlimit(50)]
proof fn lemma_pict_rows_14()
    requires
        ep_cat_ok(WORD_CAT_TABLE@, EMOJI_CAT_TABLE@, 611, 87),
    ensures
        ep_cat_ok(WORD_CAT_TABLE@, EMOJI_CAT_TABLE@, 571, 87),
{
    assert(ep_cat_ok(WORD_CAT_TABLE@, EMOJI_CAT_TABLE@, 606, 87)) by {
        reveal_with_fuel(ep_cat_ok, 6);
    }
    assert(ep_cat_ok(WORD_CAT_TABLE@, EMOJI_CAT_TABLE@, 601, 87)) by {
        reveal_with_fuel(ep_cat_ok, 6);
    }
    assert(ep_cat_ok(WORD_CAT_TABLE@, EMOJI_CAT_TABLE@, 596, 87)) by {
        reveal_with_fuel(ep_cat_ok, 6);
    }
    assert(ep_cat_ok(WORD_CAT_TABLE@, EMOJI_CAT_TABLE@, 591, 87)) by {
        reveal_with_fuel(ep_cat_ok, 6);
    }
    assert(ep_cat_ok(WORD_CAT_TABLE@, EMOJI_CAT_TABLE@, 586, 87)) by {
        reveal_with_fuel(ep_cat_ok, 6);
    }
    assert(ep_cat_ok(WORD_CAT_TABLE@, EMOJI_CAT_TABLE@, 581, 87)) by {
        reveal_with_fuel(ep_cat_ok, 6);
    }
    assert(ep_cat_ok(WORD_CAT_TABLE@, EMOJI_CAT_TABLE@, 576, 87)) by {
        reveal_with_fuel(ep_cat_ok, 6);
    }
    assert(ep_cat_ok(WORD_CAT_TABLE@, EMOJI_CAT_TABLE@, 571, 87)) by {
        reveal_with_fuel(ep_cat_ok, 6);
    }
}

#[verifier::rlimit(50)]
proof fn lemma_pict_rows_15()
    requires
        ep_cat_ok(WORD_CAT_TABLE@, EMOJI_CAT_TABLE@, 571, 87),
    ensures
        ep_cat_ok(WORD_CAT_TABLE@, EMOJI_CAT_TABLE@, 531, 87),
{
    assert(ep_cat_ok(WORD_CAT_TABLE@, EMOJI_CAT_TABLE@, 566, 87)) by {
        reveal_with_fuel(ep_cat_ok, 6);
    }
    assert(ep_cat_ok(WORD_CAT_TABLE@, EMOJI_CAT_TABLE@, 561, 87)) by {
        reveal_with_fuel(ep_cat_ok, 6);
    }
    assert(ep_cat_ok(WORD_CAT_TABLE@, EMOJI_CAT_TABLE@, 556, 87)) by {
        reveal_with_fuel(ep_cat_ok, 6);
    }
    assert(ep_cat_ok(WORD_CAT_TABLE@, EMOJI_CAT_TABLE@, 551, 87)) by {
        reveal_with_fuel(ep_cat_ok, 6);
    }
    assert(ep_cat_ok(WORD_CAT_TABLE@, EMOJI_CAT_TABLE@, 546, 87)) by {
        reveal_with_fuel(ep_cat_ok, 6);
    }
    assert(ep_cat_ok(WORD_CAT_TABLE@, EMOJI_CAT_TABLE@, 541, 87)) by {
        reveal_with_fuel(ep_cat_ok, 6);
    }
    assert(ep_cat_ok(WORD_CAT_TABLE@, EMOJI_CAT_TABLE@, 536, 87)) by {
        reveal_with_fuel(ep_cat_ok, 6);
    }
    assert(ep_cat_ok(WORD_CAT_TABLE@, EMOJI_CAT_TABLE@, 531, 87)) by {
        reveal_with_fuel(ep_cat_ok, 6);
    }
}

#[verifier::rlimit(50)]
proof fn lemma_pict_rows_16()
    requires
        ep_cat_ok(WORD_CAT_TABLE@, EMOJI_CAT_TABLE@, 531, 87),
    ensures
        ep_cat_ok(WORD_CAT_TABLE@, EMOJI_CAT_TABLE@, 493, 85),
{
    assert(ep_cat_ok(WORD_CAT_TABLE@, EMOJI_CAT_TABLE@, 526, 87)) by {
        reveal_with_fuel(ep_cat_ok, 6);
    }
    assert(ep_cat_ok(WORD_CAT_TABLE@, EMOJI_CAT_TABLE@, 521, 87)) by {
        reveal_with_fuel(ep_cat_ok, 6);
    }
    assert(ep_cat_ok(WORD_CAT_TABLE@, EMOJI_CAT_TABLE@, 516, 87)) by {
        reveal_with_fuel(ep_cat_ok, 6);
    }
    assert(ep_cat_ok(WORD_CAT_TABLE@, EMOJI_CAT_TABLE@, 511, 87)) by {
        reveal_with_fuel(ep_cat_ok, 6);
    }
    assert(ep_cat_ok(WORD_CAT_TABLE@, EMOJI_CAT_TABLE@, 506, 87)) by {
        reveal_with_fuel(ep_cat_ok, 6);
    }
    assert(ep_cat_ok(WORD_CAT_TABLE@, EMOJI_CAT_TABLE@, 501, 87)) by {
        reveal_with_fuel(ep_cat_ok, 6);
    }
    assert(ep_cat_ok(WORD_CAT_TABLE@, EMOJI_CAT_TABLE@, 498, 85)) by {
        reveal_with_fuel(ep_cat_ok, 6);
    }
    assert(ep_cat_ok(WORD_CAT_TABLE@, EMOJI_CAT_TABLE@, 493, 85)) by {
        reveal_with_fuel(ep_cat_ok, 6);
    }
}

#[verifier::rlimit(50)]
proof fn lemma_pict_rows_17()
    requires
        ep_cat_ok(WORD_CAT_TABLE@, EMOJI_CAT_TABLE@, 493, 85),
    ensures
        ep_cat_ok(WORD_CAT_TABLE@, EMOJI_CAT_TABLE@, 467, 71),
{
    assert(ep_cat_ok(WORD_CAT_TABLE@, EMOJI_CAT_TABLE@, 490, 83)) by {
        reveal_with_fuel(ep_cat_ok, 6);
    }
    assert(ep_cat_ok(WORD_CAT_TABLE@, EMOJI_CAT_TABLE@, 485, 83)) by {
        reveal_with_fuel(ep_cat_ok, 6);
    }
    assert(ep_cat_ok(WORD_CAT_TABLE@, EMOJI_CAT_TABLE@, 480, 83)) by {
        reveal_with_fuel(ep_cat_ok, 6);
    }
    assert(ep_cat_ok(WORD_CAT_TABLE@, EMOJI_CAT_TABLE@, 475, 83)) by {
        reveal_with_fuel(ep_cat_ok, 6);
    }
    assert(ep_cat_ok(WORD_CAT_TABLE@, EMOJI_CAT_TABLE@, 470, 83)) by {
        reveal_with_fuel(ep_cat_ok, 6);
    }
    assert(ep_cat_ok(WORD_CAT_TABLE@, EMOJI_CAT_TABLE@, 467, 81)) by {
        reveal_with_fuel(ep_cat_ok, 6);
    }
    assert(ep_cat_ok(WORD_CAT_TABLE@, EMOJI_CAT_TABLE@, 467, 76)) by {
        reveal_with_fuel(ep_cat_ok, 6);
    }
    assert(ep_cat_ok(WORD_CAT_TABLE@, EMOJI_CAT_TABLE@, 467, 71)) by {
        reveal_with_fuel(ep_cat_ok, 6);
    }
}

#[verifier::rlimit(50)]
proof fn lemma_pict_rows_18()
    requires
        ep_cat_ok(WORD_CAT_TABLE@, EMOJI_CAT_TABLE@, 467, 71),
    ensures
        ep_cat_ok(WORD_CAT_TABLE@, EMOJI_CAT_TABLE@, 467, 31),
{
    assert(ep_cat_ok(WORD_CAT_TABLE@, EMOJI_CAT_TABLE@, 467, 66)) by {
        reveal_with_fuel(ep_cat_ok, 6);
    }
    assert(ep_cat_ok(WORD_CAT_TABLE@, EMOJI_CAT_TABLE@, 467, 61)) by {
        reveal_with_fuel(ep_cat_ok, 6);
    }
    assert(ep_cat_ok(WORD_CAT_TABLE@, EMOJI_CAT_TABLE@, 467, 56)) by {
        reveal_with_fuel(ep_cat_ok, 6);
    }
    assert(ep_cat_ok(WORD_CAT_TABLE@, EMOJI_CAT_TABLE@, 467, 51)) by {
        reveal_with_fuel(ep_cat_ok, 6);
    }
    assert(ep_cat_ok(WORD_CAT_TABLE@, EMOJI_CAT_TABLE@, 467, 46)) by {
        reveal_with_fuel(ep_cat_ok, 6);
    }
    assert(ep_cat_ok(WORD_CAT_TABLE@, EMOJI_CAT_TABLE@, 467, 41)) by {
        reveal_with_fuel(ep_cat_ok, 6);
    }
    assert(ep_cat_ok(WORD_CAT_TABLE@, EMOJI_CAT_TABLE@, 467, 36)) by {
        reveal_with_fuel(ep_cat_ok, 6);
    }
    assert(ep_cat_ok(WORD_CAT_TABLE@, EMOJI_CAT_TABLE@, 467, 31)) by {
        reveal_with_fuel(ep_cat_ok, 6);
    }
}

#[verifier::rlimit(50)]
proof fn lemma_pict_rows_19()
    requires
        ep_cat_ok(WORD_CAT_TABLE@, EMOJI_CAT_TABLE@, 467, 31),
    ensures
        ep_cat_ok(WORD_CAT_TABLE@, EMOJI_CAT_TABLE@, 454, 4),
{
    assert(ep_cat_ok(WORD_CAT_TABLE@, EMOJI_CAT_TABLE@, 467, 26)) by {
        reveal_with_fuel(ep_cat_ok, 6);
    }
    assert(ep_cat_ok(WORD_CAT_TABLE@, EMOJI_CAT_TABLE@, 467, 21)) by {
        reveal_with_fuel(ep_cat_ok, 6);
    }
    assert(ep_cat_ok(WORD_CAT_TABLE@, EMOJI_CAT_TABLE@, 467, 16)) by {
        reveal_with_fuel(ep_cat_ok, 6);
    }
    assert(ep_cat_ok(WORD_CAT_TABLE@, EMOJI_CAT_TABLE@, 466, 12)) by {
        reveal_with_fuel(ep_cat_ok, 6);
    }
    assert(ep_cat_ok(WORD_CAT_TABLE@, EMOJI_CAT_TABLE@, 466, 7)) by {
        reveal_with_fuel(ep_cat_ok, 6);
    }
    assert(ep_cat_ok(WORD_CAT_TABLE@, EMOJI_CAT_TABLE@, 462, 6)) by {
        reveal_with_fuel(ep_cat_ok, 6);
    }
    assert(ep_cat_ok(WORD_CAT_TABLE@, EMOJI_CAT_TABLE@, 458, 5)) by {
        reveal_with_fuel(ep_cat_ok, 6);
    }
    assert(ep_cat_ok(WORD_CAT_TABLE@, EMOJI_CAT_TABLE@, 454, 4)) by {
        reveal_with_fuel(ep_cat_ok, 6);
    }
}

#[verifier::rlimit(50)]
proof fn lemma_pict_rows_20()
    requires
        ep_cat_ok(WORD_CAT_TABLE@, EMOJI_CAT_TABLE@, 454, 4),
    ensures
        ep_cat_ok(WORD_CAT_TABLE@, EMOJI_CAT_TABLE@, 416, 2),
{
    assert(ep_cat_ok(WORD_CAT_TABLE@, EMOJI_CAT_TABLE@, 449, 4)) by {
        reveal_with_fuel(ep_cat_ok, 6);
    }
    assert(ep_cat_ok(WORD_CAT_TABLE@, EMOJI_CAT_TABLE@, 444, 4)) by {
        reveal_with_fuel(ep_cat_ok, 6);
    }
    assert(ep_cat_ok(WORD_CAT_TABLE@, EMOJI_CAT_TABLE@, 441, 2)) by {
        reveal_with_fuel(ep_cat_ok, 6);
    }
    assert(ep_cat_ok(WORD_CAT_TABLE@, EMOJI_CAT_TABLE@, 436, 2)) by {
        reveal_with_fuel(ep_cat_ok, 6);
    }
    assert(ep_cat_ok(WORD_CAT_TABLE@, EMOJI_CAT_TABLE@, 431, 2)) by {
        reveal_with_fuel(ep_cat_ok, 6);
    }
    assert(ep_cat_ok(WORD_CAT_TABLE@, EMOJI_CAT_TABLE@, 426, 2)) by {
        reveal_with_fuel(ep_cat_ok, 6);
    }
    assert(ep_cat_ok(WORD_CAT_TABLE@, EMOJI_CAT_TABLE@, 421, 2)) by {
        reveal_with_fuel(ep_cat_ok, 6);
    }
    assert(ep_cat_ok(WORD_CAT_TABLE@, EMOJI_CAT_TABLE@, 416, 2)) by {
        reveal_with_fuel(ep_cat_ok, 6);
    }
}

#[verifier::rlimit(50)]
proof fn lemma_pict_rows_21()
    requires
        ep_cat_ok(WORD_CAT_TABLE@, EMOJI_CAT_TABLE@, 416, 2),
    ensures
        ep_cat_ok(WORD_CAT_TABLE@, EMOJI_CAT_TABLE@, 376, 2),
{
    assert(ep_cat_ok(WORD_CAT_TABLE@, EMOJI_CAT_TABLE@, 411, 2)) by {
        reveal_with_fuel(ep_cat_ok, 6);
    }
    assert(ep_cat_ok(WORD_CAT_TABLE@, EMOJI_CAT_TABLE@, 406, 2)) by {
        reveal_with_fuel(ep_cat_ok, 6);
    }
    assert(ep_cat_ok(WORD_CAT_TABLE@, EMOJI_CAT_TABLE@, 401, 2)) by {
        reveal_with_fuel(ep_cat_ok, 6);
    }
    assert(ep_cat_ok(WORD_CAT_TABLE@, EMOJI_CAT_TABLE@, 396, 2)) by {
        reveal_with_fuel(ep_cat_ok, 6);
    }
    assert(ep_cat_ok(WORD_CAT_TABLE@, EMOJI_CAT_TABLE@, 391, 2)) by {
        reveal_with_fuel(ep_cat_ok, 6);
    }
    assert(ep_cat_ok(WORD_CAT_TABLE@, EMOJI_CAT_TABLE@, 386, 2)) by {
        reveal_with_fuel(ep_cat_ok, 6);
    }
    assert(ep_cat_ok(WORD_CAT_TABLE@, EMOJI_CAT_TABLE@, 381, 2)) by {
        reveal_with_fuel(ep_cat_ok, 6);
    }
    assert(ep_cat_ok(WORD_CAT_TABLE@, EMOJI_CAT_TABLE@, 376, 2)) by {
        reveal_with_fuel(ep_cat_ok, 6);
    }
}

#[verifier::rlimit(50)]
proof fn lemma_pict_rows_22()
    requires
        ep_cat_ok(WORD_CAT_TABLE@, EMOJI_CAT_TABLE@, 376, 2),
    ensures
        ep_cat_ok(WORD_CAT_TABLE@, EMOJI_CAT_TABLE@, 336, 2),
{
    assert(ep_cat_ok(WORD_CAT_TABLE@, EMOJI_CAT_TABLE@, 371, 2)) by {
        reveal_with_fuel(ep_cat_ok, 6);
    }
    assert(ep_cat_ok(WORD_CAT_TABLE@, EMOJI_CAT_TABLE@, 366, 2)) by {
        reveal_with_fuel(ep_cat_ok, 6);
    }
    assert(ep_cat_ok(WORD_CAT_TABLE@, EMOJI_CAT_TABLE@, 361, 2)) by {
        reveal_with_fuel(ep_cat_ok, 6);
    }
    assert(ep_cat_ok(WORD_CAT_TABLE@, EMOJI_CAT_TABLE@, 356, 2)) by {
        reveal_with_fuel(ep_cat_ok, 6);
    }
    assert(ep_cat_ok(WORD_CAT_TABLE@, EMOJI_CAT_TABLE@, 351, 2)) by {
        reveal_with_fuel(ep_cat_ok, 6);
    }
    assert(ep_cat_ok(WORD_CAT_TABLE@, EMOJI_CAT_TABLE@, 346, 2)) by {
        reveal_with_fuel(ep_cat_ok, 6);
    }
    assert(ep_cat_ok(WORD_CAT_TABLE@, EMOJI_CAT_TABLE@, 341, 2)) by {
        reveal_with_fuel(ep_cat_ok, 6);
    }
    assert(ep_cat_ok(WORD_CAT_TABLE@, EMOJI_CAT_TABLE@, 336, 2)) by {
        reveal_with_fuel(ep_cat_ok, 6);
    }
}

#[verifier::rlimit(50)]
proof fn lemma_pict_rows_23()
    requires
        ep_cat_ok(WORD_CAT_TABLE@, EMOJI_CAT_TABLE@, 336, 2),
    ensures
        ep_cat_ok(WORD_CAT_TABLE@, EMOJI_CAT_TABLE@, 296, 2),
{
    assert(ep_cat_ok(WORD_CAT_TABLE@, EMOJI_CAT_TABLE@, 331, 2)) by {
        reveal_with_fuel(ep_cat_ok, 6);
    }
    assert(ep_cat_ok(WORD_CAT_TABLE@, EMOJI_CAT_TABLE@, 326, 2)) by {
        reveal_with_fuel(ep_cat_ok, 6);
    }
    assert(ep_cat_ok(WORD_CAT_TABLE@, EMOJI_CAT_TABLE@, 321, 2)) by {
        reveal_with_fuel(ep_cat_ok, 6);
    }
    assert(ep_cat_ok(WORD_CAT_TABLE@, EMOJI_CAT_TABLE@, 316, 2)) by {
        reveal_with_fuel(ep_cat_ok, 6);
    }
    assert(ep_cat_ok(WORD_CAT_TABLE@, EMOJI_CAT_TABLE@, 311, 2)) by {
        reveal_with_fuel(ep_cat_ok, 6);
    }
    assert(ep_cat_ok(WORD_CAT_TABLE@, EMOJI_CAT_TABLE@, 306, 2)) by {
        reveal_with_fuel(ep_cat_ok, 6);
    }
    assert(ep_cat_ok(WORD_CAT_TABLE@, EMOJI_CAT_TABLE@, 301, 2)) by {
        reveal_with_fuel(ep_cat_ok, 6);
    }
    assert(ep_cat_ok(WORD_CAT_TABLE@, EMOJI_CAT_TABLE@, 296, 2)) by {
        reveal_with_fuel(ep_cat_ok, 6);
    }
}

#[verifier::rlimit(50)]
proof fn lemma_pict_rows_24()
    requires
        ep_cat_ok(WORD_CAT_TABLE@, EMOJI_CAT_TABLE@, 296, 2),
    ensures
        ep_cat_ok(WORD_CAT_TABLE@, EMOJI_CAT_TABLE@, 256, 2),
{
    assert(ep_cat_ok(WORD_CAT_TABLE@, EMOJI_CAT_TABLE@, 291, 2)) by {
        reveal_with_fuel(ep_cat_ok, 6);
    }
    assert(ep_cat_ok(WORD_CAT_TABLE@, EMOJI_CAT_TABLE@, 286, 2)) by {
        reveal_with_fuel(ep_cat_ok, 6);
    }
    assert(ep_cat_ok(WORD_CAT_TABLE@, EMOJI_CAT_TABLE@, 281, 2)) by {
        reveal_with_fuel(ep_cat_ok, 6);
    }
    assert(ep_cat_ok(WORD_CAT_TABLE@, EMOJI_CAT_TABLE@, 276, 2)) by {
        reveal_with_fuel(ep_cat_ok, 6);
    }
    assert(ep_cat_ok(WORD_CAT_TABLE@, EMOJI_CAT_TABLE@, 271, 2)) by {
        reveal_with_fuel(ep_cat_ok, 6);
    }
    assert(ep_cat_ok(WORD_CAT_TABLE@, EMOJI_CAT_TABLE@, 266, 2)) by {
        reveal_with_fuel(ep_cat_ok, 6);
    }
    assert(ep_cat_ok(WORD_CAT_TABLE@, EMOJI_CAT_TABLE@, 261, 2)) by {
        reveal_with_fuel(ep_cat_ok, 6);
    }
    assert(ep_cat_ok(WORD_CAT_TABLE@, EMOJI_CAT_TABLE@, 256, 2)) by {
        reveal_with_fuel(ep_cat_ok, 6);
    }
}

#[verifier::rlimit(50)]
proof fn lemma_pict_rows_25()
    requires
        ep_cat_ok(WORD_CAT_TABLE@, EMOJI_CAT_TABLE@, 256, 2),
    ensures
        ep_cat_ok(WORD_CAT_TABLE@, EMOJI_CAT_TABLE@, 216, 2),
{
    assert(ep_cat_ok(WORD_CAT_TABLE@, EMOJI_CAT_TABLE@, 251, 2)) by {
        reveal_with_fuel(ep_cat_ok, 6);
    }
    assert(ep_cat_ok(WORD_CAT_TABLE@, EMOJI_CAT_TABLE@, 246, 2)) by {
        reveal_with_fuel(ep_cat_ok, 6);
    }
    assert(ep_cat_ok(WORD_CAT_TABLE@, EMOJI_CAT_TABLE@, 241, 2)) by {
        reveal_with_fuel(ep_cat_ok, 6);
    }
    assert(ep_cat_ok(WORD_CAT_TABLE@, EMOJI_CAT_TABLE@, 236, 2)) by {
        reveal_with_fuel(ep_cat_ok, 6);
    }
    assert(ep_cat_ok(WORD_CAT_TABLE@, EMOJI_CAT_TABLE@, 231, 2)) by {
        reveal_with_fuel(ep_cat_ok, 6);
    }
    assert(ep_cat_ok(WORD_CAT_TABLE@, EMOJI_CAT_TABLE@, 226, 2)) by {
        reveal_with_fuel(ep_cat_ok, 6);
    }
    assert(ep_cat_ok(WORD_CAT_TABLE@, EMOJI_CAT_TABLE@, 221, 2)) by {
        reveal_with_fuel(ep_cat_ok, 6);
    }
    assert(ep_cat_ok(WORD_CAT_TABLE@, EMOJI_CAT_TABLE@, 216, 2)) by {
        reveal_with_fuel(ep_cat_ok, 6);
    }
}

#[verifier::rlimit(50)]
proof fn lemma_pict_rows_26()
    requires
        ep_cat_ok(WORD_CAT_TABLE@, EMOJI_CAT_TABLE@, 216, 2),
    ensures
        ep_cat_ok(WORD_CAT_TABLE@, EMOJI_CAT_TABLE@, 176, 2),
{
    assert(ep_cat_ok(WORD_CAT_TABLE@, EMOJI_CAT_TABLE@, 211, 2)) by {
        reveal_with_fuel(ep_cat_ok, 6);
    }
    assert(ep_cat_ok(WORD_CAT_TABLE@, EMOJI_CAT_TABLE@, 206, 2)) by {
        reveal_with_fuel(ep_cat_ok, 6);
    }
    assert(ep_cat_ok(WORD_CAT_TABLE@, EMOJI_CAT_TABLE@, 201, 2)) by {
        reveal_with_fuel(ep_cat_ok, 6);
    }
    assert(ep_cat_ok(WORD_CAT_TABLE@, EMOJI_CAT_TABLE@, 196, 2)) by {
        reveal_with_fuel(ep_cat_ok, 6);
    }
    assert(ep_cat_ok(WORD_CAT_TABLE@, EMOJI_CAT_TABLE@, 191, 2)) by {
        reveal_with_fuel(ep_cat_ok, 6);
    }
    assert(ep_cat_ok(WORD_CAT_TABLE@, EMOJI_CAT_TABLE@, 186, 2)) by {
        reveal_with_fuel(ep_cat_ok, 6);
    }
    assert(ep_cat_ok(WORD_CAT_TABLE@, EMOJI_CAT_TABLE@, 181, 2)) by {
        reveal_with_fuel(ep_cat_ok, 6);
    }
    assert(ep_cat_ok(WORD_CAT_TABLE@, EMOJI_CAT_TABLE@, 176, 2)) by {
        reveal_with_fuel(ep_cat_ok, 6);
    }
}

#[verifier::rlimit(50)]
proof fn lemma_pict_rows_27()
    requires
        ep_cat_ok(WORD_CAT_TABLE@, EMOJI_CAT_TABLE@, 176, 2),
    ensures
        ep_cat_ok(WORD_CAT_TABLE@, EMOJI_CAT_TABLE@, 136, 2),
{
    assert(ep_cat_ok(WORD_CAT_TABLE@, EMOJI_CAT_TABLE@, 171, 2)) by {
        reveal_with_fuel(ep_cat_ok, 6);
    }
    assert(ep_cat_ok(WORD_CAT_TABLE@, EMOJI_CAT_TABLE@, 166, 2)) by {
        reveal_with_fuel(ep_cat_ok, 6);
    }
    assert(ep_cat_ok(WORD_CAT_TABLE@, EMOJI_CAT_TABLE@, 161, 2)) by {
        reveal_with_fuel(ep_cat_ok, 6);
    }
    assert(ep_cat_ok(WORD_CAT_TABLE@, EMOJI_CAT_TABLE@, 156, 2)) by {
        reveal_with_fuel(ep_cat_ok, 6);
    }
    assert(ep_cat_ok(WORD_CAT_TABLE@, EMOJI_CAT_TABLE@, 151, 2)) by {
        reveal_with_fuel(ep_cat_ok, 6);
    }
    assert(ep_cat_ok(WORD_CAT_TABLE@, EMOJI_CAT_TABLE@, 146, 2)) by {
        reveal_with_fuel(ep_cat_ok, 6);
    }
    assert(ep_cat_ok(WORD_CAT_TABLE@, EMOJI_CAT_TABLE@, 141, 2)) by {
        reveal_with_fuel(ep_cat_ok, 6);
    }
    assert(ep_cat_ok(WORD_CAT_TABLE@, EMOJI_CAT_TABLE@, 136, 2)) by {
        reveal_with_fuel(ep_cat_ok, 6);
    }
}

#[verifier::rlimit(50)]
proof fn lemma_pict_rows_28()
    requires
        ep_cat_ok(WORD_CAT_TABLE@, EMOJI_CAT_TABLE@, 136, 2),
    ensures
        ep_cat_ok(WORD_CAT_TABLE@, EMOJI_CAT_TABLE@, 96, 2),
{
    assert(ep_cat_ok(WORD_CAT_TABLE@, EMOJI_CAT_TABLE@, 131, 2)) by {
        reveal_with_fuel(ep_cat_ok, 6);
    }
    assert(ep_cat_ok(WORD_CAT_TABLE@, EMOJI_CAT_TABLE@, 126, 2)) by {
        reveal_with_fuel(ep_cat_ok, 6);
    }
    assert(ep_cat_ok(WORD_CAT_TABLE@, EMOJI_CAT_TABLE@, 121, 2)) by {
        reveal_with_fuel(ep_cat_ok, 6);
    }
    assert(ep_cat_ok(WORD_CAT_TABLE@, EMOJI_CAT_TABLE@, 116, 2)) by {
        reveal_with_fuel(ep_cat_ok, 6);
    }
    assert(ep_cat_ok(WORD_CAT_TABLE@, EMOJI_CAT_TABLE@, 111, 2)) by {
        reveal_with_fuel(ep_cat_ok, 6);
    }
    assert(ep_cat_ok(WORD_CAT_TABLE@, EMOJI_CAT_TABLE@, 106, 2)) by {
        reveal_with_fuel(ep_cat_ok, 6);
    }
    assert(ep_cat_ok(WORD_CAT_TABLE@, EMOJI_CAT_TABLE@, 101, 2)) by {
        reveal_with_fuel(ep_cat_ok, 6);
    }
    assert(ep_cat_ok(WORD_CAT_TABLE@, EMOJI_CAT_TABLE@, 96, 2)) by {
        reveal_with_fuel(ep_cat_ok, 6);
    }
}

#[verifier::rlimit(50)]
proof fn lemma_pict_rows_29()
    requires
        ep_cat_ok(WORD_CAT_TABLE@, EMOJI_CAT_TABLE@, 96, 2),
    ensures
        ep_cat_ok(WORD_CAT_TABLE@, EMOJI_CAT_TABLE@, 56, 2),
{
    assert(ep_cat_ok(WORD_CAT_TABLE@, EMOJI_CAT_TABLE@, 91, 2)) by {
        reveal_with_fuel(ep_cat_ok, 6);
    }
    assert(ep_cat_ok(WORD_CAT_TABLE@, EMOJI_CAT_TABLE@, 86, 2)) by {
        reveal_with_fuel(ep_cat_ok, 6);
    }
    assert(ep_cat_ok(WORD_CAT_TABLE@, EMOJI_CAT_TABLE@, 81, 2)) by {
        reveal_with_fuel(ep_cat_ok, 6);
    }
    assert(ep_cat_ok(WORD_CAT_TABLE@, EMOJI_CAT_TABLE@, 76, 2)) by {
        reveal_with_fuel(ep_cat_ok, 6);
    }
    assert(ep_cat_ok(WORD_CAT_TABLE@, EMOJI_CAT_TABLE@, 71, 2)) by {
        reveal_with_fuel(ep_cat_ok, 6);
    }
    assert(ep_cat_ok(WORD_CAT_TABLE@, EMOJI_CAT_TABLE@, 66, 2)) by {
        reveal_with_fuel(ep_cat_ok, 6);
    }
    assert(ep_cat_ok(WORD_CAT_TABLE@, EMOJI_CAT_TABLE@, 61, 2)) by {
        reveal_with_fuel(ep_cat_ok, 6);
    }
    assert(ep_cat_ok(WORD_CAT_TABLE@, EMOJI_CAT_TABLE@, 56, 2)) by {
        reveal_with_fuel(ep_cat_ok, 6);
    }
}

#[verifier::rlimit(50)]
proof fn lemma_pict_rows_30()
    requires
        ep_cat_ok(WORD_CAT_TABLE@, EMOJI_CAT_TABLE@, 56, 2),
    ensures
        ep_cat_ok(WORD_CAT_TABLE@, EMOJI_CAT_TABLE@, 17, 1),
{
    assert(ep_cat_ok(WORD_CAT_TABLE@, EMOJI_CAT_TABLE@, 51, 2)) by {
        reveal_with_fuel(ep_cat_ok, 6);
    }
    assert(ep_cat_ok(WORD_CAT_TABLE@, EMOJI_CAT_TABLE@, 46, 2)) by {
        reveal_with_fuel(ep_cat_ok, 6);
    }
    assert(ep_cat_ok(WORD_CAT_TABLE@, EMOJI_CAT_TABLE@, 41, 2)) by {
        reveal_with_fuel(ep_cat_ok, 6);
    }
    assert(ep_cat_ok(WORD_CAT_TABLE@, EMOJI_CAT_TABLE@, 36, 2)) by {
        reveal_with_fuel(ep_cat_ok, 6);
    }
    assert(ep_cat_ok(WORD_CAT_TABLE@, EMOJI_CAT_TABLE@, 31, 2)) by {
        reveal_with_fuel(ep_cat_ok, 6);
    }
    assert(ep_cat_ok(WORD_CAT_TABLE@, EMOJI_CAT_TABLE@, 26, 2)) by {
        reveal_with_fuel(ep_cat_ok, 6);
    }
    assert(ep_cat_ok(WORD_CAT_TABLE@, EMOJI_CAT_TABLE@, 21, 2)) by {
        reveal_with_fuel(ep_cat_ok, 6);
    }
    assert(ep_cat_ok(WORD_CAT_TABLE@, EMOJI_CAT_TABLE@, 17, 1)) by {
        reveal_with_fuel(ep_cat_ok, 6);
    }
}

#[verifier::rlimit(50)]
proof fn lemma_pict_rows_31()
    requires
        ep_cat_ok(WORD_CAT_TABLE@, EMOJI_CAT_TABLE@, 17, 1),
    ensures
        ep_cat_ok(WORD_CAT_TABLE@, EMOJI_CAT_TABLE@, 0, 0),
{
    assert(ep_cat_ok(WORD_CAT_TABLE@, EMOJI_CAT_TABLE@, 13, 0)) by {
        reveal_with_fuel(ep_cat_ok, 6);
    }
    assert(ep_cat_ok(WORD_CAT_TABLE@, EMOJI_CAT_TABLE@, 8, 0)) by {
        reveal_with_fuel(ep_cat_ok, 6);
    }
    assert(ep_cat_ok(WORD_CAT_TABLE@, EMOJI_CAT_TABLE@, 3, 0)) by {
        reveal_with_fuel(ep_cat_ok, 6);
    }
    assert(ep_cat_ok(WORD_CAT_TABLE@, EMOJI_CAT_TABLE@, 0, 0)) by {
        reveal_with_fuel(ep_cat_ok, 6);
    }
}

/// An Extended_Pictographic character has no word break category, or is an
/// ALetter.
pub proof fn lemma_pictographic_cat(c: char)
    requires
        is_extended_pictographic(c),
    ensures
        word_cat(c) == WordCat::WC_Any || word_cat(c) == WordCat::WC_ALetter,
{
    let u = c as u32;
    let w = WORD_CAT_TABLE@;
    let e = EMOJI_CAT_TABLE@;
    assert(exists|x: int| row_holds(e, x, u));
    let x = choose|x: int| row_holds(e, x, u);
    if exists|m: int| row_holds(w, m, u) {
        let m = choose|m: int| row_holds(w, m, u);
        lemma_word_table_sorted();
        lemma_emoji_table_sorted();
        lemma_lookup_hit(w, m, u, WordCat::WC_Any);
        lemma_pict_rows_0();
        lemma_pict_rows_1();
        lemma_pict_rows_2();
        lemma_pict_rows_3();
        lemma_pict_rows_4();
        lemma_pict_rows_5();
        lemma_pict_rows_6();
        lemma_pict_rows_7();
        lemma_pict_rows_8();
        lemma_pict_rows_9();
        lemma_pict_rows_10();
        lemma_pict_rows_11();
        lemma_pict_rows_12();
        lemma_pict_rows_13();
        lemma_pict_rows_14();
        lemma_pict_rows_15();
        lemma_pict_rows_16();
        lemma_pict_rows_17();
        lemma_pict_rows_18();
        lemma_pict_rows_19();
        lemma_pict_rows_20();
        lemma_pict_rows_21();
        lemma_pict_rows_22();
        lemma_pict_rows_23();
        lemma_pict_rows_24();
        lemma_pict_rows_25();
        lemma_pict_rows_26();
        lemma_pict_rows_27();
        lemma_pict_rows_28();
        lemma_pict_rows_29();
        lemma_pict_rows_30();
        lemma_pict_rows_31();
        lemma_ep_cat(w, e, 0, 0, m, x, u);
    }
}

} // verus!
