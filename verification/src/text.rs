//! Texts that end up in diagnostics: numbers in decimal, and the names the
//! device model gives to controls and indices.

use vstd::prelude::*;
use crate::types::{CameraIndex, CameraIndexView, KnownCameraControl};
use nokhwa_core::types::KnownCameraControl as Core;

verus! {

/// The character of the decimal digit `d`.
pub open spec fn digit(d: nat) -> char {
    if d == 0 {
        '0'
    } else if d == 1 {
        '1'
    } else if d == 2 {
        '2'
    } else if d == 3 {
        '3'
    } else if d == 4 {
        '4'
    } else if d == 5 {
        '5'
    } else if d == 6 {
        '6'
    } else if d == 7 {
        '7'
    } else if d == 8 {
        '8'
    } else {
        '9'
    }
}

/// The decimal numeral of `n`, without leading zeros.
pub open spec fn decimal(n: nat) -> Seq<char>
    decreases n,
{
    if n < 10 {
        seq![digit(n)]
    } else {
        decimal(n / 10).push(digit(n % 10))
    }
}

/// The decimal numeral of `n`, with a minus sign in front of a negative one.
pub open spec fn signed_decimal(n: int) -> Seq<char> {
    if n < 0 {
        seq!['-'] + decimal((-n) as nat)
    } else {
        decimal(n as nat)
    }
}

fn digit_text(d: u8) -> (text: &'static str)
    requires
        d < 10,
    ensures
        text@ == seq![digit(d as nat)],
{
    proof {
        reveal_strlit("0");
        reveal_strlit("1");
        reveal_strlit("2");
        reveal_strlit("3");
        reveal_strlit("4");
        reveal_strlit("5");
        reveal_strlit("6");
        reveal_strlit("7");
        reveal_strlit("8");
        reveal_strlit("9");
    }
    let text = if d == 0 {
        "0"
    } else if d == 1 {
        "1"
    } else if d == 2 {
        "2"
    } else if d == 3 {
        "3"
    } else if d == 4 {
        "4"
    } else if d == 5 {
        "5"
    } else if d == 6 {
        "6"
    } else if d == 7 {
        "7"
    } else if d == 8 {
        "8"
    } else {
        "9"
    };
    assert(text@ =~= seq![digit(d as nat)]);
    text
}

/// Writes `n` in decimal.
pub fn decimal_text(n: u128) -> (text: String)
    ensures
        text@ == decimal(n as nat),
    decreases n,
{
    if n < 10 {
        String::from_str(digit_text(n as u8))
    } else {
        let mut text = decimal_text(n / 10);
        text.append(digit_text((n % 10) as u8));
        text
    }
}

/// Writes `n` in decimal, with a minus sign if it is negative.
pub fn signed_decimal_text(n: i64) -> (text: String)
    ensures
        text@ == signed_decimal(n as int),
{
    if n < 0 {
        proof {
            reveal_strlit("-");
        }
        let magnitude: u128 = if n == i64::MIN {
            0x8000_0000_0000_0000u128
        } else {
            (-n) as u128
        };
        let digits = decimal_text(magnitude);
        let text = String::from_str("-").concat(digits.as_str());
        assert(text@ =~= seq!['-'] + decimal((-n) as nat));
        text
    } else {
        decimal_text(n as u128)
    }
}

/// The name under which the device model shows `control`: the name of
/// the control, and for a control without a name `Other` with the number
/// in brackets.
pub open spec fn control_name(control: KnownCameraControl) -> Seq<char> {
    match control {
        KnownCameraControl::Brightness => "Brightness"@,
        KnownCameraControl::Contrast => "Contrast"@,
        KnownCameraControl::Hue => "Hue"@,
        KnownCameraControl::Saturation => "Saturation"@,
        KnownCameraControl::Sharpness => "Sharpness"@,
        KnownCameraControl::Gamma => "Gamma"@,
        KnownCameraControl::WhiteBalance => "WhiteBalance"@,
        KnownCameraControl::BacklightComp => "BacklightComp"@,
        KnownCameraControl::Gain => "Gain"@,
        KnownCameraControl::Pan => "Pan"@,
        KnownCameraControl::Tilt => "Tilt"@,
        KnownCameraControl::Zoom => "Zoom"@,
        KnownCameraControl::Exposure => "Exposure"@,
        KnownCameraControl::Iris => "Iris"@,
        KnownCameraControl::Focus => "Focus"@,
        KnownCameraControl::Other(id) => "Other("@ + decimal(id as nat) + ")"@,
    }
}

/// Calls the `Display` implementation of `nokhwa_core`'s `KnownCameraControl`
/// on the control of the same name. That implementation writes the value as
/// its derived `Debug` does: the name of the variant, and for `Other` the
/// number in decimal between brackets. Nothing is proved of it.
#[verifier::external_body]
pub(crate) fn control_label(control: KnownCameraControl) -> (label: String)
    ensures
        label@ == control_name(control),
{
    let core = match control {
        KnownCameraControl::Brightness => Core::Brightness, KnownCameraControl::Contrast => Core::Contrast,
        KnownCameraControl::Hue => Core::Hue, KnownCameraControl::Saturation => Core::Saturation,
        KnownCameraControl::Sharpness => Core::Sharpness, KnownCameraControl::Gamma => Core::Gamma,
        KnownCameraControl::WhiteBalance => Core::WhiteBalance,
        KnownCameraControl::BacklightComp => Core::BacklightComp,
        KnownCameraControl::Gain => Core::Gain, KnownCameraControl::Pan => Core::Pan,
        KnownCameraControl::Tilt => Core::Tilt, KnownCameraControl::Zoom => Core::Zoom,
        KnownCameraControl::Exposure => Core::Exposure, KnownCameraControl::Iris => Core::Iris,
        KnownCameraControl::Focus => Core::Focus, KnownCameraControl::Other(id) => Core::Other(id),
    };
    core.to_string()
}

/// The text that stands for `index`: an ordinal in decimal, a text as it is.
pub open spec fn index_name(index: CameraIndexView) -> Seq<char> {
    match index {
        CameraIndexView::Index(i) => decimal(i as nat),
        CameraIndexView::String(s) => s,
    }
}

/// Writes `index` as a text.
pub fn index_text(index: &CameraIndex) -> (text: String)
    ensures
        text@ == index_name(index@),
{
    match index {
        CameraIndex::Index(i) => decimal_text(*i as u128),
        CameraIndex::String(s) => s.clone(),
    }
}

/// The text in which the platform bindings print the identifier `id`.
pub uninterp spec fn identifier_name(id: u128) -> Seq<char>;

/// Builds the `GUID` of the `windows` crate from `id` and prints it with the
/// crate's `Debug` implementation. Nothing is proved of it: the contract only
/// gives the text a name, the same for the same identifier.
#[verifier::external_body]
pub(crate) fn identifier_label(id: u128) -> (label: String)
    ensures
        label@ == identifier_name(id),
{
    format!("{:?}", windows::core::GUID::from_u128(id))
}

/// The error of a decoding from UTF-16 that failed.
#[verifier::external_type_specification]
#[verifier::external_body]
pub struct ExFromUtf16Error(std::string::FromUtf16Error);

/// The text that a sequence of UTF-16 code units encodes, if it encodes one.
pub uninterp spec fn utf16_decoded(units: Seq<u16>) -> Option<Seq<char>>;

/// `String::from_utf16` decodes the whole slice or fails; whether it fails
/// and what it decodes depend on the code units alone.
pub assume_specification[ std::string::String::from_utf16 ](units: &[u16]) -> (decoded: Result<
    std::string::String,
    std::string::FromUtf16Error,
>)
    ensures
        match decoded {
            Ok(text) => utf16_decoded(units@) == Some(text@),
            Err(_) => utf16_decoded(units@) is None,
        },
;

/// Decodes `units` from UTF-16, if they encode a text.
pub fn decode_wide(units: &Vec<u16>) -> (decoded: Option<String>)
    ensures
        match decoded {
            Some(text) => utf16_decoded(units@) == Some(text@),
            None => utf16_decoded(units@) is None,
        },
{
    match String::from_utf16(units.as_slice()) {
        Ok(text) => Some(text),
        Err(_) => None,
    }
}

} // verus!
