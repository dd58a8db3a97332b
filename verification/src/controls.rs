//! The control registry and what is made of a control's native values.
//!
//! A device offers its controls through two native interfaces: the video
//! processing amplifier for picture controls, the camera control interface
//! for optical and mechanical ones. Each control is a numbered property of
//! one of them.

use vstd::prelude::*;
use vstd::arithmetic::div_mod::lemma_mod_multiples_vanish;
use crate::error::{set_property_error, structure_error, ErrorView, NokhwaError};
use crate::text::{control_label, control_name, signed_decimal, signed_decimal_text};
use crate::types::{
    CameraControl,
    CameraControlView,
    ControlValueDescription,
    ControlValueSetter,
    ControlValueSetterView,
    KnownCameraControl,
    KnownCameraControlFlag,
};

verus! {

pub const VIDEO_PROC_AMP_BRIGHTNESS: i32 = 0;

pub const VIDEO_PROC_AMP_CONTRAST: i32 = 1;

pub const VIDEO_PROC_AMP_HUE: i32 = 2;

pub const VIDEO_PROC_AMP_SATURATION: i32 = 3;

pub const VIDEO_PROC_AMP_SHARPNESS: i32 = 4;

pub const VIDEO_PROC_AMP_GAMMA: i32 = 5;

pub const VIDEO_PROC_AMP_COLOR_ENABLE: i32 = 6;

pub const VIDEO_PROC_AMP_WHITE_BALANCE: i32 = 7;

pub const VIDEO_PROC_AMP_BACKLIGHT_COMPENSATION: i32 = 8;

pub const VIDEO_PROC_AMP_GAIN: i32 = 9;

pub const CAMERA_CONTROL_PAN: i32 = 0;

pub const CAMERA_CONTROL_TILT: i32 = 1;

pub const CAMERA_CONTROL_ZOOM: i32 = 3;

pub const CAMERA_CONTROL_EXPOSURE: i32 = 4;

pub const CAMERA_CONTROL_IRIS: i32 = 5;

pub const CAMERA_CONTROL_FOCUS: i32 = 6;

/// The native flag of a control that the device adjusts by itself.
pub const CAM_CTRL_AUTO: i32 = 1;

/// The native flag of a control that keeps the value it was given.
pub const CAM_CTRL_MANUAL: i32 = 2;

/// A native control: the kind of control it is, which decides the interface
/// it is read and written through and the shape of its value, and the number
/// of the property on that interface.
#[derive(Debug, Clone, Copy, PartialEq, Eq, Structural)]
pub enum MFControlId {
    /// A switch on the video processing amplifier.
    ProcAmpBoolean(i32),
    /// A ranged value on the video processing amplifier.
    ProcAmpRange(i32),
    /// A single value on the camera control interface.
    CCValue(i32),
    /// A ranged value on the camera control interface.
    CCRange(i32),
}

/// The two native interfaces that carry controls.
#[derive(Debug, Clone, Copy, PartialEq, Eq, Structural)]
pub enum ControlInterface {
    VideoProcAmp,
    CameraControl,
}

impl MFControlId {
    /// The number of the property on its interface.
    pub open spec fn spec_property(self) -> i32 {
        match self {
            MFControlId::ProcAmpBoolean(id) => id,
            MFControlId::ProcAmpRange(id) => id,
            MFControlId::CCValue(id) => id,
            MFControlId::CCRange(id) => id,
        }
    }

    /// The interface the control is read and written through.
    pub open spec fn spec_interface(self) -> ControlInterface {
        match self {
            MFControlId::ProcAmpBoolean(_) => ControlInterface::VideoProcAmp,
            MFControlId::ProcAmpRange(_) => ControlInterface::VideoProcAmp,
            MFControlId::CCValue(_) => ControlInterface::CameraControl,
            MFControlId::CCRange(_) => ControlInterface::CameraControl,
        }
    }

    #[verifier::when_used_as_spec(spec_property)]
    pub fn property(self) -> (id: i32)
        ensures
            id == self.spec_property(),
    {
        match self {
            MFControlId::ProcAmpBoolean(id) => id,
            MFControlId::ProcAmpRange(id) => id,
            MFControlId::CCValue(id) => id,
            MFControlId::CCRange(id) => id,
        }
    }

    #[verifier::when_used_as_spec(spec_interface)]
    pub fn interface(self) -> (interface: ControlInterface)
        ensures
            interface == self.spec_interface(),
    {
        match self {
            MFControlId::ProcAmpBoolean(_) => ControlInterface::VideoProcAmp,
            MFControlId::ProcAmpRange(_) => ControlInterface::VideoProcAmp,
            MFControlId::CCValue(_) => ControlInterface::CameraControl,
            MFControlId::CCRange(_) => ControlInterface::CameraControl,
        }
    }
}

/// The native control behind a camera control, if the backend has one. Of
/// the controls without a name only the one numbered like the color enable
/// property of the video processing amplifier is known.
pub open spec fn native_control(kcc: KnownCameraControl) -> Option<MFControlId> {
    match kcc {
        KnownCameraControl::Brightness => Some(MFControlId::ProcAmpRange(VIDEO_PROC_AMP_BRIGHTNESS)),
        KnownCameraControl::Contrast => Some(MFControlId::ProcAmpRange(VIDEO_PROC_AMP_CONTRAST)),
        KnownCameraControl::Hue => Some(MFControlId::ProcAmpRange(VIDEO_PROC_AMP_HUE)),
        KnownCameraControl::Saturation => Some(MFControlId::ProcAmpRange(VIDEO_PROC_AMP_SATURATION)),
        KnownCameraControl::Sharpness => Some(MFControlId::ProcAmpRange(VIDEO_PROC_AMP_SHARPNESS)),
        KnownCameraControl::Gamma => Some(MFControlId::ProcAmpRange(VIDEO_PROC_AMP_GAMMA)),
        KnownCameraControl::WhiteBalance => Some(
            MFControlId::ProcAmpRange(VIDEO_PROC_AMP_WHITE_BALANCE),
        ),
        KnownCameraControl::BacklightComp => Some(
            MFControlId::ProcAmpBoolean(VIDEO_PROC_AMP_BACKLIGHT_COMPENSATION),
        ),
        KnownCameraControl::Gain => Some(MFControlId::ProcAmpRange(VIDEO_PROC_AMP_GAIN)),
        KnownCameraControl::Pan => Some(MFControlId::CCRange(CAMERA_CONTROL_PAN)),
        KnownCameraControl::Tilt => Some(MFControlId::CCRange(CAMERA_CONTROL_TILT)),
        KnownCameraControl::Zoom => Some(MFControlId::CCRange(CAMERA_CONTROL_ZOOM)),
        KnownCameraControl::Exposure => Some(MFControlId::CCValue(CAMERA_CONTROL_EXPOSURE)),
        KnownCameraControl::Iris => Some(MFControlId::CCValue(CAMERA_CONTROL_IRIS)),
        KnownCameraControl::Focus => Some(MFControlId::CCValue(CAMERA_CONTROL_FOCUS)),
        KnownCameraControl::Other(o) => if o == VIDEO_PROC_AMP_COLOR_ENABLE as u128 {
            Some(MFControlId::ProcAmpRange(VIDEO_PROC_AMP_COLOR_ENABLE))
        } else {
            None
        },
    }
}

/// Finds the native control behind a camera control. `None` means that the
/// backend does not support the control.
pub fn kcc_to_i32(kcc: KnownCameraControl) -> (id: Option<MFControlId>)
    ensures
        id == native_control(kcc),
{
    let control_id = match kcc {
        KnownCameraControl::Brightness => MFControlId::ProcAmpRange(VIDEO_PROC_AMP_BRIGHTNESS),
        KnownCameraControl::Contrast => MFControlId::ProcAmpRange(VIDEO_PROC_AMP_CONTRAST),
        KnownCameraControl::Hue => MFControlId::ProcAmpRange(VIDEO_PROC_AMP_HUE),
        KnownCameraControl::Saturation => MFControlId::ProcAmpRange(VIDEO_PROC_AMP_SATURATION),
        KnownCameraControl::Sharpness => MFControlId::ProcAmpRange(VIDEO_PROC_AMP_SHARPNESS),
        KnownCameraControl::Gamma => MFControlId::ProcAmpRange(VIDEO_PROC_AMP_GAMMA),
        KnownCameraControl::WhiteBalance => MFControlId::ProcAmpRange(VIDEO_PROC_AMP_WHITE_BALANCE),
        KnownCameraControl::BacklightComp => MFControlId::ProcAmpBoolean(
            VIDEO_PROC_AMP_BACKLIGHT_COMPENSATION,
        ),
        KnownCameraControl::Gain => MFControlId::ProcAmpRange(VIDEO_PROC_AMP_GAIN),
        KnownCameraControl::Pan => MFControlId::CCRange(CAMERA_CONTROL_PAN),
        KnownCameraControl::Tilt => MFControlId::CCRange(CAMERA_CONTROL_TILT),
        KnownCameraControl::Zoom => MFControlId::CCRange(CAMERA_CONTROL_ZOOM),
        KnownCameraControl::Exposure => MFControlId::CCValue(CAMERA_CONTROL_EXPOSURE),
        KnownCameraControl::Iris => MFControlId::CCValue(CAMERA_CONTROL_IRIS),
        KnownCameraControl::Focus => MFControlId::CCValue(CAMERA_CONTROL_FOCUS),
        KnownCameraControl::Other(o) => {
            if o == 6 {
                MFControlId::ProcAmpRange(VIDEO_PROC_AMP_COLOR_ENABLE)
            } else {
                return None;
            }
        },
    };
    Some(control_id)
}

/// How a native control is written in diagnostics: the name of its kind,
/// with the number of the property in brackets.
pub open spec fn control_id_name(id: MFControlId) -> Seq<char> {
    match id {
        MFControlId::ProcAmpBoolean(n) => "ProcAmpBoolean("@ + signed_decimal(n as int) + ")"@,
        MFControlId::ProcAmpRange(n) => "ProcAmpRange("@ + signed_decimal(n as int) + ")"@,
        MFControlId::CCValue(n) => "CCValue("@ + signed_decimal(n as int) + ")"@,
        MFControlId::CCRange(n) => "CCRange("@ + signed_decimal(n as int) + ")"@,
    }
}

/// Writes a native control for a diagnostic.
pub fn control_id_text(id: MFControlId) -> (text: String)
    ensures
        text@ == control_id_name(id),
{
    let mut text = match id {
        MFControlId::ProcAmpBoolean(_) => String::from_str("ProcAmpBoolean("),
        MFControlId::ProcAmpRange(_) => String::from_str("ProcAmpRange("),
        MFControlId::CCValue(_) => String::from_str("CCValue("),
        MFControlId::CCRange(_) => String::from_str("CCRange("),
    };
    let number = signed_decimal_text(id.property() as i64);
    text.append(number.as_str());
    text.append(")");
    text
}

/// Whether the native interfaces that carry controls could be had from the
/// device: the media source behind the first video stream, then its camera
/// control interface, then its video processing amplifier. Each failure
/// carries the platform's diagnostic.
#[derive(Debug, Clone, PartialEq, Eq)]
pub enum ControlInterfaces {
    ServiceFailed(String),
    CameraControlFailed(String),
    VideoProcAmpFailed(String),
    Ready,
}

/// The range of a control as the device reports it.
#[derive(Debug, Clone, Copy, PartialEq, Eq, Structural)]
pub struct ControlRange {
    pub min: i32,
    pub max: i32,
    pub step: i32,
    pub default: i32,
}

/// The current value of a control and the flags it is operated under.
#[derive(Debug, Clone, Copy, PartialEq, Eq, Structural)]
pub struct ControlValue {
    pub value: i32,
    pub flags: i32,
}

/// What reading a native control gave: the range is read first, then the
/// current value. Each failure carries the platform's diagnostic.
#[derive(Debug, Clone, PartialEq, Eq)]
pub enum ControlReadout {
    RangeFailed(String),
    ValueFailed(String),
    Values { range: ControlRange, current: ControlValue },
}

/// The native control to use for `control`, or why there is none: an
/// interface that could not be had, or a control the backend does not
/// support.
pub open spec fn control_target(control: KnownCameraControl, interfaces: ControlInterfaces) -> Result<
    MFControlId,
    ErrorView,
> {
    match interfaces {
        ControlInterfaces::ServiceFailed(why) => Err(
            ErrorView::SetPropertyError {
                property: "MEDIA_FOUNDATION_FIRST_VIDEO_STREAM"@,
                value: "MF_MEDIASOURCE_SERVICE"@,
                error: why@,
            },
        ),
        ControlInterfaces::CameraControlFailed(why) => Err(
            ErrorView::StructureError { structure: "IAMCameraControl"@, error: why@ },
        ),
        ControlInterfaces::VideoProcAmpFailed(why) => Err(
            ErrorView::StructureError { structure: "IAMVideoProcAmp"@, error: why@ },
        ),
        ControlInterfaces::Ready => match native_control(control) {
            None => Err(
                ErrorView::SetPropertyError {
                    property: "CameraControl"@,
                    value: control_name(control),
                    error: "Does not exist"@,
                },
            ),
            Some(id) => Ok(id),
        },
    }
}

/// The mathematical content of a native control or an error.
pub open spec fn target_view(r: Result<MFControlId, NokhwaError>) -> Result<MFControlId, ErrorView> {
    match r {
        Ok(id) => Ok(id),
        Err(e) => Err(e@),
    }
}

/// Decides which native control a camera control is read and written
/// through, once it is known whether the native interfaces could be had.
pub fn find_control(control: KnownCameraControl, interfaces: &ControlInterfaces) -> (r: Result<
    MFControlId,
    NokhwaError,
>)
    ensures
        target_view(r) == control_target(control, *interfaces),
{
    match interfaces {
        ControlInterfaces::ServiceFailed(why) => Err(
            set_property_error(
                "MEDIA_FOUNDATION_FIRST_VIDEO_STREAM",
                String::from_str("MF_MEDIASOURCE_SERVICE"),
                why.clone(),
            ),
        ),
        ControlInterfaces::CameraControlFailed(why) => Err(
            structure_error("IAMCameraControl", why.clone()),
        ),
        ControlInterfaces::VideoProcAmpFailed(why) => Err(
            structure_error("IAMVideoProcAmp", why.clone()),
        ),
        ControlInterfaces::Ready => match kcc_to_i32(control) {
            None => Err(
                set_property_error(
                    "CameraControl",
                    control_label(control),
                    String::from_str("Does not exist"),
                ),
            ),
            Some(id) => Ok(id),
        },
    }
}

/// The operating mode that the native flags of a control stand for: manual
/// where they are the manual flag, automatic otherwise.
pub open spec fn mode_of(flags: i32) -> KnownCameraControlFlag {
    if flags == CAM_CTRL_MANUAL {
        KnownCameraControlFlag::Manual
    } else {
        KnownCameraControlFlag::Automatic
    }
}

/// The value of a control of the kind of `id`, from its native values: a
/// switch is on where its value is not zero; a single value has no bounds.
pub open spec fn classified(id: MFControlId, range: ControlRange, value: i32) -> ControlValueDescription {
    match id {
        MFControlId::ProcAmpBoolean(_) => ControlValueDescription::Boolean {
            value: value != 0,
            default: range.default != 0,
        },
        MFControlId::CCValue(_) => ControlValueDescription::Integer {
            value: value as i64,
            default: range.default as i64,
            step: range.step as i64,
        },
        _ => ControlValueDescription::IntegerRange {
            min: range.min as i64,
            max: range.max as i64,
            value: value as i64,
            step: range.step as i64,
            default: range.default as i64,
        },
    }
}

/// The name of the part `part` of the control in a diagnostic.
pub open spec fn reading_name(id: MFControlId, control: KnownCameraControl, part: Seq<char>) -> Seq<
    char,
> {
    control_id_name(id) + ": "@ + control_name(control) + part
}

/// The control `control`, read through the native control `id`: the error
/// of the read that failed, or the control with its classified value and the
/// one operating mode that its flags stand for.
pub open spec fn described(id: MFControlId, control: KnownCameraControl, readout: ControlReadout) -> Result<
    CameraControlView,
    ErrorView,
> {
    match readout {
        ControlReadout::RangeFailed(why) => Err(
            ErrorView::GetPropertyError {
                property: reading_name(id, control, " - Range"@),
                error: why@,
            },
        ),
        ControlReadout::ValueFailed(why) => Err(
            ErrorView::GetPropertyError {
                property: reading_name(id, control, " - Value"@),
                error: why@,
            },
        ),
        ControlReadout::Values { range, current } => Ok(
            CameraControlView {
                control,
                name: control_name(control),
                description: classified(id, range, current.value),
                flag: seq![mode_of(current.flags)],
                active: true,
            },
        ),
    }
}

/// What reading `control` gives, from whether the interfaces could be had
/// and what the reads returned.
pub open spec fn control_reading(
    control: KnownCameraControl,
    interfaces: ControlInterfaces,
    readout: ControlReadout,
) -> Result<CameraControlView, ErrorView> {
    match control_target(control, interfaces) {
        Err(e) => Err(e),
        Ok(id) => described(id, control, readout),
    }
}

/// The mathematical content of a control or an error.
pub open spec fn control_view(r: Result<CameraControl, NokhwaError>) -> Result<
    CameraControlView,
    ErrorView,
> {
    match r {
        Ok(control) => Ok(control@),
        Err(e) => Err(e@),
    }
}

fn reading_text(id: MFControlId, control: KnownCameraControl, part: &str) -> (text: String)
    ensures
        text@ == reading_name(id, control, part@),
{
    let mut text = control_id_text(id);
    text.append(": ");
    text.append(control_label(control).as_str());
    text.append(part);
    text
}

fn classify(id: MFControlId, range: ControlRange, value: i32) -> (d: ControlValueDescription)
    ensures
        d == classified(id, range, value),
{
    match id {
        MFControlId::ProcAmpBoolean(_) => ControlValueDescription::Boolean {
            value: value != 0,
            default: range.default != 0,
        },
        MFControlId::CCValue(_) => ControlValueDescription::Integer {
            value: value as i64,
            default: range.default as i64,
            step: range.step as i64,
        },
        _ => ControlValueDescription::IntegerRange {
            min: range.min as i64,
            max: range.max as i64,
            value: value as i64,
            step: range.step as i64,
            default: range.default as i64,
        },
    }
}

/// Describes a control from what its native control reported.
pub fn describe_control(id: MFControlId, control: KnownCameraControl, readout: &ControlReadout) -> (r:
    Result<CameraControl, NokhwaError>)
    ensures
        control_view(r) == described(id, control, *readout),
{
    match readout {
        ControlReadout::RangeFailed(why) => Err(
            NokhwaError::GetPropertyError {
                property: reading_text(id, control, " - Range"),
                error: why.clone(),
            },
        ),
        ControlReadout::ValueFailed(why) => Err(
            NokhwaError::GetPropertyError {
                property: reading_text(id, control, " - Value"),
                error: why.clone(),
            },
        ),
        ControlReadout::Values { range, current } => {
            let mode = if current.flags == CAM_CTRL_MANUAL {
                KnownCameraControlFlag::Manual
            } else {
                KnownCameraControlFlag::Automatic
            };
            let mut flag: Vec<KnownCameraControlFlag> = Vec::new();
            flag.push(mode);
            assert(flag@ =~= seq![mode_of(current.flags)]);
            Ok(
                CameraControl::new(
                    control,
                    control_label(control),
                    classify(id, *range, current.value),
                    flag,
                    true,
                ),
            )
        },
    }
}

/// One write to a native control: the interface and the property to write
/// to, the value, and the flags to write it under.
#[derive(Debug, Clone, Copy, PartialEq, Eq, Structural)]
pub struct ControlWrite {
    pub interface: ControlInterface,
    pub property: i32,
    pub value: i32,
    pub flags: i32,
}

/// The low 32 bits of `i`, read as a signed number.
pub open spec fn low_word(i: i64) -> i32 {
    ((i as int + 0x8000_0000) % 0x1_0000_0000 - 0x8000_0000) as i32
}

/// The native value of a requested value: the low word of a whole number,
/// one and zero for true and false. A value of another kind has none.
pub open spec fn native_value(value: ControlValueSetterView) -> Option<i32> {
    match value {
        ControlValueSetterView::Integer(i) => Some(low_word(i)),
        ControlValueSetterView::Boolean(b) => Some(
            if b {
                1i32
            } else {
                0i32
            },
        ),
        ControlValueSetterView::Other(_) => None,
    }
}

/// The native flags that keep the operating mode `mode`: the automatic flag
/// for an automatic control, the manual flag for any other.
pub open spec fn flags_of(mode: KnownCameraControlFlag) -> i32 {
    if mode == KnownCameraControlFlag::Automatic {
        CAM_CTRL_AUTO
    } else {
        CAM_CTRL_MANUAL
    }
}

/// The error for a value that is neither a whole number nor a truth value.
pub open spec fn value_fault(shown: Seq<char>) -> ErrorView {
    ErrorView::StructureError {
        structure: "ControlValueSetter "@ + shown,
        error: "invalid value type"@,
    }
}

/// The write that sets `control` to `value`, given the control as it was
/// last read, or why nothing is written. The causes are tried in this order:
/// a value that is neither a whole number nor a truth value; no native
/// control to write to; a control that was read without an operating mode.
/// The write keeps the first operating mode of the control as read.
pub open spec fn planned_write(
    control: KnownCameraControl,
    value: ControlValueSetterView,
    current: CameraControlView,
    interfaces: ControlInterfaces,
) -> Result<ControlWrite, ErrorView> {
    match native_value(value) {
        None => Err(value_fault(value->Other_0)),
        Some(number) => match control_target(control, interfaces) {
            Err(e) => Err(e),
            Ok(id) => if current.flag.len() == 0 {
                Err(
                    ErrorView::StructureError {
                        structure: "KnownCameraControlFlag"@,
                        error: "could not cast to i32"@,
                    },
                )
            } else {
                Ok(
                    ControlWrite {
                        interface: id.spec_interface(),
                        property: id.spec_property(),
                        value: number,
                        flags: flags_of(current.flag[0]),
                    },
                )
            },
        },
    }
}

/// The mathematical content of a write or an error.
pub open spec fn write_view(r: Result<ControlWrite, NokhwaError>) -> Result<ControlWrite, ErrorView> {
    match r {
        Ok(write) => Ok(write),
        Err(e) => Err(e@),
    }
}

fn low_word_of(i: i64) -> (word: i32)
    ensures
        word == low_word(i),
{
    let shifted: u128 = (i as i128 + 0x8000_0000_0000_0000 + 0x8000_0000) as u128;
    let low: u128 = shifted % 0x1_0000_0000;
    proof {
        lemma_mod_multiples_vanish(0x8000_0000, i as int + 0x8000_0000, 0x1_0000_0000);
        assert(0x1_0000_0000 * 0x8000_0000 == 0x8000_0000_0000_0000int) by (nonlinear_arith);
    }
    (low as i64 - 0x8000_0000) as i32
}

/// Plans the write that sets `control` to `value`. Nothing is written to
/// the device unless a write comes back. The value is looked at before
/// anything else: one that is neither a whole number nor a truth value is
/// refused whatever the device offers.
pub fn plan_control_write(
    control: KnownCameraControl,
    value: &ControlValueSetter,
    current: &CameraControl,
    interfaces: &ControlInterfaces,
) -> (r: Result<ControlWrite, NokhwaError>)
    ensures
        write_view(r) == planned_write(control, value@, current@, *interfaces),
        !(value@ is Integer || value@ is Boolean) ==> r is Err && r->Err_0@ is StructureError,
{
    let number = match value {
        ControlValueSetter::Integer(i) => low_word_of(*i),
        ControlValueSetter::Boolean(b) => if *b {
            1
        } else {
            0
        },
        ControlValueSetter::Other(shown) => {
            let structure = String::from_str("ControlValueSetter ").concat(shown.as_str());
            return Err(
                NokhwaError::StructureError {
                    structure,
                    error: String::from_str("invalid value type"),
                },
            );
        },
    };
    let id = find_control(control, interfaces)?;
    if current.flag.len() == 0 {
        return Err(structure_error("KnownCameraControlFlag", String::from_str("could not cast to i32")));
    }
    let flags = match current.flag[0] {
        KnownCameraControlFlag::Automatic => CAM_CTRL_AUTO,
        _ => CAM_CTRL_MANUAL,
    };
    Ok(ControlWrite { interface: id.interface(), property: id.property(), value: number, flags })
}

/// What comes of setting `control` to `value`: the reason why nothing was
/// written, the error of the write that the device refused, or success.
pub open spec fn control_written(
    control: KnownCameraControl,
    value: ControlValueSetterView,
    current: CameraControlView,
    interfaces: ControlInterfaces,
    written: Result<(), String>,
) -> Result<(), ErrorView> {
    match planned_write(control, value, current, interfaces) {
        Err(e) => Err(e),
        Ok(write) => match written {
            Ok(_) => Ok(()),
            Err(why) => Err(
                ErrorView::SetPropertyError {
                    property: control_name(control),
                    value: signed_decimal(write.value as int),
                    error: why@,
                },
            ),
        },
    }
}

/// The mathematical content of a success or an error.
pub open spec fn unit_view(r: Result<(), NokhwaError>) -> Result<(), ErrorView> {
    match r {
        Ok(_) => Ok(()),
        Err(e) => Err(e@),
    }
}

/// Concludes setting `control` to `value` from what the device answered to
/// the planned write. The answer counts only where a write was planned.
pub fn conclude_control_write(
    control: KnownCameraControl,
    value: &ControlValueSetter,
    current: &CameraControl,
    interfaces: &ControlInterfaces,
    written: Result<(), String>,
) -> (r: Result<(), NokhwaError>)
    ensures
        unit_view(r) == control_written(control, value@, current@, *interfaces, written),
        !(value@ is Integer || value@ is Boolean) ==> r is Err && r->Err_0@ is StructureError,
{
    let write = plan_control_write(control, value, current, interfaces)?;
    match written {
        Ok(_) => Ok(()),
        Err(why) => Err(
            NokhwaError::SetPropertyError {
                property: control_label(control),
                value: signed_decimal_text(write.value as i64),
                error: why,
            },
        ),
    }
}

/// A value that is neither a whole number nor a truth value is never
/// written: whatever the control, its last reading, the interfaces and the
/// answer of the device are, no write is planned for it and the reason
/// given is a structure error that shows the value.
pub proof fn lemma_other_values_rejected(
    control: KnownCameraControl,
    value: ControlValueSetterView,
    current: CameraControlView,
    interfaces: ControlInterfaces,
    written: Result<(), String>,
)
    requires
        !(value is Integer || value is Boolean),
    ensures
        planned_write(control, value, current, interfaces) == Err::<ControlWrite, ErrorView>(
            value_fault(value->Other_0),
        ),
        control_written(control, value, current, interfaces, written) == Err::<(), ErrorView>(
            value_fault(value->Other_0),
        ),
        value_fault(value->Other_0) is StructureError,
{
}

} // verus!
