//! Format negotiation: from the packed attributes of a native media type to
//! capture formats, and back.
//!
//! A native media type names its pixel encoding by a 128-bit identifier and
//! packs two 32-bit numbers into each 64-bit attribute: width and height for
//! the frame size, numerator and denominator for each frame rate.

use vstd::prelude::*;
use crate::error::{get_property_error, set_property_error, structure_error, ErrorView, NokhwaError};
use crate::text::{decimal, decimal_text, identifier_label, identifier_name};
use crate::types::{CameraFormat, FrameFormat, Resolution};

verus! {

/// The subtype identifier of YUY2 video.
pub const MF_VIDEO_FORMAT_YUY2: u128 = 0x3259_5559_0000_0010_8000_00AA_0038_9B71;

/// The subtype identifier of motion JPEG video.
pub const MF_VIDEO_FORMAT_MJPEG: u128 = 0x4750_4A4D_0000_0010_8000_00AA_0038_9B71;

/// The subtype identifier of 8-bit grayscale video.
pub const MF_VIDEO_FORMAT_GRAY: u128 = 0x3030_3859_0000_0010_8000_00AA_0038_9B71;

/// The major type identifier of video.
pub const MF_MEDIA_TYPE_VIDEO: u128 = 0x7364_6976_0000_0010_8000_00AA_0038_9B71;

/// Two to the power of 32: the weight of the upper half of a packed attribute.
pub const HALF: u64 = 0x1_0000_0000;

/// The pixel encoding that a subtype identifier stands for, if it is one of
/// the encodings the backend supports.
pub open spec fn encoding_of(subtype: u128) -> Option<FrameFormat> {
    if subtype == MF_VIDEO_FORMAT_MJPEG {
        Some(FrameFormat::MJPEG)
    } else if subtype == MF_VIDEO_FORMAT_YUY2 {
        Some(FrameFormat::YUYV)
    } else if subtype == MF_VIDEO_FORMAT_GRAY {
        Some(FrameFormat::GRAY)
    } else {
        None
    }
}

/// The pixel encodings that this backend negotiates: motion JPEG, YUY2
/// and 8-bit grayscale.
pub open spec fn supported(format: FrameFormat) -> bool {
    format == FrameFormat::MJPEG || format == FrameFormat::YUYV || format == FrameFormat::GRAY
}

/// The subtype identifier of a pixel encoding, if the backend negotiates
/// the encoding.
pub open spec fn subtype_of(format: FrameFormat) -> Option<u128> {
    match format {
        FrameFormat::MJPEG => Some(MF_VIDEO_FORMAT_MJPEG),
        FrameFormat::YUYV => Some(MF_VIDEO_FORMAT_YUY2),
        FrameFormat::GRAY => Some(MF_VIDEO_FORMAT_GRAY),
        _ => None,
    }
}

/// The name of a pixel encoding.
pub open spec fn encoding_name(format: FrameFormat) -> Seq<char> {
    match format {
        FrameFormat::MJPEG => "MJPEG"@,
        FrameFormat::YUYV => "YUYV"@,
        FrameFormat::NV12 => "NV12"@,
        FrameFormat::GRAY => "GRAY"@,
        FrameFormat::RAWRGB => "RAWRGB"@,
        FrameFormat::RAWBGR => "RAWBGR"@,
    }
}

/// Every subtype identifier that is recognized stands for an encoding that
/// the backend negotiates, and every such encoding is recognized by its
/// identifier.
pub proof fn lemma_supported_encodings(subtype: u128, format: FrameFormat)
    ensures
        encoding_of(subtype) == Some(format) ==> supported(format),
        supported(format) <==> subtype_of(format) is Some,
        supported(format) ==> encoding_of(subtype_of(format)->Some_0) == Some(format),
{
}

/// The resolution packed in `packed`: the width in the upper 32 bits, the
/// height in the lower 32 bits.
pub open spec fn unpacked_resolution(packed: u64) -> Resolution {
    Resolution {
        width_x: (packed as int / HALF as int) as u32,
        height_y: (packed as int % HALF as int) as u32,
    }
}

/// The frame rate packed in `packed` as a fraction, numerator in the upper 32
/// bits and denominator in the lower 32 bits: the numerator if the
/// denominator is one, and zero, for an unknown rate, otherwise.
pub open spec fn unpacked_frame_rate(packed: u64) -> u32 {
    if packed as int % HALF as int == 1 {
        (packed as int / HALF as int) as u32
    } else {
        0
    }
}

/// `resolution` as a packed attribute.
pub open spec fn packed_resolution(resolution: Resolution) -> u64 {
    (resolution.width_x as int * HALF as int + resolution.height_y as int) as u64
}

/// The whole frame rate `rate` as a packed fraction with denominator one.
pub open spec fn packed_frame_rate(rate: u32) -> u64 {
    (rate as int * HALF as int + 1) as u64
}

/// Recognizes the subtype identifier of a supported pixel encoding.
pub fn frame_format_of(subtype: u128) -> (format: Option<FrameFormat>)
    ensures
        format == encoding_of(subtype),
{
    if subtype == MF_VIDEO_FORMAT_MJPEG {
        Some(FrameFormat::MJPEG)
    } else if subtype == MF_VIDEO_FORMAT_YUY2 {
        Some(FrameFormat::YUYV)
    } else if subtype == MF_VIDEO_FORMAT_GRAY {
        Some(FrameFormat::GRAY)
    } else {
        None
    }
}

/// The subtype identifier to ask the platform for `format`, if the backend
/// negotiates the encoding.
pub fn subtype_for(format: FrameFormat) -> (subtype: Option<u128>)
    ensures
        subtype == subtype_of(format),
        subtype is Some <==> supported(format),
        subtype matches Some(id) ==> encoding_of(id) == Some(format),
{
    match format {
        FrameFormat::MJPEG => Some(MF_VIDEO_FORMAT_MJPEG),
        FrameFormat::YUYV => Some(MF_VIDEO_FORMAT_YUY2),
        FrameFormat::GRAY => Some(MF_VIDEO_FORMAT_GRAY),
        _ => None,
    }
}

/// Writes the name of a pixel encoding.
pub fn encoding_text(format: FrameFormat) -> (text: String)
    ensures
        text@ == encoding_name(format),
{
    match format {
        FrameFormat::MJPEG => String::from_str("MJPEG"),
        FrameFormat::YUYV => String::from_str("YUYV"),
        FrameFormat::NV12 => String::from_str("NV12"),
        FrameFormat::GRAY => String::from_str("GRAY"),
        FrameFormat::RAWRGB => String::from_str("RAWRGB"),
        FrameFormat::RAWBGR => String::from_str("RAWBGR"),
    }
}

/// Unpacks a frame size attribute.
pub fn unpack_resolution(packed: u64) -> (resolution: Resolution)
    ensures
        resolution == unpacked_resolution(packed),
{
    Resolution { width_x: (packed / HALF) as u32, height_y: (packed % HALF) as u32 }
}

/// Unpacks a frame rate attribute. A fraction whose denominator is not one
/// has no whole rate: it unpacks to zero.
pub fn unpack_frame_rate(packed: u64) -> (rate: u32)
    ensures
        rate == unpacked_frame_rate(packed),
        packed as int % HALF as int != 1 ==> rate == 0,
        packed as int % HALF as int == 1 ==> rate as int == packed as int / HALF as int,
{
    if packed % HALF == 1 {
        (packed / HALF) as u32
    } else {
        0
    }
}

/// Packs a resolution into a frame size attribute.
pub fn pack_resolution(resolution: Resolution) -> (packed: u64)
    ensures
        packed == packed_resolution(resolution),
        unpacked_resolution(packed) == resolution,
{
    let packed = (resolution.width_x as u64) * HALF + (resolution.height_y as u64);
    assert(unpacked_resolution(packed) == resolution) by {
        lemma_resolution_round_trip(resolution);
    }
    packed
}

/// Packs a whole frame rate into a frame rate attribute, as the fraction of
/// that rate over one.
pub fn pack_frame_rate(rate: u32) -> (packed: u64)
    ensures
        packed == packed_frame_rate(rate),
        unpacked_frame_rate(packed) == rate,
{
    let packed = (rate as u64) * HALF + 1;
    assert(unpacked_frame_rate(packed) == rate) by {
        lemma_frame_rate_round_trip(rate);
    }
    packed
}

/// Packing a resolution and unpacking it again gives the same resolution.
pub proof fn lemma_resolution_round_trip(resolution: Resolution)
    ensures
        unpacked_resolution(packed_resolution(resolution)) == resolution,
{
    let w = resolution.width_x as int;
    let h = resolution.height_y as int;
    let half = HALF as int;
    assert(0 <= w * half + h <= u64::MAX) by (nonlinear_arith)
        requires
            0 <= w <= u32::MAX,
            0 <= h <= u32::MAX,
            half == 0x1_0000_0000,
    ;
    assert((w * half + h) / half == w && (w * half + h) % half == h) by (nonlinear_arith)
        requires
            0 <= h < half,
            half == 0x1_0000_0000,
    ;
}

/// Packing a whole frame rate and unpacking it again gives the same rate.
pub proof fn lemma_frame_rate_round_trip(rate: u32)
    ensures
        unpacked_frame_rate(packed_frame_rate(rate)) == rate,
{
    let n = rate as int;
    let half = HALF as int;
    assert(0 <= n * half + 1 <= u64::MAX) by (nonlinear_arith)
        requires
            0 <= n <= u32::MAX,
            half == 0x1_0000_0000,
    ;
    assert((n * half + 1) / half == n && (n * half + 1) % half == 1) by (nonlinear_arith)
        requires
            half == 0x1_0000_0000,
    ;
}

/// A packed fraction whose denominator is not one unpacks to the unknown
/// frame rate, zero, whatever its numerator is.
pub proof fn lemma_fractional_rate_is_unknown(numerator: u32, denominator: u32)
    requires
        denominator != 1,
    ensures
        unpacked_frame_rate((numerator as int * HALF as int + denominator as int) as u64) == 0,
{
    let n = numerator as int;
    let d = denominator as int;
    let half = HALF as int;
    assert(0 <= n * half + d <= u64::MAX) by (nonlinear_arith)
        requires
            0 <= n <= u32::MAX,
            0 <= d <= u32::MAX,
            half == 0x1_0000_0000,
    ;
    assert((n * half + d) % half == d) by (nonlinear_arith)
        requires
            0 <= d < half,
            half == 0x1_0000_0000,
    ;
}

/// What the platform reported for one native media type of a device: for
/// each attribute the packed value, or the platform's diagnostic where the
/// read failed.
#[derive(Debug, PartialEq, Eq)]
pub struct MediaTypeAttributes {
    pub subtype: Result<u128, String>,
    pub frame_size: Result<u64, String>,
    pub frame_rate_max: Result<u64, String>,
    pub frame_rate: Result<u64, String>,
    pub frame_rate_min: Result<u64, String>,
}

/// The error for the first attribute of `t` that could not be read, in the
/// order in which the attributes are read: subtype, frame size, maximum frame
/// rate, nominal frame rate, minimum frame rate.
pub open spec fn attribute_fault(t: MediaTypeAttributes) -> Option<ErrorView> {
    if let Err(why) = t.subtype {
        Some(ErrorView::GetPropertyError { property: "MF_MT_SUBTYPE"@, error: why@ })
    } else if let Err(why) = t.frame_size {
        Some(ErrorView::GetPropertyError { property: "MF_MT_FRAME_SIZE"@, error: why@ })
    } else if let Err(why) = t.frame_rate_max {
        Some(
            ErrorView::GetPropertyError { property: "MF_MT_FRAME_RATE_RANGE_MAX"@, error: why@ },
        )
    } else if let Err(why) = t.frame_rate {
        Some(ErrorView::GetPropertyError { property: "MF_MT_FRAME_RATE"@, error: why@ })
    } else if let Err(why) = t.frame_rate_min {
        Some(
            ErrorView::GetPropertyError { property: "MF_MT_FRAME_RATE_RANGE_MIN"@, error: why@ },
        )
    } else {
        None
    }
}

/// `formats`, followed by the format of rate `rate` if that rate is known and
/// is not the rate of the entry before it.
pub open spec fn with_rate(
    formats: Seq<CameraFormat>,
    resolution: Resolution,
    format: FrameFormat,
    rate: u32,
) -> Seq<CameraFormat> {
    if rate != 0 && (formats.len() == 0 || formats.last().frame_rate != rate) {
        formats.push(CameraFormat { resolution, format, frame_rate: rate })
    } else {
        formats
    }
}

/// The formats one native media type stands for: one each for its minimum,
/// nominal and maximum frame rate, in that order, leaving out unknown rates
/// and a rate that repeats the rate emitted before it.
pub open spec fn emitted_formats(
    resolution: Resolution,
    format: FrameFormat,
    min: u32,
    nominal: u32,
    max: u32,
) -> Seq<CameraFormat> {
    with_rate(
        with_rate(with_rate(Seq::empty(), resolution, format, min), resolution, format, nominal),
        resolution,
        format,
        max,
    )
}

/// What one native media type contributes to the list of compatible formats:
/// an error if one of its attributes could not be read, nothing if its pixel
/// encoding is not supported, and its emitted formats otherwise.
pub open spec fn type_formats(t: MediaTypeAttributes) -> Result<Seq<CameraFormat>, ErrorView> {
    match attribute_fault(t) {
        Some(e) => Err(e),
        None => match encoding_of(t.subtype->Ok_0) {
            None => Ok(Seq::empty()),
            Some(format) => Ok(
                emitted_formats(
                    unpacked_resolution(t.frame_size->Ok_0),
                    format,
                    unpacked_frame_rate(t.frame_rate_min->Ok_0),
                    unpacked_frame_rate(t.frame_rate->Ok_0),
                    unpacked_frame_rate(t.frame_rate_max->Ok_0),
                ),
            ),
        },
    }
}

/// `formats` in front of what `rest` contributes, or the error of `rest`.
pub open spec fn preceded_by(
    formats: Seq<CameraFormat>,
    rest: Result<Seq<CameraFormat>, ErrorView>,
) -> Result<Seq<CameraFormat>, ErrorView> {
    match rest {
        Ok(more) => Ok(formats + more),
        Err(e) => Err(e),
    }
}

/// The compatible formats of a device whose native media types are `types`,
/// in the order of the types; the error of the first type that has one.
pub open spec fn compatible_formats(types: Seq<MediaTypeAttributes>) -> Result<
    Seq<CameraFormat>,
    ErrorView,
>
    decreases types.len(),
{
    if types.len() == 0 {
        Ok(Seq::empty())
    } else {
        match type_formats(types[0]) {
            Err(e) => Err(e),
            Ok(first) => preceded_by(first, compatible_formats(types.skip(1))),
        }
    }
}

/// The mathematical content of a list of formats or an error.
pub open spec fn formats_view(r: Result<Vec<CameraFormat>, NokhwaError>) -> Result<
    Seq<CameraFormat>,
    ErrorView,
> {
    match r {
        Ok(formats) => Ok(formats@),
        Err(e) => Err(e@),
    }
}

fn push_rate(formats: &mut Vec<CameraFormat>, resolution: Resolution, format: FrameFormat, rate: u32)
    ensures
        final(formats)@ == with_rate(old(formats)@, resolution, format, rate),
{
    let n = formats.len();
    if rate != 0 && (n == 0 || formats[n - 1].frame_rate != rate) {
        formats.push(CameraFormat { resolution, format, frame_rate: rate });
    }
}

fn attribute_value(read: &Result<u64, String>, property: &str) -> (value: Result<u64, NokhwaError>)
    ensures
        match *read {
            Ok(v) => value == Ok::<u64, NokhwaError>(v),
            Err(why) => value is Err && value->Err_0@ == (ErrorView::GetPropertyError {
                property: property@,
                error: why@,
            }),
        },
{
    match read {
        Ok(v) => Ok(*v),
        Err(why) => Err(get_property_error(property, why.clone())),
    }
}

/// Turns the attributes of one native media type into the formats the type
/// stands for.
pub fn media_type_formats(t: &MediaTypeAttributes) -> (r: Result<Vec<CameraFormat>, NokhwaError>)
    ensures
        formats_view(r) == type_formats(*t),
{
    let subtype = match &t.subtype {
        Ok(v) => *v,
        Err(why) => {
            return Err(get_property_error("MF_MT_SUBTYPE", why.clone()));
        },
    };
    let resolution = unpack_resolution(attribute_value(&t.frame_size, "MF_MT_FRAME_SIZE")?);
    let max = unpack_frame_rate(attribute_value(&t.frame_rate_max, "MF_MT_FRAME_RATE_RANGE_MAX")?);
    let nominal = unpack_frame_rate(attribute_value(&t.frame_rate, "MF_MT_FRAME_RATE")?);
    let min = unpack_frame_rate(attribute_value(&t.frame_rate_min, "MF_MT_FRAME_RATE_RANGE_MIN")?);
    let mut formats: Vec<CameraFormat> = Vec::new();
    match frame_format_of(subtype) {
        None => {},
        Some(format) => {
            push_rate(&mut formats, resolution, format, min);
            push_rate(&mut formats, resolution, format, nominal);
            push_rate(&mut formats, resolution, format, max);
        },
    }
    Ok(formats)
}

/// Lists the formats a device can deliver, from the attributes of its native
/// media types in the order of their index. Types of an unsupported pixel
/// encoding are passed over; a type with an attribute that could not be read
/// fails the whole listing.
pub fn compatible_format_list(types: &Vec<MediaTypeAttributes>) -> (r: Result<
    Vec<CameraFormat>,
    NokhwaError,
>)
    ensures
        formats_view(r) == compatible_formats(types@),
{
    let mut list: Vec<CameraFormat> = Vec::new();
    let mut i: usize = 0;
    assert(types@.skip(0) =~= types@);
    while i < types.len()
        invariant
            i <= types.len(),
            compatible_formats(types@) == preceded_by(
                list@,
                compatible_formats(types@.skip(i as int)),
            ),
        decreases types.len() - i,
    {
        let ghost before = list@;
        let ghost rest = types@.skip(i as int);
        assert(rest[0] == types@[i as int]);
        assert(rest.skip(1) =~= types@.skip(i + 1));
        match media_type_formats(&types[i]) {
            Err(e) => {
                return Err(e);
            },
            Ok(mut formats) => {
                let ghost emitted = formats@;
                list.append(&mut formats);
                proof {
                    match compatible_formats(rest.skip(1)) {
                        Ok(more) => {
                            assert(before + (emitted + more) =~= (before + emitted) + more);
                        },
                        Err(_) => {},
                    }
                }
            },
        }
        i = i + 1;
    }
    assert(list@ + Seq::<CameraFormat>::empty() =~= list@);
    Ok(list)
}

/// Within the formats of one native media type no entry repeats the frame
/// rate of the entry before it. There are at most three entries, all of the
/// type's resolution and pixel encoding, which is one that the backend
/// negotiates, and none of an unknown rate.
pub proof fn lemma_type_formats_distinct(t: MediaTypeAttributes)
    requires
        type_formats(t) is Ok,
    ensures
        type_formats(t)->Ok_0.len() <= 3,
        forall|i: int|
            0 <= i < type_formats(t)->Ok_0.len() ==> {
                let f = #[trigger] type_formats(t)->Ok_0[i];
                &&& f.frame_rate != 0
                &&& f.resolution == unpacked_resolution(t.frame_size->Ok_0)
                &&& encoding_of(t.subtype->Ok_0) == Some(f.format)
                &&& supported(f.format)
            },
        forall|i: int|
            0 < i < type_formats(t)->Ok_0.len() ==> #[trigger] type_formats(t)->Ok_0[i]
                != type_formats(t)->Ok_0[i - 1],
        forall|i: int|
            0 < i < type_formats(t)->Ok_0.len() ==> (#[trigger] type_formats(
                t,
            )->Ok_0[i]).frame_rate != type_formats(t)->Ok_0[i - 1].frame_rate,
{
}

/// What the platform reported for the media type that is active on the
/// first video stream.
#[derive(Debug, PartialEq, Eq)]
pub enum ActiveMediaType {
    /// The active type could not be had; the text is the diagnostic.
    Unavailable(String),
    /// The attributes of the active type, each read or failed.
    Attributes {
        frame_size: Result<u64, String>,
        frame_rate: Result<u64, String>,
        subtype: Result<u128, String>,
    },
}

/// The format that the active media type stands for. The frame size is read
/// first, then the frame rate, then the subtype; the first that fails gives
/// the error, and so does a subtype that is no supported pixel encoding.
pub open spec fn active_format(active: ActiveMediaType) -> Result<CameraFormat, ErrorView> {
    match active {
        ActiveMediaType::Unavailable(why) => Err(
            ErrorView::GetPropertyError {
                property: "MF_SOURCE_READER_FIRST_VIDEO_STREAM"@,
                error: why@,
            },
        ),
        ActiveMediaType::Attributes { frame_size, frame_rate, subtype } => {
            if let Err(why) = frame_size {
                Err(ErrorView::GetPropertyError { property: "MF_MT_FRAME_SIZE"@, error: why@ })
            } else if let Err(why) = frame_rate {
                Err(ErrorView::GetPropertyError { property: "MF_MT_FRAME_RATE"@, error: why@ })
            } else if let Err(why) = subtype {
                Err(ErrorView::GetPropertyError { property: "MF_MT_SUBTYPE"@, error: why@ })
            } else {
                match encoding_of(subtype->Ok_0) {
                    None => Err(
                        ErrorView::GetPropertyError {
                            property: "MF_MT_SUBTYPE"@,
                            error: "Unknown"@,
                        },
                    ),
                    Some(format) => Ok(
                        CameraFormat {
                            resolution: unpacked_resolution(frame_size->Ok_0),
                            format,
                            frame_rate: unpacked_frame_rate(frame_rate->Ok_0),
                        },
                    ),
                }
            }
        },
    }
}

/// The mathematical content of a format or an error.
pub open spec fn format_view(r: Result<CameraFormat, NokhwaError>) -> Result<
    CameraFormat,
    ErrorView,
> {
    match r {
        Ok(format) => Ok(format),
        Err(e) => Err(e@),
    }
}

/// Reads the format the device is set to from its active media type.
pub fn active_media_type_format(active: &ActiveMediaType) -> (r: Result<CameraFormat, NokhwaError>)
    ensures
        format_view(r) == active_format(*active),
{
    match active {
        ActiveMediaType::Unavailable(why) => Err(
            get_property_error("MF_SOURCE_READER_FIRST_VIDEO_STREAM", why.clone()),
        ),
        ActiveMediaType::Attributes { frame_size, frame_rate, subtype } => {
            let resolution = unpack_resolution(attribute_value(frame_size, "MF_MT_FRAME_SIZE")?);
            let rate = unpack_frame_rate(attribute_value(frame_rate, "MF_MT_FRAME_RATE")?);
            let id = match subtype {
                Ok(id) => *id,
                Err(why) => {
                    return Err(get_property_error("MF_MT_SUBTYPE", why.clone()));
                },
            };
            match frame_format_of(id) {
                None => Err(get_property_error("MF_MT_SUBTYPE", String::from_str("Unknown"))),
                Some(format) => Ok(CameraFormat { resolution, format, frame_rate: rate }),
            }
        },
    }
}

/// The native media type that asks the platform for a format: what each of
/// its attributes is set to.
#[derive(Debug, Clone, Copy, PartialEq, Eq, Structural)]
pub struct MediaTypeRequest {
    pub major_type: u128,
    pub subtype: u128,
    pub frame_size: u64,
    pub frame_rate: u64,
    pub frame_rate_min: u64,
    pub frame_rate_max: u64,
}

/// The request for `format`: video of the format's pixel encoding and
/// resolution, with the rate over one as nominal, minimum and maximum frame
/// rate alike. There is none for an encoding that the backend does not
/// negotiate.
pub open spec fn request_for(format: CameraFormat) -> Option<MediaTypeRequest> {
    match subtype_of(format.format) {
        None => None,
        Some(subtype) => Some(
            MediaTypeRequest {
                major_type: MF_MEDIA_TYPE_VIDEO,
                subtype,
                frame_size: packed_resolution(format.resolution),
                frame_rate: packed_frame_rate(format.frame_rate),
                frame_rate_min: packed_frame_rate(format.frame_rate),
                frame_rate_max: packed_frame_rate(format.frame_rate),
            },
        ),
    }
}

/// The active media type of a device that took `request` as it stands.
pub open spec fn granted(request: MediaTypeRequest) -> ActiveMediaType {
    ActiveMediaType::Attributes {
        frame_size: Ok(request.frame_size),
        frame_rate: Ok(request.frame_rate),
        subtype: Ok(request.subtype),
    }
}

/// The diagnostic for a pixel encoding that the backend does not negotiate.
pub open spec fn unsupported() -> Seq<char> {
    "Unsupported"@
}

/// Builds the native media type that asks the platform for `format`. A
/// device that takes the request as it stands reports `format` back. A
/// format of an encoding that the backend does not negotiate is refused
/// before anything is asked of the platform: its subtype cannot be set.
pub fn media_type_request(format: CameraFormat) -> (r: Result<MediaTypeRequest, NokhwaError>)
    ensures
        match request_for(format) {
            Some(request) => r == Ok::<MediaTypeRequest, NokhwaError>(request) && active_format(
                granted(request),
            ) == Ok::<CameraFormat, ErrorView>(format),
            None => r is Err && r->Err_0@ == format_fault(
                format,
                FormatStage::Subtype,
                unsupported(),
            ),
        },
        r is Ok <==> supported(format.format),
{
    match subtype_for(format.format) {
        None => Err(format_error(format, FormatStage::Subtype, String::from_str("Unsupported"))),
        Some(subtype) => {
            let rate = pack_frame_rate(format.frame_rate);
            Ok(
                MediaTypeRequest {
                    major_type: MF_MEDIA_TYPE_VIDEO,
                    subtype,
                    frame_size: pack_resolution(format.resolution),
                    frame_rate: rate,
                    frame_rate_min: rate,
                    frame_rate_max: rate,
                },
            )
        },
    }
}

/// The steps of applying a format to a device, in their order.
#[derive(Debug, Clone, PartialEq, Eq)]
pub enum FormatStage {
    /// Creating the empty native media type.
    MediaType,
    /// Setting the major type to video.
    MajorType,
    /// Setting the subtype.
    Subtype,
    /// Setting the frame size.
    FrameSize,
    /// Setting the nominal frame rate.
    FrameRate,
    /// Setting the minimum frame rate.
    FrameRateMin,
    /// Setting the maximum frame rate.
    FrameRateMax,
    /// Making the type the active type of the first video stream; the text
    /// is the native media type as the platform prints it.
    Stream(String),
}

/// How the subtype asked for `format` is shown: the identifier of the
/// encoding, or its name where the backend has no identifier for it.
pub open spec fn subtype_shown(format: FrameFormat) -> Seq<char> {
    match subtype_of(format) {
        Some(subtype) => identifier_name(subtype),
        None => encoding_name(format),
    }
}

/// The error for a format that could not be applied because the step `stage`
/// failed with the diagnostic `why`: it names the attribute that was being
/// written and the value that was meant for it.
pub open spec fn format_fault(format: CameraFormat, stage: FormatStage, why: Seq<char>) -> ErrorView {
    match stage {
        FormatStage::MediaType => ErrorView::StructureError {
            structure: "IMFMediaType"@,
            error: why,
        },
        FormatStage::MajorType => ErrorView::SetPropertyError {
            property: "MF_MT_MAJOR_TYPE"@,
            value: "MFMediaType_Video"@,
            error: why,
        },
        FormatStage::Subtype => ErrorView::SetPropertyError {
            property: "MF_MT_SUBTYPE"@,
            value: subtype_shown(format.format),
            error: why,
        },
        FormatStage::FrameSize => ErrorView::SetPropertyError {
            property: "MF_MT_FRAME_SIZE"@,
            value: decimal(packed_resolution(format.resolution) as nat),
            error: why,
        },
        FormatStage::FrameRate => ErrorView::SetPropertyError {
            property: "MF_MT_FRAME_RATE"@,
            value: decimal(packed_frame_rate(format.frame_rate) as nat),
            error: why,
        },
        FormatStage::FrameRateMin => ErrorView::SetPropertyError {
            property: "MF_MT_FRAME_RATE_RANGE_MIN"@,
            value: decimal(packed_frame_rate(format.frame_rate) as nat),
            error: why,
        },
        FormatStage::FrameRateMax => ErrorView::SetPropertyError {
            property: "MF_MT_FRAME_RATE_RANGE_MAX"@,
            value: decimal(packed_frame_rate(format.frame_rate) as nat),
            error: why,
        },
        FormatStage::Stream(media_type) => ErrorView::SetPropertyError {
            property: "MEDIA_FOUNDATION_FIRST_VIDEO_STREAM"@,
            value: media_type@,
            error: why,
        },
    }
}

/// Builds the error for a format that could not be applied.
pub fn format_error(format: CameraFormat, stage: FormatStage, why: String) -> (e: NokhwaError)
    ensures
        e@ == format_fault(format, stage, why@),
{
    match stage {
        FormatStage::MediaType => structure_error("IMFMediaType", why),
        FormatStage::MajorType => set_property_error(
            "MF_MT_MAJOR_TYPE",
            String::from_str("MFMediaType_Video"),
            why,
        ),
        FormatStage::Subtype => {
            let shown = match subtype_for(format.format) {
                Some(subtype) => identifier_label(subtype),
                None => encoding_text(format.format),
            };
            set_property_error("MF_MT_SUBTYPE", shown, why)
        },
        FormatStage::FrameSize => set_property_error(
            "MF_MT_FRAME_SIZE",
            decimal_text(pack_resolution(format.resolution) as u128),
            why,
        ),
        FormatStage::FrameRate => set_property_error(
            "MF_MT_FRAME_RATE",
            decimal_text(pack_frame_rate(format.frame_rate) as u128),
            why,
        ),
        FormatStage::FrameRateMin => set_property_error(
            "MF_MT_FRAME_RATE_RANGE_MIN",
            decimal_text(pack_frame_rate(format.frame_rate) as u128),
            why,
        ),
        FormatStage::FrameRateMax => set_property_error(
            "MF_MT_FRAME_RATE_RANGE_MAX",
            decimal_text(pack_frame_rate(format.frame_rate) as u128),
            why,
        ),
        FormatStage::Stream(media_type) => set_property_error(
            "MEDIA_FOUNDATION_FIRST_VIDEO_STREAM",
            media_type,
            why,
        ),
    }
}

/// A format that is read from an active media type has an encoding that
/// the backend negotiates.
pub proof fn lemma_active_format_supported(active: ActiveMediaType)
    requires
        active_format(active) is Ok,
    ensures
        supported(active_format(active)->Ok_0.format),
{
}

} // verus!
