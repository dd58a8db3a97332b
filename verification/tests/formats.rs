use nokhwa_bindings_windows::error::NokhwaError;
use nokhwa_bindings_windows::formats::{
    active_media_type_format, compatible_format_list, encoding_text, format_error, frame_format_of,
    media_type_formats, media_type_request, pack_frame_rate, pack_resolution, subtype_for,
    unpack_frame_rate, unpack_resolution, ActiveMediaType, FormatStage, MediaTypeAttributes,
    MF_MEDIA_TYPE_VIDEO, MF_VIDEO_FORMAT_GRAY, MF_VIDEO_FORMAT_MJPEG, MF_VIDEO_FORMAT_YUY2,
};
use nokhwa_bindings_windows::types::{CameraFormat, FrameFormat, Resolution};
use windows::Win32::Media::MediaFoundation::{MFMediaType_Video, MFVideoFormat_MJPG, MFVideoFormat_YUY2};

fn fraction(numerator: u32, denominator: u32) -> u64 {
    (u64::from(numerator) << 32) | u64::from(denominator)
}

fn native(subtype: u128, width: u32, height: u32, min: u64, rate: u64, max: u64) -> MediaTypeAttributes {
    MediaTypeAttributes {
        subtype: Ok(subtype),
        frame_size: Ok((u64::from(width) << 32) | u64::from(height)),
        frame_rate_max: Ok(max),
        frame_rate: Ok(rate),
        frame_rate_min: Ok(min),
    }
}

fn mjpeg(width: u32, height: u32, rate: u32) -> CameraFormat {
    CameraFormat::new(Resolution::new(width, height), FrameFormat::MJPEG, rate)
}

#[test]
fn whole_frame_rate_round_trips() {
    assert_eq!(unpack_frame_rate(pack_frame_rate(30)), 30);
    assert_eq!(unpack_frame_rate(pack_frame_rate(0)), 0);
    assert_eq!(unpack_frame_rate(pack_frame_rate(u32::MAX)), u32::MAX);
}

#[test]
fn frame_rate_is_packed_over_one() {
    assert_eq!(pack_frame_rate(30), 0x0000_001E_0000_0001);
    assert_eq!(pack_frame_rate(0), 1);
}

#[test]
fn fractional_frame_rate_is_unknown() {
    assert_eq!(unpack_frame_rate(fraction(30000, 1001)), 0);
    assert_eq!(unpack_frame_rate(fraction(30, 0)), 0);
    assert_eq!(unpack_frame_rate(fraction(30, 2)), 0);
    assert_eq!(unpack_frame_rate(fraction(u32::MAX, u32::MAX)), 0);
    assert_eq!(unpack_frame_rate(fraction(60, 1)), 60);
}

#[test]
fn resolution_is_width_over_height() {
    assert_eq!(pack_resolution(Resolution::new(1280, 720)), 0x0000_0500_0000_02D0);
    assert_eq!(unpack_resolution(0x0000_0500_0000_02D0), Resolution::new(1280, 720));
    assert_eq!(unpack_resolution(u64::MAX), Resolution::new(u32::MAX, u32::MAX));
    assert_eq!(unpack_resolution(pack_resolution(Resolution::new(0, 7))), Resolution::new(0, 7));
}

#[test]
fn subtypes_are_the_platform_identifiers() {
    assert_eq!(MFVideoFormat_MJPG.to_u128(), MF_VIDEO_FORMAT_MJPEG);
    assert_eq!(MFVideoFormat_YUY2.to_u128(), MF_VIDEO_FORMAT_YUY2);
    assert_eq!(MFMediaType_Video.to_u128(), MF_MEDIA_TYPE_VIDEO);
    assert_eq!(
        windows::core::GUID::from_values(0x3030_3859, 0x0000, 0x0010, [0x80, 0x00, 0x00, 0xAA, 0x00, 0x38, 0x9B, 0x71])
            .to_u128(),
        MF_VIDEO_FORMAT_GRAY
    );
}

#[test]
fn subtype_and_encoding_correspond() {
    assert_eq!(frame_format_of(MF_VIDEO_FORMAT_MJPEG), Some(FrameFormat::MJPEG));
    assert_eq!(frame_format_of(MF_VIDEO_FORMAT_YUY2), Some(FrameFormat::YUYV));
    assert_eq!(frame_format_of(MF_VIDEO_FORMAT_GRAY), Some(FrameFormat::GRAY));
    assert_eq!(frame_format_of(MF_MEDIA_TYPE_VIDEO), None);
    assert_eq!(frame_format_of(0), None);
    assert_eq!(subtype_for(FrameFormat::MJPEG), Some(MF_VIDEO_FORMAT_MJPEG));
    assert_eq!(subtype_for(FrameFormat::YUYV), Some(MF_VIDEO_FORMAT_YUY2));
    assert_eq!(subtype_for(FrameFormat::GRAY), Some(MF_VIDEO_FORMAT_GRAY));
    assert_eq!(subtype_for(FrameFormat::NV12), None);
    assert_eq!(subtype_for(FrameFormat::RAWRGB), None);
    assert_eq!(subtype_for(FrameFormat::RAWBGR), None);
}

#[test]
fn encodings_are_named_as_the_device_model_names_them() {
    let pairs = [
        (FrameFormat::MJPEG, nokhwa_core::types::FrameFormat::MJPEG),
        (FrameFormat::YUYV, nokhwa_core::types::FrameFormat::YUYV),
        (FrameFormat::NV12, nokhwa_core::types::FrameFormat::NV12),
        (FrameFormat::GRAY, nokhwa_core::types::FrameFormat::GRAY),
        (FrameFormat::RAWRGB, nokhwa_core::types::FrameFormat::RAWRGB),
        (FrameFormat::RAWBGR, nokhwa_core::types::FrameFormat::RAWBGR),
    ];
    for (own, core) in pairs {
        assert_eq!(encoding_text(own), core.to_string());
    }
}

#[test]
fn no_request_is_built_for_an_encoding_that_is_not_negotiated() {
    for encoding in [FrameFormat::NV12, FrameFormat::RAWRGB, FrameFormat::RAWBGR] {
        assert_eq!(
            media_type_request(CameraFormat::new(Resolution::new(640, 480), encoding, 30)),
            Err(NokhwaError::SetPropertyError {
                property: "MF_MT_SUBTYPE".to_string(),
                value: encoding_text(encoding),
                error: "Unsupported".to_string(),
            })
        );
    }
}

#[test]
fn three_distinct_rates_give_three_formats() {
    let t = native(MF_VIDEO_FORMAT_MJPEG, 1920, 1080, fraction(5, 1), fraction(30, 1), fraction(60, 1));
    assert_eq!(
        media_type_formats(&t),
        Ok(vec![mjpeg(1920, 1080, 5), mjpeg(1920, 1080, 30), mjpeg(1920, 1080, 60)])
    );
}

#[test]
fn coinciding_rates_give_one_format() {
    let t = native(MF_VIDEO_FORMAT_MJPEG, 640, 480, fraction(30, 1), fraction(30, 1), fraction(30, 1));
    assert_eq!(media_type_formats(&t), Ok(vec![mjpeg(640, 480, 30)]));
}

#[test]
fn rate_is_not_repeated_across_an_unknown_rate() {
    let t = native(MF_VIDEO_FORMAT_MJPEG, 640, 480, fraction(30, 1), fraction(30000, 1001), fraction(30, 1));
    assert_eq!(media_type_formats(&t), Ok(vec![mjpeg(640, 480, 30)]));
}

#[test]
fn rate_that_returns_after_another_is_kept() {
    let t = native(MF_VIDEO_FORMAT_MJPEG, 640, 480, fraction(30, 1), fraction(15, 1), fraction(30, 1));
    assert_eq!(
        media_type_formats(&t),
        Ok(vec![mjpeg(640, 480, 30), mjpeg(640, 480, 15), mjpeg(640, 480, 30)])
    );
}

#[test]
fn unknown_rates_give_no_format() {
    let t = native(MF_VIDEO_FORMAT_YUY2, 640, 480, fraction(0, 1), fraction(15, 2), 0);
    assert_eq!(media_type_formats(&t), Ok(vec![]));
}

#[test]
fn adjacent_formats_of_a_type_never_share_a_rate() {
    let rates = [fraction(0, 1), fraction(15, 1), fraction(30, 1), fraction(30, 2)];
    for min in rates {
        for rate in rates {
            for max in rates {
                let t = native(MF_VIDEO_FORMAT_GRAY, 320, 240, min, rate, max);
                let formats = media_type_formats(&t).unwrap();
                assert!(formats.len() <= 3);
                for pair in formats.windows(2) {
                    assert_ne!(pair[0].frame_rate(), pair[1].frame_rate());
                }
                for format in &formats {
                    assert_ne!(format.frame_rate(), 0);
                    assert_eq!(format.resolution(), Resolution::new(320, 240));
                    assert_eq!(format.format(), FrameFormat::GRAY);
                }
            }
        }
    }
}

#[test]
fn unsupported_encoding_is_passed_over() {
    let types = vec![
        native(MF_VIDEO_FORMAT_YUY2, 640, 480, fraction(30, 1), fraction(30, 1), fraction(30, 1)),
        native(0x3231_564E_0000_0010_8000_00AA_0038_9B71, 640, 480, fraction(30, 1), fraction(30, 1), fraction(30, 1)),
        native(MF_VIDEO_FORMAT_MJPEG, 1280, 720, fraction(10, 1), fraction(30, 1), fraction(30, 1)),
    ];
    assert_eq!(
        compatible_format_list(&types),
        Ok(vec![
            CameraFormat::new(Resolution::new(640, 480), FrameFormat::YUYV, 30),
            mjpeg(1280, 720, 10),
            mjpeg(1280, 720, 30),
        ])
    );
}

#[test]
fn no_native_types_give_no_formats() {
    assert_eq!(compatible_format_list(&vec![]), Ok(vec![]));
}

#[test]
fn unreadable_attribute_fails_the_listing() {
    let mut broken = native(MF_VIDEO_FORMAT_MJPEG, 640, 480, fraction(30, 1), fraction(30, 1), fraction(30, 1));
    broken.frame_rate = Err("0xC00D36E6".to_string());
    let types = vec![
        native(MF_VIDEO_FORMAT_MJPEG, 640, 480, fraction(30, 1), fraction(30, 1), fraction(30, 1)),
        broken,
    ];
    assert_eq!(
        compatible_format_list(&types),
        Err(NokhwaError::GetPropertyError {
            property: "MF_MT_FRAME_RATE".to_string(),
            error: "0xC00D36E6".to_string()
        })
    );
}

#[test]
fn attributes_fail_in_reading_order() {
    let mut t = MediaTypeAttributes {
        subtype: Err("a".to_string()),
        frame_size: Err("b".to_string()),
        frame_rate_max: Err("c".to_string()),
        frame_rate: Err("d".to_string()),
        frame_rate_min: Err("e".to_string()),
    };
    let expect = |property: &str, error: &str| {
        Err(NokhwaError::GetPropertyError { property: property.to_string(), error: error.to_string() })
    };
    assert_eq!(media_type_formats(&t), expect("MF_MT_SUBTYPE", "a"));
    t.subtype = Ok(0);
    assert_eq!(media_type_formats(&t), expect("MF_MT_FRAME_SIZE", "b"));
    t.frame_size = Ok(0);
    assert_eq!(media_type_formats(&t), expect("MF_MT_FRAME_RATE_RANGE_MAX", "c"));
    t.frame_rate_max = Ok(0);
    assert_eq!(media_type_formats(&t), expect("MF_MT_FRAME_RATE", "d"));
    t.frame_rate = Ok(0);
    assert_eq!(media_type_formats(&t), expect("MF_MT_FRAME_RATE_RANGE_MIN", "e"));
    t.frame_rate_min = Ok(0);
    assert_eq!(media_type_formats(&t), Ok(vec![]));
}

#[test]
fn request_packs_the_format() {
    let request = media_type_request(mjpeg(1280, 720, 30)).unwrap();
    assert_eq!(request.major_type, MF_MEDIA_TYPE_VIDEO);
    assert_eq!(request.subtype, MF_VIDEO_FORMAT_MJPEG);
    assert_eq!(request.frame_size, 0x0000_0500_0000_02D0);
    assert_eq!(request.frame_rate, 0x0000_001E_0000_0001);
    assert_eq!(request.frame_rate_min, request.frame_rate);
    assert_eq!(request.frame_rate_max, request.frame_rate);
}

#[test]
fn granted_request_reads_back_as_the_format() {
    let format = CameraFormat::new(Resolution::new(800, 600), FrameFormat::GRAY, 25);
    let request = media_type_request(format).unwrap();
    let active = ActiveMediaType::Attributes {
        frame_size: Ok(request.frame_size),
        frame_rate: Ok(request.frame_rate),
        subtype: Ok(request.subtype),
    };
    assert_eq!(active_media_type_format(&active), Ok(format));
}

#[test]
fn active_type_errors_name_what_failed() {
    let expect = |property: &str, error: &str| {
        Err(NokhwaError::GetPropertyError { property: property.to_string(), error: error.to_string() })
    };
    assert_eq!(
        active_media_type_format(&ActiveMediaType::Unavailable("gone".to_string())),
        expect("MF_SOURCE_READER_FIRST_VIDEO_STREAM", "gone")
    );
    let mut size = Err("s".to_string());
    let mut rate = Err("r".to_string());
    let mut subtype = Err("t".to_string());
    let read = |size: &Result<u64, String>, rate: &Result<u64, String>, subtype: &Result<u128, String>| {
        active_media_type_format(&ActiveMediaType::Attributes {
            frame_size: size.clone(),
            frame_rate: rate.clone(),
            subtype: subtype.clone(),
        })
    };
    assert_eq!(read(&size, &rate, &subtype), expect("MF_MT_FRAME_SIZE", "s"));
    size = Ok(pack_resolution(Resolution::new(1, 2)));
    assert_eq!(read(&size, &rate, &subtype), expect("MF_MT_FRAME_RATE", "r"));
    rate = Ok(fraction(30, 1001));
    assert_eq!(read(&size, &rate, &subtype), expect("MF_MT_SUBTYPE", "t"));
    subtype = Ok(7);
    assert_eq!(read(&size, &rate, &subtype), expect("MF_MT_SUBTYPE", "Unknown"));
    subtype = Ok(MF_VIDEO_FORMAT_YUY2);
    assert_eq!(
        read(&size, &rate, &subtype),
        Ok(CameraFormat::new(Resolution::new(1, 2), FrameFormat::YUYV, 0))
    );
}

#[test]
fn format_errors_name_attribute_and_value() {
    let format = mjpeg(1280, 720, 30);
    let set = |property: &str, value: &str| NokhwaError::SetPropertyError {
        property: property.to_string(),
        value: value.to_string(),
        error: "why".to_string(),
    };
    let error = |stage: FormatStage| format_error(format, stage, "why".to_string());
    assert_eq!(
        error(FormatStage::MediaType),
        NokhwaError::StructureError { structure: "IMFMediaType".to_string(), error: "why".to_string() }
    );
    assert_eq!(error(FormatStage::MajorType), set("MF_MT_MAJOR_TYPE", "MFMediaType_Video"));
    assert_eq!(
        error(FormatStage::Subtype),
        set("MF_MT_SUBTYPE", "47504A4D-0000-0010-8000-00AA00389B71")
    );
    assert_eq!(error(FormatStage::FrameSize), set("MF_MT_FRAME_SIZE", "5497558139600"));
    assert_eq!(error(FormatStage::FrameRate), set("MF_MT_FRAME_RATE", "128849018881"));
    assert_eq!(error(FormatStage::FrameRateMin), set("MF_MT_FRAME_RATE_RANGE_MIN", "128849018881"));
    assert_eq!(error(FormatStage::FrameRateMax), set("MF_MT_FRAME_RATE_RANGE_MAX", "128849018881"));
    assert_eq!(
        error(FormatStage::Stream("IMFMediaType(0x1)".to_string())),
        set("MEDIA_FOUNDATION_FIRST_VIDEO_STREAM", "IMFMediaType(0x1)")
    );
}

#[test]
fn default_format_is_that_of_the_device_model() {
    let core = nokhwa_core::types::CameraFormat::default();
    let own = CameraFormat::default();
    assert_eq!(own.resolution().width(), core.resolution().width());
    assert_eq!(own.resolution().height(), core.resolution().height());
    assert_eq!(own.frame_rate(), core.frame_rate());
    assert_eq!(own.format(), FrameFormat::MJPEG);
    assert_eq!(core.format(), nokhwa_core::types::FrameFormat::MJPEG);
}
