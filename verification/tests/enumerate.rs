use nokhwa_bindings_windows::enumerate::{
    activate_to_descriptors, query_activate_pointers, query_media_foundation_descriptors, query_msmf,
    DeviceAttributes, SourceQuery, StringAttribute,
};
use nokhwa_bindings_windows::error::NokhwaError;
use nokhwa_bindings_windows::types::{CameraIndex, CameraInfo};

fn wide(text: &str) -> StringAttribute {
    StringAttribute::Wide(text.encode_utf16().collect())
}

fn source(name: &str, link: &str) -> DeviceAttributes {
    DeviceAttributes { friendly_name: wide(name), symbolic_link: wide(link) }
}

fn get_error(property: &str, error: &str) -> NokhwaError {
    NokhwaError::GetPropertyError { property: property.to_string(), error: error.to_string() }
}

const NAME: &str = "MF_DEVSOURCE_ATTRIBUTE_FRIENDLY_NAME";
const LINK: &str = "MF_DEVSOURCE_ATTRIBUTE_SOURCE_TYPE_VIDCAP_SYMBOLIC_LINK";
const NULL: &str = "Call to IMFActivate::GetAllocatedString failed - PWSTR is null";

#[test]
fn two_devices_are_listed_in_order() {
    let devices = vec![source("Front", "\\\\?\\front"), source("Back", "\\\\?\\back")];
    assert_eq!(
        query_media_foundation_descriptors(&devices),
        Ok(vec![
            CameraInfo::new("Front", "MediaFoundation Camera", "\\\\?\\front", CameraIndex::Index(0)),
            CameraInfo::new("Back", "MediaFoundation Camera", "\\\\?\\back", CameraIndex::Index(1)),
        ])
    );
}

#[test]
fn no_sources_give_no_devices() {
    assert_eq!(query_media_foundation_descriptors(&vec![]), Ok(vec![]));
}

#[test]
fn descriptor_carries_name_link_and_index() {
    let info = activate_to_descriptors(CameraIndex::Index(4), &source("Cam", "link")).unwrap();
    assert_eq!(info.human_name(), "Cam");
    assert_eq!(info.description(), "MediaFoundation Camera");
    assert_eq!(info.misc(), "link");
    assert_eq!(info.index(), &CameraIndex::Index(4));
    let named = activate_to_descriptors(CameraIndex::String("x".to_string()), &source("", "")).unwrap();
    assert_eq!(named, CameraInfo::new("", "MediaFoundation Camera", "", CameraIndex::String("x".to_string())));
}

#[test]
fn one_bad_device_fails_the_listing() {
    let devices = vec![
        source("Front", "front"),
        DeviceAttributes { friendly_name: wide("Back"), symbolic_link: StringAttribute::Failed("0x80070005".to_string()) },
        DeviceAttributes { friendly_name: StringAttribute::Null, symbolic_link: wide("third") },
    ];
    assert_eq!(query_media_foundation_descriptors(&devices), Err(get_error(LINK, "0x80070005")));
}

#[test]
fn null_text_is_an_error_and_not_an_empty_text() {
    let index = || CameraIndex::Index(0);
    assert_eq!(
        activate_to_descriptors(
            index(),
            &DeviceAttributes { friendly_name: StringAttribute::Null, symbolic_link: wide("l") }
        ),
        Err(get_error(NAME, NULL))
    );
    assert_eq!(
        activate_to_descriptors(
            index(),
            &DeviceAttributes { friendly_name: wide("n"), symbolic_link: StringAttribute::Null }
        ),
        Err(get_error(LINK, NULL))
    );
    assert!(activate_to_descriptors(index(), &source("", "")).is_ok());
}

#[test]
fn attribute_errors_come_in_order() {
    let failed = |why: &str| StringAttribute::Failed(why.to_string());
    let bad = || StringAttribute::Wide(vec![0xD800]);
    let describe = |name: StringAttribute, link: StringAttribute| {
        activate_to_descriptors(
            CameraIndex::Index(0),
            &DeviceAttributes { friendly_name: name, symbolic_link: link },
        )
    };
    assert_eq!(describe(failed("a"), failed("b")), Err(get_error(NAME, "a")));
    assert_eq!(describe(StringAttribute::Null, failed("b")), Err(get_error(LINK, "b")));
    assert_eq!(describe(bad(), failed("b")), Err(get_error(LINK, "b")));
    assert_eq!(describe(StringAttribute::Null, StringAttribute::Null), Err(get_error(NAME, NULL)));
    assert_eq!(describe(bad(), StringAttribute::Null), Err(get_error(LINK, NULL)));
    let fault = String::from_utf16(&[0xD800]).unwrap_err().to_string();
    assert_eq!(
        describe(bad(), bad()),
        Err(NokhwaError::StructureError { structure: "PWSTR/String - Name".to_string(), error: fault.clone() })
    );
    assert_eq!(
        describe(wide("n"), bad()),
        Err(NokhwaError::StructureError { structure: "PWSTR/String - Symlink".to_string(), error: fault })
    );
}

#[test]
fn filled_slots_are_kept_in_order() {
    let pick = |slots: Vec<bool>| query_activate_pointers(&SourceQuery::Enumerated(slots));
    assert_eq!(pick(vec![]), Ok(vec![]));
    assert_eq!(pick(vec![true, true, true]), Ok(vec![0, 1, 2]));
    assert_eq!(pick(vec![false, true, false, true]), Ok(vec![1, 3]));
    assert_eq!(pick(vec![false, false]), Ok(vec![]));
}

#[test]
fn failed_query_names_the_step() {
    let set_error = |error: &str| NokhwaError::SetPropertyError {
        property: "GUID MF_DEVSOURCE_ATTRIBUTE_SOURCE_TYPE".to_string(),
        value: "MF_DEVSOURCE_ATTRIBUTE_SOURCE_TYPE_VIDCAP_GUID".to_string(),
        error: error.to_string(),
    };
    assert_eq!(
        query_activate_pointers(&SourceQuery::AttributesFailed("a".to_string())),
        Err(get_error("IMFAttributes", "a"))
    );
    assert_eq!(
        query_activate_pointers(&SourceQuery::AttributesMissing),
        Err(set_error("Call to IMFAttributes::SetGUID failed - IMFAttributes is None"))
    );
    assert_eq!(
        query_activate_pointers(&SourceQuery::SourceTypeFailed("b".to_string())),
        Err(set_error("b"))
    );
    assert_eq!(
        query_activate_pointers(&SourceQuery::EnumerationFailed("c".to_string())),
        Err(NokhwaError::StructureError {
            structure: "MFEnumDeviceSources".to_string(),
            error: "c".to_string()
        })
    );
}

#[test]
fn nothing_is_listed_without_a_subsystem() {
    assert_eq!(query_msmf(), Err(NokhwaError::NotImplementedError("Not on windows".to_string())));
}
