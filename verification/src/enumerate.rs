//! Device enumeration: from the attributes the platform reports for its
//! capture sources to device descriptors.

use vstd::prelude::*;
use crate::error::{get_property_error, set_property_error, structure_error, ErrorView, NokhwaError};
use crate::text::{decode_wide, utf16_decoded};
use crate::types::{CameraIndex, CameraIndexView, CameraInfo, CameraInfoView};

verus! {

/// What reading a text attribute of a capture source gave.
#[derive(Debug, Clone, PartialEq, Eq)]
pub enum StringAttribute {
    /// The read failed; the text is the platform's diagnostic.
    Failed(String),
    /// The read succeeded and gave no text at all.
    Null,
    /// The UTF-16 code units of the text, without a terminator.
    Wide(Vec<u16>),
}

/// The two text attributes of a capture source that describe a device.
#[derive(Debug, Clone, PartialEq, Eq)]
pub struct DeviceAttributes {
    pub friendly_name: StringAttribute,
    pub symbolic_link: StringAttribute,
}

/// The diagnostic for a text attribute that was read as no text at all.
pub open spec fn null_text() -> Seq<char> {
    "Call to IMFActivate::GetAllocatedString failed - PWSTR is null"@
}

/// The diagnostic for a text attribute that is not UTF-16.
pub open spec fn not_utf16() -> Seq<char> {
    "invalid utf-16: lone surrogate found"@
}

/// The descriptor of the device with the attributes `a`, enumerated under
/// `index`. Both reads must have succeeded, then both must have given a
/// text, then both texts must decode: the first of these six that does not
/// hold gives the error, the name before the link each time.
pub open spec fn descriptor_of(index: CameraIndexView, a: DeviceAttributes) -> Result<
    CameraInfoView,
    ErrorView,
> {
    if let StringAttribute::Failed(why) = a.friendly_name {
        Err(
            ErrorView::GetPropertyError {
                property: "MF_DEVSOURCE_ATTRIBUTE_FRIENDLY_NAME"@,
                error: why@,
            },
        )
    } else if let StringAttribute::Failed(why) = a.symbolic_link {
        Err(
            ErrorView::GetPropertyError {
                property: "MF_DEVSOURCE_ATTRIBUTE_SOURCE_TYPE_VIDCAP_SYMBOLIC_LINK"@,
                error: why@,
            },
        )
    } else if a.friendly_name is Null {
        Err(
            ErrorView::GetPropertyError {
                property: "MF_DEVSOURCE_ATTRIBUTE_FRIENDLY_NAME"@,
                error: null_text(),
            },
        )
    } else if a.symbolic_link is Null {
        Err(
            ErrorView::GetPropertyError {
                property: "MF_DEVSOURCE_ATTRIBUTE_SOURCE_TYPE_VIDCAP_SYMBOLIC_LINK"@,
                error: null_text(),
            },
        )
    } else if utf16_decoded(a.friendly_name->Wide_0@) is None {
        Err(ErrorView::StructureError { structure: "PWSTR/String - Name"@, error: not_utf16() })
    } else if utf16_decoded(a.symbolic_link->Wide_0@) is None {
        Err(ErrorView::StructureError { structure: "PWSTR/String - Symlink"@, error: not_utf16() })
    } else {
        Ok(
            CameraInfoView {
                human_name: utf16_decoded(a.friendly_name->Wide_0@)->Some_0,
                description: "MediaFoundation Camera"@,
                misc: utf16_decoded(a.symbolic_link->Wide_0@)->Some_0,
                index,
            },
        )
    }
}

/// The mathematical content of a descriptor or an error.
pub open spec fn info_view(r: Result<CameraInfo, NokhwaError>) -> Result<CameraInfoView, ErrorView> {
    match r {
        Ok(info) => Ok(info@),
        Err(e) => Err(e@),
    }
}

/// Builds the descriptor of one device from its attributes.
pub fn activate_to_descriptors(index: CameraIndex, attributes: &DeviceAttributes) -> (r: Result<
    CameraInfo,
    NokhwaError,
>)
    ensures
        info_view(r) == descriptor_of(index@, *attributes),
{
    if let StringAttribute::Failed(why) = &attributes.friendly_name {
        return Err(get_property_error("MF_DEVSOURCE_ATTRIBUTE_FRIENDLY_NAME", why.clone()));
    }
    if let StringAttribute::Failed(why) = &attributes.symbolic_link {
        return Err(
            get_property_error(
                "MF_DEVSOURCE_ATTRIBUTE_SOURCE_TYPE_VIDCAP_SYMBOLIC_LINK",
                why.clone(),
            ),
        );
    }
    let name_units = match &attributes.friendly_name {
        StringAttribute::Wide(units) => units,
        _ => {
            return Err(
                get_property_error(
                    "MF_DEVSOURCE_ATTRIBUTE_FRIENDLY_NAME",
                    String::from_str(
                        "Call to IMFActivate::GetAllocatedString failed - PWSTR is null",
                    ),
                ),
            );
        },
    };
    let link_units = match &attributes.symbolic_link {
        StringAttribute::Wide(units) => units,
        _ => {
            return Err(
                get_property_error(
                    "MF_DEVSOURCE_ATTRIBUTE_SOURCE_TYPE_VIDCAP_SYMBOLIC_LINK",
                    String::from_str(
                        "Call to IMFActivate::GetAllocatedString failed - PWSTR is null",
                    ),
                ),
            );
        },
    };
    let name = match decode_wide(name_units) {
        Some(text) => text,
        None => {
            return Err(
                structure_error(
                    "PWSTR/String - Name",
                    String::from_str("invalid utf-16: lone surrogate found"),
                ),
            );
        },
    };
    let symlink = match decode_wide(link_units) {
        Some(text) => text,
        None => {
            return Err(
                structure_error(
                    "PWSTR/String - Symlink",
                    String::from_str("invalid utf-16: lone surrogate found"),
                ),
            );
        },
    };
    Ok(CameraInfo::new(name.as_str(), "MediaFoundation Camera", symlink.as_str(), index))
}

/// The ordinal of the device at `position` of a listing. Ordinals are
/// counted in 32 bits, as the platform counts its capture sources: a
/// position beyond that wraps around.
pub open spec fn ordinal_at(position: int) -> u32 {
    (position % 0x1_0000_0000) as u32
}

/// The descriptors of the devices with the attributes `devices`, each under
/// the ordinal of its position as index; the error of the first device that
/// has one.
pub open spec fn descriptors_of(devices: Seq<DeviceAttributes>) -> Result<
    Seq<CameraInfoView>,
    ErrorView,
>
    decreases devices.len(),
{
    if devices.len() == 0 {
        Ok(Seq::empty())
    } else {
        match descriptors_of(devices.drop_last()) {
            Err(e) => Err(e),
            Ok(before) => match descriptor_of(
                CameraIndexView::Index(ordinal_at(devices.len() - 1)),
                devices.last(),
            ) {
                Err(e) => Err(e),
                Ok(info) => Ok(before.push(info)),
            },
        }
    }
}

/// The mathematical content of each descriptor of a list.
pub open spec fn infos_view(infos: Seq<CameraInfo>) -> Seq<CameraInfoView> {
    Seq::new(infos.len(), |i: int| infos[i]@)
}

/// The mathematical content of a list of descriptors or an error.
pub open spec fn listing_view(r: Result<Vec<CameraInfo>, NokhwaError>) -> Result<
    Seq<CameraInfoView>,
    ErrorView,
> {
    match r {
        Ok(infos) => Ok(infos_view(infos@)),
        Err(e) => Err(e@),
    }
}

/// A listing that fails for the first `k` devices fails alike for all.
pub proof fn lemma_fault_stays(devices: Seq<DeviceAttributes>, k: int)
    requires
        0 <= k <= devices.len(),
        descriptors_of(devices.take(k)) is Err,
    ensures
        descriptors_of(devices) == descriptors_of(devices.take(k)),
    decreases devices.len(),
{
    if k == devices.len() {
        assert(devices.take(k) =~= devices);
    } else {
        assert(devices.drop_last().take(k) =~= devices.take(k));
        lemma_fault_stays(devices.drop_last(), k);
    }
}

/// Where all devices have a descriptor, there is one for each device, at
/// the position of the device and with the ordinal of that position as its
/// index.
pub proof fn lemma_listing_complete(devices: Seq<DeviceAttributes>)
    requires
        descriptors_of(devices) is Ok,
    ensures
        descriptors_of(devices)->Ok_0.len() == devices.len(),
        forall|i: int|
            0 <= i < devices.len() ==> Ok::<CameraInfoView, ErrorView>(
                #[trigger] descriptors_of(devices)->Ok_0[i],
            ) == descriptor_of(CameraIndexView::Index(ordinal_at(i)), devices[i]),
    decreases devices.len(),
{
    if devices.len() > 0 {
        lemma_listing_complete(devices.drop_last());
    }
}

/// Lists the descriptors of all capture devices, from the attributes of the
/// capture sources in the order in which the platform enumerated them. The
/// listing is all or nothing: one device that cannot be described fails it.
pub fn query_media_foundation_descriptors(devices: &Vec<DeviceAttributes>) -> (r: Result<
    Vec<CameraInfo>,
    NokhwaError,
>)
    ensures
        listing_view(r) == descriptors_of(devices@),
        r is Ok ==> r->Ok_0.len() == devices.len(),
{
    let mut device_list: Vec<CameraInfo> = Vec::new();
    let mut index: usize = 0;
    assert(devices@.take(0) =~= Seq::<DeviceAttributes>::empty());
    assert(infos_view(device_list@) =~= Seq::<CameraInfoView>::empty());
    while index < devices.len()
        invariant
            index <= devices.len(),
            device_list.len() == index,
            descriptors_of(devices@.take(index as int)) == Ok::<Seq<CameraInfoView>, ErrorView>(
                infos_view(device_list@),
            ),
        decreases devices.len() - index,
    {
        let ghost before = infos_view(device_list@);
        let ghost next = devices@.take(index + 1);
        assert(next.drop_last() =~= devices@.take(index as int));
        assert(next.last() == devices@[index as int]);
        let ordinal = (index as u64 % 0x1_0000_0000) as u32;
        match activate_to_descriptors(CameraIndex::Index(ordinal), &devices[index]) {
            Err(e) => {
                proof {
                    lemma_fault_stays(devices@, index + 1);
                }
                return Err(e);
            },
            Ok(info) => {
                device_list.push(info);
                assert(infos_view(device_list@) =~= before.push(info@));
            },
        }
        index = index + 1;
    }
    assert(devices@.take(index as int) =~= devices@);
    Ok(device_list)
}

/// What asking the platform for its video capture sources gave. The steps
/// are taken in the order of the variants, and each failure carries the
/// platform's diagnostic.
#[derive(Debug, Clone, PartialEq, Eq)]
pub enum SourceQuery {
    /// The attribute store for the query could not be created.
    AttributesFailed(String),
    /// Creating the attribute store succeeded and gave no store.
    AttributesMissing,
    /// The query could not be restricted to video capture sources.
    SourceTypeFailed(String),
    /// The sources could not be enumerated.
    EnumerationFailed(String),
    /// The slots of the array the platform returned: true where a slot
    /// holds a source.
    Enumerated(Vec<bool>),
}

/// The positions of the slots that hold a source, in increasing order.
pub open spec fn filled_slots(slots: Seq<bool>) -> Seq<usize>
    decreases slots.len(),
{
    if slots.len() == 0 {
        Seq::empty()
    } else if slots.last() {
        filled_slots(slots.drop_last()).push((slots.len() - 1) as usize)
    } else {
        filled_slots(slots.drop_last())
    }
}

/// The slots of the platform's array to take the capture sources from, or
/// the error of the step of the query that failed.
pub open spec fn activation_slots(query: SourceQuery) -> Result<Seq<usize>, ErrorView> {
    match query {
        SourceQuery::AttributesFailed(why) => Err(
            ErrorView::GetPropertyError { property: "IMFAttributes"@, error: why@ },
        ),
        SourceQuery::AttributesMissing => Err(
            ErrorView::SetPropertyError {
                property: "GUID MF_DEVSOURCE_ATTRIBUTE_SOURCE_TYPE"@,
                value: "MF_DEVSOURCE_ATTRIBUTE_SOURCE_TYPE_VIDCAP_GUID"@,
                error: "Call to IMFAttributes::SetGUID failed - IMFAttributes is None"@,
            },
        ),
        SourceQuery::SourceTypeFailed(why) => Err(
            ErrorView::SetPropertyError {
                property: "GUID MF_DEVSOURCE_ATTRIBUTE_SOURCE_TYPE"@,
                value: "MF_DEVSOURCE_ATTRIBUTE_SOURCE_TYPE_VIDCAP_GUID"@,
                error: why@,
            },
        ),
        SourceQuery::EnumerationFailed(why) => Err(
            ErrorView::StructureError { structure: "MFEnumDeviceSources"@, error: why@ },
        ),
        SourceQuery::Enumerated(slots) => Ok(filled_slots(slots@)),
    }
}

/// The mathematical content of a list of slots or an error.
pub open spec fn slots_view(r: Result<Vec<usize>, NokhwaError>) -> Result<Seq<usize>, ErrorView> {
    match r {
        Ok(slots) => Ok(slots@),
        Err(e) => Err(e@),
    }
}

/// The filled slots are exactly the slots that hold a source, each once and
/// in increasing order.
pub proof fn lemma_filled_slots(slots: Seq<bool>)
    requires
        slots.len() <= usize::MAX,
    ensures
        filled_slots(slots).len() <= slots.len(),
        forall|k: int|
            0 <= k < filled_slots(slots).len() ==> (#[trigger] filled_slots(slots)[k]) < slots.len()
                && slots[filled_slots(slots)[k] as int],
        forall|j: int, k: int|
            0 <= j < k < filled_slots(slots).len() ==> filled_slots(slots)[j] < filled_slots(
                slots,
            )[k],
        forall|i: int|
            0 <= i < slots.len() && #[trigger] slots[i] ==> filled_slots(slots).contains(
                i as usize,
            ),
    decreases slots.len(),
{
    if slots.len() > 0 {
        let shorter = slots.drop_last();
        lemma_filled_slots(shorter);
        let filled = filled_slots(slots);
        let before = filled_slots(shorter);
        let last = (slots.len() - 1) as usize;
        assert(filled == if slots.last() {
            before.push(last)
        } else {
            before
        });
        assert forall|k: int| 0 <= k < filled.len() implies (#[trigger] filled[k]) < slots.len()
            && slots[filled[k] as int] by {
            if k < before.len() {
                assert(before[k] < shorter.len() && shorter[before[k] as int]);
            }
        }
        assert forall|j: int, k: int| 0 <= j < k < filled.len() implies filled[j] < filled[k] by {
            assert(before[j] < shorter.len());
            if k < before.len() {
                assert(before[j] < before[k]);
            }
        }
        assert forall|i: int| 0 <= i < slots.len() && #[trigger] slots[i] implies filled.contains(
            i as usize,
        ) by {
            if i < slots.len() - 1 {
                assert(shorter[i]);
                let k = choose|k: int| 0 <= k < before.len() && before[k] == i as usize;
                assert(filled[k] == i as usize);
            } else {
                assert(filled[filled.len() - 1] == i as usize);
            }
        }
    }
}

/// Picks the capture sources out of what the platform returned: the slots
/// of its array that hold a source, in their order. The device with ordinal
/// `k` is the source in the `k`-th of these slots.
pub fn query_activate_pointers(query: &SourceQuery) -> (r: Result<Vec<usize>, NokhwaError>)
    ensures
        slots_view(r) == activation_slots(*query),
{
    match query {
        SourceQuery::AttributesFailed(why) => Err(get_property_error("IMFAttributes", why.clone())),
        SourceQuery::AttributesMissing => Err(
            set_property_error(
                "GUID MF_DEVSOURCE_ATTRIBUTE_SOURCE_TYPE",
                String::from_str("MF_DEVSOURCE_ATTRIBUTE_SOURCE_TYPE_VIDCAP_GUID"),
                String::from_str("Call to IMFAttributes::SetGUID failed - IMFAttributes is None"),
            ),
        ),
        SourceQuery::SourceTypeFailed(why) => Err(
            set_property_error(
                "GUID MF_DEVSOURCE_ATTRIBUTE_SOURCE_TYPE",
                String::from_str("MF_DEVSOURCE_ATTRIBUTE_SOURCE_TYPE_VIDCAP_GUID"),
                why.clone(),
            ),
        ),
        SourceQuery::EnumerationFailed(why) => Err(
            structure_error("MFEnumDeviceSources", why.clone()),
        ),
        SourceQuery::Enumerated(slots) => {
            let mut device_list: Vec<usize> = Vec::new();
            let mut i: usize = 0;
            assert(slots@.take(0) =~= Seq::<bool>::empty());
            while i < slots.len()
                invariant
                    i <= slots.len(),
                    device_list@ == filled_slots(slots@.take(i as int)),
                decreases slots.len() - i,
            {
                let ghost next = slots@.take(i + 1);
                assert(next.drop_last() =~= slots@.take(i as int));
                assert(next.last() == slots@[i as int]);
                if slots[i] {
                    device_list.push(i);
                }
                i = i + 1;
            }
            assert(slots@.take(i as int) =~= slots@);
            Ok(device_list)
        },
    }
}

/// Lists the capture devices where there is no capture subsystem to ask.
pub fn query_msmf() -> (r: Result<Vec<CameraInfo>, NokhwaError>)
    ensures
        r is Err,
        r->Err_0@ == ErrorView::NotImplementedError("Not on windows"@),
{
    Err(NokhwaError::NotImplementedError(String::from_str("Not on windows")))
}

} // verus!
