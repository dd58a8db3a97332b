//! The capture session: one open device, its negotiated format, and whether
//! its stream runs.
//!
//! The session does not touch the device. Each operation takes what the
//! platform answered and decides what that means for the session and for
//! the caller.

use vstd::prelude::*;
use crate::controls::{
    conclude_control_write,
    control_reading,
    control_view,
    control_written,
    describe_control,
    find_control,
    unit_view,
    ControlInterfaces,
    ControlReadout,
};
use crate::enumerate::{
    activate_to_descriptors,
    descriptor_of,
    descriptors_of,
    infos_view,
    ordinal_at,
    query_media_foundation_descriptors,
    DeviceAttributes,
};
use crate::error::{set_property_error, structure_error, ErrorView, NokhwaError};
use crate::formats::{
    active_format,
    active_media_type_format,
    compatible_formats,
    format_error,
    format_fault,
    format_view,
    formats_view,
    lemma_resolution_round_trip,
    media_type_request,
    packed_resolution,
    subtype_of,
    supported,
    unpacked_frame_rate,
    unsupported,
    ActiveMediaType,
    FormatStage,
    MediaTypeAttributes,
};
use crate::frames::{frame_step, next_frame_step, FrameEvent, FrameStep};
use crate::lifecycle::Lifecycle;
use crate::text::{index_name, index_text};
use crate::types::{
    CameraControl,
    CameraFormat,
    CameraIndex,
    CameraIndexView,
    CameraInfo,
    CameraInfoView,
    ControlValueSetter,
    ControlValueSetterView,
    KnownCameraControl,
};

verus! {

/// The position of the first descriptor whose symbolic link is `link`.
pub open spec fn first_with_link(infos: Seq<CameraInfoView>, link: Seq<char>) -> Option<int>
    decreases infos.len(),
{
    if infos.len() == 0 {
        None
    } else if infos[0].misc == link {
        Some(0)
    } else {
        match first_with_link(infos.skip(1), link) {
            Some(p) => Some(p + 1),
            None => None,
        }
    }
}

/// The first descriptor with the link `link` is at `p` exactly if the
/// descriptor at `p` has that link and none before it has; there is none
/// exactly if no descriptor has that link.
pub proof fn lemma_first_with_link(infos: Seq<CameraInfoView>, link: Seq<char>)
    ensures
        match first_with_link(infos, link) {
            Some(p) => 0 <= p < infos.len() && infos[p].misc == link && forall|j: int|
                0 <= j < p ==> (#[trigger] infos[j]).misc != link,
            None => forall|j: int| 0 <= j < infos.len() ==> (#[trigger] infos[j]).misc != link,
        },
    decreases infos.len(),
{
    if infos.len() > 0 && infos[0].misc != link {
        let rest = infos.skip(1);
        lemma_first_with_link(rest, link);
        match first_with_link(rest, link) {
            Some(p) => {
                assert forall|j: int| 0 <= j < p + 1 implies (#[trigger] infos[j]).misc != link by {
                    if j > 0 {
                        assert(rest[j - 1] == infos[j]);
                    }
                }
            },
            None => {
                assert forall|j: int| 0 <= j < infos.len() implies (#[trigger] infos[j]).misc
                    != link by {
                    if j > 0 {
                        assert(rest[j - 1] == infos[j]);
                    }
                }
            },
        }
    }
}

/// The ordinal of the device that `index` names. An ordinal names itself. A
/// text names the first device, among those with the attributes `devices`,
/// whose symbolic link it is, by the ordinal of its position; that no
/// device has this link is an error, and so is a device that cannot be
/// described.
pub open spec fn ordinal_of(index: CameraIndexView, devices: Seq<DeviceAttributes>) -> Result<
    u32,
    ErrorView,
> {
    match index {
        CameraIndexView::Index(i) => Ok(i),
        CameraIndexView::String(link) => match descriptors_of(devices) {
            Err(e) => Err(e),
            Ok(infos) => match first_with_link(infos, link) {
                Some(p) => Ok(ordinal_at(p)),
                None => Err(ErrorView::OpenDeviceError(link, "Not Found"@)),
            },
        },
    }
}

/// The mathematical content of an ordinal or an error.
pub open spec fn ordinal_view(r: Result<u32, NokhwaError>) -> Result<u32, ErrorView> {
    match r {
        Ok(i) => Ok(i),
        Err(e) => Err(e@),
    }
}

/// Finds the ordinal of the device that `index` names. `devices` holds the
/// attributes of all capture sources as they are enumerated now; it is only
/// looked at where the index is a text.
pub fn device_ordinal(index: &CameraIndex, devices: &Vec<DeviceAttributes>) -> (r: Result<
    u32,
    NokhwaError,
>)
    ensures
        ordinal_view(r) == ordinal_of(index@, devices@),
{
    match index {
        CameraIndex::Index(i) => Ok(*i),
        CameraIndex::String(link) => {
            let infos = query_media_foundation_descriptors(devices)?;
            let ghost views = infos_view(infos@);
            let mut i: usize = 0;
            assert(views.skip(0) =~= views);
            while i < infos.len()
                invariant
                    i <= infos.len(),
                    views == infos_view(infos@),
                    index@ == CameraIndexView::String(link@),
                    descriptors_of(devices@) == Ok::<Seq<CameraInfoView>, ErrorView>(views),
                    first_with_link(views, link@) == match first_with_link(
                        views.skip(i as int),
                        link@,
                    ) {
                        Some(p) => Some(p + i),
                        None => None,
                    },
                decreases infos.len() - i,
            {
                let ghost rest = views.skip(i as int);
                assert(rest[0] == infos@[i as int]@);
                assert(rest.skip(1) =~= views.skip(i + 1));
                if infos[i].misc == *link {
                    assert(rest[0].misc == link@);
                    assert(first_with_link(rest, link@) == Some(0int));
                    return Ok((i as u64 % 0x1_0000_0000) as u32);
                }
                assert(rest[0].misc != link@);
                i = i + 1;
            }
            Err(NokhwaError::OpenDeviceError(link.clone(), String::from_str("Not Found")))
        },
    }
}

/// Whether the device with ordinal `ordinal`, asked for as `index`, is
/// among the `available` capture sources; the error carries the index as it
/// was asked for.
pub open spec fn claimed(index: CameraIndexView, ordinal: u32, available: usize) -> Result<
    (),
    ErrorView,
> {
    if (ordinal as int) < (available as int) {
        Ok(())
    } else {
        Err(ErrorView::OpenDeviceError(index_name(index), "No device"@))
    }
}

/// Checks that the device with ordinal `ordinal`, asked for as `index`, is
/// among `available` capture sources.
pub fn claim_device(index: &CameraIndex, ordinal: u32, available: usize) -> (r: Result<
    (),
    NokhwaError,
>)
    ensures
        unit_view(r) == claimed(index@, ordinal, available),
{
    if (ordinal as usize) < available {
        Ok(())
    } else {
        Err(NokhwaError::OpenDeviceError(index_text(index), String::from_str("No device")))
    }
}

/// What came of building the reader for an activated device. The steps are
/// taken in the order of the variants, and each failure carries the
/// platform's diagnostic.
#[derive(Debug, Clone, PartialEq, Eq)]
pub enum ReaderSetup {
    /// The attribute store for the reader could not be created.
    AttributesFailed(String),
    /// Creating the attribute store succeeded and gave no store.
    AttributesMissing,
    /// Format converters could not be switched off.
    ConvertersFailed(String),
    /// The reader could not be created on the media source.
    ReaderFailed(String),
    /// The reader stands.
    Ready,
}

/// What came of opening the claimed device.
#[derive(Debug, Clone, PartialEq, Eq)]
pub enum OpenOutcome {
    /// The capture source could not be activated.
    ActivationFailed(String),
    /// The capture source was activated; these are its attributes and what
    /// came of building its reader.
    Activated { attributes: DeviceAttributes, reader: ReaderSetup },
}

/// The error of a reader that does not stand.
pub open spec fn reader_fault(reader: ReaderSetup) -> Option<ErrorView> {
    match reader {
        ReaderSetup::AttributesFailed(why) => Some(
            ErrorView::StructureError { structure: "MFCreateAttributes"@, error: why@ },
        ),
        ReaderSetup::AttributesMissing => Some(
            ErrorView::StructureError {
                structure: "MFCreateAttributes"@,
                error: "Attributee Alloc Failure"@,
            },
        ),
        ReaderSetup::ConvertersFailed(why) => Some(
            ErrorView::SetPropertyError {
                property: "MF_READWRITE_DISABLE_CONVERTERS"@,
                value: "1"@,
                error: why@,
            },
        ),
        ReaderSetup::ReaderFailed(why) => Some(
            ErrorView::StructureError {
                structure: "MFCreateSourceReaderFromMediaSource"@,
                error: why@,
            },
        ),
        ReaderSetup::Ready => None,
    }
}

/// One open capture device.
#[derive(Debug, PartialEq, Eq)]
pub struct MediaFoundationDevice {
    is_open: bool,
    device_specifier: CameraInfo,
    device_format: CameraFormat,
}

/// The mathematical content of a [`MediaFoundationDevice`].
pub struct DeviceView {
    /// The descriptor of the device.
    pub info: CameraInfoView,
    /// The format the device is known to be set to.
    pub format: CameraFormat,
    /// Whether the stream of the device runs.
    pub streaming: bool,
}

impl View for MediaFoundationDevice {
    type V = DeviceView;

    closed spec fn view(&self) -> DeviceView {
        DeviceView {
            info: self.device_specifier@,
            format: self.device_format,
            streaming: self.is_open,
        }
    }
}

/// The session that opening the device named by `index` gives. The causes
/// of failure are tried in this order: the index names no device; the
/// device is not among the `available` capture sources; the source could
/// not be activated; the activated source cannot be described; its reader
/// does not stand; there is no `room` to count one more open device. An
/// error of opening carries the index as it was asked for. A new session
/// does not stream and holds the initial format.
pub open spec fn opened_device(
    index: CameraIndexView,
    devices: Seq<DeviceAttributes>,
    available: usize,
    outcome: OpenOutcome,
    room: bool,
) -> Result<DeviceView, ErrorView> {
    match ordinal_of(index, devices) {
        Err(e) => Err(e),
        Ok(ordinal) => match claimed(index, ordinal, available) {
            Err(e) => Err(e),
            Ok(_) => match outcome {
                OpenOutcome::ActivationFailed(why) => Err(
                    ErrorView::OpenDeviceError(index_name(index), why@),
                ),
                OpenOutcome::Activated { attributes, reader } => match descriptor_of(
                    CameraIndexView::Index(ordinal),
                    attributes,
                ) {
                    Err(e) => Err(e),
                    Ok(info) => match reader_fault(reader) {
                        Some(e) => Err(e),
                        None => if room {
                            Ok(
                                DeviceView {
                                    info,
                                    format: CameraFormat::initial(),
                                    streaming: false,
                                },
                            )
                        } else {
                            Err(
                                ErrorView::OpenDeviceError(
                                    index_name(index),
                                    "Too many open devices"@,
                                ),
                            )
                        },
                    },
                },
            },
        },
    }
}

/// Every session that was opened and is closed again leaves the state of
/// the subsystem as it was before the session was opened, whatever was done
/// with the session in between: no operation of a session but these two
/// takes the state of the subsystem.
pub proof fn lemma_session_balanced(
    before: Lifecycle,
    index: CameraIndexView,
    devices: Seq<DeviceAttributes>,
    available: usize,
    outcome: OpenOutcome,
)
    requires
        opened_device(index, devices, available, outcome, before.has_room()) is Ok,
    ensures
        before.after_open().open_sessions() == before.open_sessions() + 1,
        before.after_open().after_close() == before,
        before.after_open().after_close().open_sessions() == before.open_sessions(),
{
    before.lemma_counting();
    before.lemma_open_then_close();
}

/// The mathematical content of a session or an error.
pub open spec fn device_view(r: Result<MediaFoundationDevice, NokhwaError>) -> Result<
    DeviceView,
    ErrorView,
> {
    match r {
        Ok(device) => Ok(device@),
        Err(e) => Err(e@),
    }
}

/// The diagnostic for a device that is set to something else than it was
/// asked for.
pub open spec fn not_taken() -> Seq<char> {
    "The device reports another value"@
}

/// The error for a device that took a request for `format` and then
/// reports `observed`: none where the two agree in pixel encoding and
/// resolution; otherwise the error names the subtype, or else the frame
/// size, with the value that was asked for. The frame rate is free to
/// differ.
pub open spec fn departure(format: CameraFormat, observed: CameraFormat) -> Option<ErrorView> {
    if observed.format != format.format {
        Some(format_fault(format, FormatStage::Subtype, not_taken()))
    } else if observed.resolution != format.resolution {
        Some(format_fault(format, FormatStage::FrameSize, not_taken()))
    } else {
        None
    }
}

/// What the session holds after the platform answered `outcome` to the
/// request for `format`: a format that the backend does not negotiate and
/// a request that failed change nothing; a request
/// that was applied leaves the format that the active media type stands
/// for, whether or not it is what was asked for, and the requested format
/// if the active type cannot be read.
pub open spec fn negotiated(before: CameraFormat, format: CameraFormat, outcome: FormatOutcome) -> CameraFormat {
    if !supported(format.format) {
        before
    } else {
        match outcome {
            FormatOutcome::Failed { .. } => before,
            FormatOutcome::Applied(active) => match active_format(active) {
                Ok(observed) => observed,
                Err(_) => format,
            },
        }
    }
}

/// What setting the format `format` returns after the platform answered
/// `outcome`: the error of an encoding that the backend does not negotiate,
/// whatever the outcome; the error of the step that failed, the error of
/// reading the
/// active media type back, the error of a device that reports another
/// pixel encoding or resolution than was asked for, or success.
pub open spec fn format_set(format: CameraFormat, outcome: FormatOutcome) -> Result<(), ErrorView> {
    if !supported(format.format) {
        Err(format_fault(format, FormatStage::Subtype, unsupported()))
    } else {
        match outcome {
            FormatOutcome::Failed { stage, error } => Err(format_fault(format, stage, error@)),
            FormatOutcome::Applied(active) => match active_format(active) {
                Err(e) => Err(e),
                Ok(observed) => match departure(format, observed) {
                    Some(e) => Err(e),
                    None => Ok(()),
                },
            },
        }
    }
}

/// Where setting a format succeeds, the device took the request, and the
/// session holds the format that its active media type stands for. That
/// format has the pixel encoding and the resolution that were asked for;
/// only its frame rate may be another.
pub proof fn lemma_format_observed(before: CameraFormat, format: CameraFormat, outcome: FormatOutcome)
    requires
        format_set(format, outcome) is Ok,
    ensures
        outcome is Applied,
        active_format(outcome->Applied_0) == Ok::<CameraFormat, ErrorView>(
            negotiated(before, format, outcome),
        ),
        negotiated(before, format, outcome).resolution == format.resolution,
        negotiated(before, format, outcome).format == format.format,
{
}

/// Where the device reports the subtype and the frame size it was asked
/// for, setting the format succeeds, whatever frame rate the device
/// reports, and the session holds the rate that the device reports.
pub proof fn lemma_format_rate_is_free(before: CameraFormat, format: CameraFormat, frame_rate: u64)
    requires
        supported(format.format),
    ensures
        ({
            let outcome = FormatOutcome::Applied(
                ActiveMediaType::Attributes {
                    frame_size: Ok(packed_resolution(format.resolution)),
                    frame_rate: Ok(frame_rate),
                    subtype: Ok(subtype_of(format.format)->Some_0),
                },
            );
            &&& format_set(format, outcome) is Ok
            &&& negotiated(before, format, outcome).resolution == format.resolution
            &&& negotiated(before, format, outcome).format == format.format
            &&& negotiated(before, format, outcome).frame_rate == unpacked_frame_rate(frame_rate)
        }),
{
    lemma_resolution_round_trip(format.resolution);
}

/// What setting `control` to `value` returns. The control is read first,
/// and a read that failed fails the setting with its error; then the value
/// is looked at, and only then the device: what follows the read is told by
/// [`control_written`].
pub open spec fn control_set(
    control: KnownCameraControl,
    value: ControlValueSetterView,
    current: Result<CameraControl, NokhwaError>,
    interfaces: ControlInterfaces,
    written: Result<(), String>,
) -> Result<(), ErrorView> {
    match current {
        Err(e) => Err(e@),
        Ok(read) => control_written(control, value, read@, interfaces, written),
    }
}

/// What the platform answered to a request for a format.
#[derive(Debug, PartialEq, Eq)]
pub enum FormatOutcome {
    /// The step `stage` failed with the diagnostic `error`.
    Failed { stage: FormatStage, error: String },
    /// The device took the request; this is the media type that is active
    /// on it now.
    Applied(ActiveMediaType),
}

impl MediaFoundationDevice {
    /// Opens a session on the device that `index` names.
    ///
    /// `devices` holds the attributes of all capture sources as they are
    /// enumerated now, and is only looked at where the index is a text;
    /// `available` is the number of capture sources, and `outcome` what came
    /// of opening the one that [`device_ordinal`] and [`claim_device`] let
    /// through. The session counts as open in `lifecycle` exactly if it is
    /// returned.
    pub fn new(
        index: CameraIndex,
        lifecycle: &mut Lifecycle,
        devices: &Vec<DeviceAttributes>,
        available: usize,
        outcome: OpenOutcome,
    ) -> (r: Result<MediaFoundationDevice, NokhwaError>)
        ensures
            device_view(r) == opened_device(
                index@,
                devices@,
                available,
                outcome,
                old(lifecycle).has_room(),
            ),
            r is Ok ==> *final(lifecycle) == old(lifecycle).after_open(),
            r is Ok ==> final(lifecycle).open_sessions() == old(lifecycle).open_sessions() + 1,
            r is Err ==> *final(lifecycle) == *old(lifecycle),
            final(lifecycle).ready() == old(lifecycle).ready(),
    {
        let ordinal = device_ordinal(&index, devices)?;
        claim_device(&index, ordinal, available)?;
        let (attributes, reader) = match outcome {
            OpenOutcome::ActivationFailed(why) => {
                return Err(NokhwaError::OpenDeviceError(index_text(&index), why));
            },
            OpenOutcome::Activated { attributes, reader } => (attributes, reader),
        };
        let device_descriptor = activate_to_descriptors(CameraIndex::Index(ordinal), &attributes)?;
        match reader {
            ReaderSetup::AttributesFailed(why) => {
                return Err(structure_error("MFCreateAttributes", why));
            },
            ReaderSetup::AttributesMissing => {
                return Err(
                    structure_error(
                        "MFCreateAttributes",
                        String::from_str("Attributee Alloc Failure"),
                    ),
                );
            },
            ReaderSetup::ConvertersFailed(why) => {
                return Err(
                    set_property_error(
                        "MF_READWRITE_DISABLE_CONVERTERS",
                        String::from_str("1"),
                        why,
                    ),
                );
            },
            ReaderSetup::ReaderFailed(why) => {
                return Err(structure_error("MFCreateSourceReaderFromMediaSource", why));
            },
            ReaderSetup::Ready => {},
        }
        if !lifecycle.can_open() {
            return Err(
                NokhwaError::OpenDeviceError(
                    index_text(&index),
                    String::from_str("Too many open devices"),
                ),
            );
        }
        lifecycle.session_opened();
        Ok(
            MediaFoundationDevice {
                is_open: false,
                device_specifier: device_descriptor,
                device_format: CameraFormat::default(),
            },
        )
    }

    /// The index under which the device was opened.
    pub fn index(&self) -> (index: &CameraIndex)
        ensures
            index@ == self@.info.index,
    {
        self.device_specifier.index()
    }

    /// The name the device shows to people.
    pub fn name(&self) -> (name: String)
        ensures
            name@ == self@.info.human_name,
    {
        self.device_specifier.human_name()
    }

    /// The symbolic link of the device.
    pub fn symlink(&self) -> (link: String)
        ensures
            link@ == self@.info.misc,
    {
        self.device_specifier.misc()
    }

    /// Lists the formats the device can deliver, from the attributes of its
    /// native media types in the order of their index.
    pub fn compatible_format_list(&mut self, types: &Vec<MediaTypeAttributes>) -> (r: Result<
        Vec<CameraFormat>,
        NokhwaError,
    >)
        ensures
            formats_view(r) == compatible_formats(types@),
            *final(self) == *old(self),
    {
        crate::formats::compatible_format_list(types)
    }

    /// Reads a control of the device, from whether the native interfaces
    /// could be had and what the native control that [`find_control`] picks
    /// reported.
    pub fn control(
        &self,
        control: KnownCameraControl,
        interfaces: &ControlInterfaces,
        readout: &ControlReadout,
    ) -> (r: Result<CameraControl, NokhwaError>)
        ensures
            control_view(r) == control_reading(control, *interfaces, *readout),
    {
        let control_id = find_control(control, interfaces)?;
        describe_control(control_id, control, readout)
    }

    /// Sets a control of the device to `value`.
    ///
    /// `current` is what reading the control just before gave, `interfaces`
    /// says whether the native interfaces could be had again, and `written`
    /// is what the device answered to the write that
    /// [`plan_control_write`](crate::controls::plan_control_write) planned.
    /// Where no write was planned, `written` is not looked at.
    pub fn set_control(
        &mut self,
        control: KnownCameraControl,
        value: ControlValueSetter,
        current: Result<CameraControl, NokhwaError>,
        interfaces: &ControlInterfaces,
        written: Result<(), String>,
    ) -> (r: Result<(), NokhwaError>)
        ensures
            unit_view(r) == control_set(control, value@, current, *interfaces, written),
            !(value@ is Integer || value@ is Boolean) ==> r is Err,
            current is Ok && !(value@ is Integer || value@ is Boolean) ==> r->Err_0@
                is StructureError,
            *final(self) == *old(self),
    {
        let current_value = current?;
        conclude_control_write(control, &value, &current_value, interfaces, written)
    }

    /// Takes the format of the session from the media type that is active
    /// on the device. Where the active type cannot be read the session
    /// keeps the format it has.
    pub fn format_refreshed(&mut self, active: &ActiveMediaType) -> (r: Result<
        CameraFormat,
        NokhwaError,
    >)
        ensures
            format_view(r) == active_format(*active),
            final(self)@.format == match active_format(*active) {
                Ok(observed) => observed,
                Err(_) => old(self)@.format,
            },
            final(self)@.info == old(self)@.info,
            final(self)@.streaming == old(self)@.streaming,
    {
        let cfmt = active_media_type_format(active)?;
        self.device_format = cfmt;
        Ok(cfmt)
    }

    /// The format the session holds.
    pub fn format(&self) -> (format: CameraFormat)
        ensures
            format == self@.format,
    {
        self.device_format
    }

    /// Concludes a request for `format` from what the platform answered to
    /// the media type that
    /// [`media_type_request`](crate::formats::media_type_request) built. The
    /// session trusts what the device reports, not what was asked for: it
    /// holds the reported format even where that departs from the request
    /// in pixel encoding or resolution, which is then an error.
    pub fn set_format(&mut self, format: CameraFormat, outcome: FormatOutcome) -> (r: Result<
        (),
        NokhwaError,
    >)
        ensures
            unit_view(r) == format_set(format, outcome),
            final(self)@.format == negotiated(old(self)@.format, format, outcome),
            r is Ok ==> final(self)@.format.format == format.format,
            r is Ok ==> final(self)@.format.resolution == format.resolution,
            final(self)@.info == old(self)@.info,
            final(self)@.streaming == old(self)@.streaming,
    {
        media_type_request(format)?;
        match outcome {
            FormatOutcome::Failed { stage, error } => Err(format_error(format, stage, error)),
            FormatOutcome::Applied(active) => {
                self.device_format = format;
                let observed = self.format_refreshed(&active)?;
                if observed.format != format.format {
                    Err(
                        format_error(
                            format,
                            FormatStage::Subtype,
                            String::from_str("The device reports another value"),
                        ),
                    )
                } else if observed.resolution != format.resolution {
                    Err(
                        format_error(
                            format,
                            FormatStage::FrameSize,
                            String::from_str("The device reports another value"),
                        ),
                    )
                } else {
                    Ok(())
                }
            },
        }
    }

    /// Whether the stream of the device runs.
    pub fn is_stream_open(&self) -> (open: bool)
        ensures
            open == self@.streaming,
    {
        self.is_open
    }

    /// Starts the stream, if the platform selected the first video stream
    /// for reading: `selected` is its answer. A stream that was stopped can
    /// be started again.
    pub fn start_stream(&mut self, selected: Result<(), String>) -> (r: Result<(), NokhwaError>)
        ensures
            match selected {
                Ok(_) => r is Ok && final(self)@.streaming,
                Err(why) => {
                    &&& r is Err
                    &&& r->Err_0@ == ErrorView::OpenStreamError(why@)
                    &&& final(self)@.streaming == old(self)@.streaming
                },
            },
            final(self)@.info == old(self)@.info,
            final(self)@.format == old(self)@.format,
    {
        match selected {
            Ok(_) => {
                self.is_open = true;
                Ok(())
            },
            Err(why) => Err(NokhwaError::OpenStreamError(why)),
        }
    }

    /// Takes one step of reading a frame from the device.
    pub fn raw_bytes(&mut self, event: FrameEvent) -> (step: FrameStep)
        ensures
            step@ == frame_step(event),
            step matches FrameStep::Finished(Ok(bytes)) ==> bytes.len() > 0,
            *final(self) == *old(self),
    {
        next_frame_step(event)
    }

    /// Stops the stream. The device stays open.
    pub fn stop_stream(&mut self)
        ensures
            !final(self)@.streaming,
            final(self)@.info == old(self)@.info,
            final(self)@.format == old(self)@.format,
    {
        self.is_open = false;
    }

    /// Ends the session: it no longer counts as open in `lifecycle`. The
    /// answer says whether it was the last one, that is, whether the
    /// subsystem is to be shut down now.
    pub fn close(self, lifecycle: &mut Lifecycle) -> (last: bool)
        ensures
            *final(lifecycle) == old(lifecycle).after_close(),
            final(lifecycle).open_sessions() == if old(lifecycle).open_sessions() > 0 {
                old(lifecycle).open_sessions() - 1
            } else {
                0
            },
            final(lifecycle).ready() == old(lifecycle).ready(),
            last == (final(lifecycle).open_sessions() == 0),
    {
        lifecycle.session_closed()
    }
}

} // verus!
