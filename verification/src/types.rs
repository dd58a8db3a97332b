//! The portable device model: descriptors, formats and controls.

use vstd::prelude::*;

verus! {

/// How a caller names a capture device: by its ordinal among the enumerated
/// devices, or by a text that identifies it.
#[derive(Debug, Clone, PartialEq, Eq, Hash)]
pub enum CameraIndex {
    Index(u32),
    String(String),
}

/// The mathematical content of a [`CameraIndex`].
pub enum CameraIndexView {
    Index(u32),
    String(Seq<char>),
}

impl View for CameraIndex {
    type V = CameraIndexView;

    open spec fn view(&self) -> CameraIndexView {
        match *self {
            CameraIndex::Index(i) => CameraIndexView::Index(i),
            CameraIndex::String(s) => CameraIndexView::String(s@),
        }
    }
}

impl CameraIndex {
    /// A copy of this index.
    pub fn duplicate(&self) -> (copy: CameraIndex)
        ensures
            copy@ == self@,
    {
        match self {
            CameraIndex::Index(i) => CameraIndex::Index(*i),
            CameraIndex::String(s) => CameraIndex::String(s.clone()),
        }
    }

    /// Whether this index is an ordinal.
    pub fn is_index(&self) -> (b: bool)
        ensures
            b == (self@ is Index),
    {
        match self {
            CameraIndex::Index(_) => true,
            CameraIndex::String(_) => false,
        }
    }

    /// Whether this index is a text.
    pub fn is_string(&self) -> (b: bool)
        ensures
            b == (self@ is String),
    {
        !self.is_index()
    }
}

/// What enumeration reports about one capture device. The descriptor is
/// immutable; `misc` holds the symbolic link by which the platform finds the
/// same device again.
#[derive(Debug, Clone, PartialEq, Eq, Hash)]
pub struct CameraInfo {
    pub human_name: String,
    pub description: String,
    pub misc: String,
    pub index: CameraIndex,
}

/// The mathematical content of a [`CameraInfo`].
pub struct CameraInfoView {
    pub human_name: Seq<char>,
    pub description: Seq<char>,
    pub misc: Seq<char>,
    pub index: CameraIndexView,
}

impl View for CameraInfo {
    type V = CameraInfoView;

    open spec fn view(&self) -> CameraInfoView {
        CameraInfoView {
            human_name: self.human_name@,
            description: self.description@,
            misc: self.misc@,
            index: self.index@,
        }
    }
}

impl CameraInfo {
    pub fn new(human_name: &str, description: &str, misc: &str, index: CameraIndex) -> (info:
        CameraInfo)
        ensures
            info@ == (CameraInfoView {
                human_name: human_name@,
                description: description@,
                misc: misc@,
                index: index@,
            }),
    {
        CameraInfo {
            human_name: String::from_str(human_name),
            description: String::from_str(description),
            misc: String::from_str(misc),
            index,
        }
    }

    /// The name the device shows to people.
    pub fn human_name(&self) -> (name: String)
        ensures
            name@ == self@.human_name,
    {
        self.human_name.clone()
    }

    /// What kind of device this is.
    pub fn description(&self) -> (description: &str)
        ensures
            description@ == self@.description,
    {
        self.description.as_str()
    }

    /// The symbolic link of the device.
    pub fn misc(&self) -> (misc: String)
        ensures
            misc@ == self@.misc,
    {
        self.misc.clone()
    }

    /// The index the device was enumerated under.
    pub fn index(&self) -> (index: &CameraIndex)
        ensures
            index@ == self@.index,
    {
        &self.index
    }
}

/// The width and height of a frame, in pixels.
#[derive(Debug, Clone, Copy, PartialEq, Eq, Hash, Structural)]
pub struct Resolution {
    pub width_x: u32,
    pub height_y: u32,
}

impl Resolution {
    pub fn new(x: u32, y: u32) -> (r: Resolution)
        ensures
            r == (Resolution { width_x: x, height_y: y }),
    {
        Resolution { width_x: x, height_y: y }
    }

    pub fn width(self) -> (w: u32)
        ensures
            w == self.width_x,
    {
        self.width_x
    }

    pub fn height(self) -> (h: u32)
        ensures
            h == self.height_y,
    {
        self.height_y
    }
}

/// The pixel encodings of the device model. A backend negotiates some of
/// them.
#[derive(Debug, Clone, Copy, PartialEq, Eq, Hash, Structural)]
pub enum FrameFormat {
    MJPEG,
    YUYV,
    NV12,
    GRAY,
    RAWRGB,
    RAWBGR,
}

/// A capture format: resolution, pixel encoding and frames per second. A
/// frame rate of zero means that the rate is not known.
#[derive(Debug, Clone, Copy, PartialEq, Eq, Hash, Structural)]
pub struct CameraFormat {
    pub resolution: Resolution,
    pub format: FrameFormat,
    pub frame_rate: u32,
}

impl CameraFormat {
    pub fn new(resolution: Resolution, format: FrameFormat, frame_rate: u32) -> (f: CameraFormat)
        ensures
            f == (CameraFormat { resolution, format, frame_rate }),
    {
        CameraFormat { resolution, format, frame_rate }
    }

    /// The format a session holds before any format was negotiated:
    /// 640 by 480 pixels, MJPEG, 30 frames per second.
    pub open spec fn initial() -> CameraFormat {
        CameraFormat {
            resolution: Resolution { width_x: 640, height_y: 480 },
            format: FrameFormat::MJPEG,
            frame_rate: 30,
        }
    }

    pub fn resolution(&self) -> (r: Resolution)
        ensures
            r == self.resolution,
    {
        self.resolution
    }

    pub fn format(&self) -> (f: FrameFormat)
        ensures
            f == self.format,
    {
        self.format
    }

    pub fn frame_rate(&self) -> (rate: u32)
        ensures
            rate == self.frame_rate,
    {
        self.frame_rate
    }
}

impl Default for CameraFormat {
    fn default() -> (f: CameraFormat)
        ensures
            f == CameraFormat::initial(),
    {
        CameraFormat {
            resolution: Resolution { width_x: 640, height_y: 480 },
            format: FrameFormat::MJPEG,
            frame_rate: 30,
        }
    }
}

/// The camera controls known to the device model. `Other` carries the
/// platform's own number for a control that has no name here.
#[derive(Debug, Clone, Copy, PartialEq, Eq, Hash, Structural)]
pub enum KnownCameraControl {
    Brightness,
    Contrast,
    Hue,
    Saturation,
    Sharpness,
    Gamma,
    WhiteBalance,
    BacklightComp,
    Gain,
    Pan,
    Tilt,
    Zoom,
    Exposure,
    Iris,
    Focus,
    Other(u128),
}

/// How a control is operated.
#[derive(Debug, Clone, Copy, PartialEq, Eq, Hash, Structural)]
pub enum KnownCameraControlFlag {
    Automatic,
    Manual,
    Continuous,
    ReadOnly,
    WriteOnly,
    Volatile,
    Disabled,
}

/// The value of a control together with what bounds it.
#[derive(Debug, Clone, Copy, PartialEq, Eq, Hash, Structural)]
#[allow(inconsistent_fields)]
pub enum ControlValueDescription {
    Integer { value: i64, default: i64, step: i64 },
    IntegerRange { min: i64, max: i64, value: i64, step: i64, default: i64 },
    Boolean { value: bool, default: bool },
}

/// A control as it was read from the device.
#[derive(Debug, Clone, PartialEq, Eq)]
pub struct CameraControl {
    pub control: KnownCameraControl,
    pub name: String,
    pub description: ControlValueDescription,
    pub flag: Vec<KnownCameraControlFlag>,
    pub active: bool,
}

/// The mathematical content of a [`CameraControl`].
pub struct CameraControlView {
    pub control: KnownCameraControl,
    pub name: Seq<char>,
    pub description: ControlValueDescription,
    pub flag: Seq<KnownCameraControlFlag>,
    pub active: bool,
}

impl View for CameraControl {
    type V = CameraControlView;

    open spec fn view(&self) -> CameraControlView {
        CameraControlView {
            control: self.control,
            name: self.name@,
            description: self.description,
            flag: self.flag@,
            active: self.active,
        }
    }
}

impl CameraControl {
    pub fn new(
        control: KnownCameraControl,
        name: String,
        description: ControlValueDescription,
        flag: Vec<KnownCameraControlFlag>,
        active: bool,
    ) -> (c: CameraControl)
        ensures
            c@ == (CameraControlView {
                control,
                name: name@,
                description,
                flag: flag@,
                active,
            }),
    {
        CameraControl { control, name, description, flag, active }
    }

    pub fn name(&self) -> (name: &str)
        ensures
            name@ == self@.name,
    {
        self.name.as_str()
    }

    pub fn description(&self) -> (d: ControlValueDescription)
        ensures
            d == self@.description,
    {
        self.description
    }

    pub fn control(&self) -> (c: KnownCameraControl)
        ensures
            c == self@.control,
    {
        self.control
    }

    pub fn flag(&self) -> (flag: &Vec<KnownCameraControlFlag>)
        ensures
            flag@ == self@.flag,
    {
        &self.flag
    }

    pub fn active(&self) -> (a: bool)
        ensures
            a == self@.active,
    {
        self.active
    }
}

/// A value a caller asks a control to take. Only whole numbers and truth
/// values can be written to the hardware; a value of any other kind is kept
/// as the text it is shown as.
#[derive(Debug, Clone, PartialEq, Eq)]
pub enum ControlValueSetter {
    Integer(i64),
    Boolean(bool),
    Other(String),
}

/// The mathematical content of a [`ControlValueSetter`].
pub enum ControlValueSetterView {
    Integer(i64),
    Boolean(bool),
    Other(Seq<char>),
}

impl View for ControlValueSetter {
    type V = ControlValueSetterView;

    open spec fn view(&self) -> ControlValueSetterView {
        match *self {
            ControlValueSetter::Integer(i) => ControlValueSetterView::Integer(i),
            ControlValueSetter::Boolean(b) => ControlValueSetterView::Boolean(b),
            ControlValueSetter::Other(text) => ControlValueSetterView::Other(text@),
        }
    }
}

} // verus!
