//! Value types shared by the coordinator and its clients.

use vstd::prelude::*;
use crate::text::{decimal, push_decimal};

verus! {

/// Identifies a capture device by its address.
#[derive(Debug)]
pub struct Device {
    pub uri: String,
}

impl View for Device {
    type V = Seq<char>;

    open spec fn view(&self) -> Seq<char> {
        self.uri@
    }
}

impl Clone for Device {
    fn clone(&self) -> (r: Device)
        ensures
            r@ == self@,
    {
        Device { uri: self.uri.clone() }
    }
}

impl PartialEq for Device {
    fn eq(&self, other: &Device) -> (r: bool) {
        self.uri == other.uri
    }
}

impl Eq for Device {

}

impl vstd::std_specs::cmp::PartialEqSpecImpl for Device {
    open spec fn obeys_eq_spec() -> bool {
        true
    }

    open spec fn eq_spec(&self, other: &Device) -> bool {
        self.uri@ == other.uri@
    }
}

impl Default for Device {
    /// The device with the empty address.
    fn default() -> (r: Device)
        ensures
            r@ == Seq::<char>::empty(),
    {
        Device { uri: String::new() }
    }
}

impl Device {
    /// The device with the given address.
    pub fn new(uri: String) -> (r: Device)
        ensures
            r.uri == uri,
            r@ == uri@,
    {
        Device { uri }
    }

    /// The device whose address is the given text.
    pub fn from_uri(uri: &str) -> (r: Device)
        ensures
            r@ == uri@,
    {
        Device { uri: uri.to_owned() }
    }

    /// The address, as text for a list of devices.
    pub fn label(&self) -> (r: String)
        ensures
            r@ == self@,
    {
        self.uri.clone()
    }
}

/// Byte layout of one pixel of a frame; the number is the size of a whole
/// pixel in bits.
#[derive(Clone, Copy, Debug, PartialEq, Eq, Structural)]
pub enum PixelEncoding {
    /// Depth samples.
    Depth(u32),
    /// Grey levels.
    Gray(u32),
    /// Blue, green, red.
    Bgr(u32),
    /// Blue, green, red, alpha.
    Bgra(u32),
    /// Red, green, blue.
    Rgb(u32),
    /// Red, green, blue, alpha.
    Rgba(u32),
    /// A layout known only by its four character code.
    Custom(u32),
}

/// The layout that the display takes: packed 32-bit BGRA.
pub open spec fn display_encoding() -> PixelEncoding {
    PixelEncoding::Bgra(32)
}

/// Gives [`display_encoding`] to executable code.
pub fn required_encoding() -> (r: PixelEncoding)
    ensures
        r == display_encoding(),
{
    PixelEncoding::Bgra(32)
}

/// Dimensions and pixel layout of the frames a device produces.
#[derive(Clone, Copy, Debug, PartialEq, Eq, Structural)]
pub struct Format {
    pub width: u32,
    pub height: u32,
    pub encoding: PixelEncoding,
}

impl Default for Format {
    /// No pixels, in a layout without a name.
    fn default() -> (r: Format)
        ensures
            r == (Format { width: 0, height: 0, encoding: PixelEncoding::Custom(0) }),
    {
        Format { width: 0, height: 0, encoding: PixelEncoding::Custom(0) }
    }
}

impl Format {
    /// The format with these dimensions and this layout.
    pub fn new(width: u32, height: u32, encoding: PixelEncoding) -> (r: Format)
        ensures
            r == (Format { width, height, encoding }),
    {
        Format { width, height, encoding }
    }

    /// This format with the layout replaced by the one the display takes.
    pub open spec fn for_display(self) -> Format {
        Format { width: self.width, height: self.height, encoding: display_encoding() }
    }

    /// Whether frames of this format can go to the display as they are.
    pub open spec fn displayable(self) -> bool {
        self.encoding == display_encoding()
    }

    /// Computes [`Format::for_display`].
    pub fn forced_for_display(self) -> (r: Format)
        ensures
            r == self.for_display(),
            r.displayable(),
    {
        Format { width: self.width, height: self.height, encoding: required_encoding() }
    }

    /// Computes [`Format::displayable`].
    pub fn is_displayable(&self) -> (r: bool)
        ensures
            r == self.displayable(),
    {
        self.encoding == required_encoding()
    }

    /// The dimensions as text: the width, an `x`, the height, both in
    /// decimal.
    pub open spec fn label_text(self) -> Seq<char> {
        decimal(self.width as nat) + seq!['x'] + decimal(self.height as nat)
    }

    /// The dimensions, as text for a list of formats.
    pub fn label(&self) -> (r: String)
        ensures
            r@ == self.label_text(),
    {
        let mut text = String::new();
        push_decimal(&mut text, self.width);
        text.push('x');
        push_decimal(&mut text, self.height);
        proof {
            assert(text@ =~= self.label_text());
        }
        text
    }
}

/// What can go wrong while the coordinator serves a request or captures.
#[derive(Clone, Copy, Debug, PartialEq, Eq, Structural)]
pub enum CoordinatorError {
    /// The device could not be opened.
    DeviceOpenFailed,
    /// The device did not settle on the layout the display takes.
    FormatNegotiationFailed,
    /// The device gave no stream.
    StreamOpenFailed,
    /// The stream gave no frame, or one that does not fill its dimensions.
    FrameCaptureFailed,
    /// A query or a setting arrived while no device was open.
    NoDeviceOpen,
    /// The open device failed to answer a query or to take a setting.
    QueryFailed,
    /// The receiving side of the request channel is gone.
    ChannelClosed,
}

/// Pixel bytes as they come from a stream, with the dimensions the stream
/// claims for them.
#[derive(Debug)]
pub struct RawFrame {
    pub width: u32,
    pub height: u32,
    pub pixels: Vec<u8>,
}

/// A frame ready for the display: four bytes for each pixel, row by row.
#[derive(Debug)]
pub struct Frame {
    pub width: u32,
    pub height: u32,
    pub pixels: Vec<u8>,
}

/// The mathematical content of a frame, raw or finished.
pub struct FrameView {
    pub width: nat,
    pub height: nat,
    pub pixels: Seq<u8>,
}

impl View for RawFrame {
    type V = FrameView;

    open spec fn view(&self) -> FrameView {
        FrameView {
            width: self.width as nat,
            height: self.height as nat,
            pixels: self.pixels@,
        }
    }
}

impl View for Frame {
    type V = FrameView;

    open spec fn view(&self) -> FrameView {
        FrameView {
            width: self.width as nat,
            height: self.height as nat,
            pixels: self.pixels@,
        }
    }
}

/// Number of bytes that a display frame of the given dimensions needs.
pub open spec fn display_bytes(width: nat, height: nat) -> nat {
    4 * width * height
}

impl FrameView {
    /// Whether the bytes cover every pixel of the claimed dimensions, and the
    /// bytes of one row can be counted on this machine, also where the frame
    /// has no rows.
    pub open spec fn complete(self) -> bool {
        &&& 4 * self.width <= usize::MAX as nat
        &&& display_bytes(self.width, self.height) <= self.pixels.len()
    }
}

impl Frame {
    /// Every frame the coordinator hands out covers its dimensions.
    pub open spec fn well_formed(&self) -> bool {
        self@.complete()
    }
}

/// Shape of the values a control takes.
#[derive(Clone, Copy, Debug, PartialEq, Eq, Structural)]
pub enum Representation {
    /// On or off.
    Boolean,
    /// A whole number between two bounds, both included, with the distance
    /// between neighbouring settings and the setting the device starts with.
    Integer { min: i64, max: i64, step: u64, default: i64 },
    /// One entry of a menu with the given number of entries.
    Menu { entries: u32 },
    /// A shape this library has no name for.
    Other,
}

/// Value of a control, tagged with its shape.
#[derive(Clone, Copy, Debug, PartialEq, Eq, Structural)]
pub enum ControlValue {
    /// Not read from the device and not set yet.
    Unset,
    Boolean(bool),
    Integer(i64),
    /// Index of a menu entry.
    Choice(u32),
}

impl Representation {
    /// Whether a control of this shape can hold the value.
    pub open spec fn admits(self, value: ControlValue) -> bool {
        match value {
            ControlValue::Unset => true,
            ControlValue::Boolean(_) => self == Representation::Boolean,
            ControlValue::Integer(n) => self matches Representation::Integer { min, max, .. }
                && min <= n <= max,
            ControlValue::Choice(i) => self matches Representation::Menu { entries }
                && i < entries,
        }
    }

    /// Computes [`Representation::admits`].
    pub fn accepts(&self, value: ControlValue) -> (r: bool)
        ensures
            r == self.admits(value),
    {
        match value {
            ControlValue::Unset => true,
            ControlValue::Boolean(_) => match self {
                Representation::Boolean => true,
                _ => false,
            },
            ControlValue::Integer(n) => match self {
                Representation::Integer { min, max, .. } => *min <= n && n <= *max,
                _ => false,
            },
            ControlValue::Choice(i) => match self {
                Representation::Menu { entries } => i < *entries,
                _ => false,
            },
        }
    }
}

/// A setting that a device exposes, such as exposure or gain.
#[derive(Debug)]
pub struct Control {
    pub id: u32,
    pub name: String,
    pub representation: Representation,
    pub value: ControlValue,
}

/// The mathematical content of a control.
pub struct ControlView {
    pub id: u32,
    pub name: Seq<char>,
    pub representation: Representation,
    pub value: ControlValue,
}

impl View for Control {
    type V = ControlView;

    open spec fn view(&self) -> ControlView {
        ControlView {
            id: self.id,
            name: self.name@,
            representation: self.representation,
            value: self.value,
        }
    }
}

impl ControlView {
    /// The value is unset or of the control's shape.
    pub open spec fn well_formed(self) -> bool {
        self.representation.admits(self.value)
    }
}

impl Clone for Control {
    fn clone(&self) -> (r: Control)
        ensures
            r@ == self@,
    {
        Control {
            id: self.id,
            name: self.name.clone(),
            representation: self.representation,
            value: self.value,
        }
    }
}

impl Control {
    /// A control as a device lists it: its value is not read yet.
    pub fn new(id: u32, name: String, representation: Representation) -> (r: Control)
        ensures
            r@ == (ControlView { id, name: name@, representation, value: ControlValue::Unset }),
            r@.well_formed(),
    {
        Control { id, name, representation, value: ControlValue::Unset }
    }

    /// The control with the value replaced, if its shape admits the value.
    pub fn with_value(self, value: ControlValue) -> (r: Option<Control>)
        ensures
            r is Some <==> self.representation.admits(value),
            r matches Some(c) ==> c@ == (ControlView { value, ..self@ }),
    {
        if self.representation.accepts(value) {
            Some(Control { id: self.id, name: self.name, representation: self.representation, value })
        } else {
            None
        }
    }

    /// The name, as text for a list of controls.
    pub fn label(&self) -> (r: String)
        ensures
            r@ == self@.name,
    {
        self.name.clone()
    }
}

} // verus!

pub use crate::connection::{Connection, Request, Response};
