//! The pointer event model: one decoded wire sample and its field types.

use vstd::prelude::*;

verus! {

/// Phase of a pointer sample. The wire carries it as a string tag; an
/// unrecognized tag fails decode.
#[derive(Clone, Copy, Debug, PartialEq, Eq, Structural)]
pub enum PointerEventType {
    /// Contact began (wire tag `"Down"`).
    Down,
    /// Contact ended (wire tag `"Up"`).
    Up,
    /// The gesture was aborted (wire tag `"Cancel"`).
    Cancel,
    /// Motion while in contact (wire tag `"Move"`).
    Move,
    /// Motion while hovering (wire tag `"HoverMove"`).
    Over,
    /// Hover began (wire tag `"HoverEnter"`).
    Enter,
    /// Hover ended (wire tag `"HoverLeave"`).
    Leave,
    /// The pointer left the addressable surface (wire tag `"Out"`).
    Out,
}

impl PointerEventType {
    /// The phases during which the pointer reports a live position:
    /// these produce position, pressure and tilt events.
    pub open spec fn is_active_phase(self) -> bool {
        self is Down || self is Move || self is Over || self is Enter
    }

    /// The phases that end a contact or hover: these release pressure
    /// and leave the last known position standing.
    pub open spec fn is_end_phase(self) -> bool {
        self is Up || self is Cancel || self is Leave || self is Out
    }
}

/// The physical device behind a sample. The wire carries it as a string
/// tag; an unrecognized tag fails decode.
#[derive(Clone, Copy, Debug, PartialEq, Eq, Structural)]
pub enum PointerType {
    /// The sender could not classify the pointer (wire tag `"Undetected"`).
    NoDetect,
    /// A finger on the surface (wire tag `"Touch"`).
    Touch,
    /// The pen tip (wire tag `"Stylus"`).
    Stylus,
    /// A mouse or trackpad (wire tag `"Mouse"`).
    Mouse,
    /// The inverted (eraser) end of the pen (wire tag `"Eraser"`).
    Eraser,
}

/// Bit for the primary button (mouse left, touch contact).
pub const BUTTON_PRIMARY: u8 = 0x01;
/// Bit for the secondary button (mouse right).
pub const BUTTON_SECONDARY: u8 = 0x02;
/// Bit for the tertiary button (mouse middle).
pub const BUTTON_TERTIARY: u8 = 0x04;
/// Bit for the forward navigation button.
pub const BUTTON_FORWARD: u8 = 0x08;
/// Bit for the back navigation button.
pub const BUTTON_BACK: u8 = 0x10;
/// Bit for the first stylus side button.
pub const BUTTON_STYLUS_PRIMARY: u8 = 0x20;
/// Bit for the second stylus side button.
pub const BUTTON_STYLUS_SECONDARY: u8 = 0x40;
/// All the bits this library recognizes.
pub const BUTTON_MASK: u8 = 0x7F;

/// The set of buttons held down in one sample, as a bit set over the
/// `BUTTON_*` bits. Decode keeps only the recognized bits and drops the
/// rest, so a newer sender with more buttons still decodes.
#[derive(Clone, Copy, Debug, PartialEq, Eq, Structural)]
pub struct ButtonActions {
    /// The raw bit set; only bits inside `BUTTON_MASK` are ever set.
    pub bits: u8,
}

impl ButtonActions {
    /// Which bits a raw wire byte decodes to: the recognized ones.
    pub open spec fn spec_truncate(raw: u8) -> ButtonActions {
        ButtonActions { bits: raw & BUTTON_MASK }
    }

    /// Keeps the recognized bits of a raw wire byte and drops the rest.
    pub fn from_bits_truncate(raw: u8) -> (r: ButtonActions)
        ensures
            r == Self::spec_truncate(raw),
    {
        ButtonActions { bits: raw & BUTTON_MASK }
    }

    /// Whether every bit of `flag` is set.
    pub open spec fn spec_contains(self, flag: u8) -> bool {
        self.bits & flag == flag
    }

    /// Tests the given `BUTTON_*` bits.
    pub fn contains(&self, flag: u8) -> (r: bool)
        ensures
            r == self.spec_contains(flag),
    {
        self.bits & flag == flag
    }
}

/// A normalized scalar from the wire (position as a fraction of the
/// surface, or pressure as a fraction of full force), held by the bit
/// pattern of the 64-bit IEEE-754 value the sender wrote. Holding the
/// bits keeps the sample exactly as sent; the scaling to a device axis
/// is integer arithmetic on this pattern.
#[derive(Clone, Copy, Debug, PartialEq, Eq, Structural)]
pub struct Norm {
    /// The IEEE-754 binary64 bit pattern.
    pub bits: u64,
}

impl Norm {
    /// Wraps a raw binary64 bit pattern.
    pub fn from_bits(bits: u64) -> (r: Norm)
        ensures
            r.bits == bits,
    {
        Norm { bits }
    }
}

/// One decoded wire sample, immutable after decode and consumed exactly
/// once by the translator.
#[derive(Clone, Copy, Debug, PartialEq, Eq, Structural)]
pub struct PointerEventMessage {
    /// The phase of this sample.
    pub event_type: PointerEventType,
    /// Opaque sender-side pointer identifier; optional on the wire,
    /// zero when absent.
    pub pointer_id: i64,
    /// Monotonic milliseconds at the sender; not assumed to start at zero.
    pub timestamp: u64,
    /// The physical device behind the sample.
    pub pointer_kind: PointerType,
    /// The buttons held down, already truncated to the recognized bits.
    pub buttons: ButtonActions,
    /// Horizontal position as a fraction of the surface width.
    pub x: Norm,
    /// Vertical position as a fraction of the surface height.
    pub y: Norm,
    /// Contact force as a fraction of full force.
    pub pressure: Norm,
    /// Pen tilt around the horizontal axis, in signed degrees, unscaled.
    pub tilt_x: i32,
    /// Pen tilt around the vertical axis, in signed degrees, unscaled.
    pub tilt_y: i32,
    /// Major axis of the contact ellipse; carried but not consumed,
    /// optional on the wire and zero when absent.
    pub contact_major: Norm,
    /// Minor axis of the contact ellipse; carried but not consumed,
    /// optional on the wire and zero when absent.
    pub contact_minor: Norm,
}

/// Why a wire frame failed to decode. A failed frame is dropped and the
/// connection that sent it goes on.
#[derive(Clone, Copy, Debug, PartialEq, Eq, Structural)]
pub enum DecodeError {
    /// The text is not well-formed JSON.
    MalformedJson,
    /// The text is JSON but not an object.
    NotAnObject,
    /// A required field is absent.
    MissingField,
    /// A field is present but has the wrong type or is out of range.
    InvalidField,
    /// The `event_type` tag is a string this library does not know.
    UnknownEventType,
    /// The `pointer_kind` tag is a string this library does not know.
    UnknownPointerKind,
}

} // verus!
