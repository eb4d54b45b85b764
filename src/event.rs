use vstd::prelude::*;

use byteorder::{ByteOrder, NativeEndian};

use crate::controls::{Axis, Button, Shoulder};

verus! {

/// What can go wrong, on the handle and in decoding a record.
#[derive(Debug, Copy, Clone, PartialEq, Eq, Structural)]
pub enum Error {
    /// The input source could not be acquired.
    NoController,
    /// `close` on a handle that is not open.
    NotOpen,
    /// `open` on a handle that is already open.
    AlreadyOpen,
    /// A record whose type tag is neither a stick nor a button record.
    UnknownEventType,
    /// A record whose control index is not in its type's table.
    UnknownControlIndex,
}

/// One decoded record: a new value for a single control.
#[derive(Debug, Copy, Clone, PartialEq, Eq, Structural)]
pub enum Event {
    Axis(Axis, i16),
    Shoulder(Shoulder, u16),
    Button(Button, bool),
}

/// Size in bytes of one record of the event stream.
pub const EVENT_SIZE: usize = 8;

/// Record type tags. The init flag (0x80) marks the records that report
/// each control's starting value when the device is opened; it comes
/// together with a button or stick tag, and carries no control alone.
pub const EVENT_TYPE_BUTTON: u8 = 1;
pub const EVENT_TYPE_STICK: u8 = 2;
pub const EVENT_TYPE_INITBUTTON: u8 = 129;
pub const EVENT_TYPE_INITSTICK: u8 = 130;

/// The axis that a stick record with this index reports, if any.
pub open spec fn stick_axis(idx: u8) -> Option<Axis> {
    if idx == 0 {
        Some(Axis::LX)
    } else if idx == 1 {
        Some(Axis::LY)
    } else if idx == 2 {
        Some(Axis::RX)
    } else if idx == 3 {
        Some(Axis::RY)
    } else {
        None
    }
}

/// The shoulder that a stick record with this index reports, if any.
pub open spec fn stick_shoulder(idx: u8) -> Option<Shoulder> {
    if idx == 12 {
        Some(Shoulder::L2)
    } else if idx == 13 {
        Some(Shoulder::R2)
    } else if idx == 14 {
        Some(Shoulder::L1)
    } else if idx == 15 {
        Some(Shoulder::R1)
    } else {
        None
    }
}

/// The button that a button record with this index reports, if any.
pub open spec fn button_at(idx: u8) -> Option<Button> {
    if idx == 0 {
        Some(Button::Select)
    } else if idx == 1 {
        Some(Button::LeftStick)
    } else if idx == 2 {
        Some(Button::RightStick)
    } else if idx == 3 {
        Some(Button::Start)
    } else if idx == 4 {
        Some(Button::Up)
    } else if idx == 5 {
        Some(Button::Right)
    } else if idx == 6 {
        Some(Button::Down)
    } else if idx == 7 {
        Some(Button::Left)
    } else if idx == 8 {
        Some(Button::L2)
    } else if idx == 9 {
        Some(Button::R2)
    } else if idx == 10 {
        Some(Button::L1)
    } else if idx == 11 {
        Some(Button::R1)
    } else if idx == 12 {
        Some(Button::Triangle)
    } else if idx == 13 {
        Some(Button::Circle)
    } else if idx == 14 {
        Some(Button::Cross)
    } else if idx == 15 {
        Some(Button::Square)
    } else if idx == 16 {
        Some(Button::PS)
    } else {
        None
    }
}

/// The 16-bit pattern `value` read as a two's-complement signed number.
pub open spec fn signed_of(value: u16) -> int {
    if value < 0x8000 {
        value as int
    } else {
        value - 0x10000
    }
}

/// The event that a stick record carries.
pub open spec fn stick_event(idx: u8, value: u16) -> Result<Event, Error> {
    match stick_axis(idx) {
        Some(a) => Ok(Event::Axis(a, signed_of(value) as i16)),
        None => match stick_shoulder(idx) {
            Some(s) => Ok(Event::Shoulder(s, value)),
            None => Err(Error::UnknownControlIndex),
        },
    }
}

/// The event that a button record carries: pressed exactly when the value
/// is not zero.
pub open spec fn button_event(idx: u8, value: u16) -> Result<Event, Error> {
    match button_at(idx) {
        Some(b) => Ok(Event::Button(b, value != 0)),
        None => Err(Error::UnknownControlIndex),
    }
}

pub open spec fn is_stick_type(ev_type: u8) -> bool {
    ev_type == EVENT_TYPE_STICK || ev_type == EVENT_TYPE_INITSTICK
}

pub open spec fn is_button_type(ev_type: u8) -> bool {
    ev_type == EVENT_TYPE_BUTTON || ev_type == EVENT_TYPE_INITBUTTON
}

/// The outcome of decoding a record with this type tag, control index and
/// value.
pub open spec fn decoded(ev_type: u8, idx: u8, value: u16) -> Result<Event, Error> {
    if is_stick_type(ev_type) {
        stick_event(idx, value)
    } else if is_button_type(ev_type) {
        button_event(idx, value)
    } else {
        Err(Error::UnknownEventType)
    }
}

/// The 16-bit number whose low byte is `lo` and high byte is `hi`.
pub open spec fn u16_of(lo: u8, hi: u8) -> int {
    lo + 0x100 * hi
}

/// The record's value field, in either byte order.
pub open spec fn record_value_le(record: [u8; EVENT_SIZE]) -> int {
    u16_of(record@[4], record@[5])
}

pub open spec fn record_value_be(record: [u8; EVENT_SIZE]) -> int {
    u16_of(record@[5], record@[4])
}

/// Relies on byteorder's `NativeEndian::read_u16`, which reads the first two
/// bytes of the slice with `u16::from_le_bytes` or `u16::from_be_bytes`,
/// depending on the host: here the value field at bytes 4 and 5 of a record.
#[verifier::external_body]
fn read_record_value(record: &[u8; EVENT_SIZE]) -> (r: u16)
    ensures
        r as int == record_value_le(*record) || r as int == record_value_be(*record),
{
    NativeEndian::read_u16(&record[4..6])
}

/// Decodes a stick record: an axis for indices 0 to 3, a shoulder for
/// indices 12 to 15, with the value read as signed for an axis.
pub fn process_stick(ev_idx: u8, value: u16) -> (r: Result<Event, Error>)
    ensures
        r == stick_event(ev_idx, value),
{
    let s_val: i16 = if (value & 0x8000) != 0 {
        ((value as i32) - 65536) as i16
    } else {
        value as i16
    };
    assert((value & 0x8000 != 0) == (value >= 0x8000)) by (bit_vector);
    match ev_idx {
        0 => Ok(Event::Axis(Axis::LX, s_val)),
        1 => Ok(Event::Axis(Axis::LY, s_val)),
        2 => Ok(Event::Axis(Axis::RX, s_val)),
        3 => Ok(Event::Axis(Axis::RY, s_val)),
        12 => Ok(Event::Shoulder(Shoulder::L2, value)),
        13 => Ok(Event::Shoulder(Shoulder::R2, value)),
        14 => Ok(Event::Shoulder(Shoulder::L1, value)),
        15 => Ok(Event::Shoulder(Shoulder::R1, value)),
        _ => Err(Error::UnknownControlIndex),
    }
}

/// Decodes a button record: pressed when the value is not zero.
pub fn process_button(ev_idx: u8, value: u16) -> (r: Result<Event, Error>)
    ensures
        r == button_event(ev_idx, value),
{
    let pressed = value != 0;
    match ev_idx {
        0 => Ok(Event::Button(Button::Select, pressed)),
        1 => Ok(Event::Button(Button::LeftStick, pressed)),
        2 => Ok(Event::Button(Button::RightStick, pressed)),
        3 => Ok(Event::Button(Button::Start, pressed)),
        4 => Ok(Event::Button(Button::Up, pressed)),
        5 => Ok(Event::Button(Button::Right, pressed)),
        6 => Ok(Event::Button(Button::Down, pressed)),
        7 => Ok(Event::Button(Button::Left, pressed)),
        8 => Ok(Event::Button(Button::L2, pressed)),
        9 => Ok(Event::Button(Button::R2, pressed)),
        10 => Ok(Event::Button(Button::L1, pressed)),
        11 => Ok(Event::Button(Button::R1, pressed)),
        12 => Ok(Event::Button(Button::Triangle, pressed)),
        13 => Ok(Event::Button(Button::Circle, pressed)),
        14 => Ok(Event::Button(Button::Cross, pressed)),
        15 => Ok(Event::Button(Button::Square, pressed)),
        16 => Ok(Event::Button(Button::PS, pressed)),
        _ => Err(Error::UnknownControlIndex),
    }
}

/// Decodes a record from its type tag, control index and value.
pub fn decode_fields(ev_type: u8, ev_idx: u8, value: u16) -> (r: Result<Event, Error>)
    ensures
        r == decoded(ev_type, ev_idx, value),
{
    if ev_type == EVENT_TYPE_STICK || ev_type == EVENT_TYPE_INITSTICK {
        process_stick(ev_idx, value)
    } else if ev_type == EVENT_TYPE_BUTTON || ev_type == EVENT_TYPE_INITBUTTON {
        process_button(ev_idx, value)
    } else {
        Err(Error::UnknownEventType)
    }
}

/// Decodes one 8-byte record: bytes 0 to 3 hold a timestamp, which is not
/// read, bytes 4 and 5 the value in the host's byte order, byte 6 the type
/// tag and byte 7 the control index.
pub fn process_event(buf: &[u8; EVENT_SIZE]) -> (r: Result<Event, Error>)
    ensures
        r == decoded(buf@[6], buf@[7], record_value_le(*buf) as u16) || r == decoded(
            buf@[6],
            buf@[7],
            record_value_be(*buf) as u16,
        ),
        !is_stick_type(buf@[6]) && !is_button_type(buf@[6]) ==> r == Err::<Event, Error>(
            Error::UnknownEventType,
        ),
        buf@[4] == buf@[5] ==> r == decoded(buf@[6], buf@[7], record_value_le(*buf) as u16),
{
    let value = read_record_value(buf);
    let ev_type = buf[6];
    let ev_idx = buf[7];
    decode_fields(ev_type, ev_idx, value)
}

} // verus!
