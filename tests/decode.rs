use sixaxis::controls::{Axis, Button, Shoulder};
use sixaxis::event::{decode_fields, process_button, process_event, process_stick, Error, Event};

fn record(value: u16, ev_type: u8, idx: u8) -> [u8; 8] {
    let v = value.to_ne_bytes();
    [0x10, 0x20, 0x30, 0x40, v[0], v[1], ev_type, idx]
}

#[test]
fn stick_sign_extension() {
    assert_eq!(process_stick(0, 0x8000), Ok(Event::Axis(Axis::LX, -32768)));
    assert_eq!(process_stick(0, 0x7FFF), Ok(Event::Axis(Axis::LX, 32767)));
    assert_eq!(process_stick(0, 0x0000), Ok(Event::Axis(Axis::LX, 0)));
    assert_eq!(process_stick(0, 0xFFFF), Ok(Event::Axis(Axis::LX, -1)));
}

#[test]
fn stick_record_through_decoder() {
    assert_eq!(process_event(&record(0x8000, 2, 0)), Ok(Event::Axis(Axis::LX, -32768)));
    assert_eq!(process_event(&record(0x7FFF, 2, 0)), Ok(Event::Axis(Axis::LX, 32767)));
    assert_eq!(process_event(&record(0x0000, 2, 0)), Ok(Event::Axis(Axis::LX, 0)));
}

#[test]
fn value_bytes_read_in_host_order() {
    assert_eq!(process_event(&record(0x1234, 2, 12)), Ok(Event::Shoulder(Shoulder::L2, 0x1234)));
    assert_eq!(process_event(&record(0x0102, 130, 3)), Ok(Event::Axis(Axis::RY, 0x0102)));
    assert_eq!(process_event(&record(0xFF01, 2, 1)), Ok(Event::Axis(Axis::LY, -255)));
}

#[test]
fn ps_button_record() {
    assert_eq!(process_button(16, 1), Ok(Event::Button(Button::PS, true)));
    assert_eq!(process_button(16, 0), Ok(Event::Button(Button::PS, false)));
    assert_eq!(process_event(&record(1, 1, 16)), Ok(Event::Button(Button::PS, true)));
    assert_eq!(process_event(&record(0, 1, 16)), Ok(Event::Button(Button::PS, false)));
    assert_eq!(process_event(&record(0x0100, 129, 16)), Ok(Event::Button(Button::PS, true)));
}

#[test]
fn unknown_type_fails() {
    assert_eq!(process_event(&record(5, 200, 0)), Err(Error::UnknownEventType));
    assert_eq!(decode_fields(200, 0, 5), Err(Error::UnknownEventType));
    assert_eq!(decode_fields(0, 16, 1), Err(Error::UnknownEventType));
    assert_eq!(decode_fields(128, 0, 1), Err(Error::UnknownEventType));
    assert_eq!(decode_fields(255, 0, 1), Err(Error::UnknownEventType));
}

#[test]
fn unknown_index_fails() {
    assert_eq!(process_stick(4, 1), Err(Error::UnknownControlIndex));
    assert_eq!(process_stick(11, 1), Err(Error::UnknownControlIndex));
    assert_eq!(process_stick(16, 1), Err(Error::UnknownControlIndex));
    assert_eq!(process_button(17, 1), Err(Error::UnknownControlIndex));
    assert_eq!(process_button(255, 1), Err(Error::UnknownControlIndex));
    assert_eq!(process_event(&record(1, 2, 200)), Err(Error::UnknownControlIndex));
}

#[test]
fn stick_index_table() {
    let want = [
        (0u8, Event::Axis(Axis::LX, 7)),
        (1, Event::Axis(Axis::LY, 7)),
        (2, Event::Axis(Axis::RX, 7)),
        (3, Event::Axis(Axis::RY, 7)),
        (12, Event::Shoulder(Shoulder::L2, 7)),
        (13, Event::Shoulder(Shoulder::R2, 7)),
        (14, Event::Shoulder(Shoulder::L1, 7)),
        (15, Event::Shoulder(Shoulder::R1, 7)),
    ];
    for (idx, ev) in want.iter() {
        assert_eq!(decode_fields(2, *idx, 7), Ok(*ev));
        assert_eq!(decode_fields(130, *idx, 7), Ok(*ev));
    }
    for idx in 0..=255u8 {
        if !want.iter().any(|(i, _)| *i == idx) {
            assert_eq!(process_stick(idx, 7), Err(Error::UnknownControlIndex));
        }
    }
}

#[test]
fn shoulder_reads_unsigned() {
    assert_eq!(process_stick(15, 0xFFFF), Ok(Event::Shoulder(Shoulder::R1, 65535)));
    assert_eq!(process_stick(14, 0x8000), Ok(Event::Shoulder(Shoulder::L1, 32768)));
}

#[test]
fn button_index_table() {
    let want = [
        Button::Select,
        Button::LeftStick,
        Button::RightStick,
        Button::Start,
        Button::Up,
        Button::Right,
        Button::Down,
        Button::Left,
        Button::L2,
        Button::R2,
        Button::L1,
        Button::R1,
        Button::Triangle,
        Button::Circle,
        Button::Cross,
        Button::Square,
        Button::PS,
    ];
    for (idx, b) in want.iter().enumerate() {
        assert_eq!(decode_fields(1, idx as u8, 3), Ok(Event::Button(*b, true)));
        assert_eq!(decode_fields(129, idx as u8, 0), Ok(Event::Button(*b, false)));
    }
    for idx in 17..=255u8 {
        assert_eq!(process_button(idx, 1), Err(Error::UnknownControlIndex));
    }
}
