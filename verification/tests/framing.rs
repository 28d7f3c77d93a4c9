use hidpp::channel::HidppMessage;
use hidpp::channel::LONG_REPORT_ID;
use hidpp::channel::LONG_REPORT_LENGTH;
use hidpp::channel::LONG_REPORT_USAGE;
use hidpp::channel::LONG_REPORT_USAGE_PAGE;
use hidpp::channel::SHORT_REPORT_ID;
use hidpp::channel::SHORT_REPORT_LENGTH;
use hidpp::channel::SHORT_REPORT_USAGE;
use hidpp::channel::SHORT_REPORT_USAGE_PAGE;

fn long_payload() -> [u8; 19] {
    let mut payload = [0u8; 19];
    for (i, b) in payload.iter_mut().enumerate() {
        *b = 0x20 + i as u8;
    }
    payload
}

#[test]
fn constants_have_the_documented_values() {
    assert_eq!(SHORT_REPORT_ID, 0x10);
    assert_eq!(LONG_REPORT_ID, 0x11);
    assert_eq!(SHORT_REPORT_LENGTH, 7);
    assert_eq!(LONG_REPORT_LENGTH, 20);
    assert_eq!(SHORT_REPORT_USAGE_PAGE, 0xff00);
    assert_eq!(LONG_REPORT_USAGE_PAGE, 0xff00);
    assert_eq!(SHORT_REPORT_USAGE, 0x0001);
    assert_eq!(LONG_REPORT_USAGE, 0x0002);
}

#[test]
fn short_frame_is_read() {
    let got = HidppMessage::read_raw(&[0x10, 1, 2, 3, 4, 5, 6]);
    assert_eq!(got, Some(HidppMessage::Short([1, 2, 3, 4, 5, 6])));
}

#[test]
fn long_frame_is_read() {
    let mut frame = vec![0x11];
    frame.extend_from_slice(&long_payload());
    assert_eq!(HidppMessage::read_raw(&frame), Some(HidppMessage::Long(long_payload())));
}

#[test]
fn empty_report_is_no_message() {
    assert_eq!(HidppMessage::read_raw(&[]), None);
}

#[test]
fn six_byte_buffer_starting_with_short_id_is_no_message() {
    assert_eq!(HidppMessage::read_raw(&[0x10, 1, 2, 3, 4, 5]), None);
}

#[test]
fn nineteen_byte_buffer_starting_with_long_id_is_no_message() {
    let mut frame = vec![0x11];
    frame.extend_from_slice(&long_payload()[..18]);
    assert_eq!(frame.len(), 19);
    assert_eq!(HidppMessage::read_raw(&frame), None);
}

#[test]
fn wrong_length_for_the_claimed_id_is_no_message() {
    assert_eq!(HidppMessage::read_raw(&[0x10, 1, 2, 3, 4, 5, 6, 7]), None);
    assert_eq!(HidppMessage::read_raw(&[0x11, 1, 2, 3, 4, 5, 6]), None);
    let mut frame = vec![0x10];
    frame.extend_from_slice(&long_payload());
    assert_eq!(HidppMessage::read_raw(&frame), None);
    let mut frame = vec![0x11];
    frame.extend_from_slice(&long_payload());
    frame.push(0);
    assert_eq!(HidppMessage::read_raw(&frame), None);
}

#[test]
fn other_report_id_is_no_message() {
    assert_eq!(HidppMessage::read_raw(&[0x12, 1, 2, 3, 4, 5, 6]), None);
    assert_eq!(HidppMessage::read_raw(&[0x01, 1, 2, 3, 4, 5, 6]), None);
    assert_eq!(HidppMessage::read_raw(&[0x00; 20]), None);
}

#[test]
fn short_message_is_written_with_its_id() {
    let mut buf = [0xeeu8; 20];
    let len = HidppMessage::Short([1, 2, 3, 4, 5, 6]).write_raw(&mut buf);
    assert_eq!(len, 7);
    assert_eq!(&buf[..7], &[0x10, 1, 2, 3, 4, 5, 6]);
    assert!(buf[7..].iter().all(|b| *b == 0xee));
}

#[test]
fn long_message_is_written_with_its_id() {
    let mut buf = [0u8; 20];
    let len = HidppMessage::Long(long_payload()).write_raw(&mut buf);
    assert_eq!(len, 20);
    assert_eq!(buf[0], 0x11);
    assert_eq!(&buf[1..], &long_payload());
}

#[test]
fn to_frame_gives_what_write_raw_writes() {
    let msg = HidppMessage::Short([9, 8, 7, 6, 5, 4]);
    assert_eq!(msg.to_frame(), vec![0x10, 9, 8, 7, 6, 5, 4]);
    let msg = HidppMessage::Long(long_payload());
    let mut buf = [0u8; 20];
    let len = msg.write_raw(&mut buf);
    assert_eq!(msg.to_frame(), buf[..len].to_vec());
}

#[test]
fn written_message_is_read_back() {
    let messages = [
        HidppMessage::Short([0, 0, 0, 0, 0, 0]),
        HidppMessage::Short([0xff, 0x10, 0x11, 0x00, 0x7f, 0x80]),
        HidppMessage::Long(long_payload()),
        HidppMessage::Long([0xff; 19]),
    ];
    for msg in messages {
        let mut buf = [0x55u8; 32];
        let len = msg.write_raw(&mut buf);
        assert_eq!(HidppMessage::read_raw(&buf[..len]), Some(msg));
    }
}
