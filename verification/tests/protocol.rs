use hidpp::channel::ChannelError;
use hidpp::channel::HidppChannel;
use hidpp::channel::HidppMessage;
use hidpp::descriptor::ReportDescriptor;
use hidpp::nibble::U4;
use hidpp::primitive::TryFromPrimitiveError;
use hidpp::protocol::determine_version;
use hidpp::protocol::is_version_reply;
use hidpp::protocol::v10;
use hidpp::protocol::v20;
use hidpp::protocol::version_of_outcome;
use hidpp::protocol::version_of_reply;
use hidpp::protocol::ProtocolVersion;

fn channel(short: bool, long: bool) -> HidppChannel<u32> {
    HidppChannel::from_raw_channel(
        Some((short, long)),
        &ReportDescriptor { input_reports: vec![] },
        0x046d,
        0xc548,
    )
    .unwrap()
}

fn header20(device_index: u8, feature_index: u8, function: u8, software: u8) -> v20::MessageHeader {
    v20::MessageHeader {
        device_index,
        feature_index,
        function_id: U4::from_lo(function),
        software_id: U4::from_lo(software),
    }
}

fn long_raw(start: [u8; 4]) -> HidppMessage {
    let mut d = [0u8; 19];
    d[..4].copy_from_slice(&start);
    for i in 4..19 {
        d[i] = 0x40 + i as u8;
    }
    HidppMessage::Long(d)
}

#[test]
fn v10_message_is_read_from_the_envelope() {
    let msg = v10::Message::from(HidppMessage::Short([0xff, 0x81, 0x02, 1, 2, 3]));
    assert_eq!(
        msg,
        v10::Message::Short(v10::MessageHeader { device_index: 0xff, sub_id: 0x81 }, [0x02, 1, 2, 3])
    );
    assert_eq!(msg.header(), v10::MessageHeader { device_index: 0xff, sub_id: 0x81 });
    let msg = v10::Message::from(long_raw([1, 0x83, 0xb5, 9]));
    match msg {
        v10::Message::Long(header, payload) => {
            assert_eq!(header, v10::MessageHeader { device_index: 1, sub_id: 0x83 });
            assert_eq!(payload[0], 0xb5);
            assert_eq!(payload[1], 9);
            assert_eq!(payload[16], 0x40 + 18);
        },
        _ => panic!("a long message stays long"),
    }
}

#[test]
fn v10_payload_is_filled_up_with_zeroes() {
    let msg = v10::Message::Short(v10::MessageHeader { device_index: 1, sub_id: 2 }, [9, 8, 7, 6]);
    assert_eq!(msg.extend_payload(), [9, 8, 7, 6, 0, 0, 0, 0, 0, 0, 0, 0, 0, 0, 0, 0, 0]);
    let msg = v10::Message::Long(v10::MessageHeader { device_index: 1, sub_id: 2 }, [5; 17]);
    assert_eq!(msg.extend_payload(), [5; 17]);
}

#[test]
fn v10_envelope_round_trip() {
    let short = v10::Message::Short(v10::MessageHeader { device_index: 7, sub_id: 0x8f }, [1, 2, 3, 4]);
    assert_eq!(v10::Message::from(HidppMessage::from(short)), short);
    assert_eq!(HidppMessage::from(short), HidppMessage::Short([7, 0x8f, 1, 2, 3, 4]));
    let mut payload = [0u8; 17];
    for i in 0..17 {
        payload[i] = 0xf0 + i as u8;
    }
    let long = v10::Message::Long(v10::MessageHeader { device_index: 0xff, sub_id: 0x82 }, payload);
    assert_eq!(v10::Message::from(HidppMessage::from(long)), long);
    let raw = long_raw([3, 4, 5, 6]);
    assert_eq!(HidppMessage::from(v10::Message::from(raw)), raw);
}

#[test]
fn v20_message_is_read_from_the_envelope() {
    let msg = v20::Message::from(HidppMessage::Short([2, 7, 0x21, 9, 8, 7]));
    assert_eq!(msg, v20::Message::Short(header20(2, 7, 2, 1), [9, 8, 7]));
    assert_eq!(msg.header().function_id.to_lo(), 2);
    assert_eq!(msg.header().software_id.to_lo(), 1);
}

#[test]
fn v20_payload_is_filled_up_with_zeroes() {
    let msg = v20::Message::Short(header20(1, 2, 3, 4), [9, 8, 7]);
    assert_eq!(msg.extend_payload(), [9, 8, 7, 0, 0, 0, 0, 0, 0, 0, 0, 0, 0, 0, 0, 0]);
    let msg = v20::Message::Long(header20(1, 2, 3, 4), [6; 16]);
    assert_eq!(msg.extend_payload(), [6; 16]);
}

#[test]
fn v20_envelope_round_trip() {
    for function in 0u8..16 {
        for software in 0u8..16 {
            let short = v20::Message::Short(header20(2, 0xfe, function, software), [1, 2, 3]);
            assert_eq!(v20::Message::from(HidppMessage::from(short)), short);
            let long = v20::Message::Long(header20(0xff, 0, function, software), [0xa5; 16]);
            assert_eq!(v20::Message::from(HidppMessage::from(long)), long);
        }
    }
    assert_eq!(
        HidppMessage::from(v20::Message::Short(header20(2, 7, 2, 1), [0, 0, 0])),
        HidppMessage::Short([2, 7, 0x21, 0, 0, 0])
    );
    let raw = long_raw([3, 4, 0xc5, 6]);
    assert_eq!(HidppMessage::from(v20::Message::from(raw)), raw);
}

#[test]
fn v10_message_types_have_their_sub_ids() {
    assert_eq!(u8::from(v10::MessageType::SetRegister), 0x80);
    assert_eq!(u8::from(v10::MessageType::GetRegister), 0x81);
    assert_eq!(u8::from(v10::MessageType::SetLongRegister), 0x82);
    assert_eq!(u8::from(v10::MessageType::GetLongRegister), 0x83);
    assert_eq!(u8::from(v10::MessageType::Error), 0x8f);
    assert_eq!(v10::MessageType::try_from(0x83), Ok(v10::MessageType::GetLongRegister));
    assert_eq!(v10::MessageType::try_from(0x84), Err(TryFromPrimitiveError { number: 0x84 }));
}

#[test]
fn v10_error_codes_are_the_documented_ones() {
    let all = [
        v10::ErrorType::Success,
        v10::ErrorType::InvalidSubId,
        v10::ErrorType::InvalidAddress,
        v10::ErrorType::InvalidValue,
        v10::ErrorType::ConnectFail,
        v10::ErrorType::TooManyDevices,
        v10::ErrorType::AlreadyExists,
        v10::ErrorType::Busy,
        v10::ErrorType::UnknownDevice,
        v10::ErrorType::ResourceError,
        v10::ErrorType::RequestUnavailable,
        v10::ErrorType::InvalidParamValue,
        v10::ErrorType::WrongPinCode,
    ];
    for (code, error) in all.iter().enumerate() {
        assert_eq!(u8::from(*error), code as u8);
        assert_eq!(v10::ErrorType::try_from(code as u8), Ok(*error));
    }
    for code in 13u8..=255 {
        assert_eq!(v10::ErrorType::try_from(code), Err(TryFromPrimitiveError { number: code }));
    }
}

#[test]
fn v20_error_codes_are_the_documented_ones() {
    let all = [
        v20::ErrorType::NoError,
        v20::ErrorType::Unknown,
        v20::ErrorType::InvalidArgument,
        v20::ErrorType::OutOfRange,
        v20::ErrorType::HwError,
        v20::ErrorType::LogitechInternal,
        v20::ErrorType::InvalidFeatureIndex,
        v20::ErrorType::InvalidFunctionId,
        v20::ErrorType::Busy,
        v20::ErrorType::Unsupported,
    ];
    for (code, error) in all.iter().enumerate() {
        assert_eq!(u8::from(*error), code as u8);
        assert_eq!(v20::ErrorType::try_from(code as u8), Ok(*error));
    }
    for code in 10u8..=255 {
        assert_eq!(v20::ErrorType::try_from(code), Err(TryFromPrimitiveError { number: code }));
    }
}

#[test]
fn rap_response_is_the_echo_or_the_error() {
    let t = v10::MessageType::SetRegister;
    assert!(v10::is_rap_response(0xff, t, 0x02, &HidppMessage::Short([0xff, 0x80, 0x02, 0, 0, 0])));
    assert!(v10::is_rap_response(0xff, t, 0x02, &HidppMessage::Short([0xff, 0x8f, 0x80, 0x02, 1, 0])));
    assert!(!v10::is_rap_response(0xff, t, 0x02, &HidppMessage::Short([0xfe, 0x80, 0x02, 0, 0, 0])));
    assert!(!v10::is_rap_response(0xff, t, 0x02, &HidppMessage::Short([0xff, 0x41, 0x02, 0, 0, 0])));
    assert!(!v10::is_rap_response(0xff, t, 0x02, &HidppMessage::Short([0xff, 0x8f, 0x80, 0x03, 1, 0])));
    assert!(!v10::is_rap_response(0xff, t, 0x02, &HidppMessage::Short([0xff, 0x8f, 0x81, 0x02, 1, 0])));
}

#[test]
fn read_register_asks_and_reads() {
    let mut chan = channel(true, true);
    let frame = chan.read_register(0xff, 0x02, [1, 2, 3], 5).unwrap();
    assert_eq!(frame, vec![0x10, 0xff, 0x81, 0x02, 1, 2, 3]);
    assert_eq!(chan.pending_count(), 1);
    let delivery = chan.dispatch(&[0x10, 0xff, 0x81, 0x02, 0xa, 0xb, 0xc]).unwrap();
    assert_eq!(delivery.sender, Some(5));
    assert_eq!(v10::read_register_reply(delivery.message).unwrap(), [0xa, 0xb, 0xc]);
}

#[test]
fn write_register_asks_and_reads() {
    let mut chan = channel(true, false);
    let frame = chan.write_register(0xff, 0xc0, [30, 1, 0], 5).unwrap();
    assert_eq!(frame, vec![0x10, 0xff, 0x80, 0xc0, 30, 1, 0]);
    let delivery = chan.dispatch(&[0x10, 0xff, 0x80, 0xc0, 0, 0, 0]).unwrap();
    assert_eq!(delivery.sender, Some(5));
    assert!(v10::write_register_reply(delivery.message).is_ok());
}

#[test]
fn read_long_register_asks_short_and_reads_long() {
    let mut chan = channel(true, true);
    let frame = chan.read_long_register(0xff, 0xb5, [0x51, 0, 0], 5).unwrap();
    assert_eq!(frame, vec![0x10, 0xff, 0x83, 0xb5, 0x51, 0, 0]);
    let mut report = vec![0x11, 0xff, 0x83, 0xb5];
    let data: Vec<u8> = (1..=16).collect();
    report.extend_from_slice(&data);
    let delivery = chan.dispatch(&report).unwrap();
    assert_eq!(delivery.sender, Some(5));
    let register = v10::read_long_register_reply(delivery.message).unwrap();
    assert_eq!(register.to_vec(), data);
}

#[test]
fn write_long_register_asks_long() {
    let mut chan = channel(true, true);
    let mut data = [0u8; 16];
    for i in 0..16 {
        data[i] = 0x30 + i as u8;
    }
    let frame = chan.write_long_register(0xff, 0xc1, data, 5).unwrap();
    let mut expected = vec![0x11, 0xff, 0x82, 0xc1];
    expected.extend_from_slice(&data);
    assert_eq!(frame, expected);
    let mut report = vec![0x11, 0xff, 0x82, 0xc1];
    report.extend_from_slice(&[0; 16]);
    let delivery = chan.dispatch(&report).unwrap();
    assert_eq!(delivery.sender, Some(5));
    assert!(v10::write_long_register_reply(delivery.message).is_ok());
}

#[test]
fn register_access_needs_the_message_size() {
    let mut chan = channel(false, true);
    let r = chan.read_register(0xff, 0x02, [0, 0, 0], 5);
    assert!(matches!(
        r,
        Err(v10::Hidpp10Error::Channel(ChannelError::MessageTypeNotSupported))
    ));
    let r = chan.read_long_register(0xff, 0x02, [0, 0, 0], 5);
    assert!(matches!(
        r,
        Err(v10::Hidpp10Error::Channel(ChannelError::MessageTypeNotSupported))
    ));
    assert_eq!(chan.pending_count(), 0);
    let mut chan = channel(true, false);
    let r = chan.write_long_register(0xff, 0x02, [0; 16], 5);
    assert!(matches!(
        r,
        Err(v10::Hidpp10Error::Channel(ChannelError::MessageTypeNotSupported))
    ));
    assert_eq!(chan.pending_count(), 0);
}

#[test]
fn register_error_is_reported_with_its_code() {
    let response = HidppMessage::Short([0xff, 0x8f, 0x81, 0x02, 0x02, 0]);
    assert!(matches!(
        v10::read_register_reply(response),
        Err(v10::Hidpp10Error::RegisterAccess(v10::ErrorType::InvalidAddress))
    ));
    assert!(matches!(
        v10::write_register_reply(HidppMessage::Short([0xff, 0x8f, 0x80, 0x02, 0x07, 0])),
        Err(v10::Hidpp10Error::RegisterAccess(v10::ErrorType::Busy))
    ));
    assert!(matches!(
        v10::read_long_register_reply(HidppMessage::Short([0xff, 0x8f, 0x83, 0x02, 0x0c, 0])),
        Err(v10::Hidpp10Error::RegisterAccess(v10::ErrorType::WrongPinCode))
    ));
    assert!(matches!(
        v10::write_long_register_reply(HidppMessage::Short([0xff, 0x8f, 0x82, 0x02, 0x00, 0])),
        Err(v10::Hidpp10Error::RegisterAccess(v10::ErrorType::Success))
    ));
}

#[test]
fn register_error_with_an_undocumented_code_is_unsupported() {
    let response = HidppMessage::Short([0xff, 0x8f, 0x81, 0x02, 0x0d, 0]);
    assert!(matches!(
        v10::read_register_reply(response),
        Err(v10::Hidpp10Error::UnsupportedResponse)
    ));
    assert!(matches!(v10::register_reply(response), Err(v10::Hidpp10Error::UnsupportedResponse)));
}

#[test]
fn v20_response_has_the_header_of_the_request() {
    let h = header20(2, 7, 2, 1);
    assert!(v20::is_response(h, &HidppMessage::Short([2, 7, 0x21, 1, 2, 3])));
    assert!(v20::is_response(h, &long_raw([2, 7, 0x21, 1])));
    assert!(!v20::is_response(h, &HidppMessage::Short([3, 7, 0x21, 1, 2, 3])));
    assert!(!v20::is_response(h, &HidppMessage::Short([2, 8, 0x21, 1, 2, 3])));
    assert!(!v20::is_response(h, &HidppMessage::Short([2, 7, 0x22, 1, 2, 3])));
    assert!(!v20::is_response(h, &HidppMessage::Short([2, 7, 0x11, 1, 2, 3])));
    assert!(!v20::is_response(h, &HidppMessage::Short([2, 7, 0x20, 1, 2, 3])));
}

#[test]
fn v20_error_response_shifts_the_header() {
    let h = header20(2, 7, 2, 1);
    assert!(v20::is_response(h, &HidppMessage::Short([2, 0xff, 7, 0x21, 7, 0])));
    assert!(!v20::is_response(h, &HidppMessage::Short([3, 0xff, 7, 0x21, 7, 0])));
    assert!(!v20::is_response(h, &HidppMessage::Short([2, 0xff, 8, 0x21, 7, 0])));
    assert!(!v20::is_response(h, &HidppMessage::Short([2, 0xff, 7, 0x22, 7, 0])));
}

#[test]
fn feature_error_reaches_the_waiting_request() {
    let mut chan = channel(true, true);
    chan.set_sw_id(U4::from_lo(1));
    let request = v20::Message::Short(header20(2, 7, 2, 1), [0, 0, 0]);
    let frame = chan.send_v20(request, 9).unwrap();
    assert_eq!(frame, vec![0x10, 0x02, 0x07, 0x21, 0x00, 0x00, 0x00]);
    let delivery = chan.dispatch(&[0x10, 0x02, 0xff, 0x07, 0x21, 0x07, 0x00]).unwrap();
    assert_eq!(delivery.sender, Some(9));
    assert!(matches!(
        v20::feature_reply(delivery.message),
        Err(v20::Hidpp20Error::Feature(v20::ErrorType::InvalidFunctionId))
    ));
    assert!(matches!(
        v20::reply_payload(delivery.message),
        Err(v20::Hidpp20Error::Feature(v20::ErrorType::InvalidFunctionId))
    ));
}

#[test]
fn v20_error_with_an_undocumented_code_is_unsupported() {
    let response = HidppMessage::Short([2, 0xff, 7, 0x21, 10, 0]);
    assert!(matches!(v20::feature_reply(response), Err(v20::Hidpp20Error::UnsupportedResponse)));
}

#[test]
fn v20_reply_is_handed_out() {
    let response = HidppMessage::Short([2, 7, 0x21, 4, 5, 6]);
    assert_eq!(
        v20::feature_reply(response).unwrap(),
        v20::Message::Short(header20(2, 7, 2, 1), [4, 5, 6])
    );
    assert_eq!(
        v20::reply_payload(response).unwrap(),
        [4, 5, 6, 0, 0, 0, 0, 0, 0, 0, 0, 0, 0, 0, 0, 0]
    );
}

#[test]
fn send_v20_needs_the_message_size() {
    let mut chan = channel(true, false);
    let r = chan.send_v20(v20::Message::Long(header20(2, 7, 2, 1), [0; 16]), 9);
    assert!(matches!(
        r,
        Err(v20::Hidpp20Error::Channel(ChannelError::MessageTypeNotSupported))
    ));
    assert_eq!(chan.pending_count(), 0);
}

#[test]
fn call_takes_a_fresh_software_id() {
    let mut chan = channel(true, true);
    chan.set_rotating_sw_id(true);
    chan.set_sw_id(U4::from_lo(15));
    let frame = chan.call_short(2, 7, 3, [1, 2, 3], 0).unwrap();
    assert_eq!(frame, vec![0x10, 2, 7, 0x3f, 1, 2, 3]);
    let frame = chan.call_long(2, 7, 3, [9; 16], 0).unwrap();
    let mut expected = vec![0x11, 2, 7, 0x31];
    expected.extend_from_slice(&[9; 16]);
    assert_eq!(frame, expected);
    assert_eq!(chan.get_sw_id().to_lo(), 2);
}

#[test]
fn version_probe_finds_a_hidpp20_device() {
    let mut chan = channel(true, false);
    let (frame, probe) = determine_version(&mut chan, 2, 77).unwrap();
    assert_eq!(frame, vec![0x10, 0x02, 0x00, 0x11, 0x00, 0x00, 0x00]);
    assert_eq!(probe, header20(2, 0, 1, 1));
    let delivery = chan.dispatch(&[0x10, 0x02, 0x00, 0x11, 0x04, 0x03, 0x00]).unwrap();
    assert_eq!(delivery.sender, Some(77));
    assert_eq!(
        version_of_reply(probe, delivery.message),
        Some(ProtocolVersion::V20 { protocol_num: 4, target_sw: 3 })
    );
    assert_eq!(
        version_of_outcome(probe, Some(delivery.message)),
        Some(ProtocolVersion::V20 { protocol_num: 4, target_sw: 3 })
    );
}

#[test]
fn version_probe_finds_a_hidpp10_device() {
    let mut chan = channel(true, false);
    let (_, probe) = determine_version(&mut chan, 2, 77).unwrap();
    let delivery = chan.dispatch(&[0x10, 0x02, 0x8f, 0x00, 0x11, 0x01, 0x00]).unwrap();
    assert_eq!(delivery.sender, Some(77));
    assert_eq!(version_of_reply(probe, delivery.message), Some(ProtocolVersion::V10));
}

#[test]
fn version_probe_with_another_error_finds_no_device() {
    let mut chan = channel(true, false);
    let (_, probe) = determine_version(&mut chan, 2, 77).unwrap();
    let delivery = chan.dispatch(&[0x10, 0x02, 0x8f, 0x00, 0x11, 0x08, 0x00]).unwrap();
    assert_eq!(delivery.sender, Some(77));
    assert_eq!(version_of_reply(probe, delivery.message), None);
    assert_eq!(version_of_outcome(probe, None), None);
}

#[test]
fn version_reply_is_told_from_other_messages() {
    let probe = header20(2, 0, 1, 1);
    assert!(is_version_reply(probe, &HidppMessage::Short([2, 0, 0x11, 4, 3, 0])));
    assert!(is_version_reply(probe, &HidppMessage::Short([2, 0x8f, 0x00, 0x11, 1, 0])));
    assert!(!is_version_reply(probe, &HidppMessage::Short([3, 0x8f, 0x00, 0x11, 1, 0])));
    assert!(!is_version_reply(probe, &HidppMessage::Short([2, 0x8f, 0x01, 0x11, 1, 0])));
    assert!(!is_version_reply(probe, &HidppMessage::Short([2, 0x8f, 0x00, 0x12, 1, 0])));
    assert!(!is_version_reply(probe, &long_raw([2, 0x8f, 0x00, 0x11])));
    assert!(!is_version_reply(probe, &HidppMessage::Short([2, 0x41, 0x00, 0x11, 1, 0])));
}

#[test]
fn version_probe_needs_short_messages() {
    let mut chan = channel(false, true);
    let r = determine_version(&mut chan, 2, 77);
    assert!(matches!(r, Err(ChannelError::MessageTypeNotSupported)));
    assert_eq!(chan.pending_count(), 0);
}

#[test]
fn protocol_errors_tell_what_went_wrong() {
    assert_eq!(
        v10::Hidpp10Error::UnsupportedResponse.message(),
        "the received response from the device is (partly) unsupported"
    );
    assert_eq!(
        v10::Hidpp10Error::RegisterAccess(v10::ErrorType::Busy).message(),
        "a HID++1.0 register access resulted in an error"
    );
    assert_eq!(
        v20::Hidpp20Error::Feature(v20::ErrorType::Busy).message(),
        "a HID++2.0 feature returned an error"
    );
    assert_eq!(
        v20::Hidpp20Error::from(ChannelError::NoResponse).message(),
        "the HID++ channel returned an error"
    );
}
