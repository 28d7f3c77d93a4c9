use hidpp::channel::HidppChannel;
use hidpp::channel::HidppMessage;
use hidpp::descriptor::ReportDescriptor;
use hidpp::feature::device_friendly_name::DeviceFriendlyNameFeatureV0;
use hidpp::feature::device_friendly_name::DeviceFriendlyNameLength;
use hidpp::feature::device_information::DeviceEntityType;
use hidpp::feature::device_information::DeviceInformationCapabilities;
use hidpp::feature::device_information::DeviceInformationFeature;
use hidpp::feature::device_information::DeviceTransport;
use hidpp::feature::device_type_and_name::DeviceType;
use hidpp::feature::device_type_and_name::DeviceTypeAndNameFeatureV0;
use hidpp::feature::feature_set;
use hidpp::feature::feature_set::FeatureSetFeatureV0;
use hidpp::feature::hires_wheel;
use hidpp::feature::hires_wheel::HiResWheelEvent;
use hidpp::feature::hires_wheel::HiResWheelFeatureV0;
use hidpp::feature::hires_wheel::WheelEventTarget;
use hidpp::feature::hires_wheel::WheelRatchetState;
use hidpp::feature::hires_wheel::WheelResolution;
use hidpp::feature::root;
use hidpp::feature::root::RootFeature;
use hidpp::feature::smartshift;
use hidpp::feature::smartshift::RatchetControlMode;
use hidpp::feature::smartshift::SmartShiftFeatureV0;
use hidpp::feature::thumbwheel::ThumbwheelCapabilities;
use hidpp::feature::thumbwheel::ThumbwheelDirection;
use hidpp::feature::thumbwheel::ThumbwheelEvent;
use hidpp::feature::thumbwheel::ThumbwheelFeatureV0;
use hidpp::feature::thumbwheel::ThumbwheelReportingMode;
use hidpp::feature::thumbwheel::ThumbwheelRotationStatus;
use hidpp::feature::unified_battery::BatteryCapabilities;
use hidpp::feature::unified_battery::BatteryEvent;
use hidpp::feature::unified_battery::BatteryInfo;
use hidpp::feature::unified_battery::BatteryLevel;
use hidpp::feature::unified_battery::BatteryStatus;
use hidpp::feature::unified_battery::UnifiedBatteryFeature;
use hidpp::feature::wireless_device_status::WirelessDeviceStatus;
use hidpp::feature::wireless_device_status::WirelessDeviceStatusEvent;
use hidpp::feature::wireless_device_status::WirelessDeviceStatusFeature;
use hidpp::feature::wireless_device_status::WirelessDeviceStatusReason;
use hidpp::feature::wireless_device_status::WirelessDeviceStatusRequest;
use hidpp::feature::CreatableFeature;
use hidpp::feature::EmittingFeature;
use hidpp::feature::FeatureType;
use hidpp::protocol::v20::ErrorType;
use hidpp::protocol::v20::Hidpp20Error;

fn channel() -> HidppChannel<u32> {
    HidppChannel::from_raw_channel(
        Some((true, true)),
        &ReportDescriptor { input_reports: vec![] },
        0x046d,
        0xc548,
    )
    .unwrap()
}

fn long(dev: u8, feature: u8, function_byte: u8, payload: &[u8]) -> HidppMessage {
    let mut d = [0u8; 19];
    d[0] = dev;
    d[1] = feature;
    d[2] = function_byte;
    d[3..3 + payload.len()].copy_from_slice(payload);
    HidppMessage::Long(d)
}

fn error_reply(dev: u8, feature: u8, function_byte: u8, code: u8) -> HidppMessage {
    HidppMessage::Short([dev, 0xff, feature, function_byte, code, 0])
}

#[test]
fn feature_type_is_read_from_the_high_bits() {
    let t = FeatureType::from(0x80);
    assert!(t.obsolete && !t.hidden && !t.engineering);
    assert!(!t.manufacturing_deactivatable && !t.compliance_deactivatable);
    let t = FeatureType::from(0x48);
    assert!(!t.obsolete && t.hidden && !t.engineering);
    assert!(!t.manufacturing_deactivatable && t.compliance_deactivatable);
    let t = FeatureType::from(0x37);
    assert!(!t.obsolete && !t.hidden && t.engineering);
    assert!(t.manufacturing_deactivatable && !t.compliance_deactivatable);
    let t = FeatureType::from(0x07);
    assert_eq!(u8::from(t), 0);
}

#[test]
fn feature_type_round_trip() {
    for raw in 0u8..=255 {
        let t = FeatureType::from(raw);
        assert_eq!(u8::from(t), raw & 0xf8);
        assert_eq!(FeatureType::from(u8::from(t)), t);
    }
}

#[test]
fn ping_comes_back_with_its_data() {
    let mut chan = channel();
    let root = RootFeature::new(&mut chan, 2, 0);
    assert_eq!(root.device_index, 2);
    let frame = root.ping(&mut chan, 0x5a, 3).unwrap();
    assert_eq!(frame, vec![0x10, 0x02, 0x00, 0x11, 0x00, 0x00, 0x5a]);
    let delivery = chan.dispatch(&[0x10, 0x02, 0x00, 0x11, 0x00, 0x00, 0x5a]).unwrap();
    assert_eq!(delivery.sender, Some(3));
    assert_eq!(RootFeature::ping_reply(delivery.message).unwrap(), 0x5a);
}

#[test]
fn root_looks_a_feature_up_by_its_id() {
    let mut chan = channel();
    let root = RootFeature { device_index: 2 };
    let frame = root.get_feature(&mut chan, 0x1d4b, 3).unwrap();
    assert_eq!(frame, vec![0x10, 0x02, 0x00, 0x01, 0x1d, 0x4b, 0x00]);
    let info = RootFeature::get_feature_reply(HidppMessage::Short([2, 0, 0x01, 9, 0x40, 3]))
        .unwrap()
        .unwrap();
    assert_eq!(
        info,
        root::FeatureInformation { index: 9, typ: FeatureType::from(0x40), version: 3 }
    );
    assert!(info.typ.hidden);
}

#[test]
fn root_lookup_with_index_zero_finds_nothing() {
    let r = RootFeature::get_feature_reply(HidppMessage::Short([2, 0, 0x01, 0, 0x40, 3])).unwrap();
    assert_eq!(r, None);
}

#[test]
fn feature_error_reaches_the_caller_of_a_feature() {
    let r = RootFeature::ping_reply(error_reply(2, 0, 0x11, 8));
    assert!(matches!(r, Err(Hidpp20Error::Feature(ErrorType::Busy))));
    let r = RootFeature::get_feature_reply(error_reply(2, 0, 0x01, 2));
    assert!(matches!(r, Err(Hidpp20Error::Feature(ErrorType::InvalidArgument))));
    let r = FeatureSetFeatureV0::count_reply(error_reply(2, 1, 0x01, 200));
    assert!(matches!(r, Err(Hidpp20Error::UnsupportedResponse)));
}

#[test]
fn feature_set_counts_and_tells_features() {
    let mut chan = channel();
    let feature = FeatureSetFeatureV0::new(&mut chan, 2, 1);
    assert_eq!(FeatureSetFeatureV0::ID, 0x0001);
    assert_eq!(feature_set::FEATURE_ID, 0x0001);
    assert_eq!(feature.count(&mut chan, 0).unwrap(), vec![0x10, 2, 1, 0x01, 0, 0, 0]);
    assert_eq!(feature.get_feature(&mut chan, 5, 0).unwrap(), vec![0x10, 2, 1, 0x11, 5, 0, 0]);
    assert_eq!(
        FeatureSetFeatureV0::count_reply(HidppMessage::Short([2, 1, 0x01, 23, 0, 0])).unwrap(),
        23
    );
    let info =
        FeatureSetFeatureV0::get_feature_reply(long(2, 1, 0x11, &[0x10, 0x04, 0x20, 3])).unwrap();
    assert_eq!(
        info,
        feature_set::FeatureInformation { id: 0x1004, typ: FeatureType::from(0x20), version: 3 }
    );
    assert!(info.typ.engineering);
}

#[test]
fn device_information_is_read() {
    let mut chan = channel();
    let feature = DeviceInformationFeature::new(&mut chan, 2, 3);
    assert_eq!(feature.get_device_info(&mut chan, 0).unwrap(), vec![0x10, 2, 3, 0x01, 0, 0, 0]);
    let response = long(
        2,
        3,
        0x01,
        &[3, 0xde, 0xad, 0xbe, 0xef, 0x99, 0x06, 0xb0, 0x23, 0x40, 0x82, 0, 0, 7, 1, 0],
    );
    let info = DeviceInformationFeature::get_device_info_reply(response).unwrap();
    assert_eq!(info.entity_count, 3);
    assert_eq!(info.unit_id, [0xde, 0xad, 0xbe, 0xef]);
    assert_eq!(
        info.transport,
        DeviceTransport { usb: false, e_quad: true, btle: true, bluetooth: false }
    );
    assert_eq!(info.model_id, [0xb023, 0x4082, 0x0000]);
    assert_eq!(info.extended_model_id, 7);
    assert_eq!(info.capabilities, DeviceInformationCapabilities { serial_number: true });
    assert_eq!(
        DeviceTransport::from(0x09),
        DeviceTransport { usb: true, e_quad: false, btle: false, bluetooth: true }
    );
    assert_eq!(
        DeviceInformationCapabilities::from(0xfe),
        DeviceInformationCapabilities { serial_number: false }
    );
}

#[test]
fn firmware_numbers_are_decoded_from_packed_decimals() {
    let mut chan = channel();
    let feature = DeviceInformationFeature { device_index: 2, feature_index: 3 };
    assert_eq!(feature.get_fw_info(&mut chan, 1, 0).unwrap(), vec![0x10, 2, 3, 0x11, 1, 0, 0]);
    let response = long(
        2,
        3,
        0x11,
        &[0, b'R', b'B', b'M', 0x24, 0x07, 0x12, 0x34, 0x01, 0xc5, 0x48, 1, 2, 3, 4, 5],
    );
    let info = DeviceInformationFeature::get_fw_info_reply(response).unwrap();
    assert_eq!(info.entity_type, DeviceEntityType::MainApplication);
    assert_eq!(info.firmware_prefix, "RBM");
    assert_eq!(info.firmware_number, 24);
    assert_eq!(info.revision, 7);
    assert_eq!(info.build, 1234);
    assert!(info.active);
    assert_eq!(info.transport_pid, 0xc548);
    assert_eq!(info.extra_version, [1, 2, 3, 4, 5]);
}

#[test]
fn firmware_info_that_cannot_be_read_is_unsupported() {
    let good = [1, b'B', b'O', b'T', 0x10, 0x00, 0x00, 0x01, 0x00, 0, 0, 0, 0, 0, 0, 0];
    assert!(DeviceInformationFeature::get_fw_info_reply(long(2, 3, 0x11, &good)).is_ok());
    let cases: [(usize, u8); 6] = [(0, 10), (2, 0xff), (4, 0x1a), (5, 0xa1), (6, 0xf0), (7, 0x0c)];
    for (at, value) in cases {
        let mut bad = good;
        bad[at] = value;
        let r = DeviceInformationFeature::get_fw_info_reply(long(2, 3, 0x11, &bad));
        assert!(matches!(r, Err(Hidpp20Error::UnsupportedResponse)), "byte {} = {:#x}", at, value);
    }
}

#[test]
fn serial_number_is_the_first_twelve_bytes() {
    let mut chan = channel();
    let feature = DeviceInformationFeature { device_index: 2, feature_index: 3 };
    assert_eq!(feature.get_serial_number(&mut chan, 0).unwrap(), vec![0x10, 2, 3, 0x21, 0, 0, 0]);
    let response = long(2, 3, 0x21, b"2218LZ0ABC12XYZ!");
    assert_eq!(DeviceInformationFeature::get_serial_number_reply(response).unwrap(), "2218LZ0ABC12");
    let mut bytes = *b"2218LZ0ABC12XYZ!";
    bytes[11] = 0x80;
    let r = DeviceInformationFeature::get_serial_number_reply(long(2, 3, 0x21, &bytes));
    assert!(matches!(r, Err(Hidpp20Error::UnsupportedResponse)));
}

#[test]
fn device_entity_types_have_their_codes() {
    assert_eq!(DeviceEntityType::try_from(1), Ok(DeviceEntityType::Bootloader));
    assert_eq!(DeviceEntityType::try_from(9), Ok(DeviceEntityType::MotorDrive));
    assert!(DeviceEntityType::try_from(10).is_err());
    assert_eq!(u8::from(DeviceEntityType::RgbCustomEffect), 8);
}

#[test]
fn device_type_and_name_is_read() {
    let mut chan = channel();
    let feature = DeviceTypeAndNameFeatureV0::new(&mut chan, 1, 4);
    assert_eq!(feature.get_device_name_count(&mut chan, 0).unwrap(), vec![0x10, 1, 4, 0x01, 0, 0, 0]);
    assert_eq!(feature.get_device_name(&mut chan, 16, 0).unwrap(), vec![0x10, 1, 4, 0x11, 16, 0, 0]);
    assert_eq!(feature.get_device_type(&mut chan, 0).unwrap(), vec![0x10, 1, 4, 0x21, 0, 0, 0]);
    assert_eq!(
        DeviceTypeAndNameFeatureV0::get_device_name_count_reply(HidppMessage::Short([1, 4, 0x01, 19, 0, 0]))
            .unwrap(),
        19
    );
    assert_eq!(
        DeviceTypeAndNameFeatureV0::get_device_name_reply(HidppMessage::Short([1, 4, 0x11, b'M', b'X', b' ']))
            .unwrap(),
        b"MX ".to_vec()
    );
    assert_eq!(
        DeviceTypeAndNameFeatureV0::get_device_name_reply(long(1, 4, 0x11, b"MX Master 3S\0\0\0\0")).unwrap(),
        b"MX Master 3S\0\0\0\0".to_vec()
    );
    assert_eq!(
        DeviceTypeAndNameFeatureV0::get_device_type_reply(HidppMessage::Short([1, 4, 0x21, 3, 0, 0])).unwrap(),
        DeviceType::Mouse
    );
    assert!(matches!(
        DeviceTypeAndNameFeatureV0::get_device_type_reply(HidppMessage::Short([1, 4, 0x21, 20, 0, 0])),
        Err(Hidpp20Error::UnsupportedResponse)
    ));
    assert_eq!(DeviceType::try_from(19), Ok(DeviceType::Adapter));
    assert_eq!(u8::from(DeviceType::Keyboard), 0);
}

#[test]
fn friendly_name_is_read_and_set() {
    let mut chan = channel();
    let feature = DeviceFriendlyNameFeatureV0::new(&mut chan, 1, 6);
    assert_eq!(feature.get_friendly_name_length(&mut chan, 0).unwrap(), vec![0x10, 1, 6, 0x01, 0, 0, 0]);
    assert_eq!(feature.get_friendly_name(&mut chan, 15, 0).unwrap(), vec![0x10, 1, 6, 0x11, 15, 0, 0]);
    assert_eq!(feature.get_default_friendly_name(&mut chan, 0, 0).unwrap(), vec![0x10, 1, 6, 0x21, 0, 0, 0]);
    assert_eq!(feature.reset_friendly_name(&mut chan, 0).unwrap(), vec![0x10, 1, 6, 0x41, 0, 0, 0]);
    let chunk = *b"Desk mouse\0\0\0\0\0";
    let mut expected = vec![0x11, 1, 6, 0x31, 7];
    expected.extend_from_slice(&chunk);
    assert_eq!(feature.set_friendly_name(&mut chan, 7, chunk, 0).unwrap(), expected);

    assert_eq!(
        DeviceFriendlyNameFeatureV0::get_friendly_name_length_reply(HidppMessage::Short([1, 6, 0x01, 10, 24, 12]))
            .unwrap(),
        DeviceFriendlyNameLength { name_length: 10, name_max_length: 24, default_name_length: 12 }
    );
    let mut payload = vec![0u8];
    payload.extend_from_slice(&chunk);
    assert_eq!(
        DeviceFriendlyNameFeatureV0::get_friendly_name_reply(long(1, 6, 0x11, &payload)).unwrap(),
        chunk
    );
    assert_eq!(
        DeviceFriendlyNameFeatureV0::get_default_friendly_name_reply(long(1, 6, 0x21, &payload)).unwrap(),
        chunk
    );
    assert_eq!(
        DeviceFriendlyNameFeatureV0::set_friendly_name_reply(HidppMessage::Short([1, 6, 0x31, 10, 0, 0]))
            .unwrap(),
        10
    );
    assert_eq!(
        DeviceFriendlyNameFeatureV0::reset_friendly_name_reply(HidppMessage::Short([1, 6, 0x41, 12, 0, 0]))
            .unwrap(),
        12
    );
}

#[test]
fn smartshift_mode_is_read_and_set() {
    let mut chan = channel();
    let feature = SmartShiftFeatureV0::new(&mut chan, 1, 8);
    assert_eq!(feature.get_ratchet_control_mode(&mut chan, 0).unwrap(), vec![0x10, 1, 8, 0x01, 0, 0, 0]);
    assert_eq!(
        feature
            .set_ratchet_control_mode(&mut chan, Some(smartshift::WheelMode::Ratchet), Some(0x10), None, 0)
            .unwrap(),
        vec![0x10, 1, 8, 0x11, 2, 0x10, 0]
    );
    assert_eq!(
        feature.set_ratchet_control_mode(&mut chan, None, None, Some(0xff), 0).unwrap(),
        vec![0x10, 1, 8, 0x11, 0, 0, 0xff]
    );
    assert_eq!(
        SmartShiftFeatureV0::get_ratchet_control_mode_reply(HidppMessage::Short([1, 8, 0x01, 1, 14, 15]))
            .unwrap(),
        RatchetControlMode {
            wheel_mode: smartshift::WheelMode::Freespin,
            auto_disengage: 14,
            auto_disengage_default: 15
        }
    );
    for raw in [0u8, 3, 0xff] {
        assert!(matches!(
            SmartShiftFeatureV0::get_ratchet_control_mode_reply(HidppMessage::Short([1, 8, 0x01, raw, 14, 15])),
            Err(Hidpp20Error::UnsupportedResponse)
        ));
    }
    assert!(SmartShiftFeatureV0::set_ratchet_control_mode_reply(HidppMessage::Short([1, 8, 0x11, 0, 0, 0]))
        .is_ok());
    assert!(matches!(
        SmartShiftFeatureV0::set_ratchet_control_mode_reply(error_reply(1, 8, 0x11, 3)),
        Err(Hidpp20Error::Feature(ErrorType::OutOfRange))
    ));
}

#[test]
fn hires_wheel_is_read_and_set() {
    let mut chan = channel();
    let feature = HiResWheelFeatureV0::new(&mut chan, 1, 9);
    assert_eq!(chan.listeners(), &vec![feature.msg_listener_hdl]);
    assert_eq!(feature.msg_listener_hdl(), feature.msg_listener_hdl);
    assert_eq!(feature.get_wheel_capabilities(&mut chan, 0).unwrap(), vec![0x10, 1, 9, 0x01, 0, 0, 0]);
    assert_eq!(feature.get_wheel_mode(&mut chan, 0).unwrap(), vec![0x10, 1, 9, 0x11, 0, 0, 0]);
    assert_eq!(feature.get_ratchet_switch_state(&mut chan, 0).unwrap(), vec![0x10, 1, 9, 0x31, 0, 0, 0]);
    assert_eq!(
        feature
            .set_wheel_mode(&mut chan, WheelEventTarget::Diverted, WheelResolution::High, true, 0)
            .unwrap(),
        vec![0x10, 1, 9, 0x21, 0x07, 0, 0]
    );
    assert_eq!(
        feature
            .set_wheel_mode(&mut chan, WheelEventTarget::Native, WheelResolution::High, false, 0)
            .unwrap(),
        vec![0x10, 1, 9, 0x21, 0x02, 0, 0]
    );
    let caps =
        HiResWheelFeatureV0::get_wheel_capabilities_reply(long(1, 9, 0x01, &[8, 0x0c, 24, 20])).unwrap();
    assert_eq!(
        caps,
        hires_wheel::WheelCapabilities {
            multiplier: 8,
            has_invert: true,
            has_switch: true,
            ratches_per_rotation: 24,
            wheel_diameter: 20
        }
    );
    let caps =
        HiResWheelFeatureV0::get_wheel_capabilities_reply(long(1, 9, 0x01, &[8, 0x04, 24, 20])).unwrap();
    assert!(!caps.has_invert && caps.has_switch);
    let mode = HiResWheelFeatureV0::get_wheel_mode_reply(HidppMessage::Short([1, 9, 0x11, 0x05, 0, 0])).unwrap();
    assert_eq!(
        mode,
        hires_wheel::WheelMode {
            inverted: true,
            resolution: WheelResolution::Low,
            target: WheelEventTarget::Diverted
        }
    );
    let mode = HiResWheelFeatureV0::set_wheel_mode_reply(HidppMessage::Short([1, 9, 0x21, 0xfa, 0, 0])).unwrap();
    assert_eq!(
        mode,
        hires_wheel::WheelMode {
            inverted: false,
            resolution: WheelResolution::High,
            target: WheelEventTarget::Native
        }
    );
    assert_eq!(
        HiResWheelFeatureV0::get_ratchet_switch_state_reply(HidppMessage::Short([1, 9, 0x31, 0xff, 0, 0]))
            .unwrap(),
        WheelRatchetState::Ratchet
    );
    assert_eq!(
        HiResWheelFeatureV0::get_ratchet_switch_state_reply(HidppMessage::Short([1, 9, 0x31, 0xfe, 0, 0]))
            .unwrap(),
        WheelRatchetState::Freespin
    );
    assert_eq!(chan.pending_count(), 5);
    assert!(feature.release(&mut chan));
    assert!(!feature.release(&mut chan));
    assert!(chan.listeners().is_empty());
    assert_eq!(chan.pending_count(), 5);
    assert_eq!(chan.get_sw_id().to_lo(), 1);
}

#[test]
fn hires_wheel_events_are_decoded() {
    let feature = HiResWheelFeatureV0 { device_index: 1, feature_index: 9, msg_listener_hdl: 4 };
    let moved = HidppMessage::Short([1, 9, 0x00, 0x13, 0xff, 0xfe]);
    match feature.decode_event(moved, false) {
        Some(HiResWheelEvent::WheelMovement(data)) => {
            assert_eq!(data.resolution, WheelResolution::High);
            assert_eq!(data.periods.to_lo(), 3);
            assert_eq!(data.delta_vertical, -2);
        },
        other => panic!("no wheel movement: {:?}", other),
    }
    let moved = HidppMessage::Short([1, 9, 0x00, 0x0f, 0x01, 0x02]);
    match feature.decode_event(moved, false) {
        Some(HiResWheelEvent::WheelMovement(data)) => {
            assert_eq!(data.resolution, WheelResolution::Low);
            assert_eq!(data.periods.to_lo(), 15);
            assert_eq!(data.delta_vertical, 258);
        },
        other => panic!("no wheel movement: {:?}", other),
    }
    assert_eq!(
        feature.decode_event(HidppMessage::Short([1, 9, 0x10, 0x01, 0, 0]), false),
        Some(HiResWheelEvent::RatchetSwitch(WheelRatchetState::Ratchet))
    );
    assert_eq!(
        feature.decode_event(HidppMessage::Short([1, 9, 0x10, 0x02, 0, 0]), false),
        Some(HiResWheelEvent::RatchetSwitch(WheelRatchetState::Freespin))
    );
}

#[test]
fn messages_that_are_no_notifications_are_no_events() {
    let feature = HiResWheelFeatureV0 { device_index: 1, feature_index: 9, msg_listener_hdl: 4 };
    let moved = HidppMessage::Short([1, 9, 0x00, 0x13, 0, 1]);
    assert!(feature.decode_event(moved, false).is_some());
    assert_eq!(feature.decode_event(moved, true), None);
    assert_eq!(feature.decode_event(HidppMessage::Short([2, 9, 0x00, 0x13, 0, 1]), false), None);
    assert_eq!(feature.decode_event(HidppMessage::Short([1, 8, 0x00, 0x13, 0, 1]), false), None);
    assert_eq!(feature.decode_event(HidppMessage::Short([1, 9, 0x01, 0x13, 0, 1]), false), None);
    assert_eq!(feature.decode_event(HidppMessage::Short([1, 9, 0x20, 0x13, 0, 1]), false), None);

    let battery = UnifiedBatteryFeature { device_index: 1, feature_index: 5, msg_listener_hdl: 4 };
    let update = HidppMessage::Short([1, 5, 0x00, 80, 4, 1]);
    assert!(battery.decode_event(update, false).is_some());
    assert_eq!(battery.decode_event(update, true), None);
    assert_eq!(battery.decode_event(HidppMessage::Short([1, 5, 0x10, 80, 4, 1]), false), None);
    assert_eq!(battery.decode_event(HidppMessage::Short([1, 5, 0x01, 80, 4, 1]), false), None);
    assert_eq!(battery.decode_event(HidppMessage::Short([3, 5, 0x00, 80, 4, 1]), false), None);
    assert_eq!(battery.decode_event(HidppMessage::Short([1, 6, 0x00, 80, 4, 1]), false), None);
}

#[test]
fn thumbwheel_is_read_and_set() {
    let mut chan = channel();
    let feature = ThumbwheelFeatureV0::new(&mut chan, 1, 10);
    assert_eq!(feature.get_thumbwheel_info(&mut chan, 0).unwrap(), vec![0x10, 1, 10, 0x01, 0, 0, 0]);
    assert_eq!(feature.get_thumbwheel_status(&mut chan, 0).unwrap(), vec![0x10, 1, 10, 0x11, 0, 0, 0]);
    assert_eq!(
        feature.set_thumbwheel_reporting(&mut chan, ThumbwheelReportingMode::Diverted, true, 0).unwrap(),
        vec![0x10, 1, 10, 0x21, 1, 1, 0]
    );
    assert_eq!(
        feature.set_thumbwheel_reporting(&mut chan, ThumbwheelReportingMode::Native, false, 0).unwrap(),
        vec![0x10, 1, 10, 0x21, 0, 0, 0]
    );
    let info = ThumbwheelFeatureV0::get_thumbwheel_info_reply(long(
        1,
        10,
        0x01,
        &[0x00, 0x12, 0x00, 0x78, 0x03, 0x0d, 0x03, 0xe8],
    ))
    .unwrap();
    assert_eq!(info.native_resolution, 18);
    assert_eq!(info.diverted_resolution, 120);
    assert_eq!(info.time_unit, 1000);
    assert_eq!(info.default_direction, ThumbwheelDirection::PositiveWhenRightOrFront);
    assert_eq!(
        info.capabilities,
        ThumbwheelCapabilities { time_stamp: true, touch: false, proxy: true, single_tap: true }
    );
    let status =
        ThumbwheelFeatureV0::get_thumbwheel_status_reply(HidppMessage::Short([1, 10, 0x11, 1, 0x05, 0])).unwrap();
    assert_eq!(status.reporting_mode, ThumbwheelReportingMode::Diverted);
    assert!(status.direction_inverted && !status.touch && status.proxy);
    assert!(matches!(
        ThumbwheelFeatureV0::get_thumbwheel_status_reply(HidppMessage::Short([1, 10, 0x11, 2, 0x05, 0])),
        Err(Hidpp20Error::UnsupportedResponse)
    ));
    assert!(ThumbwheelFeatureV0::set_thumbwheel_reporting_reply(HidppMessage::Short([1, 10, 0x21, 0, 0, 0]))
        .is_ok());
    assert_eq!(
        ThumbwheelCapabilities::from(0x02),
        ThumbwheelCapabilities { time_stamp: false, touch: true, proxy: false, single_tap: false }
    );
}

#[test]
fn thumbwheel_events_are_decoded() {
    let feature = ThumbwheelFeatureV0 { device_index: 1, feature_index: 10, msg_listener_hdl: 4 };
    let update = long(1, 10, 0x00, &[0xff, 0x9c, 0x01, 0x00, 2, 0x0a]);
    match feature.decode_event(update, false) {
        Some(ThumbwheelEvent::StatusUpdate(data)) => {
            assert_eq!(data.rotation, -100);
            assert_eq!(data.time_elapsed, 256);
            assert_eq!(data.rotation_status, ThumbwheelRotationStatus::Active);
            assert!(data.touch && !data.proxy && data.single_tap);
        },
        other => panic!("no status update: {:?}", other),
    }
    let update = long(1, 10, 0x00, &[0x7f, 0xff, 0, 0, 4, 0]);
    assert_eq!(feature.decode_event(update, false), None);
    let update = long(1, 10, 0x00, &[0x80, 0x00, 0, 0, 3, 0x04]);
    match feature.decode_event(update, false) {
        Some(ThumbwheelEvent::StatusUpdate(data)) => {
            assert_eq!(data.rotation, i16::MIN);
            assert_eq!(data.rotation_status, ThumbwheelRotationStatus::Stop);
            assert!(!data.touch && data.proxy && !data.single_tap);
        },
        other => panic!("no status update: {:?}", other),
    }
}

#[test]
fn battery_is_read() {
    let mut chan = channel();
    let feature = UnifiedBatteryFeature::new(&mut chan, 1, 5);
    assert_eq!(UnifiedBatteryFeature::ID, 0x1004);
    assert_eq!(feature.get_battery_capabilities(&mut chan, 0).unwrap(), vec![0x10, 1, 5, 0x01, 0, 0, 0]);
    assert_eq!(feature.get_battery_info(&mut chan, 0).unwrap(), vec![0x10, 1, 5, 0x11, 0, 0, 0]);
    let caps =
        UnifiedBatteryFeature::get_battery_capabilities_reply(HidppMessage::Short([1, 5, 0x01, 0x0d, 0x02, 0]))
            .unwrap();
    assert_eq!(
        caps.reported_levels,
        vec![BatteryLevel::Critical, BatteryLevel::Good, BatteryLevel::Full]
    );
    assert!(!caps.rechargeable && caps.percentage);
    assert!(caps.reports(BatteryLevel::Good));
    assert!(!caps.reports(BatteryLevel::Low));
    let caps = BatteryCapabilities::from([0xf2, 0x01]);
    assert_eq!(caps.reported_levels, vec![BatteryLevel::Low]);
    assert!(caps.rechargeable && !caps.percentage);
    assert_eq!(BatteryCapabilities::from_bytes([0x0f, 0x03]).reported_levels.len(), 4);

    assert_eq!(
        UnifiedBatteryFeature::get_battery_info_reply(HidppMessage::Short([1, 5, 0x11, 80, 4, 1])).unwrap(),
        BatteryInfo { charging_percentage: 80, level: BatteryLevel::Good, status: BatteryStatus::Charging }
    );
    for (level, status) in [(3u8, 1u8), (0, 1), (16, 1), (4, 5)] {
        assert!(matches!(
            UnifiedBatteryFeature::get_battery_info_reply(HidppMessage::Short([1, 5, 0x11, 80, level, status])),
            Err(Hidpp20Error::UnsupportedResponse)
        ));
    }
    assert_eq!(
        feature.decode_event(HidppMessage::Short([1, 5, 0x00, 15, 1, 0]), false),
        Some(BatteryEvent::InfoUpdate(BatteryInfo {
            charging_percentage: 15,
            level: BatteryLevel::Critical,
            status: BatteryStatus::Discharging
        }))
    );
    assert_eq!(feature.decode_event(HidppMessage::Short([1, 5, 0x00, 15, 5, 0]), false), None);
    assert_eq!(u8::from(BatteryLevel::Full), 8);
    assert_eq!(BatteryStatus::try_from(4), Ok(BatteryStatus::Error));
}

#[test]
fn wireless_device_status_events_are_decoded() {
    let mut chan = channel();
    let feature = WirelessDeviceStatusFeature::new(&mut chan, 1, 12);
    assert_eq!(WirelessDeviceStatusFeature::ID, 0x1d4b);
    assert!(chan.has_msg_listener(feature.msg_listener_hdl));
    match feature.decode_event(HidppMessage::Short([1, 12, 0x00, 1, 1, 1]), false) {
        Some(WirelessDeviceStatusEvent::StatusBroadcast(data)) => {
            assert_eq!(data.status, WirelessDeviceStatus::Reconnection);
            assert_eq!(data.request, WirelessDeviceStatusRequest::SoftwareReconfigurationNeeded);
            assert_eq!(data.reason, WirelessDeviceStatusReason::PowerSwitchActivated);
        },
        other => panic!("no broadcast: {:?}", other),
    }
    assert!(feature.decode_event(HidppMessage::Short([1, 12, 0x00, 0, 0, 0]), false).is_some());
    assert_eq!(feature.decode_event(HidppMessage::Short([1, 12, 0x00, 2, 0, 0]), false), None);
    assert_eq!(feature.decode_event(HidppMessage::Short([1, 12, 0x00, 0, 2, 0]), false), None);
    assert_eq!(feature.decode_event(HidppMessage::Short([1, 12, 0x00, 0, 0, 2]), false), None);
    assert_eq!(feature.decode_event(HidppMessage::Short([1, 12, 0x00, 1, 1, 1]), true), None);
}

#[test]
fn feature_ids_are_the_protocol_ids() {
    assert_eq!(RootFeature::ID, 0x0000);
    assert_eq!(DeviceInformationFeature::ID, 0x0003);
    assert_eq!(DeviceTypeAndNameFeatureV0::ID, 0x0005);
    assert_eq!(DeviceFriendlyNameFeatureV0::ID, 0x0007);
    assert_eq!(SmartShiftFeatureV0::ID, 0x2110);
    assert_eq!(HiResWheelFeatureV0::ID, 0x2121);
    assert_eq!(ThumbwheelFeatureV0::ID, 0x2150);
    assert_eq!(RootFeature::STARTING_VERSION, 0);
    assert_eq!(ThumbwheelFeatureV0::STARTING_VERSION, 0);
}

#[test]
fn requests_of_a_feature_carry_the_software_id_of_the_channel() {
    let mut chan = channel();
    chan.set_rotating_sw_id(true);
    chan.set_sw_id(hidpp::nibble::U4::from_lo(14));
    let root = RootFeature { device_index: 2 };
    assert_eq!(root.ping(&mut chan, 0, 0).unwrap(), vec![0x10, 2, 0, 0x1e, 0, 0, 0]);
    assert_eq!(root.ping(&mut chan, 0, 0).unwrap(), vec![0x10, 2, 0, 0x1f, 0, 0, 0]);
    assert_eq!(root.ping(&mut chan, 0, 0).unwrap(), vec![0x10, 2, 0, 0x11, 0, 0, 0]);
    assert_eq!(chan.pending_count(), 3);
}
