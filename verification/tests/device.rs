use hidpp::channel::HidppChannel;
use hidpp::channel::HidppMessage;
use hidpp::descriptor::ReportDescriptor;
use hidpp::device::Device;
use hidpp::device::DeviceError;
use hidpp::device::EnumerationNext;
use hidpp::device::FeatureEnumeration;
use hidpp::device::FeatureInstance;
use hidpp::feature::feature_set::FeatureSetFeatureV0;
use hidpp::feature::registry::lookup;
use hidpp::feature::registry::lookup_version;
use hidpp::feature::registry::FeatureKind;
use hidpp::feature::registry::FeatureVersion;
use hidpp::feature::root::RootFeature;
use hidpp::feature::smartshift::SmartShiftFeatureV0;
use hidpp::protocol::v20::ErrorType;
use hidpp::protocol::v20::Hidpp20Error;
use hidpp::protocol::ProtocolVersion;

fn channel() -> HidppChannel<u32> {
    HidppChannel::from_raw_channel(
        Some((true, true)),
        &ReportDescriptor { input_reports: vec![] },
        0x046d,
        0xc548,
    )
    .unwrap()
}

fn v20() -> Option<ProtocolVersion> {
    Some(ProtocolVersion::V20 { protocol_num: 4, target_sw: 3 })
}

fn long(dev: u8, feature: u8, function_byte: u8, payload: &[u8]) -> HidppMessage {
    let mut d = [0u8; 19];
    d[0] = dev;
    d[1] = feature;
    d[2] = function_byte;
    d[3..3 + payload.len()].copy_from_slice(payload);
    HidppMessage::Long(d)
}

#[test]
fn known_features_have_their_names() {
    assert_eq!(lookup(0x0000).unwrap().name, "Root");
    assert_eq!(lookup(0x0001).unwrap().name, "FeatureSet");
    assert_eq!(lookup(0x1004).unwrap().name, "UnifiedBattery");
    assert_eq!(lookup(0x2110).unwrap().name, "SmartShiftWheel");
    assert_eq!(lookup(0x8320).unwrap().name, "HeadsetOut");
    assert_eq!(lookup(0x0002).unwrap().name, "FeatureInfo");
    assert!(lookup(0x0009).is_none());
    assert!(lookup(0xffff).is_none());
}

#[test]
fn known_features_have_their_implementations() {
    assert_eq!(
        lookup(0x2150).unwrap().versions,
        vec![FeatureVersion { starting_version: 0, producer: FeatureKind::Thumbwheel }]
    );
    assert_eq!(
        lookup(0x1d4b).unwrap().versions,
        vec![FeatureVersion { starting_version: 0, producer: FeatureKind::WirelessDeviceStatus }]
    );
    assert!(lookup(0x0002).unwrap().versions.is_empty());
    assert!(lookup(0x2111).unwrap().versions.is_empty());
}

#[test]
fn lookup_by_version_finds_what_supports_the_version() {
    assert_eq!(
        lookup_version(0x0003, 0),
        Some(vec![FeatureVersion { starting_version: 0, producer: FeatureKind::DeviceInformation }])
    );
    assert_eq!(
        lookup_version(0x0003, 4),
        Some(vec![FeatureVersion { starting_version: 0, producer: FeatureKind::DeviceInformation }])
    );
    assert_eq!(lookup_version(0x0004, 1), Some(vec![]));
    assert_eq!(lookup_version(0x0009, 1), None);
}

#[test]
fn device_without_a_version_is_not_found() {
    let mut chan = channel();
    assert!(matches!(Device::new(&mut chan, 2, None), Err(DeviceError::DeviceNotFound)));
}

#[test]
fn hidpp10_device_is_not_supported() {
    let mut chan = channel();
    assert!(matches!(
        Device::new(&mut chan, 2, Some(ProtocolVersion::V10)),
        Err(DeviceError::UnsupportedProtocolVersion)
    ));
    assert_eq!(DeviceError::DeviceNotFound.message(), "there is no device with the specified device index");
    assert_eq!(
        DeviceError::UnsupportedProtocolVersion.message(),
        "the device does not support HID++2.0 or newer"
    );
}

#[test]
fn new_device_has_the_root_feature() {
    let mut chan = channel();
    let device = Device::new(&mut chan, 2, v20()).unwrap();
    assert_eq!(device.device_index(), 2);
    assert_eq!(device.protocol_version(), ProtocolVersion::V20 { protocol_num: 4, target_sw: 3 });
    assert_eq!(device.root(), RootFeature { device_index: 2 });
    assert!(device.provides_feature(FeatureKind::Root));
    assert!(!device.provides_feature(FeatureKind::FeatureSet));
    assert_eq!(device.get_feature(FeatureKind::Thumbwheel), None);
    assert!(chan.listeners().is_empty());
}

#[test]
fn added_feature_takes_the_place_of_its_kind() {
    let mut chan = channel();
    let mut device = Device::new(&mut chan, 2, v20()).unwrap();
    let first = device.add_feature(&mut chan, FeatureKind::SmartShift, 8);
    assert_eq!(
        first,
        FeatureInstance::SmartShift(SmartShiftFeatureV0 { device_index: 2, feature_index: 8 })
    );
    assert_eq!(first.kind(), FeatureKind::SmartShift);
    assert_eq!(first.listener(), None);
    assert_eq!(device.get_feature(FeatureKind::SmartShift), Some(first));
    let second = FeatureInstance::SmartShift(SmartShiftFeatureV0 { device_index: 2, feature_index: 9 });
    assert_eq!(device.add_feature_instance(second), second);
    assert_eq!(device.get_feature(FeatureKind::SmartShift), Some(second));
    assert_eq!(device.root(), RootFeature { device_index: 2 });
}

#[test]
fn emitting_feature_registers_its_listener() {
    let mut chan = channel();
    let mut device = Device::new(&mut chan, 2, v20()).unwrap();
    let battery = device.add_feature(&mut chan, FeatureKind::UnifiedBattery, 5);
    let hdl = battery.listener().unwrap();
    assert_eq!(chan.listeners(), &vec![hdl]);
    let wheel = FeatureInstance::new(FeatureKind::HiResWheel, &mut chan, 2, 9);
    assert_eq!(wheel.kind(), FeatureKind::HiResWheel);
    assert_eq!(chan.listeners(), &vec![hdl, wheel.listener().unwrap()]);
}

#[test]
fn enumeration_without_feature_set_ends_with_none() {
    let mut chan = channel();
    let mut device = Device::new(&mut chan, 2, v20()).unwrap();
    let (state, frame) = device.enumerate_features(&mut chan, 1).unwrap();
    assert_eq!(state, FeatureEnumeration::Lookup);
    assert_eq!(frame, vec![0x10, 2, 0, 0x01, 0x00, 0x01, 0x00]);
    let delivery = chan.dispatch(&[0x10, 2, 0, 0x01, 0, 0, 0]).unwrap();
    assert_eq!(delivery.sender, Some(1));
    let step = device.continue_enumeration(&mut chan, state, delivery.message, 2);
    assert!(step.installed.is_empty());
    assert!(matches!(step.outcome, Ok(EnumerationNext::Done(None))));
    assert!(!device.provides_feature(FeatureKind::FeatureSet));
    assert_eq!(chan.pending_count(), 0);
}

#[test]
fn enumeration_installs_what_the_registry_knows() {
    let mut chan = channel();
    let mut device = Device::new(&mut chan, 2, v20()).unwrap();
    let (state, _) = device.enumerate_features(&mut chan, 1).unwrap();

    let step = device.continue_enumeration(&mut chan, state, HidppMessage::Short([2, 0, 0x01, 1, 0, 2]), 2);
    let feature_set = FeatureSetFeatureV0 { device_index: 2, feature_index: 1 };
    assert_eq!(step.installed, vec![FeatureInstance::FeatureSet(feature_set)]);
    let (state, frame) = match step.outcome {
        Ok(EnumerationNext::Request(state, frame)) => (state, frame),
        other => panic!("no request: {:?}", other),
    };
    assert_eq!(state, FeatureEnumeration::Count { feature_set });
    assert_eq!(frame, vec![0x10, 2, 1, 0x01, 0, 0, 0]);

    let step = device.continue_enumeration(&mut chan, state, HidppMessage::Short([2, 1, 0x01, 4, 0, 0]), 3);
    assert!(step.installed.is_empty());
    let (state, frame) = match step.outcome {
        Ok(EnumerationNext::Request(state, frame)) => (state, frame),
        other => panic!("no request: {:?}", other),
    };
    assert_eq!(
        state,
        FeatureEnumeration::Feature { feature_set, count: 4, index: 1, features: vec![] }
    );
    assert_eq!(frame, vec![0x10, 2, 1, 0x11, 1, 0, 0]);

    // The feature set feature itself, at its own index: nothing is installed.
    let step = device.continue_enumeration(&mut chan, state, long(2, 1, 0x11, &[0x00, 0x01, 0, 2]), 4);
    assert!(step.installed.is_empty());
    let (state, frame) = match step.outcome {
        Ok(EnumerationNext::Request(state, frame)) => (state, frame),
        other => panic!("no request: {:?}", other),
    };
    assert_eq!(frame, vec![0x10, 2, 1, 0x11, 2, 0, 0]);

    // The unified battery feature, which emits events.
    let step = device.continue_enumeration(&mut chan, state, long(2, 1, 0x11, &[0x10, 0x04, 0, 3]), 5);
    assert_eq!(step.installed.len(), 1);
    assert_eq!(step.installed[0].kind(), FeatureKind::UnifiedBattery);
    assert_eq!(Some(step.installed[0]), device.get_feature(FeatureKind::UnifiedBattery));
    assert_eq!(chan.listeners(), &vec![step.installed[0].listener().unwrap()]);
    let (state, frame) = match step.outcome {
        Ok(EnumerationNext::Request(state, frame)) => (state, frame),
        other => panic!("no request: {:?}", other),
    };
    assert_eq!(frame, vec![0x10, 2, 1, 0x11, 3, 0, 0]);

    // A feature that the registry knows by name only.
    let step = device.continue_enumeration(&mut chan, state, long(2, 1, 0x11, &[0x1b, 0x04, 0x40, 5]), 6);
    assert!(step.installed.is_empty());
    let (state, frame) = match step.outcome {
        Ok(EnumerationNext::Request(state, frame)) => (state, frame),
        other => panic!("no request: {:?}", other),
    };
    assert_eq!(frame, vec![0x10, 2, 1, 0x11, 4, 0, 0]);

    // The last feature: the smartshift feature.
    let step = device.continue_enumeration(&mut chan, state, long(2, 1, 0x11, &[0x21, 0x10, 0, 0]), 7);
    assert_eq!(
        step.installed,
        vec![FeatureInstance::SmartShift(SmartShiftFeatureV0 { device_index: 2, feature_index: 4 })]
    );
    let features = match step.outcome {
        Ok(EnumerationNext::Done(Some(features))) => features,
        other => panic!("not done: {:?}", other),
    };
    let ids: Vec<u16> = features.iter().map(|f| f.id).collect();
    assert_eq!(ids, vec![0x0001, 0x1004, 0x1b04, 0x2110]);
    let versions: Vec<u8> = features.iter().map(|f| f.version).collect();
    assert_eq!(versions, vec![2, 3, 5, 0]);
    assert!(features[2].typ.hidden);
    assert!(device.provides_feature(FeatureKind::Root));
    assert!(device.provides_feature(FeatureKind::FeatureSet));
    assert!(device.provides_feature(FeatureKind::UnifiedBattery));
    assert!(device.provides_feature(FeatureKind::SmartShift));
    assert!(!device.provides_feature(FeatureKind::Thumbwheel));
}

#[test]
fn enumeration_with_no_features_ends_with_an_empty_list() {
    let mut chan = channel();
    let mut device = Device::new(&mut chan, 2, v20()).unwrap();
    let feature_set = FeatureSetFeatureV0 { device_index: 2, feature_index: 1 };
    let step = device.continue_enumeration(
        &mut chan,
        FeatureEnumeration::Count { feature_set },
        HidppMessage::Short([2, 1, 0x01, 0, 0, 0]),
        3,
    );
    assert!(matches!(step.outcome, Ok(EnumerationNext::Done(Some(ref f))) if f.is_empty()));
    assert_eq!(chan.pending_count(), 0);
}

#[test]
fn enumeration_ends_with_the_error_of_a_response() {
    let mut chan = channel();
    let mut device = Device::new(&mut chan, 2, v20()).unwrap();
    let feature_set = FeatureSetFeatureV0 { device_index: 2, feature_index: 1 };
    let error = HidppMessage::Short([2, 0xff, 1, 0x11, 6, 0]);
    let state = FeatureEnumeration::Feature { feature_set, count: 4, index: 2, features: vec![] };
    let step = device.continue_enumeration(&mut chan, state, error, 3);
    assert!(step.installed.is_empty());
    assert!(matches!(step.outcome, Err(Hidpp20Error::Feature(ErrorType::InvalidFeatureIndex))));
    let step = device.continue_enumeration(&mut chan, FeatureEnumeration::Lookup, error, 3);
    assert!(matches!(step.outcome, Err(Hidpp20Error::Feature(ErrorType::InvalidFeatureIndex))));
    let step = device.continue_enumeration(&mut chan, FeatureEnumeration::Count { feature_set }, error, 3);
    assert!(matches!(step.outcome, Err(Hidpp20Error::Feature(ErrorType::InvalidFeatureIndex))));
    assert_eq!(chan.pending_count(), 0);
}

#[test]
fn channel_error_becomes_a_device_error() {
    let error = DeviceError::from(hidpp::channel::ChannelError::NoResponse);
    assert!(matches!(error, DeviceError::Channel(hidpp::channel::ChannelError::NoResponse)));
    assert_eq!(error.message(), "the HID++ channel returned an error");
}

#[test]
fn replaced_feature_gives_up_its_listener() {
    let mut chan = channel();
    let mut device = Device::new(&mut chan, 2, v20()).unwrap();
    let first = device.add_feature(&mut chan, FeatureKind::Thumbwheel, 10);
    let wheel = device.add_feature(&mut chan, FeatureKind::HiResWheel, 9);
    assert_eq!(chan.listeners(), &vec![first.listener().unwrap(), wheel.listener().unwrap()]);
    let second = device.add_feature(&mut chan, FeatureKind::Thumbwheel, 11);
    assert_eq!(chan.listeners(), &vec![wheel.listener().unwrap(), second.listener().unwrap()]);
    assert_eq!(device.get_feature(FeatureKind::Thumbwheel), Some(second));
    assert_eq!(device.get_feature(FeatureKind::HiResWheel), Some(wheel));
}

#[test]
fn second_enumeration_leaves_as_many_listeners_as_the_first() {
    let mut chan = channel();
    let mut device = Device::new(&mut chan, 2, v20()).unwrap();
    let feature_set = FeatureSetFeatureV0 { device_index: 2, feature_index: 1 };
    for round in 0..2 {
        let state = FeatureEnumeration::Feature { feature_set, count: 2, index: 2, features: vec![] };
        let step = device.continue_enumeration(&mut chan, state, long(2, 1, 0x11, &[0x21, 0x21, 0, 0]), 5);
        assert_eq!(step.installed.len(), 1, "round {}", round);
        assert_eq!(step.installed[0].kind(), FeatureKind::HiResWheel);
        assert!(matches!(step.outcome, Ok(EnumerationNext::Done(Some(ref f))) if f.len() == 1));
        assert_eq!(chan.listeners(), &vec![step.installed[0].listener().unwrap()]);
    }
}

#[test]
fn released_device_leaves_no_listener_of_its_features() {
    let mut chan = channel();
    let other = chan.add_msg_listener_from(7);
    let mut device = Device::new(&mut chan, 2, v20()).unwrap();
    device.add_feature(&mut chan, FeatureKind::Thumbwheel, 10);
    device.add_feature(&mut chan, FeatureKind::SmartShift, 8);
    device.add_feature(&mut chan, FeatureKind::UnifiedBattery, 5);
    let last = chan.add_msg_listener_from(9);
    assert_eq!(chan.listeners().len(), 4);
    chan.set_rotating_sw_id(true);
    chan.get_sw_id();
    device.release(&mut chan);
    assert_eq!(chan.listeners(), &vec![other, last]);
    assert_eq!(chan.get_sw_id().to_lo(), 2);
    device.release(&mut chan);
    assert_eq!(chan.listeners(), &vec![other, last]);
}
