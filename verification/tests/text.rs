use hidpp::channel::HidppChannel;
use hidpp::descriptor::ReportDescriptor;
use hidpp::event::EventEmitter;
use hidpp::feature::device_friendly_name::DeviceFriendlyNameFeatureV0;
use hidpp::feature::device_type_and_name::DeviceTypeAndNameFeatureV0;
use hidpp::primitive::copy_range;
use hidpp::primitive::high_byte;
use hidpp::primitive::i16_from_be_bytes;
use hidpp::primitive::low_byte;
use hidpp::primitive::u16_from_be_bytes;
use hidpp::primitive::u16_from_le_bytes;
use hidpp::protocol::v20::Hidpp20Error;
use hidpp::text::NameReader;
use hidpp::text::NameWriter;

fn channel() -> HidppChannel<u32> {
    HidppChannel::from_raw_channel(
        Some((true, true)),
        &ReportDescriptor { input_reports: vec![] },
        0x046d,
        0xc548,
    )
    .unwrap()
}

#[test]
fn numbers_are_read_from_bytes() {
    assert_eq!(u16_from_be_bytes(0x12, 0x34), 0x1234);
    assert_eq!(u16_from_le_bytes(0x12, 0x34), 0x3412);
    assert_eq!(u16_from_be_bytes(0xff, 0xff), 0xffff);
    assert_eq!(i16_from_be_bytes(0x00, 0x01), 1);
    assert_eq!(i16_from_be_bytes(0x7f, 0xff), i16::MAX);
    assert_eq!(i16_from_be_bytes(0x80, 0x00), i16::MIN);
    assert_eq!(i16_from_be_bytes(0xff, 0xff), -1);
    assert_eq!(i16_from_be_bytes(0xff, 0x00), -256);
    assert_eq!(high_byte(0x1d4b), 0x1d);
    assert_eq!(low_byte(0x1d4b), 0x4b);
    for hi in [0u8, 1, 0x7f, 0x80, 0xff] {
        for lo in [0u8, 1, 0x7f, 0x80, 0xff] {
            assert_eq!(i16_from_be_bytes(hi, lo), i16::from_be_bytes([hi, lo]));
            assert_eq!(u16_from_be_bytes(hi, lo), u16::from_be_bytes([hi, lo]));
            assert_eq!(u16_from_le_bytes(lo, hi), u16::from_le_bytes([lo, hi]));
        }
    }
}

#[test]
fn range_of_bytes_is_copied() {
    assert_eq!(copy_range(&[1, 2, 3, 4, 5], 1, 4), vec![2, 3, 4]);
    assert_eq!(copy_range(&[1, 2, 3], 3, 3), vec![]);
}

#[test]
fn chunk_of_several_bytes_per_character_is_taken_whole() {
    let mut reader = NameReader::new(5);
    assert!(reader.push(&[0xe2, 0x82, 0xac]).is_ok());
    assert!(matches!(reader.push(&[0xe2, 0x82]), Err(Hidpp20Error::UnsupportedResponse)));
    assert!(matches!(reader.push(&[0x80]), Err(Hidpp20Error::UnsupportedResponse)));
    assert!(reader.push(&[0xc3, 0xa4]).is_ok());
    assert_eq!(reader.finish(), "\u{20ac}\u{e4}");
}

#[test]
fn name_is_collected_chunk_by_chunk() {
    let mut reader = NameReader::new(19);
    assert_eq!(reader.next_index(), Some(0));
    assert!(reader.push(b"MX Master 3S for").is_ok());
    assert_eq!(reader.next_index(), Some(16));
    assert!(reader.push(b" Ma").is_ok());
    assert_eq!(reader.next_index(), None);
    assert_eq!(reader.finish(), "MX Master 3S for Ma");
}

#[test]
fn name_of_no_bytes_is_complete_at_once() {
    let reader = NameReader::new(0);
    assert_eq!(reader.next_index(), None);
    assert_eq!(reader.finish(), "");
}

#[test]
fn chunk_that_is_no_utf8_is_refused() {
    let mut reader = NameReader::new(6);
    assert!(reader.push(b"abc").is_ok());
    assert!(matches!(reader.push(&[b'd', 0xff, b'f']), Err(Hidpp20Error::UnsupportedResponse)));
    assert_eq!(reader.next_index(), Some(3));
    assert!(matches!(reader.push(&[0xc3]), Err(Hidpp20Error::UnsupportedResponse)));
    assert!(reader.push(b"def").is_ok());
    assert_eq!(reader.finish(), "abcdef");
}

#[test]
fn zeroes_at_the_end_of_a_friendly_name_are_trimmed() {
    let mut reader = NameReader::new(10);
    assert!(reader.push(b"Desk mouse\0\0\0\0\0").is_ok());
    assert_eq!(reader.next_index(), None);
    assert_eq!(reader.clone().finish(), "Desk mouse\0\0\0\0\0");
    assert_eq!(reader.finish_trimmed(), "Desk mouse");
    let mut reader = NameReader::new(3);
    assert!(reader.push(b"a\0b\0\0").is_ok());
    assert_eq!(reader.finish_trimmed(), "a\0b");
    let mut reader = NameReader::new(3);
    assert!(reader.push(&[0, 0, 0]).is_ok());
    assert_eq!(reader.finish_trimmed(), "");
    let mut reader = NameReader::new(3);
    assert!(reader.push(&[0xc3, 0xa4, 0]).is_ok());
    assert_eq!(reader.finish_trimmed(), "\u{e4}");
}

#[test]
fn whole_device_name_is_asked_for_until_it_is_complete() {
    let mut chan = channel();
    let feature = DeviceTypeAndNameFeatureV0 { device_index: 1, feature_index: 4 };
    let mut reader = NameReader::new(5);
    let frame = feature.get_whole_device_name(&mut chan, &reader, 0).unwrap();
    assert_eq!(frame, Some(vec![0x10, 1, 4, 0x11, 0, 0, 0]));
    reader.push(b"MX ").unwrap();
    let frame = feature.get_whole_device_name(&mut chan, &reader, 0).unwrap();
    assert_eq!(frame, Some(vec![0x10, 1, 4, 0x11, 3, 0, 0]));
    reader.push(b"Ke").unwrap();
    assert_eq!(feature.get_whole_device_name(&mut chan, &reader, 0).unwrap(), None);
    assert_eq!(chan.pending_count(), 2);
    assert_eq!(reader.finish(), "MX Ke");
}

#[test]
fn whole_friendly_names_are_asked_for_until_they_are_complete() {
    let mut chan = channel();
    let feature = DeviceFriendlyNameFeatureV0 { device_index: 1, feature_index: 6 };
    let mut reader = NameReader::new(16);
    assert_eq!(
        feature.get_whole_friendly_name(&mut chan, &reader, 0).unwrap(),
        Some(vec![0x10, 1, 6, 0x11, 0, 0, 0])
    );
    assert_eq!(
        feature.get_whole_default_friendly_name(&mut chan, &reader, 0).unwrap(),
        Some(vec![0x10, 1, 6, 0x21, 0, 0, 0])
    );
    reader.push(b"0123456789abcde").unwrap();
    assert_eq!(
        feature.get_whole_friendly_name(&mut chan, &reader, 0).unwrap(),
        Some(vec![0x10, 1, 6, 0x11, 15, 0, 0])
    );
    reader.push(b"f\0\0\0\0\0\0\0\0\0\0\0\0\0\0").unwrap();
    assert_eq!(feature.get_whole_friendly_name(&mut chan, &reader, 0).unwrap(), None);
    assert_eq!(feature.get_whole_default_friendly_name(&mut chan, &reader, 0).unwrap(), None);
    assert_eq!(reader.finish_trimmed(), "0123456789abcdef");
}

#[test]
fn name_is_set_in_chunks_of_fifteen_bytes() {
    let mut writer = NameWriter::new("A mouse on the writing desk", 20);
    let (index, chunk) = writer.next_chunk().unwrap();
    assert_eq!(index, 0);
    assert_eq!(&chunk, b"A mouse on the ");
    writer.advance(15).unwrap();
    let (index, chunk) = writer.next_chunk().unwrap();
    assert_eq!(index, 15);
    assert_eq!(&chunk, b"writi\0\0\0\0\0\0\0\0\0\0");
    writer.advance(5).unwrap();
    assert_eq!(writer.next_chunk(), None);
    assert_eq!(writer.total(), 20);
}

#[test]
fn name_of_whole_chunks_has_no_remainder() {
    let mut writer = NameWriter::new("0123456789abcde", 255);
    let (index, chunk) = writer.next_chunk().unwrap();
    assert_eq!((index, &chunk), (0, b"0123456789abcde"));
    writer.advance(15).unwrap();
    assert_eq!(writer.next_chunk(), None);
    assert_eq!(writer.total(), 15);
    let writer = NameWriter::new("", 255);
    assert_eq!(writer.next_chunk(), None);
    assert_eq!(writer.total(), 0);
    let writer = NameWriter::new("abc", 0);
    assert_eq!(writer.next_chunk(), None);
}

#[test]
fn length_that_does_not_fit_into_a_byte_is_unsupported() {
    let mut writer = NameWriter::new("0123456789abcdefghijklmnopqrstuvwxyz", 255);
    writer.advance(200).unwrap();
    assert_eq!(writer.next_chunk().unwrap().0, 200);
    assert!(matches!(writer.advance(56), Err(Hidpp20Error::UnsupportedResponse)));
    assert_eq!(writer.total(), 200);
    assert_eq!(writer.next_chunk().unwrap().0, 200);
    assert!(writer.advance(55).is_ok());
    assert_eq!(writer.total(), 255);
    assert_eq!(writer.next_chunk(), None);
}

#[test]
fn whole_device_name_is_set_chunk_by_chunk() {
    let mut chan = channel();
    let feature = DeviceFriendlyNameFeatureV0 { device_index: 1, feature_index: 6 };
    let mut writer = NameWriter::new("Desk mouse, left", 24);
    let frame = feature.set_whole_device_name(&mut chan, &writer, 0).unwrap().unwrap();
    let mut expected = vec![0x11, 1, 6, 0x31, 0];
    expected.extend_from_slice(b"Desk mouse, lef");
    assert_eq!(frame, expected);
    writer.advance(15).unwrap();
    let frame = feature.set_whole_device_name(&mut chan, &writer, 0).unwrap().unwrap();
    let mut expected = vec![0x11, 1, 6, 0x31, 15];
    expected.extend_from_slice(b"t\0\0\0\0\0\0\0\0\0\0\0\0\0\0");
    assert_eq!(frame, expected);
    writer.advance(1).unwrap();
    assert_eq!(feature.set_whole_device_name(&mut chan, &writer, 0).unwrap(), None);
    assert_eq!(writer.total(), 16);
    assert_eq!(chan.pending_count(), 2);
}

#[test]
fn emitter_sends_to_all_and_drops_the_closed() {
    let mut emitter: EventEmitter<u32> = EventEmitter::new();
    assert_eq!(emitter.sender_count(), 0);
    emitter.emit(1);
    let (tx_a, rx_a) = async_channel::unbounded();
    let (tx_b, rx_b) = async_channel::unbounded();
    let (tx_c, rx_c) = async_channel::unbounded();
    emitter.add_sender(tx_a);
    emitter.add_sender(tx_b);
    emitter.add_sender(tx_c);
    assert_eq!(emitter.sender_count(), 3);
    emitter.emit(7);
    assert_eq!(rx_a.try_recv(), Ok(7));
    assert_eq!(rx_b.try_recv(), Ok(7));
    assert_eq!(rx_c.try_recv(), Ok(7));
    assert_eq!(emitter.sender_count(), 3);
    drop(rx_b);
    emitter.emit(8);
    assert_eq!(emitter.sender_count(), 2);
    assert_eq!(rx_a.try_recv(), Ok(8));
    assert_eq!(rx_c.try_recv(), Ok(8));
    assert!(rx_a.try_recv().is_err());
}

#[test]
fn emitter_drops_a_sender_whose_channel_is_full() {
    let mut emitter: EventEmitter<u8> = EventEmitter::new();
    let (tx_a, rx_a) = async_channel::bounded(1);
    let (tx_b, rx_b) = async_channel::unbounded();
    emitter.add_sender(tx_a);
    emitter.add_sender(tx_b);
    emitter.emit(1);
    assert_eq!(emitter.sender_count(), 2);
    emitter.emit(2);
    assert_eq!(emitter.sender_count(), 1);
    assert_eq!(rx_a.try_recv(), Ok(1));
    assert!(rx_a.try_recv().is_err());
    assert_eq!(rx_b.try_recv(), Ok(1));
    assert_eq!(rx_b.try_recv(), Ok(2));
    emitter.emit(3);
    assert!(rx_a.try_recv().is_err());
    assert_eq!(rx_b.try_recv(), Ok(3));
}

#[test]
fn emitter_keeps_the_senders_that_are_flagged() {
    let mut emitter: EventEmitter<u8> = EventEmitter::new();
    let (tx_a, rx_a) = async_channel::unbounded();
    let (tx_b, rx_b) = async_channel::unbounded();
    let (tx_c, rx_c) = async_channel::unbounded();
    emitter.add_sender(tx_a);
    emitter.add_sender(tx_b);
    emitter.add_sender(tx_c);
    emitter.retain(&vec![true, false, true]);
    assert_eq!(emitter.sender_count(), 2);
    emitter.emit(3);
    assert_eq!(rx_a.try_recv(), Ok(3));
    assert!(rx_b.try_recv().is_err());
    assert_eq!(rx_c.try_recv(), Ok(3));
    emitter.retain(&vec![false, false]);
    assert_eq!(emitter.sender_count(), 0);
}
