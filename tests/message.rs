use usb_pd::header::{
    ControlMessageType, DataMessageType, Header, MessageType, SpecificationRevision,
};
use usb_pd::message::Message;
use usb_pd::pdo::{FixedSupply, PowerDataObject, VDMHeader};
use usb_pd::PowerRole;

fn header(message_type: MessageType, num_objects: u8) -> Header {
    Header {
        message_type,
        num_objects,
        spec_revision: SpecificationRevision::R3_0,
        port_power_role: PowerRole::Source,
    }
}

fn caps_header(n: u8) -> Header {
    header(MessageType::Data(DataMessageType::SourceCapabilities), n)
}

fn fixed_word(voltage_50mv: u32, current_10ma: u32) -> u32 {
    (voltage_50mv << 10) | current_10ma
}

fn bytes_of(words: &[u32]) -> Vec<u8> {
    words.iter().flat_map(|w| w.to_le_bytes()).collect()
}

#[test]
fn control_messages_ignore_payload() {
    let junk = [1u8, 2, 3];
    let c = |t| header(MessageType::Control(t), 0);
    assert!(matches!(Message::parse(c(ControlMessageType::Accept), &junk), Message::Accept));
    assert!(matches!(Message::parse(c(ControlMessageType::Reject), &junk), Message::Reject));
    assert!(matches!(Message::parse(c(ControlMessageType::PsRdy), &junk), Message::Ready));
    assert!(matches!(Message::parse(c(ControlMessageType::SoftReset), &[]), Message::SoftReset));
}

#[test]
fn other_kinds_are_unknown() {
    let c = header(MessageType::Control(ControlMessageType::GoodCRC), 0);
    assert!(matches!(Message::parse(c, &[]), Message::Unknown));
    let d = header(MessageType::Data(DataMessageType::Request), 1);
    assert!(matches!(Message::parse(d, &[0, 0, 0, 0]), Message::Unknown));
}

#[test]
fn source_capabilities_exact_payload() {
    let words = [fixed_word(100, 300), fixed_word(180, 300), 0xC000_1234, fixed_word(300, 500)];
    let payload = bytes_of(&words);
    match Message::parse(caps_header(4), &payload) {
        Message::SourceCapabilities(objs) => {
            assert_eq!(objs.len(), 4);
            for (i, w) in words.iter().enumerate() {
                assert_eq!(objs[i], PowerDataObject::decode(*w));
            }
            assert_eq!(objs[0], PowerDataObject::FixedSupply(FixedSupply(words[0])));
        }
        _ => panic!("not source capabilities"),
    }
}

#[test]
fn source_capabilities_short_payload() {
    let words = [fixed_word(100, 300), fixed_word(180, 300)];
    let mut payload = bytes_of(&words);
    payload.extend_from_slice(&[0xAA, 0xBB, 0xCC]);
    match Message::parse(caps_header(5), &payload) {
        Message::SourceCapabilities(objs) => {
            assert_eq!(objs.len(), payload.len() / 4);
            assert_eq!(objs.len(), 2);
            assert_eq!(objs[1], PowerDataObject::FixedSupply(FixedSupply(words[1])));
        }
        _ => panic!("not source capabilities"),
    }
    match Message::parse(caps_header(3), &[]) {
        Message::SourceCapabilities(objs) => assert_eq!(objs.len(), 0),
        _ => panic!("not source capabilities"),
    }
}

#[test]
fn source_capabilities_header_count_limits() {
    let words = [fixed_word(100, 300), fixed_word(180, 300), fixed_word(240, 300)];
    let payload = bytes_of(&words);
    match Message::parse(caps_header(2), &payload) {
        Message::SourceCapabilities(objs) => assert_eq!(objs.len(), 2),
        _ => panic!("not source capabilities"),
    }
}

#[test]
fn source_capabilities_capped_at_eight() {
    let words: Vec<u32> = (1..=10).map(|v| fixed_word(v, 100)).collect();
    let payload = bytes_of(&words);
    match Message::parse(caps_header(10), &payload) {
        Message::SourceCapabilities(objs) => {
            assert_eq!(objs.len(), 8);
            assert_eq!(objs[7], PowerDataObject::FixedSupply(FixedSupply(words[7])));
        }
        _ => panic!("not source capabilities"),
    }
}

#[test]
fn source_capabilities_stop_at_reserved_word() {
    let words = [fixed_word(100, 300), 0xE000_0000, fixed_word(180, 300)];
    let payload = bytes_of(&words);
    match Message::parse(caps_header(3), &payload) {
        Message::SourceCapabilities(objs) => {
            assert_eq!(objs.len(), 1);
            assert_eq!(objs[0], PowerDataObject::FixedSupply(FixedSupply(words[0])));
        }
        _ => panic!("not source capabilities"),
    }
}

#[test]
fn vendor_defined_header_word() {
    let h = header(MessageType::Data(DataMessageType::VendorDefined), 2);
    let payload = [0x01u8, 0x80, 0x00, 0xFF, 9, 9, 9, 9];
    match Message::parse(h, &payload) {
        Message::VendorDefined(v) => assert_eq!(v, VDMHeader(0xFF00_8001)),
        _ => panic!("not vendor defined"),
    }
}

#[test]
fn vendor_defined_too_short_is_unknown() {
    let h = header(MessageType::Data(DataMessageType::VendorDefined), 1);
    assert!(matches!(Message::parse(h, &[1, 2, 3]), Message::Unknown));
}
