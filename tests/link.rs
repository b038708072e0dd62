use dnp3::crc::crc;
use dnp3::frame::{
    extract_blocks, format_header_only, parse_header, Address, ControlField, Function, Header,
};
use dnp3::reader::{scan, ReadStep};
use dnp3::layer::{Layer, LinkAction, SecondaryState};

fn header(master: bool, fcb: bool, func: Function, destination: u16, source: u16) -> Header {
    Header {
        control: ControlField { master, fcb, fcv: false, func },
        address: Address { source, destination },
    }
}

#[test]
fn crc_matches_known_header() {
    assert_eq!(crc(&[0x05, 0x64, 0x05, 0xC0, 0x01, 0x00, 0x00, 0x04]), 0x21E9);
    assert_eq!(crc(&[]), 0xFFFF);
}

#[test]
fn header_only_frame_is_formatted_with_crc() {
    let control = ControlField { master: true, fcb: false, fcv: false, func: Function::PriResetLinkStates };
    assert_eq!(control.to_u8(), 0xC0);
    let frame = format_header_only(control, 1, 1024);
    assert_eq!(frame, vec![0x05, 0x64, 0x05, 0xC0, 0x01, 0x00, 0x00, 0x04, 0xE9, 0x21]);
}

#[test]
fn header_parses_and_rejects_bad_crc() {
    let bytes = [0x05, 0x64, 0x05, 0xC0, 0x01, 0x00, 0x00, 0x04, 0xE9, 0x21];
    let (length, h) = parse_header(&bytes).unwrap();
    assert_eq!(length, 5);
    assert_eq!(h, header(true, false, Function::PriResetLinkStates, 1, 1024));
    let mut bad = bytes;
    bad[8] = 0xE8;
    assert_eq!(parse_header(&bad), None);
    let mut bad_start = bytes;
    bad_start[0] = 0x06;
    assert_eq!(parse_header(&bad_start), None);
    assert_eq!(parse_header(&bytes[0..9]), None);
}

#[test]
fn control_field_decodes_bits() {
    let c = ControlField::from(0b1111_0011);
    assert_eq!(c, ControlField { master: true, fcb: true, fcv: true, func: Function::PriConfirmedUserData });
    assert_eq!(c.to_u8(), 0b1111_0011);
    assert_eq!(ControlField::from(0x0F).func, Function::SecNotSupported);
    assert_eq!(ControlField::from(0x4D).func, Function::Unknown(0x4D));
}

#[test]
fn reset_then_confirmed_data_alternates_fcb() {
    let mut layer = Layer::new(false, 1);
    let data = header(true, true, Function::PriConfirmedUserData, 1, 1024);
    let reset = header(true, false, Function::PriResetLinkStates, 1, 1024);

    assert_eq!(layer.on_frame(&data), LinkAction::Ignore);
    assert_eq!(layer.secondary_state(), SecondaryState::NotReset);

    assert_eq!(layer.on_frame(&reset), LinkAction::Acknowledge(1024));
    assert_eq!(layer.secondary_state(), SecondaryState::Reset(true));

    assert_eq!(layer.on_frame(&data), LinkAction::Surface(data.address));
    assert_eq!(layer.secondary_state(), SecondaryState::Reset(false));

    assert_eq!(layer.on_frame(&data), LinkAction::Ignore);
    assert_eq!(layer.secondary_state(), SecondaryState::Reset(false));

    layer.reset();
    assert_eq!(layer.secondary_state(), SecondaryState::NotReset);
}

#[test]
fn foreign_frames_are_ignored() {
    let mut layer = Layer::new(false, 1);
    let same_role = header(false, false, Function::PriResetLinkStates, 1, 1024);
    let other_station = header(true, false, Function::PriResetLinkStates, 2, 1024);
    assert_eq!(layer.on_frame(&same_role), LinkAction::Ignore);
    assert_eq!(layer.on_frame(&other_station), LinkAction::Ignore);
    assert_eq!(layer.secondary_state(), SecondaryState::NotReset);
    let unconfirmed = header(true, false, Function::PriUnconfirmedUserData, 2, 1024);
    assert_eq!(layer.on_frame(&unconfirmed), LinkAction::Ignore);
}

#[test]
fn unconfirmed_data_is_surfaced_in_any_state() {
    let mut layer = Layer::new(true, 1024);
    let unconfirmed = header(false, false, Function::PriUnconfirmedUserData, 1024, 1);
    assert_eq!(layer.on_frame(&unconfirmed), LinkAction::Surface(unconfirmed.address));
    assert_eq!(layer.secondary_state(), SecondaryState::NotReset);
    let test = header(false, false, Function::PriTestLinkStates, 1024, 1);
    assert_eq!(layer.on_frame(&test), LinkAction::Ignore);
}

#[test]
fn acknowledgement_frame_uses_own_role_and_address() {
    let layer = Layer::new(false, 1);
    let frame = layer.ack_frame(1024);
    assert_eq!(frame.len(), 10);
    assert_eq!(&frame[0..8], &[0x05, 0x64, 0x05, 0x00, 0x00, 0x04, 0x01, 0x00]);
    let (_, h) = parse_header(&frame).unwrap();
    assert_eq!(h, header(false, false, Function::SecAck, 1024, 1));
}

fn user_data_frame(payload: &[u8]) -> Vec<u8> {
    let mut frame = vec![0x05, 0x64, 5 + payload.len() as u8, 0xC4, 0x01, 0x00, 0x00, 0x04];
    let c = crc(&frame);
    frame.push((c % 256) as u8);
    frame.push((c / 256) as u8);
    for block in payload.chunks(16) {
        frame.extend_from_slice(block);
        let c = crc(block);
        frame.push((c % 256) as u8);
        frame.push((c / 256) as u8);
    }
    frame
}

#[test]
fn extract_blocks_checks_each_crc() {
    let data: Vec<u8> = (0..20).collect();
    let frame = user_data_frame(&data);
    assert_eq!(frame.len(), 10 + 20 + 4);
    assert_eq!(extract_blocks(&frame[10..]), Some(data.clone()));
    let mut bad = frame.clone();
    bad[10 + 16 + 2 + 1] ^= 0x01;
    assert_eq!(extract_blocks(&bad[10..]), None);
    assert_eq!(extract_blocks(&[]), Some(vec![]));
    assert_eq!(extract_blocks(&[1, 2]), None);
}

#[test]
fn scan_reports_need_more_discard_and_frame() {
    let frame = user_data_frame(&[0xAA, 0xBB, 0xCC]);
    assert!(matches!(scan(&[]), ReadStep::NeedMore));
    assert!(matches!(scan(&frame[0..5]), ReadStep::NeedMore));
    assert!(matches!(scan(&frame[0..12]), ReadStep::NeedMore));
    assert!(matches!(scan(&[0x00, 0x05]), ReadStep::Discard));
    assert!(matches!(scan(&[0x05, 0x00]), ReadStep::Discard));
    match scan(&frame) {
        ReadStep::Frame(h, p, n) => {
            assert_eq!(h, header(true, false, Function::PriUnconfirmedUserData, 1, 1024));
            assert_eq!(p, vec![0xAA, 0xBB, 0xCC]);
            assert_eq!(n, frame.len());
        }
        other => panic!("unexpected {:?}", other),
    }
}

#[test]
fn layer_reader_resynchronizes_after_noise() {
    let mut layer = Layer::new(false, 1);
    let frame = user_data_frame(&[1, 2, 3, 4]);
    let mut corrupted = frame.clone();
    corrupted[12] ^= 0xFF;
    layer.push_bytes(&[0x00, 0x05, 0x42]);
    layer.push_bytes(&corrupted);
    layer.push_bytes(&frame[0..7]);
    assert_eq!(layer.next_frame(), None);
    layer.push_bytes(&frame[7..]);
    let (h, p) = layer.next_frame().unwrap();
    assert_eq!(p, vec![1, 2, 3, 4]);
    assert_eq!(layer.on_frame(&h), LinkAction::Surface(h.address));
    assert_eq!(layer.next_frame(), None);
}

#[test]
fn reset_discards_partial_frame() {
    let mut layer = Layer::new(false, 1);
    let frame = user_data_frame(&[9]);
    layer.push_bytes(&frame[0..6]);
    layer.reset();
    layer.push_bytes(&frame[6..]);
    assert_eq!(layer.next_frame(), None);
    layer.push_bytes(&frame);
    assert_eq!(layer.next_frame().map(|(_, p)| p), Some(vec![9]));
}
