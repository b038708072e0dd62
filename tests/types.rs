use dnp3::time::OUT_OF_RANGE;
use dnp3::types::{ControlCode, DoubleBit, OpType, Timestamp, TripCloseCode, MASK_U48};

#[test]
fn timestamp_display_formatting_works_as_expected() {
    assert_eq!(Timestamp::min().to_display_string(), "1970-01-01T00:00:00.000Z");

    assert_eq!(Timestamp::max().to_display_string(), OUT_OF_RANGE);
}

fn test_control_code_round_trip(byte: u8, cc: ControlCode) {
    assert_eq!(cc.as_u8(), byte);
    assert_eq!(ControlCode::from(byte), cc)
}

#[test]
fn correctly_converts_control_code_to_and_from_u8() {
    test_control_code_round_trip(
        0b10_1_1_0100,
        ControlCode {
            tcc: TripCloseCode::Trip,
            clear: true,
            queue: true,
            op_type: OpType::LatchOff,
        },
    );

    test_control_code_round_trip(
        0b10_0_1_0100,
        ControlCode {
            tcc: TripCloseCode::Trip,
            clear: false,
            queue: true,
            op_type: OpType::LatchOff,
        },
    );

    test_control_code_round_trip(
        0b10_1_0_0100,
        ControlCode {
            tcc: TripCloseCode::Trip,
            clear: true,
            queue: false,
            op_type: OpType::LatchOff,
        },
    );

    test_control_code_round_trip(
        0b11_0_0_0000,
        ControlCode {
            tcc: TripCloseCode::Reserved,
            clear: false,
            queue: false,
            op_type: OpType::Nul,
        },
    );
}

#[test]
fn timestamp_new_masks_high_byte() {
    assert_eq!(Timestamp::new(u64::MAX).value, MASK_U48);
    assert_eq!(Timestamp::new(0x1234_5678_9ABC_DEF0).value, 0x0034_5678_9ABC_DEF0);
    assert_eq!(Timestamp::new(42).value, 42);
    assert_eq!(Timestamp::min().value, 0);
    assert_eq!(Timestamp::max().value, 0x00FF_FFFF_FFFF_FFFF);
}

#[test]
fn timestamp_displays_milliseconds() {
    assert_eq!(Timestamp::new(1_500).to_display_string(), "1970-01-01T00:00:01.500Z");
    assert_eq!(Timestamp::new(u64::MAX).to_display_string(), "<out of range>");
}

#[test]
fn double_bit_decodes_every_byte_from_low_bits() {
    for x in 0..=255u8 {
        let expected = match x % 4 {
            0 => DoubleBit::Intermediate,
            1 => DoubleBit::DeterminedOff,
            2 => DoubleBit::DeterminedOn,
            _ => DoubleBit::Indeterminate,
        };
        assert_eq!(DoubleBit::from(x), expected);
    }
    assert_eq!(DoubleBit::from(0b1111_1110), DoubleBit::DeterminedOn);
}

#[test]
fn control_code_round_trips_every_byte() {
    for x in 0..=255u8 {
        assert_eq!(ControlCode::from(x).as_u8(), x);
    }
    let cc = ControlCode {
        tcc: TripCloseCode::Close,
        clear: false,
        queue: true,
        op_type: OpType::Unknown(9),
    };
    assert_eq!(cc.as_u8(), 0b01_0_1_1001);
    assert_eq!(ControlCode::from(cc.as_u8()), cc);
}
