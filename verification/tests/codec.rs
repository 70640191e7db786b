use dp_codec::{DpError, MyEnum};

#[test]
fn test_enum() {
    assert_eq!(MyEnum::Variant1(15).get_id(), 0x10);
}

#[test]
fn test_read() {
    let res = MyEnum::read_with_dp_version(b"\x05\x10\x01\x00\x00\x00", 1).unwrap();
    assert_eq!(res, MyEnum::Variant1(1));
    assert_eq!(res.get_id(), 0x10);

    // Under the two-byte-tag layout of version 2 the first two bytes form
    // the tag, 0x2005 little-endian, which no catalog entry carries.
    let res = MyEnum::read_with_dp_version(b"\x05\x20\x00\xFF", 2);
    assert_eq!(res, Err(DpError::UnknownTag(0x2005)));
}

#[test]
fn test_write() {
    let out = MyEnum::Variant1(1234).write_with_dp_version(0).unwrap();
    assert_eq!(out, vec![0x10, 0xD2, 0x04, 0x00, 0x00]);

    let out = MyEnum::Variant2(255).write_with_dp_version(1).unwrap();
    assert_eq!(out, vec![0x02, 0x20, 0xFF]);

    let out = MyEnum::Variant1(1).write_with_dp_version(2).unwrap();
    assert_eq!(out, vec![0x10, 0x00, 0x01, 0x00, 0x00, 0x00]);
}

#[test]
fn round_trip_every_variant_and_version() {
    let values = [
        MyEnum::Variant1(0),
        MyEnum::Variant1(1234),
        MyEnum::Variant1(u32::MAX),
        MyEnum::Variant2(0),
        MyEnum::Variant2(255),
    ];
    for v in values {
        for version in [0u8, 1, 2] {
            let frame = v.write_with_dp_version(version).unwrap();
            let back = MyEnum::read_with_dp_version(&frame, version).unwrap();
            assert_eq!(back, v);
        }
    }
}

#[test]
fn tag_constant_across_calls_and_versions() {
    let v = MyEnum::Variant2(7);
    let first = v.get_id();
    let second = v.get_id();
    assert_eq!(first, second);
    assert_eq!(first, 0x20);
    // The tag field of the frame holds the same tag under every version.
    assert_eq!(v.write_with_dp_version(0).unwrap()[0], 0x20);
    assert_eq!(v.write_with_dp_version(1).unwrap()[1], 0x20);
    let ext = v.write_with_dp_version(2).unwrap();
    assert_eq!(u16::from_le_bytes([ext[0], ext[1]]), 0x20);
}

#[test]
fn length_prefix_counts_tag_and_payload_exactly() {
    let frame = MyEnum::Variant1(99).write_with_dp_version(1).unwrap();
    assert_eq!(frame[0] as usize, frame.len() - 1);
    assert_eq!(frame[0], 1 + 4);

    let frame = MyEnum::Variant2(99).write_with_dp_version(1).unwrap();
    assert_eq!(frame[0] as usize, frame.len() - 1);
    assert_eq!(frame[0], 1 + 1);
}

#[test]
fn unknown_tag_rejected_under_every_version() {
    assert_eq!(
        MyEnum::read_with_dp_version(b"\x30\x00\x00\x00\x00", 0),
        Err(DpError::UnknownTag(0x30))
    );
    assert_eq!(
        MyEnum::read_with_dp_version(b"\x02\x30\x00", 1),
        Err(DpError::UnknownTag(0x30))
    );
    assert_eq!(
        MyEnum::read_with_dp_version(b"\x30\x00\xFF", 2),
        Err(DpError::UnknownTag(0x30))
    );
}

#[test]
fn truncated_header_or_payload() {
    assert_eq!(MyEnum::read_with_dp_version(b"", 0), Err(DpError::Truncated));
    assert_eq!(MyEnum::read_with_dp_version(b"\x05", 1), Err(DpError::Truncated));
    assert_eq!(MyEnum::read_with_dp_version(b"\x10", 2), Err(DpError::Truncated));
    // Header complete, four payload bytes owed, fewer present.
    assert_eq!(
        MyEnum::read_with_dp_version(b"\x10\x01\x02\x03", 0),
        Err(DpError::Truncated)
    );
    assert_eq!(
        MyEnum::read_with_dp_version(b"\x05\x10\x01\x00", 1),
        Err(DpError::Truncated)
    );
    // Tag present under version 2, the one payload byte missing.
    assert_eq!(MyEnum::read_with_dp_version(b"\x20\x00", 2), Err(DpError::Truncated));
}

#[test]
fn declared_length_read_but_not_checked() {
    // The prefix claims 255 bytes; the payload reader still consumes
    // exactly the one byte its layout owes and succeeds.
    let res = MyEnum::read_with_dp_version(b"\xFF\x20\x07", 1).unwrap();
    assert_eq!(res, MyEnum::Variant2(7));
}

#[test]
fn versions_above_two_behave_like_extended() {
    let v = MyEnum::Variant1(77);
    let under_two = v.write_with_dp_version(2).unwrap();
    let under_seven = v.write_with_dp_version(7).unwrap();
    assert_eq!(under_two, under_seven);
    assert_eq!(MyEnum::read_with_dp_version(&under_seven, 200).unwrap(), v);
}

#[test]
fn encode_then_decode_value_1234_version_0() {
    let frame = MyEnum::Variant1(1234).write_with_dp_version(0).unwrap();
    let back = MyEnum::read_with_dp_version(&frame, 0).unwrap();
    assert_eq!(back, MyEnum::Variant1(1234));
    assert_eq!(back.get_id(), 0x10);
}

#[test]
fn extended_frame_of_u32_variant_is_six_bytes() {
    let frame = MyEnum::Variant1(1).write_with_dp_version(2).unwrap();
    assert_eq!(frame.len(), 6);
}

#[test]
fn trailing_bytes_after_frame_are_ignored() {
    let res = MyEnum::read_with_dp_version(b"\x20\xAB\xFF\xFF\xFF", 0).unwrap();
    assert_eq!(res, MyEnum::Variant2(0xAB));
}
