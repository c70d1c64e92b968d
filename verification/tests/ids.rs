use automata_codec::endian::{BE, LE, NE};
use automata_codec::id::{PatternID, StateID, ID_MAX};
use automata_codec::idcodec::{
    read_pattern_id, read_pattern_id_unchecked, read_state_id, read_state_id_unchecked,
    try_read_pattern_id, try_read_state_id, write_pattern_id, write_state_id,
};

#[test]
fn identifier_bounds() {
    assert_eq!(ID_MAX, i32::MAX as u32 - 1);
    assert_eq!(PatternID::SIZE, 4);
    assert_eq!(StateID::SIZE, 4);
    assert_eq!(PatternID::LIMIT, ID_MAX as usize + 1);
    assert_eq!(StateID::LIMIT, ID_MAX as usize + 1);
    assert_eq!(PatternID::new(0).unwrap().as_usize(), 0);
    assert_eq!(PatternID::new(ID_MAX as usize).unwrap().as_u32(), ID_MAX);
    assert!(PatternID::new(ID_MAX as usize + 1).is_err());
    assert_eq!(StateID::new(17).unwrap().as_u32(), 17);
    assert_eq!(StateID::new(ID_MAX as usize).unwrap().as_usize(), ID_MAX as usize);
    assert!(StateID::new(usize::MAX).is_err());
}

#[test]
fn identifiers_from_bytes() {
    let bytes = 77u32.to_ne_bytes();
    assert_eq!(PatternID::from_ne_bytes(bytes).unwrap().as_u32(), 77);
    assert_eq!(StateID::from_ne_bytes(bytes).unwrap().as_u32(), 77);
    let bytes = (ID_MAX + 1).to_ne_bytes();
    assert_eq!(
        PatternID::from_ne_bytes(bytes).unwrap_err().attempted(),
        ID_MAX as u64 + 1
    );
    assert_eq!(
        StateID::from_ne_bytes(bytes).unwrap_err().attempted(),
        ID_MAX as u64 + 1
    );
    assert_eq!(PatternID::from_ne_bytes_unchecked(bytes).as_u32(), ID_MAX + 1);
    assert_eq!(StateID::from_ne_bytes_unchecked(bytes).as_u32(), ID_MAX + 1);
}

#[test]
fn pattern_id_round_trip() {
    for &value in &[0usize, 1, 255, 256, 65536, 0x0102_0304, ID_MAX as usize] {
        let pid = PatternID::new(value).unwrap();
        let mut buf = [0xEEu8; 6];
        assert_eq!(write_pattern_id::<NE>(pid, &mut buf), 4);
        assert_eq!(&buf[4..], &[0xEE, 0xEE]);
        assert_eq!(try_read_pattern_id(&buf, "x").unwrap(), (pid, 4));
        assert_eq!(read_pattern_id(&buf, "x").unwrap(), (pid, 4));
        assert_eq!(read_pattern_id_unchecked(&buf), (pid, 4));
    }
}

#[test]
fn state_id_round_trip() {
    for &value in &[0usize, 1, 255, 256, 65536, 0x0102_0304, ID_MAX as usize] {
        let sid = StateID::new(value).unwrap();
        let mut buf = [0xEEu8; 6];
        assert_eq!(write_state_id::<NE>(sid, &mut buf), 4);
        assert_eq!(&buf[4..], &[0xEE, 0xEE]);
        assert_eq!(try_read_state_id(&buf, "x").unwrap(), (sid, 4));
        assert_eq!(read_state_id(&buf, "x").unwrap(), (sid, 4));
        assert_eq!(read_state_id_unchecked(&buf), (sid, 4));
    }
}

#[test]
fn identifier_bytes() {
    let pid = PatternID::new(0x0102_0304).unwrap();
    let sid = StateID::new(0x0A0B_0C0D).unwrap();
    let mut buf = [0u8; 4];
    write_pattern_id::<LE>(pid, &mut buf);
    assert_eq!(buf, [4, 3, 2, 1]);
    write_pattern_id::<BE>(pid, &mut buf);
    assert_eq!(buf, [1, 2, 3, 4]);
    write_state_id::<LE>(sid, &mut buf);
    assert_eq!(buf, [0x0D, 0x0C, 0x0B, 0x0A]);
    write_state_id::<BE>(sid, &mut buf);
    assert_eq!(buf, [0x0A, 0x0B, 0x0C, 0x0D]);
}

#[test]
fn identifier_cut_short() {
    let err = try_read_pattern_id(&[1, 2, 3], "pattern ID").unwrap_err();
    assert_eq!(err.message(), "buffer is too small to read pattern ID");
    let err = try_read_state_id(&[], "start state").unwrap_err();
    assert_eq!(err.message(), "buffer is too small to read start state");
}

#[test]
fn identifier_out_of_range() {
    let bytes = (ID_MAX + 1).to_ne_bytes();
    let err = try_read_pattern_id(&bytes, "match").unwrap_err();
    assert_eq!(
        err.message(),
        "failed to read pattern ID for match: failed to create PatternID from 2147483647, which \
         exceeds PatternID(2147483646)"
    );
    let err = read_pattern_id(&bytes, "match").unwrap_err();
    assert_eq!(
        err.message(),
        "failed to read pattern ID for match: failed to create PatternID from 2147483647, which \
         exceeds PatternID(2147483646)"
    );
    let bytes = u32::MAX.to_ne_bytes();
    let err = try_read_state_id(&bytes, "transition").unwrap_err();
    assert_eq!(
        err.message(),
        "failed to read state ID for transition: failed to create StateID from 4294967295, which \
         exceeds StateID(2147483646)"
    );
    let err = read_state_id(&bytes, "transition").unwrap_err();
    assert_eq!(
        err.message(),
        "failed to read state ID for transition: failed to create StateID from 4294967295, which \
         exceeds StateID(2147483646)"
    );
    // Without the check the value is taken as it is.
    assert_eq!(read_state_id_unchecked(&bytes).0.as_u32(), u32::MAX);
    assert_eq!(read_pattern_id_unchecked(&bytes).0.as_u32(), u32::MAX);
}
