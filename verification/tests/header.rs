use automata_codec::endian::{native_byte_order, ByteOrder, BE, LE, NE};
use automata_codec::header::{
    is_valid_label, padding_len, read_endianness_check, read_label, read_version, write_endianness_check,
    write_endianness_check_len, write_label, write_label_len, write_version, write_version_len,
    ENDIANNESS_MARKER,
};

#[test]
fn labels() {
    let mut buf = [0; 1024];

    let nwrite = write_label("foo", &mut buf).unwrap();
    assert_eq!(nwrite, 4);
    assert_eq!(&buf[..nwrite], b"foo\x00");

    let nread = read_label(&buf, "foo").unwrap();
    assert_eq!(nread, 4);
}

#[test]
fn bad_label_almost_too_long() {
    // ok
    write_label(&"z".repeat(255), &mut [0; 1024]).unwrap();
}

#[test]
fn padding() {
    assert_eq!(0, padding_len(8));
    assert_eq!(3, padding_len(9));
    assert_eq!(2, padding_len(10));
    assert_eq!(1, padding_len(11));
    assert_eq!(0, padding_len(12));
    assert_eq!(3, padding_len(13));
    assert_eq!(2, padding_len(14));
    assert_eq!(1, padding_len(15));
    assert_eq!(0, padding_len(16));
}

#[test]
fn padding_reaches_the_next_multiple_of_four() {
    for n in 0..4096usize {
        let p = padding_len(n);
        assert!(p <= 3);
        assert_eq!((n + p) % 4, 0);
    }
    assert_eq!(padding_len(0), 0);
    assert_eq!(padding_len(usize::MAX), 1);
    assert_eq!(padding_len(usize::MAX - 3), 0);
}

#[test]
fn label_validity() {
    assert!(is_valid_label(""));
    assert!(is_valid_label("foo"));
    assert!(is_valid_label(&"z".repeat(255)));
    assert!(!is_valid_label(&"z".repeat(256)));
    assert!(!is_valid_label("foo\x00bar"));
    assert!(!is_valid_label("\x00"));
}

#[test]
fn label_lengths() {
    assert_eq!(write_label_len(""), 4);
    assert_eq!(write_label_len("a"), 4);
    assert_eq!(write_label_len("ab"), 4);
    assert_eq!(write_label_len("foo"), 4);
    assert_eq!(write_label_len("food"), 8);
    assert_eq!(write_label_len("fooba"), 8);
    assert_eq!(write_label_len("foobarb"), 8);
    assert_eq!(write_label_len("foobarba"), 12);
    assert_eq!(write_label_len(&"z".repeat(255)), 256);
    assert_eq!(write_label_len("finite-automaton-dense-tables"), 32);
}

#[test]
fn label_bytes_and_padding() {
    let mut buf = [0xAAu8; 16];
    assert_eq!(write_label("fooba", &mut buf).unwrap(), 8);
    assert_eq!(&buf[..8], b"fooba\x00\x00\x00");
    assert_eq!(&buf[8..], &[0xAAu8; 8]);

    let mut buf = [0xAAu8; 16];
    assert_eq!(write_label("food", &mut buf).unwrap(), 8);
    assert_eq!(&buf[..8], b"food\x00\x00\x00\x00");
    assert_eq!(&buf[8..], &[0xAAu8; 8]);

    let mut buf = [0xAAu8; 4];
    assert_eq!(write_label("", &mut buf).unwrap(), 4);
    assert_eq!(&buf, b"\x00\x00\x00\x00");
}

#[test]
fn label_round_trip() {
    let text = "abcdefghijklmnopqrstuvwxyz";
    for len in 0..=text.len() {
        let label: &'static str = &text[..len];
        let mut buf = [0xFFu8; 64];
        let nwrite = write_label(label, &mut buf).unwrap();
        assert_eq!(nwrite, write_label_len(label));
        assert_eq!(nwrite % 4, 0);
        assert_eq!(read_label(&buf, label).unwrap(), nwrite);
        assert_eq!(read_label(&buf[..nwrite], label).unwrap(), nwrite);
    }
    let long: &'static str = Box::leak("z".repeat(255).into_boxed_str());
    let mut buf = [0xFFu8; 300];
    assert_eq!(write_label(long, &mut buf).unwrap(), 256);
    assert_eq!(read_label(&buf, long).unwrap(), 256);
    assert!(buf[..255].iter().all(|&b| b == b'z'));
    assert_eq!(buf[255], 0);
    assert_eq!(buf[256], 0xFF);
}

#[test]
fn label_does_not_fit() {
    let mut buf = [7u8; 7];
    let err = write_label("fooba", &mut buf).unwrap_err();
    assert_eq!(err.message(), "destination buffer is too small to write label");
    assert_eq!(buf, [7u8; 7]);
    let mut buf = [7u8; 3];
    assert!(write_label("foo", &mut buf).is_err());
    assert_eq!(buf, [7u8; 3]);
}

#[test]
fn label_without_terminator() {
    let err = read_label(b"foo", "foo").unwrap_err();
    assert_eq!(
        err.message(),
        "could not find NUL terminated label at start of serialized object"
    );
    let err = read_label(b"", "foo").unwrap_err();
    assert_eq!(
        err.message(),
        "could not find NUL terminated label at start of serialized object"
    );
    // The terminator is looked for in the first 256 bytes only.
    let mut bytes = vec![b'z'; 256];
    bytes.extend_from_slice(&[0, 0, 0, 0]);
    let long: &'static str = Box::leak("z".repeat(256).into_boxed_str());
    let err = read_label(&bytes, long).unwrap_err();
    assert_eq!(
        err.message(),
        "could not find NUL terminated label at start of serialized object"
    );
}

#[test]
fn label_cut_short() {
    let err = read_label(b"fooba\x00\x00", "fooba").unwrap_err();
    assert_eq!(
        err.message(),
        "could not find properly sized label at start of serialized object"
    );
    let err = read_label(b"food\x00", "food").unwrap_err();
    assert_eq!(
        err.message(),
        "could not find properly sized label at start of serialized object"
    );
}

#[test]
fn label_mismatch() {
    let err = read_label(b"bar\x00", "foo").unwrap_err();
    assert_eq!(
        err.message(),
        "label mismatch: start of serialized object should contain a NUL terminated \"foo\" \
         label, but a different label was found"
    );
    assert!(read_label(b"fo\x00\x00", "foo").is_err());
    assert!(read_label(b"fooo\x00\x00\x00\x00", "foo").is_err());
    assert!(read_label(b"\x00\x00\x00\x00", "foo").is_err());
    assert_eq!(read_label(b"\x00\x00\x00\x00", "").unwrap(), 4);
}

#[test]
fn endianness_marker_bytes() {
    assert_eq!(ENDIANNESS_MARKER, 0xFEFF);
    assert_eq!(write_endianness_check_len(), 4);
    let mut buf = [9u8; 6];
    assert_eq!(write_endianness_check::<LE>(&mut buf).unwrap(), 4);
    assert_eq!(buf, [0xFF, 0xFE, 0, 0, 9, 9]);
    let mut buf = [9u8; 6];
    assert_eq!(write_endianness_check::<BE>(&mut buf).unwrap(), 4);
    assert_eq!(buf, [0, 0, 0xFE, 0xFF, 9, 9]);
    let mut buf = [9u8; 3];
    let err = write_endianness_check::<LE>(&mut buf).unwrap_err();
    assert_eq!(
        err.message(),
        "destination buffer is too small to write endianness check"
    );
    assert_eq!(buf, [9u8; 3]);
}

#[test]
fn endianness_self_check() {
    let mut native = [0u8; 8];
    assert_eq!(write_endianness_check::<NE>(&mut native).unwrap(), 4);
    assert_eq!(read_endianness_check(&native).unwrap(), 4);

    let mut little = [0u8; 8];
    let mut big = [0u8; 8];
    write_endianness_check::<LE>(&mut little).unwrap();
    write_endianness_check::<BE>(&mut big).unwrap();
    let (same, other) = match native_byte_order() {
        ByteOrder::Little => (little, big),
        ByteOrder::Big => (big, little),
    };
    assert_eq!(same, native);
    assert_eq!(read_endianness_check(&same).unwrap(), 4);
    let err = read_endianness_check(&other).unwrap_err();
    assert_eq!(
        err.message(),
        "endianness mismatch: expected 0xFEFF but got 0xFFFE0000. (Are you trying to load an \
         object serialized with a different endianness?)"
    );
}

#[test]
fn endianness_check_cut_short() {
    let err = read_endianness_check(&[0xFF, 0xFE, 0]).unwrap_err();
    assert_eq!(err.message(), "buffer is too small to read endianness check");
}

#[test]
fn native_order_is_the_machines() {
    let order = native_byte_order();
    if u16::from_ne_bytes([1, 0]) == 1 {
        assert_eq!(order, ByteOrder::Little);
    } else {
        assert_eq!(order, ByteOrder::Big);
    }
}

#[test]
fn version_round_trip() {
    assert_eq!(write_version_len(), 4);
    let mut buf = [0u8; 9];
    assert_eq!(write_version::<NE>(3, &mut buf).unwrap(), 4);
    assert_eq!(read_version(&buf, 3).unwrap(), 4);
    assert_eq!(&buf[..4], &3u32.to_ne_bytes());
    assert_eq!(&buf[4..], &[0u8; 5]);
    let mut buf = [0u8; 4];
    write_version::<NE>(u32::MAX, &mut buf).unwrap();
    assert_eq!(read_version(&buf, u32::MAX).unwrap(), 4);
}

#[test]
fn version_mismatch() {
    let mut buf = [0u8; 4];
    write_version::<NE>(3, &mut buf).unwrap();
    let err = read_version(&buf, 4).unwrap_err();
    assert_eq!(
        err.message(),
        "unsupported version: expected version 4 but found version 3"
    );
}

#[test]
fn version_bytes() {
    let mut buf = [0u8; 4];
    write_version::<LE>(0x0102_0304, &mut buf).unwrap();
    assert_eq!(buf, [4, 3, 2, 1]);
    write_version::<BE>(0x0102_0304, &mut buf).unwrap();
    assert_eq!(buf, [1, 2, 3, 4]);
}

#[test]
fn version_cut_short() {
    let err = read_version(&[1, 0, 0], 1).unwrap_err();
    assert_eq!(err.message(), "buffer is too small to read version");
    let mut buf = [5u8; 2];
    let err = write_version::<LE>(1, &mut buf).unwrap_err();
    assert_eq!(
        err.message(),
        "destination buffer is too small to write version number"
    );
    assert_eq!(buf, [5u8; 2]);
}

#[test]
fn header_in_sequence() {
    let mut buf = vec![0u8; 64];
    let mut at = 0;
    at += write_label("finite-automaton-dense-tables", &mut buf[at..]).unwrap();
    at += write_endianness_check::<NE>(&mut buf[at..]).unwrap();
    at += write_version::<NE>(2, &mut buf[at..]).unwrap();
    assert_eq!(at, 40);

    let mut at = 0;
    at += read_label(&buf[at..], "finite-automaton-dense-tables").unwrap();
    at += read_endianness_check(&buf[at..]).unwrap();
    at += read_version(&buf[at..], 2).unwrap();
    assert_eq!(at, 40);
}
