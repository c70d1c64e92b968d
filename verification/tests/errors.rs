use automata_codec::error::{label_mismatch_message, DeserializeError, SerializeError};
use automata_codec::id::{PatternID, StateID};

#[test]
fn serialize_error_message() {
    let err = SerializeError::buffer_too_small("sparse DFA");
    assert_eq!(
        err.message(),
        "destination buffer is too small to write sparse DFA"
    );
}

#[test]
fn messages_with_a_description() {
    assert_eq!(
        DeserializeError::generic("something is off").message(),
        "something is off"
    );
    assert_eq!(
        DeserializeError::buffer_too_small("start table").message(),
        "buffer is too small to read start table"
    );
    assert_eq!(
        DeserializeError::invalid_usize("state count").message(),
        "state count is too big to fit in a usize"
    );
    assert_eq!(
        DeserializeError::invalid_varint("pattern length").message(),
        "could not decode valid varint for pattern length"
    );
    assert_eq!(
        DeserializeError::arithmetic_overflow("table size").message(),
        "arithmetic overflow for table size"
    );
}

#[test]
fn messages_with_numbers() {
    assert_eq!(
        DeserializeError::version_mismatch(2, 1).message(),
        format!(
            "unsupported version: expected version {} but found version {}",
            2, 1
        )
    );
    assert_eq!(
        DeserializeError::version_mismatch(0, u32::MAX).message(),
        "unsupported version: expected version 0 but found version 4294967295"
    );
    assert_eq!(
        DeserializeError::endian_mismatch(0xFEFF, 0xFFFE_0000).message(),
        format!(
            "endianness mismatch: expected 0x{:X} but got 0x{:X}. \
             (Are you trying to load an object serialized with a \
             different endianness?)",
            0xFEFFu32, 0xFFFE_0000u32
        )
    );
    assert_eq!(
        DeserializeError::endian_mismatch(0, 0xABCDEF).message(),
        "endianness mismatch: expected 0x0 but got 0xABCDEF. (Are you trying to load an object \
         serialized with a different endianness?)"
    );
    assert_eq!(
        DeserializeError::state_size_mismatch(4, 2).message(),
        "state size mismatch: caller requested a state size of 4, but serialized object has a \
         state size of 2"
    );
    assert_eq!(
        DeserializeError::alignment_mismatch(4, 0x7FFE_1235).message(),
        "alignment mismatch: slice starts at address 0x7FFE1235, which is not aligned to a 4 \
         byte boundary"
    );
    assert_eq!(
        DeserializeError::alignment_mismatch(8, usize::MAX).message(),
        format!(
            "alignment mismatch: slice starts at address 0x{:X}, which is not aligned to a {} \
             byte boundary",
            usize::MAX,
            8
        )
    );
}

#[test]
fn numerals_in_messages() {
    for &n in &[0u32, 1, 9, 10, 11, 99, 100, 101, 255, 256, 4095, 4096, 65535, 1_000_000, u32::MAX] {
        assert_eq!(
            DeserializeError::version_mismatch(n, n / 3).message(),
            format!(
                "unsupported version: expected version {} but found version {}",
                n,
                n / 3
            )
        );
        assert_eq!(
            DeserializeError::endian_mismatch(n, n / 7).message(),
            format!(
                "endianness mismatch: expected 0x{:X} but got 0x{:X}. \
                 (Are you trying to load an object serialized with a \
                 different endianness?)",
                n,
                n / 7
            )
        );
    }
}

#[test]
fn label_mismatch_messages() {
    assert_eq!(
        DeserializeError::label_mismatch("finite-automaton-dense-tables").message(),
        "label mismatch: start of serialized object should contain a NUL terminated \
         \"finite-automaton-dense-tables\" label, but a different label was found"
    );
    // The label is shown as `{:?}` shows it: between quotes and escaped.
    assert_eq!(
        DeserializeError::label_mismatch("a\"b\\c\n").message(),
        format!(
            "label mismatch: start of serialized object should \
             contain a NUL terminated {:?} label, but a different \
             label was found",
            "a\"b\\c\n"
        )
    );
    assert_eq!(
        label_mismatch_message("<label>"),
        "label mismatch: start of serialized object should contain a NUL terminated <label> \
         label, but a different label was found"
    );
}

#[test]
fn identifier_error_messages() {
    let err = PatternID::new(2147483647).unwrap_err();
    assert_eq!(err.attempted(), 2147483647);
    assert_eq!(
        err.message(),
        "failed to create PatternID from 2147483647, which exceeds PatternID(2147483646)"
    );
    assert_eq!(
        DeserializeError::pattern_id_error(err, "pattern ID").message(),
        "failed to read pattern ID for pattern ID: failed to create PatternID from 2147483647, \
         which exceeds PatternID(2147483646)"
    );
    let err = StateID::new(4_000_000_000).unwrap_err();
    assert_eq!(err.attempted(), 4_000_000_000);
    assert_eq!(
        err.message(),
        "failed to create StateID from 4000000000, which exceeds StateID(2147483646)"
    );
    assert_eq!(
        DeserializeError::state_id_error(err, "start state").message(),
        "failed to read state ID for start state: failed to create StateID from 4000000000, \
         which exceeds StateID(2147483646)"
    );
}
