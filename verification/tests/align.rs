use automata_codec::align::{
    alloc_aligned_buffer, check_address, check_alignment, padding_for_address,
    skip_initial_padding,
};

#[test]
fn addresses() {
    assert!(check_address(0, 4).is_ok());
    assert!(check_address(4096, 4).is_ok());
    assert!(check_address(4096, 8).is_ok());
    assert!(check_address(13, 1).is_ok());
    for address in [1usize, 2, 3, 5, 6, 7, 4097, usize::MAX] {
        let err = check_address(address, 4).unwrap_err();
        assert_eq!(
            err.message(),
            format!(
                "alignment mismatch: slice starts at address \
                 0x{:X}, which is not aligned to a {} byte boundary",
                address, 4
            )
        );
    }
}

#[test]
fn alignment_of_slices() {
    let bytes = vec![0u8; 64];
    let mut aligned = 0;
    for offset in 0..16 {
        let slice = &bytes[offset..];
        let address = slice.as_ptr() as usize;
        match check_alignment::<u32>(slice) {
            Ok(()) => {
                assert_eq!(address % 4, 0);
                aligned += 1;
            }
            Err(err) => {
                assert_ne!(address % 4, 0);
                assert_eq!(
                    err.message(),
                    format!(
                        "alignment mismatch: slice starts at address \
                         0x{:X}, which is not aligned to a {} byte boundary",
                        address,
                        std::mem::align_of::<u32>()
                    )
                );
            }
        }
        assert!(check_alignment::<u8>(slice).is_ok());
    }
    assert_eq!(aligned, 16 / std::mem::align_of::<u32>());
}

#[test]
fn initial_padding() {
    assert_eq!(skip_initial_padding(&[]), 0);
    assert_eq!(skip_initial_padding(&[1]), 0);
    assert_eq!(skip_initial_padding(&[0]), 1);
    assert_eq!(skip_initial_padding(&[0, 0, 0, 5, 0]), 3);
    assert_eq!(skip_initial_padding(&[0; 6]), 6);
    assert_eq!(skip_initial_padding(&[0; 7]), 7);
    assert_eq!(skip_initial_padding(&[0; 8]), 7);
    assert_eq!(skip_initial_padding(&[0; 100]), 7);
    assert_eq!(skip_initial_padding(&[0, 0, 0, 0, 0, 0, 0, 1]), 7);
    assert_eq!(skip_initial_padding(&[0, 0, 0, 0, 0, 0, 1, 0]), 6);
}

#[test]
fn padding_for_addresses() {
    for alignment in [1usize, 2, 4, 8] {
        for address in (0..64usize).chain(usize::MAX - 64..=usize::MAX) {
            let padding = padding_for_address(address, alignment);
            assert!(padding <= 7);
            if address % alignment == 0 {
                assert_eq!(padding, 0);
            } else {
                assert_eq!(padding, 8 - address % 8);
                assert_eq!((address % 8 + padding) % alignment, 0);
            }
        }
    }
    assert_eq!(padding_for_address(0x1001, 4), 7);
    assert_eq!(padding_for_address(0x1002, 4), 6);
    assert_eq!(padding_for_address(0x1004, 4), 0);
    assert_eq!(padding_for_address(0x1004, 8), 4);
    assert_eq!(padding_for_address(0x1007, 2), 1);
}

#[test]
fn aligned_buffers() {
    for size in [0usize, 1, 3, 4, 17, 1024] {
        let (buf, padding) = alloc_aligned_buffer::<u32>(size);
        assert!(padding <= 7);
        assert_eq!(buf.len(), size + padding);
        assert_eq!(buf[padding..].len(), size);
        assert!(buf.iter().all(|&b| b == 0));
        assert!(check_alignment::<u32>(&buf[padding..]).is_ok());

        let (buf, padding) = alloc_aligned_buffer::<u64>(size);
        assert_eq!(buf.len(), size + padding);
        assert!(check_alignment::<u64>(&buf[padding..]).is_ok());

        let (buf, padding) = alloc_aligned_buffer::<u8>(size);
        assert_eq!(padding, 0);
        assert_eq!(buf.len(), size);
    }
}
