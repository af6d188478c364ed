use cup_qr::bitstream::assemble_data_codewords;
use cup_qr::tables::{
    byte_capacity, data_codewords, length_field_bits, symbol_side, EccLevel, MAX_VERSION,
};
use cup_qr::version::select_version;

const LEVELS: [(EccLevel, qrcode::EcLevel); 4] = [
    (EccLevel::L, qrcode::EcLevel::L),
    (EccLevel::M, qrcode::EcLevel::M),
    (EccLevel::Q, qrcode::EcLevel::Q),
    (EccLevel::H, qrcode::EcLevel::H),
];

#[test]
fn levels_are_ordered() {
    assert_eq!(EccLevel::L.index(), 0);
    assert_eq!(EccLevel::M.index(), 1);
    assert_eq!(EccLevel::Q.index(), 2);
    assert_eq!(EccLevel::H.index(), 3);
    for version in 1..=40u8 {
        assert!(byte_capacity(version, EccLevel::L) > byte_capacity(version, EccLevel::M));
        assert!(byte_capacity(version, EccLevel::M) > byte_capacity(version, EccLevel::Q));
        assert!(byte_capacity(version, EccLevel::Q) > byte_capacity(version, EccLevel::H));
    }
}

#[test]
fn sides_grow_by_four() {
    assert_eq!(MAX_VERSION, 40);
    assert_eq!(symbol_side(1), 21);
    assert_eq!(symbol_side(2), 25);
    assert_eq!(symbol_side(7), 45);
    assert_eq!(symbol_side(40), 177);
}

#[test]
fn length_field_widens_at_version_ten() {
    assert_eq!(length_field_bits(1), 8);
    assert_eq!(length_field_bits(9), 8);
    assert_eq!(length_field_bits(10), 16);
    assert_eq!(length_field_bits(40), 16);
}

#[test]
fn data_codewords_agree_with_the_outside_tables() {
    for version in 1..=40u8 {
        for (level, outside) in LEVELS {
            let bits = qrcode::bits::Bits::new(qrcode::Version::Normal(version as i16));
            assert_eq!(data_codewords(version, level) * 8, bits.max_len(outside).unwrap());
        }
    }
}

#[test]
fn known_capacities() {
    assert_eq!(byte_capacity(1, EccLevel::L), 17);
    assert_eq!(byte_capacity(1, EccLevel::M), 14);
    assert_eq!(byte_capacity(1, EccLevel::Q), 11);
    assert_eq!(byte_capacity(1, EccLevel::H), 7);
    assert_eq!(byte_capacity(9, EccLevel::L), 230);
    assert_eq!(byte_capacity(10, EccLevel::L), 271);
    assert_eq!(byte_capacity(40, EccLevel::L), 2953);
    assert_eq!(byte_capacity(40, EccLevel::M), 2331);
    assert_eq!(byte_capacity(40, EccLevel::Q), 1663);
    assert_eq!(byte_capacity(40, EccLevel::H), 1273);
}

#[test]
fn capacity_is_what_the_outside_encoder_accepts() {
    for version in 1..=40u8 {
        for (level, outside) in LEVELS {
            let capacity = byte_capacity(version, level);
            let fits = vec![0u8; capacity];
            let mut bits = qrcode::bits::Bits::new(qrcode::Version::Normal(version as i16));
            bits.push_byte_data(&fits).unwrap();
            assert!(bits.push_terminator(outside).is_ok());
            let too_long = vec![0u8; capacity + 1];
            let mut bits = qrcode::bits::Bits::new(qrcode::Version::Normal(version as i16));
            let pushed = bits.push_byte_data(&too_long);
            assert!(pushed.is_err() || bits.push_terminator(outside).is_err());
        }
    }
}

#[test]
fn smallest_version_is_chosen() {
    assert_eq!(select_version(0, EccLevel::M), Some(1));
    assert_eq!(select_version(13, EccLevel::M), Some(1));
    assert_eq!(select_version(14, EccLevel::M), Some(1));
    assert_eq!(select_version(15, EccLevel::M), Some(2));
    assert_eq!(select_version(17, EccLevel::L), Some(1));
    assert_eq!(select_version(18, EccLevel::L), Some(2));
    assert_eq!(select_version(230, EccLevel::L), Some(9));
    assert_eq!(select_version(231, EccLevel::L), Some(10));
    assert_eq!(select_version(2953, EccLevel::L), Some(40));
    assert_eq!(select_version(2954, EccLevel::L), None);
    assert_eq!(select_version(1273, EccLevel::H), Some(40));
    assert_eq!(select_version(1274, EccLevel::H), None);
    assert_eq!(select_version(usize::MAX, EccLevel::L), None);
}

#[test]
fn version_selection_is_monotonic() {
    for (level, _) in LEVELS {
        let mut last = 1u8;
        for len in 0..=2953usize {
            match select_version(len, level) {
                Some(version) => {
                    assert!(last <= version);
                    assert!(len <= byte_capacity(version, level));
                    if version > 1 {
                        assert!(len > byte_capacity(version - 1, level));
                    }
                    last = version;
                }
                None => assert!(len > byte_capacity(40, level)),
            }
        }
    }
}

#[test]
fn data_codewords_of_a_known_payload() {
    let codewords = assemble_data_codewords(b"\x12\x34\x56\x78\x9a\xbc\xde\xf0", 1, EccLevel::M);
    assert_eq!(
        codewords,
        vec![
            0b0100_0000, 0b1000_0001, 0b0010_0011, 0b0100_0101, 0b0110_0111, 0b1000_1001,
            0b1010_1011, 0b1100_1101, 0b1110_1111, 0b0000_0000, 0xec, 0x11, 0xec, 0x11, 0xec,
            0x11,
        ]
    );
}

#[test]
fn data_codewords_of_the_empty_payload() {
    let codewords = assemble_data_codewords(b"", 1, EccLevel::H);
    assert_eq!(codewords, vec![0x40, 0x00, 0xec, 0x11, 0xec, 0x11, 0xec, 0x11, 0xec]);
}

#[test]
fn data_codewords_with_a_wide_length_field() {
    let payload = vec![0xffu8; 280];
    assert_eq!(byte_capacity(12, EccLevel::M), 287);
    let wide = assemble_data_codewords(&payload, 12, EccLevel::M);
    assert_eq!(wide.len(), 290);
    assert_eq!(&wide[..4], &[0x40, 0x11, 0x8f, 0xff]);
    assert_eq!(&wide[282..286], &[0xf0, 0xec, 0x11, 0xec]);
}

#[test]
fn data_codewords_agree_with_the_outside_encoder() {
    for version in [1u8, 2, 5, 9, 10, 20, 26, 27, 40] {
        for (level, outside) in LEVELS {
            let capacity = byte_capacity(version, level);
            for len in [0, 1, capacity / 2, capacity - 1, capacity] {
                let payload: Vec<u8> = (0..len).map(|i| (i * 101 + 3) as u8).collect();
                let mut bits = qrcode::bits::Bits::new(qrcode::Version::Normal(version as i16));
                bits.push_byte_data(&payload).unwrap();
                bits.push_terminator(outside).unwrap();
                assert_eq!(assemble_data_codewords(&payload, version, level), bits.into_bytes());
            }
        }
    }
}
