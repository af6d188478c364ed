use cup_qr::bitstream::assemble_data_codewords;
use cup_qr::decoder::{
    decode, grid_of, payload_of, picture_of, read_grid, scan, text_of, DecodeFailure, Decoded,
    LumaImage, Sampled, SampledGrid, Search, GRID_BYTES,
};
use cup_qr::encoder::encode;
use cup_qr::error::QrError;
use cup_qr::tables::EccLevel;

/// A picture of the modules: squares of `scale` pixels, a quiet zone of four
/// modules.
fn picture(modules: &[bool], side: usize, scale: usize) -> LumaImage {
    let width = (side + 8) * scale;
    let mut pixels = vec![255u8; width * width];
    for y in 0..side {
        for x in 0..side {
            if modules[y * side + x] {
                for dy in 0..scale {
                    for dx in 0..scale {
                        pixels[((y + 4) * scale + dy) * width + (x + 4) * scale + dx] = 0;
                    }
                }
            }
        }
    }
    LumaImage::new(width, width, pixels).unwrap()
}

/// Searches a picture for symbols and samples the grid of the first.
fn search(image: &LumaImage) -> Search {
    let mut finder = quircs::Quirc::default();
    let first = match finder.identify(image.width(), image.height(), image.pixels()).next() {
        None => Sampled::Nothing,
        Some(Err(_)) => Sampled::Failed,
        Some(Ok(code)) => Sampled::Grid { size: code.size, cells: code.cell_bitmap.to_vec() },
    };
    Search { finders: finder.num_capstones(), first }
}

/// The grid of the modules as a search would sample it.
fn grid(modules: &[bool], side: usize) -> SampledGrid {
    let mut cells = vec![0u8; GRID_BYTES];
    for (i, dark) in modules.iter().enumerate() {
        if *dark {
            cells[i >> 3] |= 1 << (i & 7);
        }
    }
    SampledGrid::new(side as i32, cells).unwrap()
}

/// The modules that the outside encoder draws for codewords under mask 0.
fn drawn(version: u8, data: &[u8], ecc: &[u8]) -> Vec<bool> {
    let mut canvas =
        qrcode::canvas::Canvas::new(qrcode::Version::Normal(version as i16), qrcode::EcLevel::M);
    canvas.draw_all_functional_patterns();
    canvas.draw_data(data, ecc);
    canvas.apply_mask(qrcode::canvas::MaskPattern::Checkerboard);
    canvas.into_colors().into_iter().map(|c| c == qrcode::Color::Dark).collect()
}

/// The modules of a symbol of level M with the given data codewords.
fn symbol_of_codewords(version: u8, data: &[u8]) -> Vec<bool> {
    let (data, ecc) = qrcode::ec::construct_codewords(
        data,
        qrcode::Version::Normal(version as i16),
        qrcode::EcLevel::M,
    )
    .unwrap();
    drawn(version, &data, &ecc)
}

/// The places of the modules that carry data codeword `which`.
fn modules_of_codeword(version: u8, payload: &[u8], which: usize) -> Vec<usize> {
    let data = assemble_data_codewords(payload, version, EccLevel::M);
    let (data, ecc) = qrcode::ec::construct_codewords(
        &data,
        qrcode::Version::Normal(version as i16),
        qrcode::EcLevel::M,
    )
    .unwrap();
    let plain = drawn(version, &data, &ecc);
    let mut changed = data.clone();
    changed[which] ^= 0xff;
    let other = drawn(version, &changed, &ecc);
    (0..plain.len()).filter(|i| plain[*i] != other[*i]).collect()
}

#[test]
fn round_trip_at_every_level() {
    for level in [EccLevel::L, EccLevel::M, EccLevel::Q, EccLevel::H] {
        for len in [0usize, 1, 13, 50, 200, 700] {
            let payload: Vec<u8> = (0..len).map(|i| (i * 29 + 5) as u8).collect();
            let symbol = encode(&payload, level).unwrap();
            let image = picture(symbol.modules(), symbol.side(), 3);
            assert_eq!(decode(search(&image)), Ok(payload));
        }
    }
}

#[test]
fn round_trip_at_every_version() {
    for version in 1..=40u8 {
        let len = cup_qr::tables::byte_capacity(version, EccLevel::M);
        let payload: Vec<u8> = (0..len).map(|i| (i * 31 + version as usize) as u8).collect();
        let symbol = encode(&payload, EccLevel::M).unwrap();
        assert_eq!(symbol.version(), version);
        let image = picture(symbol.modules(), symbol.side(), 3);
        assert_eq!(decode(search(&image)), Ok(payload));
    }
}

#[test]
fn round_trip_of_the_largest_symbol() {
    let payload: Vec<u8> = (0..2953usize).map(|i| (i * 7 + 1) as u8).collect();
    let symbol = encode(&payload, EccLevel::L).unwrap();
    assert_eq!(symbol.version(), 40);
    let image = picture(symbol.modules(), symbol.side(), 3);
    assert_eq!(decode(search(&image)), Ok(payload));
}

#[test]
fn round_trip_without_a_picture() {
    let symbol = encode(b"Hello, world!", EccLevel::M).unwrap();
    assert_eq!(read_grid(&grid(symbol.modules(), symbol.side())), Ok(b"Hello, world!".to_vec()));
}

#[test]
fn located_grid_is_the_symbol() {
    let symbol = encode(b"Hello, world!", EccLevel::M).unwrap();
    let found = grid_of(search(&picture(symbol.modules(), symbol.side(), 5))).ok().unwrap();
    let expected = grid(symbol.modules(), symbol.side());
    assert_eq!(found.size(), 21);
    assert_eq!(found.cells().len(), GRID_BYTES);
    assert_eq!(found.cells(), expected.cells());
}

#[test]
fn format_information_names_level_and_mask() {
    for level in [EccLevel::L, EccLevel::M, EccLevel::Q, EccLevel::H] {
        for text in ["a", "Hello, world!", "0123456789", "the quick brown fox jumps over it"] {
            let symbol = encode(text.as_bytes(), level).unwrap();
            let sampled = grid(symbol.modules(), symbol.side());
            let mut code = quircs::Code::default();
            code.size = sampled.size();
            code.cell_bitmap.copy_from_slice(sampled.cells());
            let data = code.decode().unwrap();
            assert_eq!(data.version, symbol.version() as usize);
            assert_eq!(data.mask, symbol.mask() as i32);
            let outside = match level {
                EccLevel::L => quircs::EccLevel::L,
                EccLevel::M => quircs::EccLevel::M,
                EccLevel::Q => quircs::EccLevel::Q,
                EccLevel::H => quircs::EccLevel::H,
            };
            assert_eq!(data.ecc_level, outside);
            assert_eq!(data.data_type, Some(quircs::DataType::Byte));
        }
    }
}

#[test]
fn errors_within_the_guarantee_are_corrected() {
    let payload = b"twenty bytes of text";
    let symbol = encode(payload, EccLevel::M).unwrap();
    assert_eq!(symbol.version(), 2);
    assert_eq!(
        qrcode::ec::max_allowed_errors(qrcode::Version::Normal(2), qrcode::EcLevel::M),
        Ok(8)
    );
    for flips in 0..=8usize {
        let mut modules = symbol.modules().clone();
        for which in 0..flips {
            let places = modules_of_codeword(2, payload, which);
            assert_eq!(places.len(), 8);
            modules[places[which % 8]] = !modules[places[which % 8]];
        }
        assert_eq!(decode(search(&picture(&modules, 25, 4))), Ok(payload.to_vec()));
    }
}

#[test]
fn one_error_beyond_the_guarantee_is_reported() {
    let payload = b"twenty bytes of text";
    let symbol = encode(payload, EccLevel::M).unwrap();
    let mut modules = symbol.modules().clone();
    for which in 0..9usize {
        let places = modules_of_codeword(2, payload, which);
        modules[places[which % 8]] = !modules[places[which % 8]];
    }
    assert_eq!(decode(search(&picture(&modules, 25, 4))), Err(QrError::EccUncorrectable));
    assert_eq!(read_grid(&grid(&modules, 25)), Err(QrError::EccUncorrectable));
}

#[test]
fn grid_of_no_symbol_size_is_refused() {
    let cells = vec![0u8; GRID_BYTES];
    assert_eq!(
        read_grid(&SampledGrid::new(20, cells.clone()).unwrap()),
        Err(QrError::PerspectiveEstimationFailed)
    );
    assert_eq!(
        read_grid(&SampledGrid::new(181, cells.clone()).unwrap()),
        Err(QrError::PerspectiveEstimationFailed)
    );
    assert_eq!(
        read_grid(&SampledGrid::new(-3, cells).unwrap()),
        Err(QrError::PerspectiveEstimationFailed)
    );
}

#[test]
fn wrecked_format_information_is_reported() {
    let symbol = encode(b"Hello, world!", EccLevel::M).unwrap();
    let mut modules = symbol.modules().clone();
    for (x, y) in [(8usize, 0usize), (8, 1), (8, 2), (8, 3)] {
        modules[y * 21 + x] = !modules[y * 21 + x];
    }
    assert_eq!(read_grid(&grid(&modules, 21)), Ok(b"Hello, world!".to_vec()));
    for (x, y) in [(8usize, 20usize), (8, 19), (8, 18), (8, 17)] {
        modules[y * 21 + x] = !modules[y * 21 + x];
    }
    assert_eq!(read_grid(&grid(&modules, 21)), Err(QrError::FormatInfoUnrecoverable));
}

#[test]
fn segment_longer_than_the_symbol_is_malformed() {
    let mut data = vec![0u8; 16];
    data[0] = 0x4c;
    data[1] = 0x80;
    let modules = symbol_of_codewords(1, &data);
    assert_eq!(read_grid(&grid(&modules, 21)), Err(QrError::BitstreamMalformed));
}

#[test]
fn segment_longer_than_any_symbol_is_malformed() {
    let mut data = vec![0u8; 216];
    data[0] = 0x4f;
    data[1] = 0xff;
    data[2] = 0xf0;
    let modules = symbol_of_codewords(10, &data);
    assert_eq!(read_grid(&grid(&modules, 57)), Err(QrError::BitstreamMalformed));
}

#[test]
fn symbol_of_digits_is_unsupported() {
    let code = qrcode::QrCode::new(b"12345").unwrap();
    let modules: Vec<bool> =
        code.to_colors().into_iter().map(|c| c == qrcode::Color::Dark).collect();
    assert_eq!(read_grid(&grid(&modules, code.width())), Err(QrError::UnsupportedMode));
    assert_eq!(decode(search(&picture(&modules, code.width(), 4))), Err(QrError::UnsupportedMode));
}

#[test]
fn symbol_without_a_segment_is_unsupported() {
    let modules = symbol_of_codewords(1, &vec![0u8; 16]);
    assert_eq!(read_grid(&grid(&modules, 21)), Err(QrError::UnsupportedMode));
}

#[test]
fn payload_that_is_no_text_is_reported() {
    let symbol = encode(&[0xff, 0xfe, 0x00], EccLevel::M).unwrap();
    let image = picture(symbol.modules(), symbol.side(), 4);
    assert_eq!(decode(search(&image)), Ok(vec![0xff, 0xfe, 0x00]));
    assert_eq!(scan(search(&image)), Err(QrError::PayloadNotText));
}

#[test]
fn text_is_read_as_utf8() {
    assert_eq!(text_of(b"Hello".to_vec()), Ok("Hello".to_string()));
    assert_eq!(text_of("caf\u{e9} \u{2615}".as_bytes().to_vec()), Ok("caf\u{e9} \u{2615}".to_string()));
    assert_eq!(text_of(Vec::new()), Ok(String::new()));
    assert_eq!(text_of(vec![0xc3]), Err(QrError::PayloadNotText));
    assert_eq!(text_of(vec![0xed, 0xa0, 0x80]), Err(QrError::PayloadNotText));
    assert_eq!(text_of(vec![0xc0, 0x80]), Err(QrError::PayloadNotText));
}

#[test]
fn searches_are_told_apart() {
    let nothing = |finders: usize| Search { finders, first: Sampled::Nothing };
    assert_eq!(grid_of(nothing(0)).err(), Some(QrError::NoFinderPatternsFound));
    assert_eq!(grid_of(nothing(2)).err(), Some(QrError::NoFinderPatternsFound));
    assert_eq!(grid_of(nothing(3)).err(), Some(QrError::PerspectiveEstimationFailed));
    assert_eq!(grid_of(nothing(7)).err(), Some(QrError::PerspectiveEstimationFailed));
    assert_eq!(
        grid_of(Search { finders: 3, first: Sampled::Failed }).err(),
        Some(QrError::PerspectiveEstimationFailed)
    );
    let grid = |cells: Vec<u8>| Search { finders: 3, first: Sampled::Grid { size: 25, cells } };
    let found = grid_of(grid(vec![1u8; GRID_BYTES])).ok().unwrap();
    assert_eq!(found.size(), 25);
    assert_eq!(found.cells(), &vec![1u8; GRID_BYTES]);
    assert_eq!(
        grid_of(grid(vec![1u8; 10])).err(),
        Some(QrError::PerspectiveEstimationFailed)
    );
}

#[test]
fn finder_patterns_without_a_grid_give_no_geometry() {
    let symbol = encode(b"Hello, world!", EccLevel::M).unwrap();
    let side = symbol.side();
    let mut modules = vec![false; side * side];
    for y in 0..side {
        for x in 0..side {
            let corner = (x < 7 && y < 7) || (x >= side - 7 && y < 7) || (x < 7 && y >= side - 7);
            modules[y * side + x] = corner && symbol.modules()[y * side + x];
        }
    }
    let found = search(&picture(&modules, side, 4));
    assert_eq!(found.finders, 3);
    assert_eq!(decode(found), Err(QrError::PerspectiveEstimationFailed));
    for x in 0..7 {
        for y in 0..7 {
            modules[y * side + x] = false;
        }
    }
    let found = search(&picture(&modules, side, 4));
    assert_eq!(found.finders, 2);
    assert_eq!(decode(found), Err(QrError::NoFinderPatternsFound));
}

#[test]
fn grid_sizes_at_the_ends_of_the_range() {
    let cells = vec![0u8; GRID_BYTES];
    for size in [i32::MIN, i32::MIN + 16, -1, 0, 17, 20, 22, 23, 24, 176, 178, 181, i32::MAX] {
        assert_eq!(
            read_grid(&SampledGrid::new(size, cells.clone()).unwrap()),
            Err(QrError::PerspectiveEstimationFailed)
        );
    }
    for size in [21, 25, 177] {
        assert!(read_grid(&SampledGrid::new(size, cells.clone()).unwrap()).is_err());
        assert_ne!(
            read_grid(&SampledGrid::new(size, cells.clone()).unwrap()),
            Err(QrError::PerspectiveEstimationFailed)
        );
    }
}

#[test]
fn readings_are_told_apart() {
    let reading = |mode: Option<i32>| Decoded { mode, payload: vec![1, 2, 3] };
    assert_eq!(payload_of(Ok(reading(Some(4)))), Ok(vec![1, 2, 3]));
    assert_eq!(payload_of(Ok(reading(Some(1)))), Err(QrError::UnsupportedMode));
    assert_eq!(payload_of(Ok(reading(Some(2)))), Err(QrError::UnsupportedMode));
    assert_eq!(payload_of(Ok(reading(Some(8)))), Err(QrError::UnsupportedMode));
    assert_eq!(payload_of(Ok(reading(None))), Err(QrError::UnsupportedMode));
    assert_eq!(
        payload_of(Err(DecodeFailure::InvalidGridSize)),
        Err(QrError::PerspectiveEstimationFailed)
    );
    assert_eq!(
        payload_of(Err(DecodeFailure::InvalidVersion)),
        Err(QrError::PerspectiveEstimationFailed)
    );
    assert_eq!(payload_of(Err(DecodeFailure::FormatEcc)), Err(QrError::FormatInfoUnrecoverable));
    assert_eq!(payload_of(Err(DecodeFailure::DataEcc)), Err(QrError::EccUncorrectable));
    assert_eq!(payload_of(Err(DecodeFailure::UnknownDataType)), Err(QrError::UnsupportedMode));
    assert_eq!(payload_of(Err(DecodeFailure::DataOverflow)), Err(QrError::BitstreamMalformed));
    assert_eq!(payload_of(Err(DecodeFailure::DataUnderflow)), Err(QrError::BitstreamMalformed));
}

#[test]
fn pictures_need_one_value_for_each_pixel() {
    assert!(LumaImage::new(3, 2, vec![0u8; 6]).is_some());
    assert!(LumaImage::new(3, 2, vec![0u8; 5]).is_none());
    assert!(LumaImage::new(3, 2, vec![0u8; 7]).is_none());
    assert!(LumaImage::new(0, 0, Vec::new()).is_some());
    assert!(LumaImage::new(usize::MAX, 2, Vec::new()).is_none());
    let image = LumaImage::new(3, 2, vec![9u8; 6]).unwrap();
    assert_eq!(image.width(), 3);
    assert_eq!(image.height(), 2);
    assert_eq!(image.pixels(), &vec![9u8; 6]);
}

#[test]
fn grids_need_their_whole_bitmap() {
    assert!(SampledGrid::new(21, vec![0u8; GRID_BYTES]).is_some());
    assert!(SampledGrid::new(21, vec![0u8; GRID_BYTES - 1]).is_none());
    assert!(SampledGrid::new(21, Vec::new()).is_none());
    assert_eq!(GRID_BYTES, 3917);
}

#[test]
fn pictures_without_a_symbol() {
    for (width, height) in [(0usize, 0usize), (0, 5), (5, 0), (1, 1), (5, 1), (1, 5), (21, 21), (64, 48)] {
        for fill in [0u8, 128, 255] {
            let image = LumaImage::new(width, height, vec![fill; width * height]).unwrap();
            assert_eq!(decode(search(&image)), Err(QrError::NoFinderPatternsFound));
        }
    }
}

#[test]
fn what_was_read_is_a_picture() {
    assert_eq!(picture_of(None).err(), Some(QrError::ImageUnreadable));
    assert_eq!(picture_of(Some((2, 2, vec![0u8; 3]))).err(), Some(QrError::ImageUnreadable));
    assert_eq!(picture_of(Some((usize::MAX, 2, Vec::new()))).err(), Some(QrError::ImageUnreadable));
    let image = picture_of(Some((10, 10, vec![255u8; 100]))).ok().unwrap();
    assert_eq!(image.width(), 10);
    assert_eq!(image.height(), 10);
    assert_eq!(scan(search(&image)), Err(QrError::NoFinderPatternsFound));
    let symbol = encode(b"42", EccLevel::M).unwrap();
    let width = (symbol.side() + 8) * 4;
    let drawn = picture(symbol.modules(), symbol.side(), 4);
    let image = picture_of(Some((width, width, drawn.pixels().clone()))).ok().unwrap();
    assert_eq!(scan(search(&image)), Ok("42".to_string()));
}

#[test]
fn noise_is_searched_without_harm() {
    let mut seed = 2024u32;
    let mut next = move || {
        seed = seed.wrapping_mul(1664525).wrapping_add(1013904223);
        seed >> 8
    };
    for round in 0..60usize {
        let width = 1 + (next() as usize) % 90;
        let height = 1 + (next() as usize) % 90;
        let block = 1 + round % 5;
        let mut pixels = vec![0u8; width * height];
        let mut cells = vec![0u8; (width / block + 1) * (height / block + 1)];
        for cell in cells.iter_mut() {
            *cell = if next() % 2 == 0 { (next() % 80) as u8 } else { 175 + (next() % 80) as u8 };
        }
        for y in 0..height {
            for x in 0..width {
                pixels[y * width + x] = cells[(y / block) * (width / block + 1) + x / block];
            }
        }
        let image = LumaImage::new(width, height, pixels).unwrap();
        let outcome = decode(search(&image));
        assert!(!matches!(
            outcome,
            Err(QrError::CapacityExceeded | QrError::ImageUnreadable | QrError::PayloadNotText)
        ));
    }
}

#[test]
fn damaged_pictures_are_searched_without_harm() {
    let symbol = encode(b"a picture that gets worse and worse", EccLevel::Q).unwrap();
    let side = symbol.side();
    let clean = picture(symbol.modules(), side, 4);
    let mut seed = 77u32;
    let mut read = 0;
    for damage in 0..40u32 {
        let mut pixels = clean.pixels().clone();
        for pixel in pixels.iter_mut() {
            seed = seed.wrapping_mul(1664525).wrapping_add(1013904223);
            if (seed >> 8) % 100 < damage {
                *pixel = 255 - *pixel;
            }
        }
        let image = LumaImage::new(clean.width(), clean.height(), pixels).unwrap();
        match decode(search(&image)) {
            Ok(payload) => {
                assert_eq!(payload, b"a picture that gets worse and worse".to_vec());
                read += 1;
            }
            Err(error) => assert!(error != QrError::CapacityExceeded),
        }
    }
    assert!(read >= 1);
}
