use nifti::{Endianness, InMemNiftiVolume, NiftiError, NiftiHeader, NiftiType, NiftiVolume, Voxel};

fn header() -> NiftiHeader {
    NiftiHeader {
        dim: [3, 4, 4, 4, 1, 1, 1, 1],
        datatype: 2,
        bitpix: 8,
        scl_slope: 1f32.to_bits(),
        scl_inter: (-5f32).to_bits(),
        vox_offset: 352,
    }
}

#[test]
fn decode_consumes_exactly_the_voxel_bytes() {
    let mut source: Vec<u8> = (0..64).map(|x| x * 2).collect();
    source.push(0xAB);
    source.push(0xCD);
    let (vol, n) = InMemNiftiVolume::from_stream(&source, &header(), Endianness::LE).unwrap();
    assert_eq!(n, 64);
    assert_eq!(vol.get_raw_data(), &source[..64]);
    assert_eq!(&source[n..], &[0xAB, 0xCD]);
    assert_eq!(vol.dim(), &[4, 4, 4]);
    assert_eq!(vol.get_voxel(&[2, 1, 1]), Ok(Voxel::U8(44)));
}

#[test]
fn decode_byte_count_uses_bits_per_element() {
    let h = NiftiHeader { dim: [2, 3, 2, 0, 0, 0, 0, 0], datatype: 512, bitpix: 16, ..header() };
    assert_eq!(InMemNiftiVolume::data_len(&h), Ok(12));
    let source: Vec<u8> = (0..20).collect();
    let (vol, n) = InMemNiftiVolume::from_stream(&source, &h, Endianness::BE).unwrap();
    assert_eq!(n, 12);
    assert_eq!(vol.data_type(), NiftiType::Uint16);
    assert_eq!(vol.get_voxel(&[2, 1]), Ok(Voxel::U16(0x0a0b)));
}

#[test]
fn unknown_datatype_fails_before_reading() {
    let h = NiftiHeader { datatype: 3, ..header() };
    assert_eq!(InMemNiftiVolume::data_len(&h), Err(NiftiError::InvalidFormat));
    let empty: Vec<u8> = vec![];
    assert_eq!(InMemNiftiVolume::from_stream(&empty, &h, Endianness::LE).unwrap_err(), NiftiError::InvalidFormat);
}

#[test]
fn inconsistent_headers_are_invalid() {
    let source = vec![0u8; 1000];
    let wrong_bits = NiftiHeader { bitpix: 16, ..header() };
    assert_eq!(InMemNiftiVolume::from_stream(&source, &wrong_bits, Endianness::LE).unwrap_err(), NiftiError::InvalidFormat);
    let no_axes = NiftiHeader { dim: [0, 4, 4, 4, 1, 1, 1, 1], ..header() };
    assert_eq!(InMemNiftiVolume::data_len(&no_axes), Err(NiftiError::InvalidFormat));
    let too_many = NiftiHeader { dim: [8, 1, 1, 1, 1, 1, 1, 1], ..header() };
    assert_eq!(InMemNiftiVolume::data_len(&too_many), Err(NiftiError::InvalidFormat));
    let huge = NiftiHeader {
        dim: [7, 65535, 65535, 65535, 65535, 65535, 65535, 65535],
        datatype: 64,
        bitpix: 64,
        ..header()
    };
    assert_eq!(InMemNiftiVolume::data_len(&huge), Err(NiftiError::InvalidFormat));
}

#[test]
fn short_source_is_an_unexpected_end() {
    let source = vec![0u8; 63];
    assert_eq!(InMemNiftiVolume::from_stream(&source, &header(), Endianness::LE).unwrap_err(), NiftiError::UnexpectedEof);
}

#[test]
fn extensions_come_before_the_voxels() {
    let h = NiftiHeader { vox_offset: 360, ..header() };
    assert_eq!(h.extensions_len(), 8);
    let mut source: Vec<u8> = vec![9, 9, 9, 9, 8, 8, 8, 8];
    source.extend((0..64).map(|x| x * 2));
    source.push(0xEE);
    let (vol, ext, n) = InMemNiftiVolume::from_stream_with_extensions(&source, &h, Endianness::LE).unwrap();
    assert_eq!(ext, vec![9, 9, 9, 9, 8, 8, 8, 8]);
    assert_eq!(n, 72);
    assert_eq!(vol.get_voxel(&[3, 1, 0]), Ok(Voxel::U8(14)));
    assert_eq!(source[n], 0xEE);

    let early = NiftiHeader { vox_offset: 348, ..header() };
    assert_eq!(early.extensions_len(), 0);
    let (_, ext, n) = InMemNiftiVolume::from_stream_with_extensions(&source[8..], &early, Endianness::LE).unwrap();
    assert!(ext.is_empty());
    assert_eq!(n, 64);

    let far = NiftiHeader { vox_offset: 1000, ..header() };
    assert_eq!(InMemNiftiVolume::from_stream_with_extensions(&source, &far, Endianness::LE).unwrap_err(), NiftiError::UnexpectedEof);
}

#[test]
fn datatype_codes() {
    let codes = [2i16, 4, 8, 16, 32, 64, 128, 256, 512, 768, 1024, 1280, 1536, 1792, 2048, 2304];
    for c in codes {
        let t = NiftiType::from_i16(c).unwrap();
        assert_eq!(t.code(), c);
    }
    assert_eq!(NiftiType::from_i16(0), None);
    assert_eq!(NiftiType::from_i16(2), Some(NiftiType::Uint8));
    assert_eq!(NiftiType::from_i16(256), Some(NiftiType::Int8));
    assert_eq!(NiftiType::Float64.size_of(), 8);
    assert_eq!(NiftiType::Rgb24.size_of(), 3);
    assert_eq!(NiftiType::Complex256.size_of(), 32);
    assert!(NiftiType::Int64.is_supported());
    assert!(!NiftiType::Complex64.is_supported());
    assert_eq!(header().data_type(), Some(NiftiType::Uint8));
}

#[test]
fn read_voxel_on_bytes() {
    assert_eq!(NiftiType::Uint32.read_voxel(&[0, 0, 1, 0, 7], Endianness::BE), Ok(Voxel::U32(256)));
    assert_eq!(NiftiType::Int16.read_voxel(&[0x00, 0x80], Endianness::LE), Ok(Voxel::I16(-32768)));
    assert_eq!(
        NiftiType::Complex128.read_voxel(&[0; 16], Endianness::LE),
        Err(NiftiError::UnsupportedDataType(NiftiType::Complex128))
    );
}
