use nifti::{
    Endianness, InMemNiftiVolume, NiftiError, NiftiType, NiftiVolume, Sliceable, Voxel,
};

fn voxel_to_f64(v: Voxel) -> f64 {
    match v {
        Voxel::U8(x) => x as f64,
        Voxel::I8(x) => x as f64,
        Voxel::U16(x) => x as f64,
        Voxel::I16(x) => x as f64,
        Voxel::U32(x) => x as f64,
        Voxel::I32(x) => x as f64,
        Voxel::U64(x) => x as f64,
        Voxel::I64(x) => x as f64,
        Voxel::F32(b) => f32::from_bits(b) as f64,
        Voxel::F64(b) => f64::from_bits(b),
    }
}

fn get_f32<V: NiftiVolume>(v: &V, coords: &[u16]) -> Result<f32, NiftiError> {
    let (slope, inter) = v.scale();
    v.get_voxel(coords)
        .map(|x| voxel_to_f64(x) as f32 * f32::from_bits(slope) + f32::from_bits(inter))
}

fn ramp_volume() -> InMemNiftiVolume {
    let data: Vec<u8> = (0..64).map(|x| x * 2).collect();
    InMemNiftiVolume::new(
        [3, 4, 4, 4, 0, 0, 0, 0],
        NiftiType::Uint8,
        1f32.to_bits(),
        (-5f32).to_bits(),
        data,
        Endianness::LE,
    )
    .unwrap()
}

#[test]
fn test_u8_inmem_volume() {
    let vol = ramp_volume();

    let v = get_f32(&vol, &[3, 1, 0]).unwrap();
    assert_eq!(v, 9.);

    let v = get_f32(&vol, &[3, 3, 3]).unwrap();
    assert_eq!(v, 121.);

    let v = get_f32(&vol, &[2, 1, 1]).unwrap();
    assert_eq!(v, 39.);

    assert!(get_f32(&vol, &[4, 0, 0]).is_err());
}

#[test]
fn test_u8_inmem_volume_slice() {
    let vol = ramp_volume();

    let slice = (&vol).get_slice(0, 3).unwrap();
    assert_eq!(slice.dim(), &[4, 4]);
    assert_eq!(slice.dimensionality(), 2);

    let v = get_f32(&slice, &[1, 0]).unwrap();
    assert_eq!(v, 9.);
    let v = get_f32(&slice, &[3, 3]).unwrap();
    assert_eq!(v, 121.);

    let slice = (&vol).get_slice(1, 1).unwrap();
    assert_eq!(slice.dim(), &[4, 4]);
    assert_eq!(slice.dimensionality(), 2);
    let v = get_f32(&slice, &[2, 1]).unwrap();
    assert_eq!(v, 39.);
}

#[test]
fn out_of_bounds_carries_the_coordinates() {
    let vol = ramp_volume();
    assert_eq!(vol.get_voxel(&[4, 0, 0]), Err(NiftiError::OutOfBounds(vec![4, 0, 0])));
    assert_eq!(vol.get_voxel(&[0, 0]), Err(NiftiError::OutOfBounds(vec![0, 0])));
    assert_eq!(vol.get_voxel(&[0, 0, 0, 0]), Err(NiftiError::OutOfBounds(vec![0, 0, 0, 0])));
}

#[test]
fn raw_voxels_of_a_ramp() {
    let vol = ramp_volume();
    assert_eq!(vol.get_voxel(&[3, 1, 0]), Ok(Voxel::U8(14)));
    assert_eq!(vol.get_voxel(&[3, 3, 3]), Ok(Voxel::U8(126)));
    assert_eq!(vol.get_voxel(&[0, 0, 0]), Ok(Voxel::U8(0)));
    assert_eq!(vol.dim(), &[4, 4, 4]);
    assert_eq!(vol.dimensionality(), 3);
    assert_eq!(vol.data_type(), NiftiType::Uint8);
    assert_eq!(vol.scale(), (1f32.to_bits(), (-5f32).to_bits()));
    assert_eq!(vol.endianness(), Endianness::LE);
}

#[test]
fn new_rejects_inconsistent_layouts() {
    let short: Vec<u8> = vec![0; 63];
    let r = InMemNiftiVolume::new([3, 4, 4, 4, 0, 0, 0, 0], NiftiType::Uint8, 0, 0, short, Endianness::LE);
    assert_eq!(r, Err(NiftiError::InvalidFormat));
    let r = InMemNiftiVolume::new([0, 4, 4, 4, 0, 0, 0, 0], NiftiType::Uint8, 0, 0, vec![], Endianness::LE);
    assert_eq!(r, Err(NiftiError::InvalidFormat));
    let r = InMemNiftiVolume::new([8, 1, 1, 1, 1, 1, 1, 1], NiftiType::Uint8, 0, 0, vec![0], Endianness::LE);
    assert_eq!(r, Err(NiftiError::InvalidFormat));
    let r = InMemNiftiVolume::new([2, 2, 2, 0, 0, 0, 0, 0], NiftiType::Uint16, 0, 0, vec![0; 8], Endianness::BE);
    assert!(r.is_ok());
}

#[test]
fn raw_data_accessors() {
    let mut vol = ramp_volume();
    assert_eq!(vol.get_raw_data().len(), 64);
    assert_eq!(vol.get_raw_data()[5], 10);
    vol.get_raw_data_mut()[7] = 200;
    assert_eq!(vol.get_voxel(&[3, 1, 0]), Ok(Voxel::U8(200)));
    let raw = vol.to_raw_data();
    assert_eq!(raw.len(), 64);
    assert_eq!(raw[7], 200);
}

#[test]
fn unsupported_type_is_reported() {
    let vol = InMemNiftiVolume::new(
        [1, 2, 0, 0, 0, 0, 0, 0],
        NiftiType::Rgb24,
        0,
        0,
        vec![1, 2, 3, 4, 5, 6],
        Endianness::LE,
    )
    .unwrap();
    assert_eq!(vol.get_voxel(&[1]), Err(NiftiError::UnsupportedDataType(NiftiType::Rgb24)));
    assert_eq!(vol.get_voxel(&[2]), Err(NiftiError::OutOfBounds(vec![2])));
}

fn one_voxel(t: NiftiType, e: Endianness, bytes: Vec<u8>) -> Voxel {
    let vol = InMemNiftiVolume::new([1, 1, 0, 0, 0, 0, 0, 0], t, 0, 0, bytes, e).unwrap();
    vol.get_voxel(&[0]).unwrap()
}

#[test]
fn multi_byte_voxels_follow_the_byte_order() {
    assert_eq!(one_voxel(NiftiType::Uint16, Endianness::LE, vec![0x01, 0x02]), Voxel::U16(0x0201));
    assert_eq!(one_voxel(NiftiType::Uint16, Endianness::BE, vec![0x01, 0x02]), Voxel::U16(0x0102));
    assert_eq!(one_voxel(NiftiType::Int16, Endianness::LE, vec![0xfe, 0xff]), Voxel::I16(-2));
    assert_eq!(one_voxel(NiftiType::Int16, Endianness::BE, vec![0x80, 0x00]), Voxel::I16(-32768));
    assert_eq!(
        one_voxel(NiftiType::Uint32, Endianness::LE, vec![1, 2, 3, 4]),
        Voxel::U32(0x0403_0201)
    );
    assert_eq!(
        one_voxel(NiftiType::Uint32, Endianness::BE, vec![1, 2, 3, 4]),
        Voxel::U32(0x0102_0304)
    );
    assert_eq!(one_voxel(NiftiType::Int32, Endianness::BE, vec![0xff, 0xff, 0xff, 0xfd]), Voxel::I32(-3));
    assert_eq!(
        one_voxel(NiftiType::Uint64, Endianness::LE, vec![1, 0, 0, 0, 0, 0, 0, 0x80]),
        Voxel::U64(0x8000_0000_0000_0001)
    );
    assert_eq!(
        one_voxel(NiftiType::Int64, Endianness::BE, vec![0xff, 0xff, 0xff, 0xff, 0xff, 0xff, 0xff, 0xff]),
        Voxel::I64(-1)
    );
    assert_eq!(one_voxel(NiftiType::Int8, Endianness::LE, vec![0xff]), Voxel::I8(-1));
    assert_eq!(one_voxel(NiftiType::Int8, Endianness::BE, vec![0x7f]), Voxel::I8(127));
    let f = 1.5f32;
    assert_eq!(one_voxel(NiftiType::Float32, Endianness::LE, f.to_le_bytes().to_vec()), Voxel::F32(f.to_bits()));
    assert_eq!(one_voxel(NiftiType::Float32, Endianness::BE, f.to_be_bytes().to_vec()), Voxel::F32(f.to_bits()));
    let d = -2.25f64;
    assert_eq!(one_voxel(NiftiType::Float64, Endianness::BE, d.to_be_bytes().to_vec()), Voxel::F64(d.to_bits()));
    assert_eq!(one_voxel(NiftiType::Float64, Endianness::LE, d.to_le_bytes().to_vec()), Voxel::F64(d.to_bits()));
}

#[test]
fn multi_byte_voxels_are_found_by_element_offset() {
    // extents [2, 2], u16 big-endian, values 10, 20, 30, 40 in column-major order
    let bytes = vec![0, 10, 0, 20, 0, 30, 0, 40];
    let vol = InMemNiftiVolume::new([2, 2, 2, 0, 0, 0, 0, 0], NiftiType::Uint16, 0, 0, bytes, Endianness::BE).unwrap();
    assert_eq!(vol.get_voxel(&[0, 0]), Ok(Voxel::U16(10)));
    assert_eq!(vol.get_voxel(&[1, 0]), Ok(Voxel::U16(20)));
    assert_eq!(vol.get_voxel(&[0, 1]), Ok(Voxel::U16(30)));
    assert_eq!(vol.get_voxel(&[1, 1]), Ok(Voxel::U16(40)));
}
