//! Reading and writing primitive fields at fixed offsets, checked against
//! the standard library's own byte-order decoders.

use binary_layout::{EndianKind, Field, FieldKind, PrimitiveField, PrimitiveKind, PrimitiveValue};

#[test]
fn primitive_test_i8_littleendian() {
    let mut storage = vec![0; 1024];

    let field1 = PrimitiveField::new(PrimitiveKind::I8, EndianKind::Little, 5);
    let field2 = PrimitiveField::new(PrimitiveKind::I8, EndianKind::Little, 20);

    field1.write(&mut storage, PrimitiveValue::I8(50));
    field2.write(&mut storage, PrimitiveValue::I8(-20));

    assert_eq!(PrimitiveValue::I8(50), field1.read(&storage));
    assert_eq!(PrimitiveValue::I8(-20), field2.read(&storage));

    assert_eq!(50, i8::from_le_bytes((&storage[5..6]).try_into().unwrap()));
    assert_eq!(-20, i8::from_le_bytes((&storage[20..21]).try_into().unwrap()));

    assert_eq!(1, field1.size());
    assert_eq!(1, field2.size());
}

#[test]
fn primitive_test_i8_bigendian() {
    let mut storage = vec![0; 1024];

    let field1 = PrimitiveField::new(PrimitiveKind::I8, EndianKind::Big, 5);
    let field2 = PrimitiveField::new(PrimitiveKind::I8, EndianKind::Big, 20);

    field1.write(&mut storage, PrimitiveValue::I8(50));
    field2.write(&mut storage, PrimitiveValue::I8(-20));

    assert_eq!(PrimitiveValue::I8(50), field1.read(&storage));
    assert_eq!(PrimitiveValue::I8(-20), field2.read(&storage));

    assert_eq!(50, i8::from_be_bytes((&storage[5..6]).try_into().unwrap()));
    assert_eq!(-20, i8::from_be_bytes((&storage[20..21]).try_into().unwrap()));

    assert_eq!(1, field1.size());
    assert_eq!(1, field2.size());
}

#[test]
fn primitive_test_i16_littleendian() {
    let mut storage = vec![0; 1024];

    let field1 = PrimitiveField::new(PrimitiveKind::I16, EndianKind::Little, 5);
    let field2 = PrimitiveField::new(PrimitiveKind::I16, EndianKind::Little, 20);

    field1.write(&mut storage, PrimitiveValue::I16(500));
    field2.write(&mut storage, PrimitiveValue::I16(-2000));

    assert_eq!(PrimitiveValue::I16(500), field1.read(&storage));
    assert_eq!(PrimitiveValue::I16(-2000), field2.read(&storage));

    assert_eq!(500, i16::from_le_bytes((&storage[5..7]).try_into().unwrap()));
    assert_eq!(-2000, i16::from_le_bytes((&storage[20..22]).try_into().unwrap()));

    assert_eq!(2, field1.size());
    assert_eq!(2, field2.size());
}

#[test]
fn primitive_test_i16_bigendian() {
    let mut storage = vec![0; 1024];

    let field1 = PrimitiveField::new(PrimitiveKind::I16, EndianKind::Big, 5);
    let field2 = PrimitiveField::new(PrimitiveKind::I16, EndianKind::Big, 20);

    field1.write(&mut storage, PrimitiveValue::I16(500));
    field2.write(&mut storage, PrimitiveValue::I16(-2000));

    assert_eq!(PrimitiveValue::I16(500), field1.read(&storage));
    assert_eq!(PrimitiveValue::I16(-2000), field2.read(&storage));

    assert_eq!(500, i16::from_be_bytes((&storage[5..7]).try_into().unwrap()));
    assert_eq!(-2000, i16::from_be_bytes((&storage[20..22]).try_into().unwrap()));

    assert_eq!(2, field1.size());
    assert_eq!(2, field2.size());
}

#[test]
fn primitive_test_i32_littleendian() {
    let mut storage = vec![0; 1024];

    let field1 = PrimitiveField::new(PrimitiveKind::I32, EndianKind::Little, 5);
    let field2 = PrimitiveField::new(PrimitiveKind::I32, EndianKind::Little, 20);

    field1.write(&mut storage, PrimitiveValue::I32(10i32.pow(8)));
    field2.write(&mut storage, PrimitiveValue::I32(-(10i32.pow(7))));

    assert_eq!(PrimitiveValue::I32(10i32.pow(8)), field1.read(&storage));
    assert_eq!(PrimitiveValue::I32(-(10i32.pow(7))), field2.read(&storage));

    assert_eq!(10i32.pow(8), i32::from_le_bytes((&storage[5..9]).try_into().unwrap()));
    assert_eq!(-(10i32.pow(7)), i32::from_le_bytes((&storage[20..24]).try_into().unwrap()));

    assert_eq!(4, field1.size());
    assert_eq!(4, field2.size());
}

#[test]
fn primitive_test_i32_bigendian() {
    let mut storage = vec![0; 1024];

    let field1 = PrimitiveField::new(PrimitiveKind::I32, EndianKind::Big, 5);
    let field2 = PrimitiveField::new(PrimitiveKind::I32, EndianKind::Big, 20);

    field1.write(&mut storage, PrimitiveValue::I32(10i32.pow(8)));
    field2.write(&mut storage, PrimitiveValue::I32(-(10i32.pow(7))));

    assert_eq!(PrimitiveValue::I32(10i32.pow(8)), field1.read(&storage));
    assert_eq!(PrimitiveValue::I32(-(10i32.pow(7))), field2.read(&storage));

    assert_eq!(10i32.pow(8), i32::from_be_bytes((&storage[5..9]).try_into().unwrap()));
    assert_eq!(-(10i32.pow(7)), i32::from_be_bytes((&storage[20..24]).try_into().unwrap()));

    assert_eq!(4, field1.size());
    assert_eq!(4, field2.size());
}

#[test]
fn primitive_test_i64_littleendian() {
    let mut storage = vec![0; 1024];

    let field1 = PrimitiveField::new(PrimitiveKind::I64, EndianKind::Little, 5);
    let field2 = PrimitiveField::new(PrimitiveKind::I64, EndianKind::Little, 20);

    field1.write(&mut storage, PrimitiveValue::I64(10i64.pow(15)));
    field2.write(&mut storage, PrimitiveValue::I64(-(10i64.pow(14))));

    assert_eq!(PrimitiveValue::I64(10i64.pow(15)), field1.read(&storage));
    assert_eq!(PrimitiveValue::I64(-(10i64.pow(14))), field2.read(&storage));

    assert_eq!(10i64.pow(15), i64::from_le_bytes((&storage[5..13]).try_into().unwrap()));
    assert_eq!(-(10i64.pow(14)), i64::from_le_bytes((&storage[20..28]).try_into().unwrap()));

    assert_eq!(8, field1.size());
    assert_eq!(8, field2.size());
}

#[test]
fn primitive_test_i64_bigendian() {
    let mut storage = vec![0; 1024];

    let field1 = PrimitiveField::new(PrimitiveKind::I64, EndianKind::Big, 5);
    let field2 = PrimitiveField::new(PrimitiveKind::I64, EndianKind::Big, 20);

    field1.write(&mut storage, PrimitiveValue::I64(10i64.pow(15)));
    field2.write(&mut storage, PrimitiveValue::I64(-(10i64.pow(14))));

    assert_eq!(PrimitiveValue::I64(10i64.pow(15)), field1.read(&storage));
    assert_eq!(PrimitiveValue::I64(-(10i64.pow(14))), field2.read(&storage));

    assert_eq!(10i64.pow(15), i64::from_be_bytes((&storage[5..13]).try_into().unwrap()));
    assert_eq!(-(10i64.pow(14)), i64::from_be_bytes((&storage[20..28]).try_into().unwrap()));

    assert_eq!(8, field1.size());
    assert_eq!(8, field2.size());
}

#[test]
fn primitive_test_u8_littleendian() {
    let mut storage = vec![0; 1024];

    let field1 = PrimitiveField::new(PrimitiveKind::U8, EndianKind::Little, 5);
    let field2 = PrimitiveField::new(PrimitiveKind::U8, EndianKind::Little, 20);

    field1.write(&mut storage, PrimitiveValue::U8(50));
    field2.write(&mut storage, PrimitiveValue::U8(20));

    assert_eq!(PrimitiveValue::U8(50), field1.read(&storage));
    assert_eq!(PrimitiveValue::U8(20), field2.read(&storage));

    assert_eq!(50, u8::from_le_bytes((&storage[5..6]).try_into().unwrap()));
    assert_eq!(20, u8::from_le_bytes((&storage[20..21]).try_into().unwrap()));

    assert_eq!(1, field1.size());
    assert_eq!(1, field2.size());
}

#[test]
fn primitive_test_u8_bigendian() {
    let mut storage = vec![0; 1024];

    let field1 = PrimitiveField::new(PrimitiveKind::U8, EndianKind::Big, 5);
    let field2 = PrimitiveField::new(PrimitiveKind::U8, EndianKind::Big, 20);

    field1.write(&mut storage, PrimitiveValue::U8(50));
    field2.write(&mut storage, PrimitiveValue::U8(20));

    assert_eq!(PrimitiveValue::U8(50), field1.read(&storage));
    assert_eq!(PrimitiveValue::U8(20), field2.read(&storage));

    assert_eq!(50, u8::from_be_bytes((&storage[5..6]).try_into().unwrap()));
    assert_eq!(20, u8::from_be_bytes((&storage[20..21]).try_into().unwrap()));

    assert_eq!(1, field1.size());
    assert_eq!(1, field2.size());
}

#[test]
fn primitive_test_u16_littleendian() {
    let mut storage = vec![0; 1024];

    let field1 = PrimitiveField::new(PrimitiveKind::U16, EndianKind::Little, 5);
    let field2 = PrimitiveField::new(PrimitiveKind::U16, EndianKind::Little, 20);

    field1.write(&mut storage, PrimitiveValue::U16(500));
    field2.write(&mut storage, PrimitiveValue::U16(2000));

    assert_eq!(PrimitiveValue::U16(500), field1.read(&storage));
    assert_eq!(PrimitiveValue::U16(2000), field2.read(&storage));

    assert_eq!(500, u16::from_le_bytes((&storage[5..7]).try_into().unwrap()));
    assert_eq!(2000, u16::from_le_bytes((&storage[20..22]).try_into().unwrap()));

    assert_eq!(2, field1.size());
    assert_eq!(2, field2.size());
}

#[test]
fn primitive_test_u16_bigendian() {
    let mut storage = vec![0; 1024];

    let field1 = PrimitiveField::new(PrimitiveKind::U16, EndianKind::Big, 5);
    let field2 = PrimitiveField::new(PrimitiveKind::U16, EndianKind::Big, 20);

    field1.write(&mut storage, PrimitiveValue::U16(500));
    field2.write(&mut storage, PrimitiveValue::U16(2000));

    assert_eq!(PrimitiveValue::U16(500), field1.read(&storage));
    assert_eq!(PrimitiveValue::U16(2000), field2.read(&storage));

    assert_eq!(500, u16::from_be_bytes((&storage[5..7]).try_into().unwrap()));
    assert_eq!(2000, u16::from_be_bytes((&storage[20..22]).try_into().unwrap()));

    assert_eq!(2, field1.size());
    assert_eq!(2, field2.size());
}

#[test]
fn primitive_test_u32_littleendian() {
    let mut storage = vec![0; 1024];

    let field1 = PrimitiveField::new(PrimitiveKind::U32, EndianKind::Little, 5);
    let field2 = PrimitiveField::new(PrimitiveKind::U32, EndianKind::Little, 20);

    field1.write(&mut storage, PrimitiveValue::U32(10u32.pow(8)));
    field2.write(&mut storage, PrimitiveValue::U32(10u32.pow(7)));

    assert_eq!(PrimitiveValue::U32(10u32.pow(8)), field1.read(&storage));
    assert_eq!(PrimitiveValue::U32(10u32.pow(7)), field2.read(&storage));

    assert_eq!(10u32.pow(8), u32::from_le_bytes((&storage[5..9]).try_into().unwrap()));
    assert_eq!(10u32.pow(7), u32::from_le_bytes((&storage[20..24]).try_into().unwrap()));

    assert_eq!(4, field1.size());
    assert_eq!(4, field2.size());
}

#[test]
fn primitive_test_u32_bigendian() {
    let mut storage = vec![0; 1024];

    let field1 = PrimitiveField::new(PrimitiveKind::U32, EndianKind::Big, 5);
    let field2 = PrimitiveField::new(PrimitiveKind::U32, EndianKind::Big, 20);

    field1.write(&mut storage, PrimitiveValue::U32(10u32.pow(8)));
    field2.write(&mut storage, PrimitiveValue::U32(10u32.pow(7)));

    assert_eq!(PrimitiveValue::U32(10u32.pow(8)), field1.read(&storage));
    assert_eq!(PrimitiveValue::U32(10u32.pow(7)), field2.read(&storage));

    assert_eq!(10u32.pow(8), u32::from_be_bytes((&storage[5..9]).try_into().unwrap()));
    assert_eq!(10u32.pow(7), u32::from_be_bytes((&storage[20..24]).try_into().unwrap()));

    assert_eq!(4, field1.size());
    assert_eq!(4, field2.size());
}

#[test]
fn primitive_test_u64_littleendian() {
    let mut storage = vec![0; 1024];

    let field1 = PrimitiveField::new(PrimitiveKind::U64, EndianKind::Little, 5);
    let field2 = PrimitiveField::new(PrimitiveKind::U64, EndianKind::Little, 20);

    field1.write(&mut storage, PrimitiveValue::U64(10u64.pow(15)));
    field2.write(&mut storage, PrimitiveValue::U64(10u64.pow(14)));

    assert_eq!(PrimitiveValue::U64(10u64.pow(15)), field1.read(&storage));
    assert_eq!(PrimitiveValue::U64(10u64.pow(14)), field2.read(&storage));

    assert_eq!(10u64.pow(15), u64::from_le_bytes((&storage[5..13]).try_into().unwrap()));
    assert_eq!(10u64.pow(14), u64::from_le_bytes((&storage[20..28]).try_into().unwrap()));

    assert_eq!(8, field1.size());
    assert_eq!(8, field2.size());
}

#[test]
fn primitive_test_u64_bigendian() {
    let mut storage = vec![0; 1024];

    let field1 = PrimitiveField::new(PrimitiveKind::U64, EndianKind::Big, 5);
    let field2 = PrimitiveField::new(PrimitiveKind::U64, EndianKind::Big, 20);

    field1.write(&mut storage, PrimitiveValue::U64(10u64.pow(15)));
    field2.write(&mut storage, PrimitiveValue::U64(10u64.pow(14)));

    assert_eq!(PrimitiveValue::U64(10u64.pow(15)), field1.read(&storage));
    assert_eq!(PrimitiveValue::U64(10u64.pow(14)), field2.read(&storage));

    assert_eq!(10u64.pow(15), u64::from_be_bytes((&storage[5..13]).try_into().unwrap()));
    assert_eq!(10u64.pow(14), u64::from_be_bytes((&storage[20..28]).try_into().unwrap()));

    assert_eq!(8, field1.size());
    assert_eq!(8, field2.size());
}

#[test]
fn test_i128_littleendian() {
    let mut storage = vec![0; 1024];

    let field1 = PrimitiveField::new(PrimitiveKind::I128, EndianKind::Little, 5);
    let field2 = PrimitiveField::new(PrimitiveKind::I128, EndianKind::Little, 200);

    field1.write(&mut storage, PrimitiveValue::I128(10i128.pow(30)));
    field2.write(&mut storage, PrimitiveValue::I128(-(10i128.pow(28))));

    assert_eq!(PrimitiveValue::I128(10i128.pow(30)), field1.read(&storage));
    assert_eq!(PrimitiveValue::I128(-(10i128.pow(28))), field2.read(&storage));

    assert_eq!(10i128.pow(30), i128::from_le_bytes((&storage[5..21]).try_into().unwrap()));
    assert_eq!(-(10i128.pow(28)), i128::from_le_bytes((&storage[200..216]).try_into().unwrap()));

    assert_eq!(16, field1.size());
    assert_eq!(16, field2.size());
}

#[test]
fn test_i128_bigendian() {
    let mut storage = vec![0; 1024];

    let field1 = PrimitiveField::new(PrimitiveKind::I128, EndianKind::Big, 5);
    let field2 = PrimitiveField::new(PrimitiveKind::I128, EndianKind::Big, 200);

    field1.write(&mut storage, PrimitiveValue::I128(10i128.pow(30)));
    field2.write(&mut storage, PrimitiveValue::I128(-(10i128.pow(28))));

    assert_eq!(PrimitiveValue::I128(10i128.pow(30)), field1.read(&storage));
    assert_eq!(PrimitiveValue::I128(-(10i128.pow(28))), field2.read(&storage));

    assert_eq!(10i128.pow(30), i128::from_be_bytes((&storage[5..21]).try_into().unwrap()));
    assert_eq!(-(10i128.pow(28)), i128::from_be_bytes((&storage[200..216]).try_into().unwrap()));

    assert_eq!(16, field1.size());
    assert_eq!(16, field2.size());
}

#[test]
fn test_u128_littleendian() {
    let mut storage = vec![0; 1024];

    let field1 = PrimitiveField::new(PrimitiveKind::U128, EndianKind::Little, 5);
    let field2 = PrimitiveField::new(PrimitiveKind::U128, EndianKind::Little, 200);

    field1.write(&mut storage, PrimitiveValue::U128(10u128.pow(30)));
    field2.write(&mut storage, PrimitiveValue::U128(10u128.pow(28)));

    assert_eq!(PrimitiveValue::U128(10u128.pow(30)), field1.read(&storage));
    assert_eq!(PrimitiveValue::U128(10u128.pow(28)), field2.read(&storage));

    assert_eq!(10u128.pow(30), u128::from_le_bytes((&storage[5..21]).try_into().unwrap()));
    assert_eq!(10u128.pow(28), u128::from_le_bytes((&storage[200..216]).try_into().unwrap()));

    assert_eq!(16, field1.size());
    assert_eq!(16, field2.size());
}

#[test]
fn test_u128_bigendian() {
    let mut storage = vec![0; 1024];

    let field1 = PrimitiveField::new(PrimitiveKind::U128, EndianKind::Big, 5);
    let field2 = PrimitiveField::new(PrimitiveKind::U128, EndianKind::Big, 200);

    field1.write(&mut storage, PrimitiveValue::U128(10u128.pow(30)));
    field2.write(&mut storage, PrimitiveValue::U128(10u128.pow(28)));

    assert_eq!(PrimitiveValue::U128(10u128.pow(30)), field1.read(&storage));
    assert_eq!(PrimitiveValue::U128(10u128.pow(28)), field2.read(&storage));

    assert_eq!(10u128.pow(30), u128::from_be_bytes((&storage[5..21]).try_into().unwrap()));
    assert_eq!(10u128.pow(28), u128::from_be_bytes((&storage[200..216]).try_into().unwrap()));

    assert_eq!(16, field1.size());
    assert_eq!(16, field2.size());
}

#[test]
fn test_f32_littleendian() {
    let mut storage = vec![0; 1024];

    let field1 = PrimitiveField::new(PrimitiveKind::F32, EndianKind::Little, 5);
    let field2 = PrimitiveField::new(PrimitiveKind::F32, EndianKind::Little, 20);

    let value1: f32 = 10f32.powf(8.31);
    let value2: f32 = -(10f32.powf(7.31));

    field1.write(&mut storage, PrimitiveValue::F32Bits(value1.to_bits()));
    field2.write(&mut storage, PrimitiveValue::F32Bits(value2.to_bits()));

    assert_eq!(10f32.powf(8.31), f32::from_le_bytes((&storage[5..9]).try_into().unwrap()));
    assert_eq!(-(10f32.powf(7.31)), f32::from_le_bytes((&storage[20..24]).try_into().unwrap()));

    assert_eq!(PrimitiveValue::F32Bits((10f32.powf(8.31)).to_bits()), field1.read(&storage));
    assert_eq!(PrimitiveValue::F32Bits((-(10f32.powf(7.31))).to_bits()), field2.read(&storage));

    assert_eq!(4, field1.size());
    assert_eq!(4, field2.size());
}

#[test]
fn test_f32_bigendian() {
    let mut storage = vec![0; 1024];

    let field1 = PrimitiveField::new(PrimitiveKind::F32, EndianKind::Big, 5);
    let field2 = PrimitiveField::new(PrimitiveKind::F32, EndianKind::Big, 20);

    let value1: f32 = 10f32.powf(8.31);
    let value2: f32 = -(10f32.powf(7.31));

    field1.write(&mut storage, PrimitiveValue::F32Bits(value1.to_bits()));
    field2.write(&mut storage, PrimitiveValue::F32Bits(value2.to_bits()));

    assert_eq!(10f32.powf(8.31), f32::from_be_bytes((&storage[5..9]).try_into().unwrap()));
    assert_eq!(-(10f32.powf(7.31)), f32::from_be_bytes((&storage[20..24]).try_into().unwrap()));

    assert_eq!(PrimitiveValue::F32Bits((10f32.powf(8.31)).to_bits()), field1.read(&storage));
    assert_eq!(PrimitiveValue::F32Bits((-(10f32.powf(7.31))).to_bits()), field2.read(&storage));

    assert_eq!(4, field1.size());
    assert_eq!(4, field2.size());
}

#[test]
fn test_f64_littleendian() {
    let mut storage = vec![0; 1024];

    let field1 = PrimitiveField::new(PrimitiveKind::F64, EndianKind::Little, 5);
    let field2 = PrimitiveField::new(PrimitiveKind::F64, EndianKind::Little, 20);

    let value1: f64 = 10f64.powf(15.31);
    let value2: f64 = -(10f64.powf(15.31));

    field1.write(&mut storage, PrimitiveValue::F64Bits(value1.to_bits()));
    field2.write(&mut storage, PrimitiveValue::F64Bits(value2.to_bits()));

    assert_eq!(10f64.powf(15.31), f64::from_le_bytes((&storage[5..13]).try_into().unwrap()));
    assert_eq!(-(10f64.powf(15.31)), f64::from_le_bytes((&storage[20..28]).try_into().unwrap()));

    assert_eq!(PrimitiveValue::F64Bits((10f64.powf(15.31)).to_bits()), field1.read(&storage));
    assert_eq!(PrimitiveValue::F64Bits((-(10f64.powf(15.31))).to_bits()), field2.read(&storage));

    assert_eq!(8, field1.size());
    assert_eq!(8, field2.size());
}

#[test]
fn test_f64_bigendian() {
    let mut storage = vec![0; 1024];

    let field1 = PrimitiveField::new(PrimitiveKind::F64, EndianKind::Big, 5);
    let field2 = PrimitiveField::new(PrimitiveKind::F64, EndianKind::Big, 20);

    let value1: f64 = 10f64.powf(15.31);
    let value2: f64 = -(10f64.powf(15.31));

    field1.write(&mut storage, PrimitiveValue::F64Bits(value1.to_bits()));
    field2.write(&mut storage, PrimitiveValue::F64Bits(value2.to_bits()));

    assert_eq!(10f64.powf(15.31), f64::from_be_bytes((&storage[5..13]).try_into().unwrap()));
    assert_eq!(-(10f64.powf(15.31)), f64::from_be_bytes((&storage[20..28]).try_into().unwrap()));

    assert_eq!(PrimitiveValue::F64Bits((10f64.powf(15.31)).to_bits()), field1.read(&storage));
    assert_eq!(PrimitiveValue::F64Bits((-(10f64.powf(15.31))).to_bits()), field2.read(&storage));

    assert_eq!(8, field1.size());
    assert_eq!(8, field2.size());
}


#[test]
fn primitive_test_slice() {
    let mut storage = vec![0; 1024];

    let field1 = Field { offset: 5, endian: EndianKind::Little, kind: FieldKind::OpenEnded };
    let field2 = Field { offset: 7, endian: EndianKind::Big, kind: FieldKind::OpenEnded };

    field1.data_mut(&mut storage, 0, &vec![10, 20, 30, 40, 50]);
    field2.data_mut(&mut storage, 0, &vec![60, 70, 80, 90, 100]);

    assert_eq!(&[10, 20, 60, 70, 80], &field1.data(&storage)[..5]);
    assert_eq!(&[60, 70, 80, 90, 100], &field2.data(&storage)[..5]);
}

#[test]
fn primitive_test_array() {
    let mut storage = vec![0; 1024];

    let field1 = Field { offset: 5, endian: EndianKind::Little, kind: FieldKind::Array(2) };
    let field2 = Field { offset: 6, endian: EndianKind::Big, kind: FieldKind::Array(5) };

    field1.data_mut(&mut storage, 0, &vec![10, 20]);
    field2.data_mut(&mut storage, 0, &vec![60, 70, 80, 90, 100]);

    assert_eq!(&[10, 60], field1.data(&storage));
    assert_eq!(&[60, 70, 80, 90, 100], field2.data(&storage));

    assert_eq!(Some(2), field1.kind.size());
    assert_eq!(Some(5), field2.kind.size());
}

#[test]
fn test_unit_bigendian() {
    let mut storage = vec![0; 1024];

    let field1 = PrimitiveField::new(PrimitiveKind::Unit, EndianKind::Big, 5);
    let field2 = PrimitiveField::new(PrimitiveKind::Unit, EndianKind::Big, 20);

    field1.write(&mut storage, PrimitiveValue::Unit);
    field2.write(&mut storage, PrimitiveValue::Unit);

    assert_eq!(PrimitiveValue::Unit, field1.read(&storage));
    assert_eq!(PrimitiveValue::Unit, field2.read(&storage));

    assert_eq!(0, field1.size());
    assert_eq!(0, field2.size());

    // Zero-sized fields do not mutate the storage, so it should remain
    // unchanged for all of time.
    assert_eq!(storage, vec![0; 1024]);
}

#[test]
fn test_unit_littleendian() {
    let mut storage = vec![0; 1024];

    let field1 = PrimitiveField::new(PrimitiveKind::Unit, EndianKind::Little, 5);
    let field2 = PrimitiveField::new(PrimitiveKind::Unit, EndianKind::Little, 20);

    field1.write(&mut storage, PrimitiveValue::Unit);
    field2.write(&mut storage, PrimitiveValue::Unit);

    assert_eq!(PrimitiveValue::Unit, field1.read(&storage));
    assert_eq!(PrimitiveValue::Unit, field2.read(&storage));

    assert_eq!(0, field1.size());
    assert_eq!(0, field2.size());

    // Zero-sized fields do not mutate the storage, so it should remain
    // unchanged for all of time.
    assert_eq!(storage, vec![0; 1024]);
}
