use magic_db::loader::{load_db_from_bytes, LoaderError};
use magic_db::magic::{
    ConditionalType, FactorOperation, IndirectionOperator, Magic, MagicError, Relation,
};
use magic_db::value::{ValueError, ValueOption, ValueType};

const SIZE: usize = 432;

fn minimal_record(payload: u8) -> Vec<u8> {
    let mut r = vec![0u8; SIZE];
    r[4] = b'x';
    r[5] = 1;
    r[6] = 1;
    r[32] = payload;
    r
}

fn header(magic: u32, version: u32, left: u32, right: u32) -> Vec<u8> {
    let mut h = vec![0u8; SIZE];
    h[0..4].copy_from_slice(&magic.to_le_bytes());
    h[4..8].copy_from_slice(&version.to_le_bytes());
    h[8..12].copy_from_slice(&left.to_le_bytes());
    h[12..16].copy_from_slice(&right.to_le_bytes());
    h
}

fn database(left: u32, right: u32, records: &[Vec<u8>]) -> Vec<u8> {
    let mut db = header(0xF11E041C, 19, left, right);
    for r in records {
        db.extend_from_slice(r);
    }
    db
}

#[test]
fn three_record_database_with_one_declared_record_rejected() {
    let db = database(1, 0, &[minimal_record(0x2a), minimal_record(0x2b)]);
    assert_eq!(db.len(), 1296);
    assert!(matches!(
        load_db_from_bytes(&db),
        Err(LoaderError::InvalidDatabaseRecordCount(1, 3))
    ));
}

#[test]
fn minimal_database_decodes() {
    let db = database(1, 1, &[minimal_record(0x2a), minimal_record(0x2b)]);
    assert_eq!(db.len(), 1296);
    let map = load_db_from_bytes(&db).unwrap();
    assert_eq!(map.left.len(), 1);
    assert_eq!(map.right.len(), 1);
    assert_eq!(map.right[0].value.bytes(), &[0x2bu8][..]);
    let m = &map.left[0];
    assert_eq!(m.cont_level, 0);
    assert_eq!(m.relation, Relation::Anything);
    assert_eq!(m.factor_operation, FactorOperation::NoOp);
    assert_eq!(m.conditional_type, ConditionalType::Unconditional);
    assert_eq!(m.indirection_operation.op, IndirectionOperator::And);
    assert_eq!(m.mask_operation.op, IndirectionOperator::And);
    assert_eq!(m.value_type, ValueType::Byte);
    assert_eq!(m.indirection_type, ValueType::Invalid);
    assert_eq!(m.value_len, 1);
    assert_eq!(m.value.bytes(), &[0x2au8][..]);
    assert_eq!(m.value_options, ValueOption::String { count: 0, flags: 0 });
    assert_eq!(m.desc, "");
    assert_eq!(m.mimetype, "");
    assert_eq!(m.apple, "");
    assert_eq!(m.ext, "");
}

#[test]
fn records_split_at_left_count() {
    let db = database(1, 2, &[minimal_record(1), minimal_record(2), minimal_record(3)]);
    let map = load_db_from_bytes(&db).unwrap();
    assert_eq!(map.left.len(), 1);
    assert_eq!(map.right.len(), 2);
    assert_eq!(map.left[0].value.bytes(), &[1u8][..]);
    assert_eq!(map.right[0].value.bytes(), &[2u8][..]);
    assert_eq!(map.right[1].value.bytes(), &[3u8][..]);
}

#[test]
fn record_fields_are_read_little_endian() {
    let mut r = minimal_record(0);
    r[0..2].copy_from_slice(&3u16.to_le_bytes());
    r[2] = 0x05;
    r[3] = 9;
    r[5] = 0;
    r[7] = 11;
    r[8] = 0x43;
    r[10] = 2;
    r[11] = b'+';
    r[12..16].copy_from_slice(&(-4i32).to_le_bytes());
    r[16..20].copy_from_slice(&70000i32.to_le_bytes());
    r[20..24].copy_from_slice(&123456u32.to_le_bytes());
    r[24..32].copy_from_slice(&0x0102030405060708u64.to_le_bytes());
    r[32] = 0x10;
    r[33] = 0x20;
    r[160..164].copy_from_slice(b"desc");
    r[224..234].copy_from_slice(b"text/plain");
    r[304..312].copy_from_slice(b"APPLcode");
    r[312..319].copy_from_slice(b"txt/log");
    let m = Magic::from_bytes(&r).unwrap();
    assert_eq!(m.cont_level, 3);
    assert!(m.flags.is_indirect() && m.flags.is_indirect_offset_add());
    assert!(!m.flags.is_offset_add());
    assert_eq!(m.factor, 9);
    assert_eq!(m.indirection_type, ValueType::LeLong);
    assert_eq!(m.indirection_operation.op, IndirectionOperator::Add);
    assert!(m.indirection_operation.flags.inverse);
    assert!(!m.indirection_operation.flags.signed);
    assert_eq!(m.conditional_type, ConditionalType::Elif);
    assert_eq!(m.factor_operation, FactorOperation::Add);
    assert_eq!(m.offset, -4);
    assert_eq!(m.indirection_offset, 70000);
    assert_eq!(m.line_number, 123456);
    assert_eq!(m.value_options, ValueOption::Numeric { mask: 0x0102030405060708 });
    assert_eq!(m.value.bytes(), &[0x10u8, 0x20][..]);
    assert_eq!(m.desc, "desc");
    assert_eq!(m.mimetype, "text/plain");
    assert_eq!(m.apple, "APPLcode");
    assert_eq!(m.ext, "txt/log");
}

#[test]
fn record_errors_in_field_order() {
    assert!(matches!(
        Magic::from_bytes(&[0u8; 10]),
        Err(MagicError::InvalidBufferLength(10, 432))
    ));
    let mut r = minimal_record(0);
    r[4] = b'?';
    r[6] = 70;
    assert!(matches!(Magic::from_bytes(&r), Err(MagicError::InvalidRelation('?'))));
    let mut r = minimal_record(0);
    r[6] = 70;
    assert!(matches!(
        Magic::from_bytes(&r),
        Err(MagicError::Value(ValueError::InvalidValueType(70)))
    ));
    let mut r = minimal_record(0);
    r[7] = 60;
    assert!(matches!(
        Magic::from_bytes(&r),
        Err(MagicError::Value(ValueError::InvalidValueType(60)))
    ));
    let mut r = minimal_record(0);
    r[9] = 0x10;
    assert!(matches!(
        Magic::from_bytes(&r),
        Err(MagicError::InvalidIndirectionOperationBitSet)
    ));
    let mut r = minimal_record(0);
    r[10] = 9;
    assert!(matches!(Magic::from_bytes(&r), Err(MagicError::InvalidConditionalType(9))));
    let mut r = minimal_record(0);
    r[11] = b'%';
    assert!(matches!(
        Magic::from_bytes(&r),
        Err(MagicError::InvalidFactorOperation('%'))
    ));
    let mut r = minimal_record(0);
    r[5] = 129;
    assert!(matches!(
        Magic::from_bytes(&r),
        Err(MagicError::Value(ValueError::InvalidLength(129, 128)))
    ));
    let mut r = minimal_record(0);
    r[312] = 0xff;
    assert!(matches!(Magic::from_bytes(&r), Err(MagicError::InvalidUtf8(_))));
}

#[test]
fn length_not_multiple_of_record_size_rejected() {
    let mut db = database(1, 0, &[minimal_record(0), minimal_record(0)]);
    db.push(0);
    assert!(matches!(
        load_db_from_bytes(&db),
        Err(LoaderError::InvalidBufferLength(1297, 432))
    ));
    assert!(matches!(
        load_db_from_bytes(&[1u8, 2, 3]),
        Err(LoaderError::InvalidBufferLength(3, 432))
    ));
}

#[test]
fn too_few_records_rejected() {
    let db = database(1, 0, &[minimal_record(0)]);
    assert!(matches!(load_db_from_bytes(&db), Err(LoaderError::InvalidRecordCount(2))));
    assert!(matches!(load_db_from_bytes(&[]), Err(LoaderError::InvalidRecordCount(0))));
}

#[test]
fn reversed_marker_is_wrong_endianness() {
    let mut db = database(1, 0, &[minimal_record(0), minimal_record(0)]);
    db[0..4].copy_from_slice(&0xF11E041Cu32.to_be_bytes());
    assert!(matches!(load_db_from_bytes(&db), Err(LoaderError::InvalidEndianness)));
}

#[test]
fn garbage_marker_is_wrong_constant() {
    let mut db = database(1, 0, &[minimal_record(0), minimal_record(0)]);
    db[0..4].copy_from_slice(&0xDEADBEEFu32.to_le_bytes());
    assert!(matches!(
        load_db_from_bytes(&db),
        Err(LoaderError::InvalidMagicConstant(0xDEADBEEF, 0xF11E041C))
    ));
}

#[test]
fn wrong_version_rejected() {
    let mut db = database(1, 0, &[minimal_record(0), minimal_record(0)]);
    db[4..8].copy_from_slice(&18u32.to_le_bytes());
    assert!(matches!(
        load_db_from_bytes(&db),
        Err(LoaderError::InvalidDatabaseVersion(18, 19))
    ));
}

#[test]
fn record_count_mismatch_rejected() {
    let db = database(2, 1, &[minimal_record(0), minimal_record(0)]);
    assert!(matches!(
        load_db_from_bytes(&db),
        Err(LoaderError::InvalidDatabaseRecordCount(3, 3))
    ));
    let db = database(0xFFFF_FFFF, 0xFFFF_FFFF, &[minimal_record(0), minimal_record(0)]);
    assert!(matches!(
        load_db_from_bytes(&db),
        Err(LoaderError::InvalidDatabaseRecordCount(0x1_FFFF_FFFE, 3))
    ));
    let db = database(0, 2, &[minimal_record(0), minimal_record(0)]);
    assert!(load_db_from_bytes(&db).is_ok());
}

#[test]
fn bad_record_fails_whole_database() {
    let mut bad = minimal_record(0);
    bad[10] = 4;
    let db = database(1, 1, &[minimal_record(0), bad]);
    assert!(matches!(
        load_db_from_bytes(&db),
        Err(LoaderError::Magic(MagicError::InvalidConditionalType(4)))
    ));
}

#[test]
fn decoding_same_bytes_twice_agrees() {
    let db = database(1, 1, &[minimal_record(7), minimal_record(8)]);
    let a = load_db_from_bytes(&db).unwrap();
    let b = load_db_from_bytes(&db).unwrap();
    assert_eq!(a.left[0].value.bytes(), b.left[0].value.bytes());
    assert_eq!(a.right[0].value.bytes(), b.right[0].value.bytes());
    assert_eq!(a.right[0].line_number, b.right[0].line_number);
}
