use magic_db::magic::{
    bytes_to_string, ConditionalType, FactorOperation, IndirectionOperation,
    IndirectionOperator, MagicError, MagicFlags, Relation,
};

#[test]
fn flag_bits_are_read_one_by_one() {
    let f = MagicFlags::from(0x81);
    assert!(f.is_indirect());
    assert!(f.is_offset_negative());
    assert!(!f.is_offset_add());
    assert!(!f.is_indirect_offset_add());
    assert!(!f.is_unsigned());
    assert!(!f.is_no_space());
    assert!(!f.is_bin_test());
    assert!(!f.is_text_test());
    let g = MagicFlags::from(0x7e);
    assert!(!g.is_indirect());
    assert!(g.is_offset_add());
    assert!(g.is_indirect_offset_add());
    assert!(g.is_unsigned());
    assert!(g.is_no_space());
    assert!(g.is_bin_test());
    assert!(g.is_text_test());
    assert!(!g.is_offset_negative());
    assert!(g.is_set(0x06));
    assert!(!g.is_set(0x03));
    assert_eq!(g.bits_value(), 0x7e);
}

#[test]
fn relation_codes() {
    assert_eq!(Relation::try_from(b'=').unwrap(), Relation::Equal);
    assert_eq!(Relation::try_from(b'!').unwrap(), Relation::NotEqual);
    assert_eq!(Relation::try_from(b'<').unwrap(), Relation::Lesser);
    assert_eq!(Relation::try_from(b'>').unwrap(), Relation::Greater);
    assert_eq!(Relation::try_from(b'^').unwrap(), Relation::BitXor);
    assert_eq!(Relation::try_from(b'&').unwrap(), Relation::BitAnd);
    assert_eq!(Relation::try_from(b'x').unwrap(), Relation::Anything);
    assert!(matches!(Relation::try_from(b'?'), Err(MagicError::InvalidRelation('?'))));
}

#[test]
fn factor_operation_codes() {
    assert_eq!(FactorOperation::try_from(0).unwrap(), FactorOperation::NoOp);
    assert_eq!(FactorOperation::try_from(b'+').unwrap(), FactorOperation::Add);
    assert_eq!(FactorOperation::try_from(b'-').unwrap(), FactorOperation::Subtract);
    assert_eq!(FactorOperation::try_from(b'*').unwrap(), FactorOperation::Multiply);
    assert_eq!(FactorOperation::try_from(b'/').unwrap(), FactorOperation::Divide);
    assert!(matches!(
        FactorOperation::try_from(b'%'),
        Err(MagicError::InvalidFactorOperation('%'))
    ));
}

#[test]
fn conditional_type_codes() {
    assert_eq!(ConditionalType::try_from(0).unwrap(), ConditionalType::Unconditional);
    assert_eq!(ConditionalType::try_from(1).unwrap(), ConditionalType::If);
    assert_eq!(ConditionalType::try_from(2).unwrap(), ConditionalType::Elif);
    assert_eq!(ConditionalType::try_from(3).unwrap(), ConditionalType::Else);
    assert!(matches!(
        ConditionalType::try_from(4),
        Err(MagicError::InvalidConditionalType(4))
    ));
}

#[test]
fn indirection_operation_bits() {
    let op = IndirectionOperation::try_from(0xe5).unwrap();
    assert_eq!(op.op, IndirectionOperator::Multiply);
    assert!(op.flags.signed && op.flags.inverse && op.flags.indirect);
    let op = IndirectionOperation::try_from(0x07).unwrap();
    assert_eq!(op.op, IndirectionOperator::Modulo);
    assert!(!op.flags.signed && !op.flags.inverse && !op.flags.indirect);
    assert_eq!(IndirectionOperation::try_from(0).unwrap(), IndirectionOperation::default());
}

#[test]
fn indirection_operation_reserved_bits_rejected() {
    for v in 0u8..=255 {
        let r = IndirectionOperation::try_from(v);
        if v & 0x18 != 0 {
            assert!(matches!(r, Err(MagicError::InvalidIndirectionOperationBitSet)));
        } else {
            assert!(r.is_ok());
        }
    }
}

#[test]
fn text_stops_at_first_zero_byte() {
    let mut window = vec![0u8; 64];
    window[..3].copy_from_slice(b"abc");
    window[10] = b'z';
    assert_eq!(bytes_to_string(&window).unwrap(), "abc");
}

#[test]
fn text_without_zero_byte_uses_whole_window() {
    let window = b"abcdefgh";
    assert_eq!(bytes_to_string(window).unwrap(), "abcdefgh");
}

#[test]
fn text_decodes_multibyte_characters() {
    let window = [0xc3u8, 0xa9, 0, 0];
    assert_eq!(bytes_to_string(&window).unwrap(), "\u{e9}");
}

#[test]
fn text_with_invalid_utf8_is_rejected() {
    let window = [b'a', 0xff, 0, 0];
    assert!(matches!(bytes_to_string(&window), Err(MagicError::InvalidUtf8(_))));
}

#[test]
fn flag_names_in_bit_order() {
    assert_eq!(MagicFlags::from(0x81).names(), vec!["INDIRECT", "OFFSET_NEGATIVE"]);
    assert_eq!(MagicFlags::from(0x30).names(), vec!["NO_SPACE", "BIN_TEST"]);
    assert_eq!(MagicFlags::from(0).names(), vec!["N/A"]);
}
