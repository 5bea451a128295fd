//! One rule record: its fields, their closed code sets, and its decoding.

use vstd::prelude::*;
use vstd::utf8::{decode_utf8, valid_utf8};

use crate::endian::{le_u16, le_u32, le_u64, read_i32_le, read_u16_le, read_u32_le, read_u64_le};
use crate::value::{
    utf8_to_string, value_fits, value_len, value_type_of, Value, ValueError, ValueOption,
    ValueType,
};

verus! {

/// The size of one encoded record, in bytes.
pub const MAGIC_SIZE: usize = 432;

#[derive(Debug)]
pub enum MagicError {
    /// The record's size (first) is not the record size (second).
    InvalidBufferLength(usize, usize),
    InvalidConditionalType(u8),
    InvalidFactorOperation(char),
    /// An indirection operation sets one of its two reserved bits.
    InvalidIndirectionOperationBitSet,
    InvalidRelation(char),
    InvalidUtf8(std::str::Utf8Error),
    Value(ValueError),
}

/// Which failure a `MagicError` reports, with its values; the decoder's own
/// diagnostic for bad text is left out.
pub enum RecordFault {
    InvalidBufferLength(usize, usize),
    InvalidConditionalType(u8),
    InvalidFactorOperation(char),
    InvalidIndirectionOperationBitSet,
    InvalidRelation(char),
    InvalidUtf8,
    Value(ValueError),
}

impl View for MagicError {
    type V = RecordFault;

    open spec fn view(&self) -> RecordFault {
        match *self {
            MagicError::InvalidBufferLength(n, m) => RecordFault::InvalidBufferLength(n, m),
            MagicError::InvalidConditionalType(c) => RecordFault::InvalidConditionalType(c),
            MagicError::InvalidFactorOperation(c) => RecordFault::InvalidFactorOperation(c),
            MagicError::InvalidIndirectionOperationBitSet => {
                RecordFault::InvalidIndirectionOperationBitSet
            },
            MagicError::InvalidRelation(c) => RecordFault::InvalidRelation(c),
            MagicError::InvalidUtf8(_) => RecordFault::InvalidUtf8,
            MagicError::Value(e) => RecordFault::Value(e),
        }
    }
}

/// A record's flag byte; each flag is one bit of it.
#[derive(Clone, Copy, Debug, Default, PartialEq, Eq, Structural)]
pub struct MagicFlags {
    flags: u8,
}

impl MagicFlags {
    pub const INDIRECT: u8 = 0x01;
    pub const OFFSET_ADD: u8 = 0x02;
    pub const INDIRECT_OFFSET_ADD: u8 = 0x04;
    pub const UNSIGNED: u8 = 0x08;
    pub const NO_SPACE: u8 = 0x10;
    pub const BIN_TEST: u8 = 0x20;
    pub const TEXT_TEST: u8 = 0x40;
    pub const OFFSET_NEGATIVE: u8 = 0x80;

    /// The flag byte.
    pub closed spec fn bits(self) -> u8 {
        self.flags
    }

    /// Whether every bit of `flag` is set.
    pub open spec fn has(self, flag: u8) -> bool {
        self.bits() & flag == flag
    }

    pub fn is_indirect(&self) -> (r: bool)
        ensures
            r == self.has(Self::INDIRECT),
    {
        self.is_set(Self::INDIRECT)
    }

    pub fn is_offset_add(&self) -> (r: bool)
        ensures
            r == self.has(Self::OFFSET_ADD),
    {
        self.is_set(Self::OFFSET_ADD)
    }

    pub fn is_indirect_offset_add(&self) -> (r: bool)
        ensures
            r == self.has(Self::INDIRECT_OFFSET_ADD),
    {
        self.is_set(Self::INDIRECT_OFFSET_ADD)
    }

    pub fn is_unsigned(&self) -> (r: bool)
        ensures
            r == self.has(Self::UNSIGNED),
    {
        self.is_set(Self::UNSIGNED)
    }

    pub fn is_no_space(&self) -> (r: bool)
        ensures
            r == self.has(Self::NO_SPACE),
    {
        self.is_set(Self::NO_SPACE)
    }

    pub fn is_bin_test(&self) -> (r: bool)
        ensures
            r == self.has(Self::BIN_TEST),
    {
        self.is_set(Self::BIN_TEST)
    }

    pub fn is_text_test(&self) -> (r: bool)
        ensures
            r == self.has(Self::TEXT_TEST),
    {
        self.is_set(Self::TEXT_TEST)
    }

    pub fn is_offset_negative(&self) -> (r: bool)
        ensures
            r == self.has(Self::OFFSET_NEGATIVE),
    {
        self.is_set(Self::OFFSET_NEGATIVE)
    }

    pub fn is_set(&self, flag: u8) -> (r: bool)
        ensures
            r == self.has(flag),
    {
        self.flags & flag == flag
    }

    /// The flags of the flag byte `v`.
    pub fn from_bits(v: u8) -> (r: Self)
        ensures
            r.bits() == v,
    {
        MagicFlags { flags: v }
    }

    /// The names of the flags that are set, in bit order, or a single
    /// placeholder when none is.
    pub open spec fn spec_names(self) -> Seq<&'static str> {
        let set = flag_name(self.bits(), Self::INDIRECT, "INDIRECT") + flag_name(
            self.bits(),
            Self::OFFSET_ADD,
            "OFFSET_ADD",
        ) + flag_name(self.bits(), Self::INDIRECT_OFFSET_ADD, "INDIRECT_OFFSET_ADD")
            + flag_name(self.bits(), Self::UNSIGNED, "UNSIGNED") + flag_name(
            self.bits(),
            Self::NO_SPACE,
            "NO_SPACE",
        ) + flag_name(self.bits(), Self::BIN_TEST, "BIN_TEST") + flag_name(
            self.bits(),
            Self::TEXT_TEST,
            "TEXT_TEST",
        ) + flag_name(self.bits(), Self::OFFSET_NEGATIVE, "OFFSET_NEGATIVE");
        if set.len() == 0 {
            seq!["N/A"]
        } else {
            set
        }
    }

    pub fn names(&self) -> (r: Vec<&'static str>)
        ensures
            r@ == self.spec_names(),
    {
        let b = self.flags;
        let mut v: Vec<&'static str> = Vec::new();
        push_flag_name(&mut v, b, Self::INDIRECT, "INDIRECT");
        assert(v@ =~= flag_name(b, Self::INDIRECT, "INDIRECT"));
        push_flag_name(&mut v, b, Self::OFFSET_ADD, "OFFSET_ADD");
        push_flag_name(&mut v, b, Self::INDIRECT_OFFSET_ADD, "INDIRECT_OFFSET_ADD");
        push_flag_name(&mut v, b, Self::UNSIGNED, "UNSIGNED");
        push_flag_name(&mut v, b, Self::NO_SPACE, "NO_SPACE");
        push_flag_name(&mut v, b, Self::BIN_TEST, "BIN_TEST");
        push_flag_name(&mut v, b, Self::TEXT_TEST, "TEXT_TEST");
        push_flag_name(&mut v, b, Self::OFFSET_NEGATIVE, "OFFSET_NEGATIVE");
        if v.len() == 0 {
            v.push("N/A");
            assert(v@ =~= seq!["N/A"]);
        }
        v
    }

    pub fn bits_value(&self) -> (r: u8)
        ensures
            r == self.bits(),
    {
        self.flags
    }
}

/// The name of flag `flag` if it is set in `bits`, else nothing.
pub open spec fn flag_name(bits: u8, flag: u8, name: &'static str) -> Seq<&'static str> {
    if bits & flag == flag {
        seq![name]
    } else {
        seq![]
    }
}

/// Appends the name of flag `flag` if it is set in `bits`.
fn push_flag_name(v: &mut Vec<&'static str>, bits: u8, flag: u8, name: &'static str)
    ensures
        final(v)@ == old(v)@ + flag_name(bits, flag, name),
{
    if bits & flag == flag {
        v.push(name);
    }
    assert(v@ =~= old(v)@ + flag_name(bits, flag, name));
}

impl vstd::std_specs::convert::FromSpecImpl<u8> for MagicFlags {
    open spec fn obeys_from_spec() -> bool {
        true
    }

    closed spec fn from_spec(v: u8) -> Self {
        MagicFlags { flags: v }
    }
}

impl From<u8> for MagicFlags {
    fn from(value: u8) -> (r: Self) {
        Self { flags: value }
    }
}

#[derive(Clone, Copy, Debug, Default, PartialEq, Eq, Structural)]
pub enum Relation {
    #[default]
    Equal,
    NotEqual,
    Lesser,
    Greater,
    BitXor,
    BitAnd,
    Anything,
}

/// The relation that a character code stands for, if any.
pub open spec fn relation_of(c: u8) -> Option<Relation> {
    if c == '=' as u8 {
        Some(Relation::Equal)
    } else if c == '!' as u8 {
        Some(Relation::NotEqual)
    } else if c == '<' as u8 {
        Some(Relation::Lesser)
    } else if c == '>' as u8 {
        Some(Relation::Greater)
    } else if c == '^' as u8 {
        Some(Relation::BitXor)
    } else if c == '&' as u8 {
        Some(Relation::BitAnd)
    } else if c == 'x' as u8 {
        Some(Relation::Anything)
    } else {
        None
    }
}

impl vstd::std_specs::convert::TryFromSpecImpl<u8> for Relation {
    open spec fn obeys_try_from_spec() -> bool {
        true
    }

    open spec fn try_from_spec(v: u8) -> Result<Self, MagicError> {
        match relation_of(v) {
            Some(r) => Ok(r),
            None => Err(MagicError::InvalidRelation(v as char)),
        }
    }
}

impl TryFrom<u8> for Relation {
    type Error = MagicError;

    fn try_from(value: u8) -> (r: Result<Self, MagicError>) {
        let rel = if value == '=' as u8 {
            Relation::Equal
        } else if value == '!' as u8 {
            Relation::NotEqual
        } else if value == '<' as u8 {
            Relation::Lesser
        } else if value == '>' as u8 {
            Relation::Greater
        } else if value == '^' as u8 {
            Relation::BitXor
        } else if value == '&' as u8 {
            Relation::BitAnd
        } else if value == 'x' as u8 {
            Relation::Anything
        } else {
            return Err(MagicError::InvalidRelation(value as char));
        };
        Ok(rel)
    }
}

/// The arithmetic applied to a value with the record's factor. No character
/// code stands for `Modulo`.
#[derive(Clone, Copy, Debug, Default, PartialEq, Eq, Structural)]
pub enum FactorOperation {
    #[default]
    NoOp,
    Add,
    Subtract,
    Multiply,
    Divide,
    Modulo,
}

/// The factor operation that a character code stands for, if any.
pub open spec fn factor_operation_of(c: u8) -> Option<FactorOperation> {
    if c == 0 {
        Some(FactorOperation::NoOp)
    } else if c == '+' as u8 {
        Some(FactorOperation::Add)
    } else if c == '-' as u8 {
        Some(FactorOperation::Subtract)
    } else if c == '*' as u8 {
        Some(FactorOperation::Multiply)
    } else if c == '/' as u8 {
        Some(FactorOperation::Divide)
    } else {
        None
    }
}

impl vstd::std_specs::convert::TryFromSpecImpl<u8> for FactorOperation {
    open spec fn obeys_try_from_spec() -> bool {
        true
    }

    open spec fn try_from_spec(v: u8) -> Result<Self, MagicError> {
        match factor_operation_of(v) {
            Some(op) => Ok(op),
            None => Err(MagicError::InvalidFactorOperation(v as char)),
        }
    }
}

impl TryFrom<u8> for FactorOperation {
    type Error = MagicError;

    fn try_from(value: u8) -> (r: Result<Self, MagicError>) {
        let op = if value == 0 {
            FactorOperation::NoOp
        } else if value == '+' as u8 {
            FactorOperation::Add
        } else if value == '-' as u8 {
            FactorOperation::Subtract
        } else if value == '*' as u8 {
            FactorOperation::Multiply
        } else if value == '/' as u8 {
            FactorOperation::Divide
        } else {
            return Err(MagicError::InvalidFactorOperation(value as char));
        };
        Ok(op)
    }
}

#[derive(Clone, Copy, Debug, PartialEq, Eq, Structural)]
pub enum IndirectionOperator {
    And,
    Or,
    Xor,
    Add,
    Subtract,
    Multiply,
    Divide,
    Modulo,
}

#[derive(Clone, Copy, Debug, PartialEq, Eq, Structural)]
pub struct IndirectionFlags {
    pub signed: bool,
    pub inverse: bool,
    pub indirect: bool,
}

/// An operation byte: an operator in its low three bits and three flags in
/// its high three bits.
#[derive(Clone, Copy, Debug, PartialEq, Eq, Structural)]
pub struct IndirectionOperation {
    pub op: IndirectionOperator,
    pub flags: IndirectionFlags,
}

/// The bits of an operation byte that must be clear.
pub const INDIRECTION_RESERVED_BITS: u8 = 0x18;

/// The operator that the low three bits `k` of an operation byte select.
pub open spec fn indirection_operator_of(k: u8) -> IndirectionOperator {
    match k {
        0 => IndirectionOperator::And,
        1 => IndirectionOperator::Or,
        2 => IndirectionOperator::Xor,
        3 => IndirectionOperator::Add,
        4 => IndirectionOperator::Subtract,
        5 => IndirectionOperator::Multiply,
        6 => IndirectionOperator::Divide,
        _ => IndirectionOperator::Modulo,
    }
}

/// The operation that byte `v` encodes, if its reserved bits are clear.
pub open spec fn indirection_operation_of(v: u8) -> Option<IndirectionOperation> {
    if v & INDIRECTION_RESERVED_BITS != 0 {
        None
    } else {
        Some(
            IndirectionOperation {
                op: indirection_operator_of(v & 0x07),
                flags: IndirectionFlags {
                    signed: v & 0x20 == 0x20,
                    inverse: v & 0x40 == 0x40,
                    indirect: v & 0x80 == 0x80,
                },
            },
        )
    }
}

impl Default for IndirectionOperation {
    fn default() -> (r: Self)
        ensures
            r == (IndirectionOperation {
                op: IndirectionOperator::And,
                flags: IndirectionFlags { signed: false, inverse: false, indirect: false },
            }),
    {
        IndirectionOperation {
            op: IndirectionOperator::And,
            flags: IndirectionFlags { signed: false, inverse: false, indirect: false },
        }
    }
}

impl vstd::std_specs::convert::TryFromSpecImpl<u8> for IndirectionOperation {
    open spec fn obeys_try_from_spec() -> bool {
        true
    }

    open spec fn try_from_spec(v: u8) -> Result<Self, MagicError> {
        match indirection_operation_of(v) {
            Some(op) => Ok(op),
            None => Err(MagicError::InvalidIndirectionOperationBitSet),
        }
    }
}

impl TryFrom<u8> for IndirectionOperation {
    type Error = MagicError;

    fn try_from(value: u8) -> (r: Result<Self, MagicError>) {
        if value & INDIRECTION_RESERVED_BITS != 0 {
            return Err(MagicError::InvalidIndirectionOperationBitSet);
        }
        let op = match value & 0x07 {
            0 => IndirectionOperator::And,
            1 => IndirectionOperator::Or,
            2 => IndirectionOperator::Xor,
            3 => IndirectionOperator::Add,
            4 => IndirectionOperator::Subtract,
            5 => IndirectionOperator::Multiply,
            6 => IndirectionOperator::Divide,
            _ => IndirectionOperator::Modulo,
        };
        let signed = value & 0x20 == 0x20;
        let inverse = value & 0x40 == 0x40;
        let indirect = value & 0x80 == 0x80;
        Ok(IndirectionOperation { op, flags: IndirectionFlags { signed, inverse, indirect } })
    }
}

/// An operation byte with either reserved bit set encodes no operation,
/// whatever its other bits.
pub proof fn lemma_reserved_bits_rejected(v: u8)
    requires
        v & 0x08 == 0x08 || v & 0x10 == 0x10,
    ensures
        indirection_operation_of(v) is None,
{
    assert(v & 0x08 == 0x08 || v & 0x10 == 0x10 ==> v & 0x18 != 0) by (bit_vector);
}

#[derive(Clone, Copy, Debug, Default, PartialEq, Eq, Structural)]
pub enum ConditionalType {
    #[default]
    Unconditional,
    If,
    Elif,
    Else,
}

/// The conditional type that code `c` stands for, if any.
pub open spec fn conditional_type_of(c: u8) -> Option<ConditionalType> {
    match c {
        0 => Some(ConditionalType::Unconditional),
        1 => Some(ConditionalType::If),
        2 => Some(ConditionalType::Elif),
        3 => Some(ConditionalType::Else),
        _ => None,
    }
}

impl vstd::std_specs::convert::TryFromSpecImpl<u8> for ConditionalType {
    open spec fn obeys_try_from_spec() -> bool {
        true
    }

    open spec fn try_from_spec(v: u8) -> Result<Self, MagicError> {
        match conditional_type_of(v) {
            Some(t) => Ok(t),
            None => Err(MagicError::InvalidConditionalType(v)),
        }
    }
}

impl TryFrom<u8> for ConditionalType {
    type Error = MagicError;

    fn try_from(value: u8) -> (r: Result<Self, MagicError>) {
        let t = match value {
            0 => ConditionalType::Unconditional,
            1 => ConditionalType::If,
            2 => ConditionalType::Elif,
            3 => ConditionalType::Else,
            other => return Err(MagicError::InvalidConditionalType(other)),
        };
        Ok(t)
    }
}

/// Where the text in window `w` ends, searching from `i`: at the first zero
/// byte, or at the end of the window.
pub open spec fn nul_index(w: Seq<u8>, i: int) -> int
    decreases w.len() - i,
{
    if i >= w.len() || w[i] == 0 {
        i
    } else {
        nul_index(w, i + 1)
    }
}

/// The bytes of the text in window `w`: those before its first zero byte.
pub open spec fn text_bytes(w: Seq<u8>) -> Seq<u8> {
    w.subrange(0, nul_index(w, 0))
}

/// Decodes the text of a fixed-width window: its bytes up to the first zero
/// byte, or all of them, as UTF-8.
pub fn bytes_to_string(bytes: &[u8]) -> (r: Result<String, MagicError>)
    ensures
        r is Ok <==> valid_utf8(text_bytes(bytes@)),
        r matches Ok(s) ==> s@ == decode_utf8(text_bytes(bytes@)),
        r matches Err(e) ==> e is InvalidUtf8,
{
    let mut end: usize = 0;
    while end < bytes.len() && bytes[end] != 0
        invariant
            end <= bytes@.len(),
            nul_index(bytes@, end as int) == nul_index(bytes@, 0),
        decreases bytes@.len() - end,
    {
        end = end + 1;
    }
    match utf8_to_string(&bytes[0..end]) {
        Ok(s) => Ok(s),
        Err(e) => Err(MagicError::InvalidUtf8(e)),
    }
}

/// A decoded record.
#[derive(Debug)]
pub struct Magic {
    pub cont_level: u16,
    pub flags: MagicFlags,
    pub factor: u8,
    pub relation: Relation,
    pub value_len: u8,
    pub value_type: ValueType,
    pub indirection_type: ValueType,
    pub indirection_operation: IndirectionOperation,
    pub mask_operation: IndirectionOperation,
    pub conditional_type: ConditionalType,
    pub factor_operation: FactorOperation,
    pub offset: i32,
    pub indirection_offset: i32,
    pub line_number: u32,
    pub value_options: ValueOption,
    pub value: Value,
    pub desc: String,
    pub mimetype: String,
    pub apple: String,
    pub ext: String,
}

/// A record as plain values: the flag byte, the value as its type and
/// bytes, and each text as its characters.
pub struct MagicModel {
    pub cont_level: u16,
    pub flags: u8,
    pub factor: u8,
    pub relation: Relation,
    pub value_len: u8,
    pub value_type: ValueType,
    pub indirection_type: ValueType,
    pub indirection_operation: IndirectionOperation,
    pub mask_operation: IndirectionOperation,
    pub conditional_type: ConditionalType,
    pub factor_operation: FactorOperation,
    pub offset: i32,
    pub indirection_offset: i32,
    pub line_number: u32,
    pub value_options: ValueOption,
    pub value: (ValueType, Seq<u8>),
    pub desc: Seq<char>,
    pub mimetype: Seq<char>,
    pub apple: Seq<char>,
    pub ext: Seq<char>,
}

impl View for Magic {
    type V = MagicModel;

    open spec fn view(&self) -> MagicModel {
        MagicModel {
            cont_level: self.cont_level,
            flags: self.flags.bits(),
            factor: self.factor,
            relation: self.relation,
            value_len: self.value_len,
            value_type: self.value_type,
            indirection_type: self.indirection_type,
            indirection_operation: self.indirection_operation,
            mask_operation: self.mask_operation,
            conditional_type: self.conditional_type,
            factor_operation: self.factor_operation,
            offset: self.offset,
            indirection_offset: self.indirection_offset,
            line_number: self.line_number,
            value_options: self.value_options,
            value: self.value@,
            desc: self.desc@,
            mimetype: self.mimetype@,
            apple: self.apple@,
            ext: self.ext@,
        }
    }
}

/// The value window of record `b`.
pub open spec fn value_window(b: Seq<u8>) -> Seq<u8> {
    b.subrange(32, 160)
}

pub open spec fn desc_window(b: Seq<u8>) -> Seq<u8> {
    b.subrange(160, 224)
}

pub open spec fn mimetype_window(b: Seq<u8>) -> Seq<u8> {
    b.subrange(224, 304)
}

pub open spec fn apple_window(b: Seq<u8>) -> Seq<u8> {
    b.subrange(304, 312)
}

pub open spec fn ext_window(b: Seq<u8>) -> Seq<u8> {
    b.subrange(312, 432)
}

/// The first failure that decoding record `b` meets, fields taken in the
/// order of their bytes; none if `b` is a valid record.
pub open spec fn record_fault(b: Seq<u8>) -> Option<RecordFault> {
    if b.len() != MAGIC_SIZE {
        Some(RecordFault::InvalidBufferLength(b.len() as usize, MAGIC_SIZE))
    } else if relation_of(b[4]) is None {
        Some(RecordFault::InvalidRelation(b[4] as char))
    } else if value_type_of(b[6]) is None {
        Some(RecordFault::Value(ValueError::InvalidValueType(b[6])))
    } else if value_type_of(b[7]) is None {
        Some(RecordFault::Value(ValueError::InvalidValueType(b[7])))
    } else if indirection_operation_of(b[8]) is None {
        Some(RecordFault::InvalidIndirectionOperationBitSet)
    } else if indirection_operation_of(b[9]) is None {
        Some(RecordFault::InvalidIndirectionOperationBitSet)
    } else if conditional_type_of(b[10]) is None {
        Some(RecordFault::InvalidConditionalType(b[10]))
    } else if factor_operation_of(b[11]) is None {
        Some(RecordFault::InvalidFactorOperation(b[11] as char))
    } else if !value_fits(value_window(b), b[5]) {
        Some(RecordFault::Value(ValueError::InvalidLength(b[5], 128)))
    } else if !valid_utf8(text_bytes(desc_window(b))) || !valid_utf8(
        text_bytes(mimetype_window(b)),
    ) || !valid_utf8(text_bytes(apple_window(b))) || !valid_utf8(text_bytes(ext_window(b))) {
        Some(RecordFault::InvalidUtf8)
    } else {
        None
    }
}

/// The options of record `b`: a count and flags when it declares a value
/// length, else a mask.
pub open spec fn value_options_of(b: Seq<u8>) -> ValueOption {
    if b[5] > 0 {
        ValueOption::String { count: le_u32(b, 24) as u32, flags: le_u32(b, 28) as u32 }
    } else {
        ValueOption::Numeric { mask: le_u64(b, 24) as u64 }
    }
}

/// The record that valid record bytes `b` encode.
pub open spec fn record_model(b: Seq<u8>) -> MagicModel {
    MagicModel {
        cont_level: le_u16(b, 0) as u16,
        flags: b[2],
        factor: b[3],
        relation: relation_of(b[4])->Some_0,
        value_len: b[5],
        value_type: value_type_of(b[6])->Some_0,
        indirection_type: value_type_of(b[7])->Some_0,
        indirection_operation: indirection_operation_of(b[8])->Some_0,
        mask_operation: indirection_operation_of(b[9])->Some_0,
        conditional_type: conditional_type_of(b[10])->Some_0,
        factor_operation: factor_operation_of(b[11])->Some_0,
        offset: le_u32(b, 12) as i32,
        indirection_offset: le_u32(b, 16) as i32,
        line_number: le_u32(b, 20) as u32,
        value_options: value_options_of(b),
        value: (
            value_type_of(b[6])->Some_0,
            value_window(b).subrange(0, value_len(value_window(b), b[5])),
        ),
        desc: decode_utf8(text_bytes(desc_window(b))),
        mimetype: decode_utf8(text_bytes(mimetype_window(b))),
        apple: decode_utf8(text_bytes(apple_window(b))),
        ext: decode_utf8(text_bytes(ext_window(b))),
    }
}

/// That `r` is the outcome of decoding record bytes `b`: the record they
/// encode, or the first failure they meet.
pub open spec fn decodes_record(b: Seq<u8>, r: Result<Magic, MagicError>) -> bool {
    match r {
        Ok(m) => record_fault(b) is None && m@ == record_model(b),
        Err(e) => record_fault(b) == Some(e@),
    }
}

impl Magic {
    /// Decodes one record from its bytes.
    pub fn from_bytes(bytes: &[u8]) -> (r: Result<Self, MagicError>)
        ensures
            decodes_record(bytes@, r),
    {
        if bytes.len() != MAGIC_SIZE {
            return Err(MagicError::InvalidBufferLength(bytes.len(), MAGIC_SIZE));
        }
        let cont_level = read_u16_le(bytes, 0);
        let flags = MagicFlags::from_bits(bytes[2]);
        let factor = bytes[3];

        let relation = match Relation::try_from(bytes[4]) {
            Ok(v) => v,
            Err(e) => return Err(e),
        };
        let value_len = bytes[5];
        let value_type = match ValueType::try_from(bytes[6]) {
            Ok(v) => v,
            Err(e) => return Err(MagicError::Value(e)),
        };
        let indirection_type = match ValueType::try_from(bytes[7]) {
            Ok(v) => v,
            Err(e) => return Err(MagicError::Value(e)),
        };

        let indirection_operation = match IndirectionOperation::try_from(bytes[8]) {
            Ok(v) => v,
            Err(e) => return Err(e),
        };
        let mask_operation = match IndirectionOperation::try_from(bytes[9]) {
            Ok(v) => v,
            Err(e) => return Err(e),
        };
        let conditional_type = match ConditionalType::try_from(bytes[10]) {
            Ok(v) => v,
            Err(e) => return Err(e),
        };
        let factor_operation = match FactorOperation::try_from(bytes[11]) {
            Ok(v) => v,
            Err(e) => return Err(e),
        };

        let offset = read_i32_le(bytes, 12);
        let indirection_offset = read_i32_le(bytes, 16);
        let line_number = read_u32_le(bytes, 20);

        let value_options = if value_len > 0 {
            let count = read_u32_le(bytes, 24);
            let flags = read_u32_le(bytes, 28);
            ValueOption::String { count, flags }
        } else {
            let mask = read_u64_le(bytes, 24);
            ValueOption::Numeric { mask }
        };

        let value = match Value::new(value_type, value_len, &bytes[32..160]) {
            Ok(v) => v,
            Err(e) => return Err(MagicError::Value(e)),
        };
        let desc = match bytes_to_string(&bytes[160..224]) {
            Ok(s) => s,
            Err(e) => return Err(e),
        };
        let mimetype = match bytes_to_string(&bytes[224..304]) {
            Ok(s) => s,
            Err(e) => return Err(e),
        };
        let apple = match bytes_to_string(&bytes[304..312]) {
            Ok(s) => s,
            Err(e) => return Err(e),
        };
        let ext = match bytes_to_string(&bytes[312..432]) {
            Ok(s) => s,
            Err(e) => return Err(e),
        };

        Ok(Magic {
            cont_level,
            flags,
            factor,
            relation,
            value_len,
            value_type,
            indirection_type,
            indirection_operation,
            mask_operation,
            conditional_type,
            factor_operation,
            offset,
            indirection_offset,
            line_number,
            value_options,
            value,
            desc,
            mimetype,
            apple,
            ext,
        })
    }
}

} // verus!
