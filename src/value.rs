//! Rule value types and the literal value a rule tests against.

use vstd::prelude::*;
use vstd::utf8::{decode_utf8, valid_utf8};

verus! {

#[verifier::external_type_specification]
#[verifier::external_body]
pub struct ExUtf8Error(std::str::Utf8Error);

/// Relies on std::str::from_utf8: it accepts exactly the well-formed UTF-8
/// byte strings, and yields the characters they encode.
#[verifier::external_body]
pub(crate) fn utf8_to_string(b: &[u8]) -> (r: Result<String, std::str::Utf8Error>)
    ensures
        r is Ok <==> valid_utf8(b@),
        r matches Ok(s) ==> s@ == decode_utf8(b@),
{
    std::str::from_utf8(b).map(|s| s.to_string())
}

#[derive(Debug, PartialEq, Eq, Structural)]
pub enum ValueError {
    InvalidValueType(u8),
    /// The declared length (first) does not fit the value window of the
    /// given size (second).
    InvalidLength(u8, usize),
}

/// The type of a rule's value, one of sixty codes.
#[derive(Clone, Copy, Debug, PartialEq, Eq, Structural)]
pub enum ValueType {
    Invalid,
    Byte,
    Short,
    Default,
    Long,
    String,
    Date,
    BeShort,
    BeLong,
    BeDate,
    LeShort,
    LeLong,
    LeDate,
    PString,
    LDate,
    BeLDate,
    LeLDate,
    Regex,
    BeString16,
    LeString16,
    Search,
    MeDate,
    MeLDate,
    MeLong,
    Quad,
    LeQuad,
    BeQuad,
    QDate,
    LeQDate,
    BeQDate,
    QLDate,
    LeQLDate,
    BeQLDate,
    Float,
    BeFloat,
    LeFloat,
    Double,
    BeDouble,
    LeDouble,
    BeId3,
    LeId3,
    Indirect,
    QwDate,
    LeQwDate,
    BeQwDate,
    Name,
    Use,
    Clear,
    Der,
    Guid,
    Offset,
    BeVarInt,
    LeVarInt,
    MSDosDate,
    LeMSDosDate,
    BeMsDosDate,
    MSDosTime,
    LeMSDOSTime,
    BeMSDOSTime,
    Octal,
}

/// The number of value type codes; every code below it is legal.
pub const VALUE_TYPE_COUNT: u8 = 60;

impl ValueType {
    /// The code that stands for this type in a database.
    pub open spec fn code(self) -> u8 {
        match self {
            ValueType::Invalid => 0,
            ValueType::Byte => 1,
            ValueType::Short => 2,
            ValueType::Default => 3,
            ValueType::Long => 4,
            ValueType::String => 5,
            ValueType::Date => 6,
            ValueType::BeShort => 7,
            ValueType::BeLong => 8,
            ValueType::BeDate => 9,
            ValueType::LeShort => 10,
            ValueType::LeLong => 11,
            ValueType::LeDate => 12,
            ValueType::PString => 13,
            ValueType::LDate => 14,
            ValueType::BeLDate => 15,
            ValueType::LeLDate => 16,
            ValueType::Regex => 17,
            ValueType::BeString16 => 18,
            ValueType::LeString16 => 19,
            ValueType::Search => 20,
            ValueType::MeDate => 21,
            ValueType::MeLDate => 22,
            ValueType::MeLong => 23,
            ValueType::Quad => 24,
            ValueType::LeQuad => 25,
            ValueType::BeQuad => 26,
            ValueType::QDate => 27,
            ValueType::LeQDate => 28,
            ValueType::BeQDate => 29,
            ValueType::QLDate => 30,
            ValueType::LeQLDate => 31,
            ValueType::BeQLDate => 32,
            ValueType::Float => 33,
            ValueType::BeFloat => 34,
            ValueType::LeFloat => 35,
            ValueType::Double => 36,
            ValueType::BeDouble => 37,
            ValueType::LeDouble => 38,
            ValueType::BeId3 => 39,
            ValueType::LeId3 => 40,
            ValueType::Indirect => 41,
            ValueType::QwDate => 42,
            ValueType::LeQwDate => 43,
            ValueType::BeQwDate => 44,
            ValueType::Name => 45,
            ValueType::Use => 46,
            ValueType::Clear => 47,
            ValueType::Der => 48,
            ValueType::Guid => 49,
            ValueType::Offset => 50,
            ValueType::BeVarInt => 51,
            ValueType::LeVarInt => 52,
            ValueType::MSDosDate => 53,
            ValueType::LeMSDosDate => 54,
            ValueType::BeMsDosDate => 55,
            ValueType::MSDosTime => 56,
            ValueType::LeMSDOSTime => 57,
            ValueType::BeMSDOSTime => 58,
            ValueType::Octal => 59,
        }
    }

    /// The value types whose value is text.
    pub open spec fn spec_is_string(self) -> bool {
        match self {
            ValueType::String | ValueType::PString | ValueType::BeString16
            | ValueType::LeString16 | ValueType::Regex | ValueType::Search
            | ValueType::Indirect | ValueType::Name | ValueType::Use
            | ValueType::Octal => true,
            _ => false,
        }
    }

    pub fn is_string(&self) -> (r: bool)
        ensures
            r == self.spec_is_string(),
    {
        match self {
            ValueType::String | ValueType::PString | ValueType::BeString16
            | ValueType::LeString16 | ValueType::Regex | ValueType::Search
            | ValueType::Indirect | ValueType::Name | ValueType::Use
            | ValueType::Octal => true,
            _ => false,
        }
    }
}

/// The value type with the given code, if the code is legal.
pub open spec fn value_type_of(c: u8) -> Option<ValueType> {
    match c {
        0 => Some(ValueType::Invalid),
        1 => Some(ValueType::Byte),
        2 => Some(ValueType::Short),
        3 => Some(ValueType::Default),
        4 => Some(ValueType::Long),
        5 => Some(ValueType::String),
        6 => Some(ValueType::Date),
        7 => Some(ValueType::BeShort),
        8 => Some(ValueType::BeLong),
        9 => Some(ValueType::BeDate),
        10 => Some(ValueType::LeShort),
        11 => Some(ValueType::LeLong),
        12 => Some(ValueType::LeDate),
        13 => Some(ValueType::PString),
        14 => Some(ValueType::LDate),
        15 => Some(ValueType::BeLDate),
        16 => Some(ValueType::LeLDate),
        17 => Some(ValueType::Regex),
        18 => Some(ValueType::BeString16),
        19 => Some(ValueType::LeString16),
        20 => Some(ValueType::Search),
        21 => Some(ValueType::MeDate),
        22 => Some(ValueType::MeLDate),
        23 => Some(ValueType::MeLong),
        24 => Some(ValueType::Quad),
        25 => Some(ValueType::LeQuad),
        26 => Some(ValueType::BeQuad),
        27 => Some(ValueType::QDate),
        28 => Some(ValueType::LeQDate),
        29 => Some(ValueType::BeQDate),
        30 => Some(ValueType::QLDate),
        31 => Some(ValueType::LeQLDate),
        32 => Some(ValueType::BeQLDate),
        33 => Some(ValueType::Float),
        34 => Some(ValueType::BeFloat),
        35 => Some(ValueType::LeFloat),
        36 => Some(ValueType::Double),
        37 => Some(ValueType::BeDouble),
        38 => Some(ValueType::LeDouble),
        39 => Some(ValueType::BeId3),
        40 => Some(ValueType::LeId3),
        41 => Some(ValueType::Indirect),
        42 => Some(ValueType::QwDate),
        43 => Some(ValueType::LeQwDate),
        44 => Some(ValueType::BeQwDate),
        45 => Some(ValueType::Name),
        46 => Some(ValueType::Use),
        47 => Some(ValueType::Clear),
        48 => Some(ValueType::Der),
        49 => Some(ValueType::Guid),
        50 => Some(ValueType::Offset),
        51 => Some(ValueType::BeVarInt),
        52 => Some(ValueType::LeVarInt),
        53 => Some(ValueType::MSDosDate),
        54 => Some(ValueType::LeMSDosDate),
        55 => Some(ValueType::BeMsDosDate),
        56 => Some(ValueType::MSDosTime),
        57 => Some(ValueType::LeMSDOSTime),
        58 => Some(ValueType::BeMSDOSTime),
        59 => Some(ValueType::Octal),
        _ => None,
    }
}

impl vstd::std_specs::convert::TryFromSpecImpl<u8> for ValueType {
    open spec fn obeys_try_from_spec() -> bool {
        true
    }

    open spec fn try_from_spec(v: u8) -> Result<Self, ValueError> {
        match value_type_of(v) {
            Some(t) => Ok(t),
            None => Err(ValueError::InvalidValueType(v)),
        }
    }
}

impl TryFrom<u8> for ValueType {
    type Error = ValueError;

    fn try_from(value: u8) -> (r: Result<Self, ValueError>) {
        let t = match value {
            0 => ValueType::Invalid,
            1 => ValueType::Byte,
            2 => ValueType::Short,
            3 => ValueType::Default,
            4 => ValueType::Long,
            5 => ValueType::String,
            6 => ValueType::Date,
            7 => ValueType::BeShort,
            8 => ValueType::BeLong,
            9 => ValueType::BeDate,
            10 => ValueType::LeShort,
            11 => ValueType::LeLong,
            12 => ValueType::LeDate,
            13 => ValueType::PString,
            14 => ValueType::LDate,
            15 => ValueType::BeLDate,
            16 => ValueType::LeLDate,
            17 => ValueType::Regex,
            18 => ValueType::BeString16,
            19 => ValueType::LeString16,
            20 => ValueType::Search,
            21 => ValueType::MeDate,
            22 => ValueType::MeLDate,
            23 => ValueType::MeLong,
            24 => ValueType::Quad,
            25 => ValueType::LeQuad,
            26 => ValueType::BeQuad,
            27 => ValueType::QDate,
            28 => ValueType::LeQDate,
            29 => ValueType::BeQDate,
            30 => ValueType::QLDate,
            31 => ValueType::LeQLDate,
            32 => ValueType::BeQLDate,
            33 => ValueType::Float,
            34 => ValueType::BeFloat,
            35 => ValueType::LeFloat,
            36 => ValueType::Double,
            37 => ValueType::BeDouble,
            38 => ValueType::LeDouble,
            39 => ValueType::BeId3,
            40 => ValueType::LeId3,
            41 => ValueType::Indirect,
            42 => ValueType::QwDate,
            43 => ValueType::LeQwDate,
            44 => ValueType::BeQwDate,
            45 => ValueType::Name,
            46 => ValueType::Use,
            47 => ValueType::Clear,
            48 => ValueType::Der,
            49 => ValueType::Guid,
            50 => ValueType::Offset,
            51 => ValueType::BeVarInt,
            52 => ValueType::LeVarInt,
            53 => ValueType::MSDosDate,
            54 => ValueType::LeMSDosDate,
            55 => ValueType::BeMsDosDate,
            56 => ValueType::MSDosTime,
            57 => ValueType::LeMSDOSTime,
            58 => ValueType::BeMSDOSTime,
            59 => ValueType::Octal,
            other => {
                return Err(ValueError::InvalidValueType(other));
            }
        };
        Ok(t)
    }
}

/// Every code below sixty names exactly one value type, and that type gives the
/// code back; every other byte names none.
pub proof fn lemma_value_type_code(c: u8)
    ensures
        (c < VALUE_TYPE_COUNT) <==> value_type_of(c) is Some,
        value_type_of(c) matches Some(t) ==> t.code() == c,
{
}

/// Every value type has a legal code, and that code names it.
pub proof fn lemma_value_type_round_trip(t: ValueType)
    ensures
        t.code() < VALUE_TYPE_COUNT,
        value_type_of(t.code()) == Some(t),
{
}

/// What a string-valued and a numeric-valued rule carry besides the value.
#[derive(Clone, Copy, Debug, PartialEq, Eq, Structural)]
pub enum ValueOption {
    Numeric { mask: u64 },
    String { count: u32, flags: u32 },
}

impl Default for ValueOption {
    fn default() -> (r: Self)
        ensures
            r == (ValueOption::Numeric { mask: 0 }),
    {
        ValueOption::Numeric { mask: 0 }
    }
}

/// The length that trimming trailing zero bytes from the first `n` bytes of
/// `w` leaves, never going below one byte.
pub open spec fn trimmed_len(w: Seq<u8>, n: int) -> int
    decreases n,
{
    if n <= 1 || w[n - 1] != 0 {
        n
    } else {
        trimmed_len(w, n - 1)
    }
}

/// When a value of declared length `len` can be taken from window `w`: the
/// declared length fits, or, with no declared length, the window leaves at
/// least one byte once its last byte is set aside.
pub open spec fn value_fits(w: Seq<u8>, len: u8) -> bool {
    if len != 0 {
        len <= w.len()
    } else {
        w.len() >= 2
    }
}

/// The length of the value taken from window `w`: the declared length when
/// there is one, else the window without its last byte and without the zero
/// bytes that then trail.
pub open spec fn value_len(w: Seq<u8>, len: u8) -> int {
    if len != 0 {
        len as int
    } else {
        trimmed_len(w, w.len() - 1)
    }
}

/// Trimming keeps at least one byte and at most `n`; the bytes it drops are
/// zero, and the last byte it keeps is not zero unless it is the only one.
pub proof fn lemma_trimmed_len(w: Seq<u8>, n: int)
    requires
        1 <= n <= w.len(),
    ensures
        1 <= trimmed_len(w, n) <= n,
        forall|i: int| trimmed_len(w, n) <= i < n ==> w[i] == 0,
        trimmed_len(w, n) > 1 ==> w[trimmed_len(w, n) - 1] != 0,
    decreases n,
{
    if n > 1 && w[n - 1] == 0 {
        lemma_trimmed_len(w, n - 1);
    }
}

/// With no declared length, a window of zero bytes yields a value of exactly
/// one byte, never an empty one.
pub proof fn lemma_zero_window_keeps_one_byte(w: Seq<u8>)
    requires
        w.len() >= 2,
        forall|i: int| 0 <= i < w.len() ==> w[i] == 0,
    ensures
        value_fits(w, 0),
        value_len(w, 0) == 1,
{
    lemma_trimmed_len(w, w.len() - 1);
}

/// A rule's literal value: its type and its bytes.
#[derive(Debug)]
pub struct Value {
    vtype: ValueType,
    bytes: Vec<u8>,
}

impl View for Value {
    type V = (ValueType, Seq<u8>);

    closed spec fn view(&self) -> (ValueType, Seq<u8>) {
        (self.vtype, self.bytes@)
    }
}

impl Value {
    /// Takes the value of type `vtype` and declared length `len` from the
    /// value window `bytes`.
    pub fn new(vtype: ValueType, len: u8, bytes: &[u8]) -> (r: Result<Self, ValueError>)
        ensures
            value_fits(bytes@, len) ==> (r matches Ok(v) && v@ == (
                vtype,
                bytes@.subrange(0, value_len(bytes@, len)),
            )),
            !value_fits(bytes@, len) ==> (r matches Err(e) && e == ValueError::InvalidLength(
                len,
                bytes@.len() as usize,
            )),
            r matches Ok(v) ==> v@.1.len() >= 1,
    {
        let size = bytes.len();
        let n: usize = if len != 0 {
            if len as usize > size {
                return Err(ValueError::InvalidLength(len, size));
            }
            len as usize
        } else {
            if size < 2 {
                return Err(ValueError::InvalidLength(len, size));
            }
            let mut n: usize = size - 1;
            while n > 1 && bytes[n - 1] == 0
                invariant
                    1 <= n < size,
                    size == bytes@.len(),
                    trimmed_len(bytes@, n as int) == trimmed_len(bytes@, size - 1),
                decreases n,
            {
                n = n - 1;
            }
            proof {
                lemma_trimmed_len(bytes@, size - 1);
            }
            n
        };
        let kept = vstd::slice::slice_to_vec(&bytes[0..n]);
        Ok(Value { vtype, bytes: kept })
    }

    pub fn vtype(&self) -> (r: ValueType)
        ensures
            r == self@.0,
    {
        self.vtype
    }

    pub fn bytes(&self) -> (r: &[u8])
        ensures
            r@ == self@.1,
    {
        self.bytes.as_slice()
    }

    /// How the value is shown: a text value as its text when its bytes are
    /// UTF-8, a byte value as its one byte, anything else as raw bytes.
    pub fn rendering(&self) -> (r: Rendering)
        ensures
            self@.0.spec_is_string() && valid_utf8(self@.1) ==> (r matches Rendering::Text(s)
                && s@ == decode_utf8(self@.1)),
            self@.0.spec_is_string() && !valid_utf8(self@.1) ==> r is Raw,
            self@.0 == ValueType::Byte && self@.1.len() > 0 ==> r == Rendering::Byte(self@.1[0]),
            !self@.0.spec_is_string() && (self@.0 != ValueType::Byte || self@.1.len() == 0)
                ==> r is Raw,
    {
        if self.vtype.is_string() {
            match utf8_to_string(self.bytes.as_slice()) {
                Ok(s) => Rendering::Text(s),
                Err(_) => Rendering::Raw,
            }
        } else if self.vtype == ValueType::Byte && self.bytes.len() > 0 {
            Rendering::Byte(self.bytes[0])
        } else {
            Rendering::Raw
        }
    }
}

/// How a value is shown; `Raw` stands for its bytes as they are.
#[derive(Debug, PartialEq, Eq)]
pub enum Rendering {
    Text(String),
    Byte(u8),
    Raw,
}

} // verus!
