//! Destination wire types and the row-oriented values produced by the
//! conversion engine.
//!
//! A `CellValue` is one cell of a resolved row: a value already shaped for the
//! bulk-copy wire protocol. Temporal and numeric cells carry the exact integer
//! encodings the protocol uses (day counts, 100 ns increments, a 128-bit
//! mantissa with a scale); floating-point cells carry the IEEE 754 bit
//! pattern, so that the verified core never touches a float.

use vstd::prelude::*;

verus! {

/// The declared type of a destination column, as the relational server
/// reports it.
#[derive(Clone, Copy, Debug, PartialEq, Eq, Structural)]
pub enum ColumnType {
    Null,
    Bit,
    Int1,
    Int2,
    Int4,
    Int8,
    Datetime4,
    Float4,
    Float8,
    Money,
    Datetime,
    Money4,
    Guid,
    Intn,
    Bitn,
    Decimaln,
    Numericn,
    Floatn,
    Datetimen,
    Daten,
    Timen,
    Datetime2,
    DatetimeOffsetn,
    BigVarBin,
    BigVarChar,
    BigBinary,
    BigChar,
    NVarchar,
    NChar,
    Xml,
    Udt,
    Text,
    Image,
    NText,
    SSVariant,
}

/// The textual name of a destination wire type, as errors report it.
pub open spec fn column_type_name(t: ColumnType) -> Seq<char> {
    match t {
        ColumnType::Null => "Null"@,
        ColumnType::Bit => "Bit"@,
        ColumnType::Int1 => "Int1"@,
        ColumnType::Int2 => "Int2"@,
        ColumnType::Int4 => "Int4"@,
        ColumnType::Int8 => "Int8"@,
        ColumnType::Datetime4 => "Datetime4"@,
        ColumnType::Float4 => "Float4"@,
        ColumnType::Float8 => "Float8"@,
        ColumnType::Money => "Money"@,
        ColumnType::Datetime => "Datetime"@,
        ColumnType::Money4 => "Money4"@,
        ColumnType::Guid => "Guid"@,
        ColumnType::Intn => "Intn"@,
        ColumnType::Bitn => "Bitn"@,
        ColumnType::Decimaln => "Decimaln"@,
        ColumnType::Numericn => "Numericn"@,
        ColumnType::Floatn => "Floatn"@,
        ColumnType::Datetimen => "Datetimen"@,
        ColumnType::Daten => "Daten"@,
        ColumnType::Timen => "Timen"@,
        ColumnType::Datetime2 => "Datetime2"@,
        ColumnType::DatetimeOffsetn => "DatetimeOffsetn"@,
        ColumnType::BigVarBin => "BigVarBin"@,
        ColumnType::BigVarChar => "BigVarChar"@,
        ColumnType::BigBinary => "BigBinary"@,
        ColumnType::BigChar => "BigChar"@,
        ColumnType::NVarchar => "NVarchar"@,
        ColumnType::NChar => "NChar"@,
        ColumnType::Xml => "Xml"@,
        ColumnType::Udt => "Udt"@,
        ColumnType::Text => "Text"@,
        ColumnType::Image => "Image"@,
        ColumnType::NText => "NText"@,
        ColumnType::SSVariant => "SSVariant"@,
    }
}

impl ColumnType {
    /// The wire type's textual name.
    pub fn name(&self) -> (s: String)
        ensures
            s@ == column_type_name(*self),
    {
        match self {
            ColumnType::Null => String::from_str("Null"),
            ColumnType::Bit => String::from_str("Bit"),
            ColumnType::Int1 => String::from_str("Int1"),
            ColumnType::Int2 => String::from_str("Int2"),
            ColumnType::Int4 => String::from_str("Int4"),
            ColumnType::Int8 => String::from_str("Int8"),
            ColumnType::Datetime4 => String::from_str("Datetime4"),
            ColumnType::Float4 => String::from_str("Float4"),
            ColumnType::Float8 => String::from_str("Float8"),
            ColumnType::Money => String::from_str("Money"),
            ColumnType::Datetime => String::from_str("Datetime"),
            ColumnType::Money4 => String::from_str("Money4"),
            ColumnType::Guid => String::from_str("Guid"),
            ColumnType::Intn => String::from_str("Intn"),
            ColumnType::Bitn => String::from_str("Bitn"),
            ColumnType::Decimaln => String::from_str("Decimaln"),
            ColumnType::Numericn => String::from_str("Numericn"),
            ColumnType::Floatn => String::from_str("Floatn"),
            ColumnType::Datetimen => String::from_str("Datetimen"),
            ColumnType::Daten => String::from_str("Daten"),
            ColumnType::Timen => String::from_str("Timen"),
            ColumnType::Datetime2 => String::from_str("Datetime2"),
            ColumnType::DatetimeOffsetn => String::from_str("DatetimeOffsetn"),
            ColumnType::BigVarBin => String::from_str("BigVarBin"),
            ColumnType::BigVarChar => String::from_str("BigVarChar"),
            ColumnType::BigBinary => String::from_str("BigBinary"),
            ColumnType::BigChar => String::from_str("BigChar"),
            ColumnType::NVarchar => String::from_str("NVarchar"),
            ColumnType::NChar => String::from_str("NChar"),
            ColumnType::Xml => String::from_str("Xml"),
            ColumnType::Udt => String::from_str("Udt"),
            ColumnType::Text => String::from_str("Text"),
            ColumnType::Image => String::from_str("Image"),
            ColumnType::NText => String::from_str("NText"),
            ColumnType::SSVariant => String::from_str("SSVariant"),
        }
    }
}

/// A calendar date on the wire: days since 0001-01-01, stored in three bytes.
#[derive(Clone, Copy, Debug, PartialEq, Eq, Structural)]
pub struct SqlDate {
    pub days: u32,
}

/// A time of day on the wire: `increments` units of 10^-`scale` seconds since
/// midnight.
#[derive(Clone, Copy, Debug, PartialEq, Eq, Structural)]
pub struct SqlTime {
    pub increments: u64,
    pub scale: u8,
}

/// A `datetime2` on the wire: a date and a time of day.
#[derive(Clone, Copy, Debug, PartialEq, Eq, Structural)]
pub struct SqlDateTime2 {
    pub date: SqlDate,
    pub time: SqlTime,
}

/// A legacy `datetime` on the wire: days since 1900-01-01 and 1/300-second
/// fragments since midnight.
#[derive(Clone, Copy, Debug, PartialEq, Eq, Structural)]
pub struct SqlDateTime {
    pub days: i32,
    pub seconds_fragments: u32,
}

/// An exact fixed-point number: `value` scaled down by 10^`scale`.
#[derive(Clone, Copy, Debug, PartialEq, Eq, Structural)]
pub struct SqlNumeric {
    pub value: i128,
    pub scale: u8,
}

/// One cell of a resolved row, typed for the destination wire protocol.
#[derive(Clone, Debug, PartialEq)]
pub enum CellValue {
    U8(Option<u8>),
    I16(Option<i16>),
    I32(Option<i32>),
    I64(Option<i64>),
    /// A 32-bit float, carried as its IEEE 754 bit pattern.
    F32Bits(Option<u32>),
    /// A 64-bit float, carried as its IEEE 754 bit pattern.
    F64Bits(Option<u64>),
    Bit(Option<bool>),
    Text(Option<String>),
    Binary(Option<Vec<u8>>),
    Numeric(Option<SqlNumeric>),
    DateTime(Option<SqlDateTime>),
    Time(Option<SqlTime>),
    Date(Option<SqlDate>),
    DateTime2(Option<SqlDateTime2>),
}

/// The mathematical value of a cell: text and binary payloads are sequences,
/// everything else is already plain data.
pub enum CellV {
    U8(Option<u8>),
    I16(Option<i16>),
    I32(Option<i32>),
    I64(Option<i64>),
    F32Bits(Option<u32>),
    F64Bits(Option<u64>),
    Bit(Option<bool>),
    Text(Option<Seq<char>>),
    Binary(Option<Seq<u8>>),
    Numeric(Option<SqlNumeric>),
    DateTime(Option<SqlDateTime>),
    Time(Option<SqlTime>),
    Date(Option<SqlDate>),
    DateTime2(Option<SqlDateTime2>),
}

impl View for CellValue {
    type V = CellV;

    open spec fn view(&self) -> CellV {
        match self {
            CellValue::U8(o) => CellV::U8(*o),
            CellValue::I16(o) => CellV::I16(*o),
            CellValue::I32(o) => CellV::I32(*o),
            CellValue::I64(o) => CellV::I64(*o),
            CellValue::F32Bits(o) => CellV::F32Bits(*o),
            CellValue::F64Bits(o) => CellV::F64Bits(*o),
            CellValue::Bit(o) => CellV::Bit(*o),
            CellValue::Text(o) => CellV::Text(
                match o {
                    Some(s) => Some(s@),
                    None => None,
                },
            ),
            CellValue::Binary(o) => CellV::Binary(
                match o {
                    Some(b) => Some(b@),
                    None => None,
                },
            ),
            CellValue::Numeric(o) => CellV::Numeric(*o),
            CellValue::DateTime(o) => CellV::DateTime(*o),
            CellValue::Time(o) => CellV::Time(*o),
            CellValue::Date(o) => CellV::Date(*o),
            CellValue::DateTime2(o) => CellV::DateTime2(*o),
        }
    }
}

/// One resolved row: one wire-typed cell per schema entry, in schema order.
#[derive(Clone, Debug, PartialEq)]
pub struct TokenRow {
    pub data: Vec<CellValue>,
}

impl View for TokenRow {
    type V = Seq<CellV>;

    open spec fn view(&self) -> Seq<CellV> {
        self.data@.map_values(|c: CellValue| c@)
    }
}

impl TokenRow {
    /// An empty row.
    pub fn new() -> (r: TokenRow)
        ensures
            r@ == Seq::<CellV>::empty(),
    {
        let r = TokenRow { data: Vec::new() };
        proof {
            assert(r@ =~= Seq::<CellV>::empty());
        }
        r
    }

    /// Appends one cell at the end of the row.
    pub fn push(&mut self, cell: CellValue)
        ensures
            final(self)@ == old(self)@.push(cell@),
    {
        let ghost before: Seq<CellV> = self@;
        let ghost cv: CellV = cell@;
        self.data.push(cell);
        proof {
            assert(self@ =~= before.push(cv));
        }
    }

    /// The number of cells in the row.
    pub fn len(&self) -> (n: usize)
        ensures
            n == self@.len(),
    {
        self.data.len()
    }
}

} // verus!
