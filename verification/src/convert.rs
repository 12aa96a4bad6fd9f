//! The type-conversion engine: one columnar batch plus the resolved
//! destination schema in, one wire-typed row per batch row out.
//!
//! For each schema entry, in schema order, the engine finds the batch column
//! of that name. A missing column degrades to a text null in every row. An
//! existing column is converted cell by cell, dispatching on the pair of its
//! element type and the destination wire type; source null bits are kept
//! exactly. A pairing with no rule fails the whole conversion, naming both
//! types.

use vstd::prelude::*;
use vstd::arithmetic::div_mod::lemma_div_is_ordered;
use vstd::arithmetic::div_mod::lemma_mod_bound;
use crate::batch::Batch;
use crate::batch::Column;
use crate::batch::DAYS_1900_TO_UNIX_EPOCH;
use crate::batch::DAYS_CE_TO_UNIX_EPOCH;
use crate::batch::MAX_TIMESTAMP_MS;
use crate::batch::MAX_TIMESTAMP_US;
use crate::batch::MS_PER_DAY;
use crate::batch::NS_PER_DAY;
use crate::batch::US_PER_DAY;
use crate::batch::column_len;
use crate::batch::column_values_in_range;
use crate::batch::column_index_by_name;
use crate::error::LakeApi2SqlError;
use crate::floatbits::MAX_DECIMAL_MANTISSA;
use crate::floatbits::MAX_DECIMAL_SCALE;
use crate::floatbits::decimal_to_f64_bits;
use crate::floatbits::f16_widen_spec;
use crate::floatbits::f16_widen_to_f32_bits;
use crate::floatbits::f64_bits_of_decimal;
use crate::floatbits::f64_bits_to_i32;
use crate::floatbits::f64_bits_to_i32_spec;
use crate::types::CellV;
use crate::types::CellValue;
use crate::types::ColumnType;
use crate::types::SqlDate;
use crate::types::SqlDateTime;
use crate::types::SqlDateTime2;
use crate::types::SqlNumeric;
use crate::types::SqlTime;
use crate::types::TokenRow;

verus! {

/// The wrapping reinterpretation of a signed byte as an unsigned one.
pub open spec fn i8_as_u8(v: i8) -> u8 {
    if v >= 0 {
        v as u8
    } else {
        (v + 256) as u8
    }
}

/// The wrapping reinterpretation of an unsigned 64-bit integer as a signed
/// one.
pub open spec fn u64_as_i64(v: u64) -> i64 {
    if v < 0x8000000000000000 {
        v as i64
    } else {
        (v - 0x10000000000000000) as i64
    }
}

/// The instant `ms` milliseconds after the Unix epoch, on the wire: a day
/// count since 0001-01-01 and 100 ns increments since midnight.
pub open spec fn instant_of_ms(ms: i64) -> SqlDateTime2 {
    SqlDateTime2 {
        date: SqlDate { days: (DAYS_CE_TO_UNIX_EPOCH + ms / MS_PER_DAY) as u32 },
        time: SqlTime { increments: ((ms % MS_PER_DAY) * 10000) as u64, scale: 7 },
    }
}

/// The instant `us` microseconds after the Unix epoch, on the wire.
pub open spec fn instant_of_us(us: i64) -> SqlDateTime2 {
    SqlDateTime2 {
        date: SqlDate { days: (DAYS_CE_TO_UNIX_EPOCH + us / US_PER_DAY) as u32 },
        time: SqlTime { increments: ((us % US_PER_DAY) * 10) as u64, scale: 7 },
    }
}

/// The instant `ns` nanoseconds after the Unix epoch, on the wire. The
/// 100 ns resolution of the wire format truncates the last two digits.
pub open spec fn instant_of_ns(ns: i64) -> SqlDateTime2 {
    SqlDateTime2 {
        date: SqlDate { days: (DAYS_CE_TO_UNIX_EPOCH + ns / NS_PER_DAY) as u32 },
        time: SqlTime { increments: ((ns % NS_PER_DAY) / 100) as u64, scale: 7 },
    }
}

/// Whether the destination declares a character type, for which the
/// untyped null becomes a text null.
pub open spec fn is_character_dest(d: ColumnType) -> bool {
    ||| d == ColumnType::BigVarChar
    ||| d == ColumnType::Text
    ||| d == ColumnType::NVarchar
    ||| d == ColumnType::NChar
    ||| d == ColumnType::BigChar
    ||| d == ColumnType::NText
}

/// Whether the destination declares a legacy datetime type, for which the
/// untyped null becomes a datetime null.
pub open spec fn is_datetime_dest(d: ColumnType) -> bool {
    ||| d == ColumnType::Datetime
    ||| d == ColumnType::Datetimen
    ||| d == ColumnType::Datetime4
}

/// The correctly-typed null for a destination column: a text null for
/// character destinations, a datetime null for datetime destinations, a bit
/// null for bit destinations, an integer null otherwise.
pub open spec fn null_cell_of(d: ColumnType) -> CellV {
    if is_character_dest(d) {
        CellV::Text(None)
    } else if is_datetime_dest(d) {
        CellV::DateTime(None)
    } else if d == ColumnType::Bit || d == ColumnType::Bitn {
        CellV::Bit(None)
    } else {
        CellV::I32(None)
    }
}

/// Whether a conversion rule exists from the column's element type to the
/// destination wire type.
pub open spec fn supported_pair(col: Column, dest: ColumnType) -> bool {
    match col {
        Column::Boolean(_) => dest == ColumnType::Bit || dest == ColumnType::Bitn,
        Column::Int32(_) => dest == ColumnType::Int4 || dest == ColumnType::Intn,
        Column::Decimal128 { .. } => dest == ColumnType::Numericn || dest == ColumnType::Decimaln
            || dest == ColumnType::Floatn,
        Column::Unsupported { .. } => false,
        _ => true,
    }
}

/// The cell produced for row `r` of a column converted against destination
/// type `dest`, assuming the pairing is supported and `r` is in range.
pub open spec fn cell_of(col: Column, dest: ColumnType, r: int) -> CellV {
    match col {
        Column::Boolean(v) => CellV::Bit(v[r]),
        Column::Int8(v) => if dest == ColumnType::Int2 {
            CellV::I16(
                match v[r] {
                    Some(x) => Some(x as i16),
                    None => None,
                },
            )
        } else {
            CellV::U8(
                match v[r] {
                    Some(x) => Some(i8_as_u8(x)),
                    None => None,
                },
            )
        },
        Column::Int16(v) => CellV::I16(v[r]),
        Column::Int32(v) => CellV::I32(v[r]),
        Column::Int64(v) => CellV::I64(v[r]),
        Column::UInt8(v) => if dest == ColumnType::Int2 {
            CellV::I16(
                match v[r] {
                    Some(x) => Some(x as i16),
                    None => None,
                },
            )
        } else {
            CellV::U8(v[r])
        },
        Column::UInt16(v) => CellV::I32(
            match v[r] {
                Some(x) => Some(x as i32),
                None => None,
            },
        ),
        Column::UInt32(v) => CellV::I64(
            match v[r] {
                Some(x) => Some(x as i64),
                None => None,
            },
        ),
        Column::UInt64(v) => CellV::I64(
            match v[r] {
                Some(x) => Some(u64_as_i64(x)),
                None => None,
            },
        ),
        Column::Float16(v) => CellV::F32Bits(
            match v[r] {
                Some(x) => Some(f16_widen_spec(x)),
                None => None,
            },
        ),
        Column::Float32(v) => CellV::F32Bits(v[r]),
        Column::Float64(v) => if dest == ColumnType::Int4 || dest == ColumnType::Intn {
            CellV::I32(
                match v[r] {
                    Some(x) => Some(f64_bits_to_i32_spec(x)),
                    None => None,
                },
            )
        } else {
            CellV::F64Bits(v[r])
        },
        Column::Utf8(v) => CellV::Text(
            match v[r] {
                Some(s) => Some(s@),
                None => None,
            },
        ),
        Column::LargeUtf8(v) => CellV::Text(
            match v[r] {
                Some(s) => Some(s@),
                None => None,
            },
        ),
        Column::Binary(v) => CellV::Binary(
            match v[r] {
                Some(b) => Some(b@),
                None => None,
            },
        ),
        Column::LargeBinary(v) => CellV::Binary(
            match v[r] {
                Some(b) => Some(b@),
                None => None,
            },
        ),
        Column::FixedSizeBinary(v) => CellV::Binary(
            match v[r] {
                Some(b) => Some(b@),
                None => None,
            },
        ),
        Column::TimestampMillisecond(v) => CellV::DateTime2(
            match v[r] {
                Some(ms) => if ms < 0 {
                    None
                } else {
                    Some(instant_of_ms(ms))
                },
                None => None,
            },
        ),
        Column::TimestampMicrosecond(v) => CellV::DateTime2(
            match v[r] {
                Some(us) => if us < 0 {
                    None
                } else {
                    Some(instant_of_us(us))
                },
                None => None,
            },
        ),
        Column::TimestampNanosecond(v) => CellV::DateTime2(
            match v[r] {
                Some(ns) => if ns < 0 {
                    None
                } else {
                    Some(instant_of_ns(ns))
                },
                None => None,
            },
        ),
        Column::Date32(v) => if is_datetime_dest(dest) && dest != ColumnType::Datetime4 {
            CellV::DateTime(
                match v[r] {
                    Some(d) => Some(
                        SqlDateTime {
                            days: (DAYS_1900_TO_UNIX_EPOCH + d) as i32,
                            seconds_fragments: 0,
                        },
                    ),
                    None => None,
                },
            )
        } else {
            CellV::Date(
                match v[r] {
                    Some(d) => Some(SqlDate { days: (DAYS_CE_TO_UNIX_EPOCH + d) as u32 }),
                    None => None,
                },
            )
        },
        Column::Date64(v) => CellV::Date(
            match v[r] {
                Some(d) => Some(SqlDate { days: (DAYS_CE_TO_UNIX_EPOCH + d) as u32 }),
                None => None,
            },
        ),
        Column::Time32Second(v) => CellV::Time(
            match v[r] {
                Some(s) => if s < 0 {
                    None
                } else {
                    Some(SqlTime { increments: (s * 10000000) as u64, scale: 7 })
                },
                None => None,
            },
        ),
        Column::Time32Millisecond(v) => CellV::Time(
            match v[r] {
                Some(ms) => if ms < 0 {
                    None
                } else {
                    Some(SqlTime { increments: (ms * 10000) as u64, scale: 7 })
                },
                None => None,
            },
        ),
        Column::Decimal128 { scale, values } => if dest == ColumnType::Floatn {
            CellV::F64Bits(
                match values[r] {
                    Some(m) => Some(f64_bits_of_decimal(m, scale as u32)),
                    None => None,
                },
            )
        } else {
            CellV::Numeric(
                match values[r] {
                    Some(m) => Some(SqlNumeric { value: m, scale }),
                    None => None,
                },
            )
        },
        Column::Null => null_cell_of(dest),
        Column::Unsupported { .. } => CellV::Text(None),
    }
}

/// The textual name of a column's element type, as the error that names an
/// unsupported pairing reports it.
pub open spec fn kind_name_spec(col: Column) -> Seq<char> {
    match col {
        Column::Boolean(_) => "Boolean"@,
        Column::Int8(_) => "Int8"@,
        Column::Int16(_) => "Int16"@,
        Column::Int32(_) => "Int32"@,
        Column::Int64(_) => "Int64"@,
        Column::UInt8(_) => "UInt8"@,
        Column::UInt16(_) => "UInt16"@,
        Column::UInt32(_) => "UInt32"@,
        Column::UInt64(_) => "UInt64"@,
        Column::Float16(_) => "Float16"@,
        Column::Float32(_) => "Float32"@,
        Column::Float64(_) => "Float64"@,
        Column::Utf8(_) => "Utf8"@,
        Column::LargeUtf8(_) => "LargeUtf8"@,
        Column::Binary(_) => "Binary"@,
        Column::LargeBinary(_) => "LargeBinary"@,
        Column::FixedSizeBinary(_) => "FixedSizeBinary"@,
        Column::TimestampMillisecond(_) => "Timestamp(Millisecond)"@,
        Column::TimestampMicrosecond(_) => "Timestamp(Microsecond)"@,
        Column::TimestampNanosecond(_) => "Timestamp(Nanosecond)"@,
        Column::Date32(_) => "Date32"@,
        Column::Date64(_) => "Date64"@,
        Column::Time32Second(_) => "Time32(Second)"@,
        Column::Time32Millisecond(_) => "Time32(Millisecond)"@,
        Column::Decimal128 { .. } => "Decimal128"@,
        Column::Null => "Null"@,
        Column::Unsupported { kind_name } => kind_name@,
    }
}

/// Whether a decimal column stays inside the domain of the decimal-to-float
/// rescale when the destination asks for it. Other pairings need nothing.
pub open spec fn decimal_ok(col: Column, dest: ColumnType) -> bool {
    match col {
        Column::Decimal128 { scale, values } => dest == ColumnType::Floatn ==> {
            &&& scale <= MAX_DECIMAL_SCALE
            &&& forall|i: int|
                0 <= i < values@.len() ==> (#[trigger] values[i] matches Some(m)
                    ==> -MAX_DECIMAL_MANTISSA <= m <= MAX_DECIMAL_MANTISSA)
        },
        _ => true,
    }
}

/// Whether the schema entry `e` resolves to a column whose pairing with the
/// entry's destination type has no conversion rule.
pub open spec fn entry_unsupported(b: Batch, e: (String, ColumnType)) -> bool {
    match b.index_of(e.0@) {
        Some(ci) => !supported_pair(b.columns[ci].data, e.1),
        None => false,
    }
}

/// The first schema position at or after `j` whose pairing has no rule.
pub open spec fn first_unsupported_from(b: Batch, schema: Seq<(String, ColumnType)>, j: int) -> Option<
    int,
>
    decreases schema.len() - j,
{
    if j < 0 || j >= schema.len() {
        None
    } else if entry_unsupported(b, schema[j]) {
        Some(j)
    } else {
        first_unsupported_from(b, schema, j + 1)
    }
}

/// The first schema position whose pairing has no rule, if any: exactly
/// there the conversion fails.
pub open spec fn first_unsupported(b: Batch, schema: Seq<(String, ColumnType)>) -> Option<int> {
    first_unsupported_from(b, schema, 0)
}

/// Every decimal column that a schema entry sends to a float destination
/// stays inside the rescale's domain.
pub open spec fn decimals_in_range(b: Batch, schema: Seq<(String, ColumnType)>) -> bool {
    forall|j: int|
        0 <= j < schema.len() ==> match b.index_of((#[trigger] schema[j]).0@) {
            Some(ci) => decimal_ok(b.columns[ci].data, schema[j].1),
            None => true,
        }
}

/// The cell that row `r` of the converted batch holds for schema entry `e`:
/// a text null where the batch has no column of that name, the converted
/// source cell otherwise.
pub open spec fn converted_cell(b: Batch, e: (String, ColumnType), r: int) -> CellV {
    match b.index_of(e.0@) {
        Some(ci) => cell_of(b.columns[ci].data, e.1, r),
        None => CellV::Text(None),
    }
}

/// Whether `rows` is exactly the conversion of `b` against `schema`: one
/// row per batch row, one cell per schema entry in schema order, each cell
/// as `converted_cell` states it.
pub open spec fn is_converted_rows(b: Batch, schema: Seq<(String, ColumnType)>, rows: Seq<TokenRow>) -> bool {
    &&& rows.len() == b.num_rows
    &&& forall|i: int| 0 <= i < rows.len() ==> (#[trigger] rows[i])@.len() == schema.len()
    &&& forall|i: int, j: int|
        0 <= i < rows.len() && 0 <= j < schema.len() ==> rows[i]@[j] == converted_cell(
            b,
            schema[j],
            i,
        )
}

/// The textual name of the column's element type, for error reporting.
fn kind_name_of(col: &Column) -> (s: String)
    ensures
        s@ == kind_name_spec(*col),
{
    match col {
        Column::Boolean(_) => String::from_str("Boolean"),
        Column::Int8(_) => String::from_str("Int8"),
        Column::Int16(_) => String::from_str("Int16"),
        Column::Int32(_) => String::from_str("Int32"),
        Column::Int64(_) => String::from_str("Int64"),
        Column::UInt8(_) => String::from_str("UInt8"),
        Column::UInt16(_) => String::from_str("UInt16"),
        Column::UInt32(_) => String::from_str("UInt32"),
        Column::UInt64(_) => String::from_str("UInt64"),
        Column::Float16(_) => String::from_str("Float16"),
        Column::Float32(_) => String::from_str("Float32"),
        Column::Float64(_) => String::from_str("Float64"),
        Column::Utf8(_) => String::from_str("Utf8"),
        Column::LargeUtf8(_) => String::from_str("LargeUtf8"),
        Column::Binary(_) => String::from_str("Binary"),
        Column::LargeBinary(_) => String::from_str("LargeBinary"),
        Column::FixedSizeBinary(_) => String::from_str("FixedSizeBinary"),
        Column::TimestampMillisecond(_) => String::from_str("Timestamp(Millisecond)"),
        Column::TimestampMicrosecond(_) => String::from_str("Timestamp(Microsecond)"),
        Column::TimestampNanosecond(_) => String::from_str("Timestamp(Nanosecond)"),
        Column::Date32(_) => String::from_str("Date32"),
        Column::Date64(_) => String::from_str("Date64"),
        Column::Time32Second(_) => String::from_str("Time32(Second)"),
        Column::Time32Millisecond(_) => String::from_str("Time32(Millisecond)"),
        Column::Decimal128 { .. } => String::from_str("Decimal128"),
        Column::Null => String::from_str("Null"),
        Column::Unsupported { kind_name } => kind_name.clone(),
    }
}

/// An owned copy of a byte payload.
fn clone_bytes(b: &Vec<u8>) -> (r: Vec<u8>)
    ensures
        r@ == b@,
{
    let n = b.len();
    let mut r: Vec<u8> = Vec::new();
    let mut i: usize = 0;
    while i < n
        invariant
            i <= n,
            n == b@.len(),
            r@ == b@.subrange(0, i as int),
        decreases n - i,
    {
        r.push(b[i]);
        proof {
            assert(r@ =~= b@.subrange(0, i + 1));
        }
        i = i + 1;
    }
    proof {
        assert(r@ =~= b@);
    }
    r
}

fn conv_bool(v: &Vec<Option<bool>>) -> (cells: Vec<CellValue>)
    ensures
        cells@.len() == v@.len(),
        forall|k: int| 0 <= k < v@.len() ==> (#[trigger] cells@[k])@ == CellV::Bit(v[k]),
{
    let n = v.len();
    let mut cells: Vec<CellValue> = Vec::new();
    let mut i: usize = 0;
    while i < n
        invariant
            i <= n,
            n == v@.len(),
            cells@.len() == i,
            forall|k: int| 0 <= k < i ==> (#[trigger] cells@[k])@ == CellV::Bit(v[k]),
        decreases n - i,
    {
        cells.push(CellValue::Bit(v[i]));
        i = i + 1;
    }
    cells
}

fn conv_i16(v: &Vec<Option<i16>>) -> (cells: Vec<CellValue>)
    ensures
        cells@.len() == v@.len(),
        forall|k: int| 0 <= k < v@.len() ==> (#[trigger] cells@[k])@ == CellV::I16(v[k]),
{
    let n = v.len();
    let mut cells: Vec<CellValue> = Vec::new();
    let mut i: usize = 0;
    while i < n
        invariant
            i <= n,
            n == v@.len(),
            cells@.len() == i,
            forall|k: int| 0 <= k < i ==> (#[trigger] cells@[k])@ == CellV::I16(v[k]),
        decreases n - i,
    {
        cells.push(CellValue::I16(v[i]));
        i = i + 1;
    }
    cells
}

fn conv_i32(v: &Vec<Option<i32>>) -> (cells: Vec<CellValue>)
    ensures
        cells@.len() == v@.len(),
        forall|k: int| 0 <= k < v@.len() ==> (#[trigger] cells@[k])@ == CellV::I32(v[k]),
{
    let n = v.len();
    let mut cells: Vec<CellValue> = Vec::new();
    let mut i: usize = 0;
    while i < n
        invariant
            i <= n,
            n == v@.len(),
            cells@.len() == i,
            forall|k: int| 0 <= k < i ==> (#[trigger] cells@[k])@ == CellV::I32(v[k]),
        decreases n - i,
    {
        cells.push(CellValue::I32(v[i]));
        i = i + 1;
    }
    cells
}

fn conv_i64(v: &Vec<Option<i64>>) -> (cells: Vec<CellValue>)
    ensures
        cells@.len() == v@.len(),
        forall|k: int| 0 <= k < v@.len() ==> (#[trigger] cells@[k])@ == CellV::I64(v[k]),
{
    let n = v.len();
    let mut cells: Vec<CellValue> = Vec::new();
    let mut i: usize = 0;
    while i < n
        invariant
            i <= n,
            n == v@.len(),
            cells@.len() == i,
            forall|k: int| 0 <= k < i ==> (#[trigger] cells@[k])@ == CellV::I64(v[k]),
        decreases n - i,
    {
        cells.push(CellValue::I64(v[i]));
        i = i + 1;
    }
    cells
}

/// Unsigned bytes widen to 16-bit values where the destination asks for
/// signed 16-bit ones, and pass through as the destination's unsigned
/// bytes otherwise.
fn conv_u8(v: &Vec<Option<u8>>, widen: bool) -> (cells: Vec<CellValue>)
    ensures
        cells@.len() == v@.len(),
        forall|k: int|
            0 <= k < v@.len() ==> (#[trigger] cells@[k])@ == if widen {
                CellV::I16(
                    match v[k] {
                        Some(x) => Some(x as i16),
                        None => None,
                    },
                )
            } else {
                CellV::U8(v[k])
            },
{
    let n = v.len();
    let mut cells: Vec<CellValue> = Vec::new();
    let mut i: usize = 0;
    while i < n
        invariant
            i <= n,
            n == v@.len(),
            cells@.len() == i,
            forall|k: int|
                0 <= k < i ==> (#[trigger] cells@[k])@ == if widen {
                    CellV::I16(
                        match v[k] {
                            Some(x) => Some(x as i16),
                            None => None,
                        },
                    )
                } else {
                    CellV::U8(v[k])
                },
        decreases n - i,
    {
        let cell = if widen {
            CellValue::I16(
                match v[i] {
                    Some(x) => Some(x as i16),
                    None => None,
                },
            )
        } else {
            CellValue::U8(v[i])
        };
        cells.push(cell);
        i = i + 1;
    }
    cells
}

/// Signed bytes either widen to 16-bit values, where the destination asks
/// for them, or are reinterpreted as the destination's unsigned bytes.
fn conv_i8(v: &Vec<Option<i8>>, widen: bool) -> (cells: Vec<CellValue>)
    ensures
        cells@.len() == v@.len(),
        forall|k: int|
            0 <= k < v@.len() ==> (#[trigger] cells@[k])@ == if widen {
                CellV::I16(
                    match v[k] {
                        Some(x) => Some(x as i16),
                        None => None,
                    },
                )
            } else {
                CellV::U8(
                    match v[k] {
                        Some(x) => Some(i8_as_u8(x)),
                        None => None,
                    },
                )
            },
{
    let n = v.len();
    let mut cells: Vec<CellValue> = Vec::new();
    let mut i: usize = 0;
    while i < n
        invariant
            i <= n,
            n == v@.len(),
            cells@.len() == i,
            forall|k: int|
                0 <= k < i ==> (#[trigger] cells@[k])@ == if widen {
                    CellV::I16(
                        match v[k] {
                            Some(x) => Some(x as i16),
                            None => None,
                        },
                    )
                } else {
                    CellV::U8(
                        match v[k] {
                            Some(x) => Some(i8_as_u8(x)),
                            None => None,
                        },
                    )
                },
        decreases n - i,
    {
        let cell = if widen {
            CellValue::I16(
                match v[i] {
                    Some(x) => Some(x as i16),
                    None => None,
                },
            )
        } else {
            CellValue::U8(
                match v[i] {
                    Some(x) => Some(
                        if x >= 0 {
                            x as u8
                        } else {
                            ((x as i16) + 256) as u8
                        },
                    ),
                    None => None,
                },
            )
        };
        cells.push(cell);
        i = i + 1;
    }
    cells
}

fn conv_u16(v: &Vec<Option<u16>>) -> (cells: Vec<CellValue>)
    ensures
        cells@.len() == v@.len(),
        forall|k: int|
            0 <= k < v@.len() ==> (#[trigger] cells@[k])@ == CellV::I32(
                match v[k] {
                    Some(x) => Some(x as i32),
                    None => None,
                },
            ),
{
    let n = v.len();
    let mut cells: Vec<CellValue> = Vec::new();
    let mut i: usize = 0;
    while i < n
        invariant
            i <= n,
            n == v@.len(),
            cells@.len() == i,
            forall|k: int|
                0 <= k < i ==> (#[trigger] cells@[k])@ == CellV::I32(
                    match v[k] {
                        Some(x) => Some(x as i32),
                        None => None,
                    },
                ),
        decreases n - i,
    {
        cells.push(
            CellValue::I32(
                match v[i] {
                    Some(x) => Some(x as i32),
                    None => None,
                },
            ),
        );
        i = i + 1;
    }
    cells
}

fn conv_u32(v: &Vec<Option<u32>>) -> (cells: Vec<CellValue>)
    ensures
        cells@.len() == v@.len(),
        forall|k: int|
            0 <= k < v@.len() ==> (#[trigger] cells@[k])@ == CellV::I64(
                match v[k] {
                    Some(x) => Some(x as i64),
                    None => None,
                },
            ),
{
    let n = v.len();
    let mut cells: Vec<CellValue> = Vec::new();
    let mut i: usize = 0;
    while i < n
        invariant
            i <= n,
            n == v@.len(),
            cells@.len() == i,
            forall|k: int|
                0 <= k < i ==> (#[trigger] cells@[k])@ == CellV::I64(
                    match v[k] {
                        Some(x) => Some(x as i64),
                        None => None,
                    },
                ),
        decreases n - i,
    {
        cells.push(
            CellValue::I64(
                match v[i] {
                    Some(x) => Some(x as i64),
                    None => None,
                },
            ),
        );
        i = i + 1;
    }
    cells
}

fn conv_u64(v: &Vec<Option<u64>>) -> (cells: Vec<CellValue>)
    ensures
        cells@.len() == v@.len(),
        forall|k: int|
            0 <= k < v@.len() ==> (#[trigger] cells@[k])@ == CellV::I64(
                match v[k] {
                    Some(x) => Some(u64_as_i64(x)),
                    None => None,
                },
            ),
{
    let n = v.len();
    let mut cells: Vec<CellValue> = Vec::new();
    let mut i: usize = 0;
    while i < n
        invariant
            i <= n,
            n == v@.len(),
            cells@.len() == i,
            forall|k: int|
                0 <= k < i ==> (#[trigger] cells@[k])@ == CellV::I64(
                    match v[k] {
                        Some(x) => Some(u64_as_i64(x)),
                        None => None,
                    },
                ),
        decreases n - i,
    {
        let cell = match v[i] {
            Some(x) => {
                let w: i64 = if x < 0x8000000000000000 {
                    x as i64
                } else {
                    let m: u64 = u64::MAX - x;
                    -(m as i64) - 1
                };
                CellValue::I64(Some(w))
            },
            None => CellValue::I64(None),
        };
        cells.push(cell);
        i = i + 1;
    }
    cells
}

fn conv_f16(v: &Vec<Option<u16>>) -> (cells: Vec<CellValue>)
    ensures
        cells@.len() == v@.len(),
        forall|k: int|
            0 <= k < v@.len() ==> (#[trigger] cells@[k])@ == CellV::F32Bits(
                match v[k] {
                    Some(x) => Some(f16_widen_spec(x)),
                    None => None,
                },
            ),
{
    let n = v.len();
    let mut cells: Vec<CellValue> = Vec::new();
    let mut i: usize = 0;
    while i < n
        invariant
            i <= n,
            n == v@.len(),
            cells@.len() == i,
            forall|k: int|
                0 <= k < i ==> (#[trigger] cells@[k])@ == CellV::F32Bits(
                    match v[k] {
                        Some(x) => Some(f16_widen_spec(x)),
                        None => None,
                    },
                ),
        decreases n - i,
    {
        let cell = match v[i] {
            Some(x) => CellValue::F32Bits(Some(f16_widen_to_f32_bits(x))),
            None => CellValue::F32Bits(None),
        };
        cells.push(cell);
        i = i + 1;
    }
    cells
}

fn conv_f32(v: &Vec<Option<u32>>) -> (cells: Vec<CellValue>)
    ensures
        cells@.len() == v@.len(),
        forall|k: int| 0 <= k < v@.len() ==> (#[trigger] cells@[k])@ == CellV::F32Bits(v[k]),
{
    let n = v.len();
    let mut cells: Vec<CellValue> = Vec::new();
    let mut i: usize = 0;
    while i < n
        invariant
            i <= n,
            n == v@.len(),
            cells@.len() == i,
            forall|k: int| 0 <= k < i ==> (#[trigger] cells@[k])@ == CellV::F32Bits(v[k]),
        decreases n - i,
    {
        cells.push(CellValue::F32Bits(v[i]));
        i = i + 1;
    }
    cells
}

/// Doubles pass through unchanged, unless the destination declares a 32-bit
/// integer column, in which case the truncating cast applies.
fn conv_f64(v: &Vec<Option<u64>>, to_int: bool) -> (cells: Vec<CellValue>)
    ensures
        cells@.len() == v@.len(),
        forall|k: int|
            0 <= k < v@.len() ==> (#[trigger] cells@[k])@ == if to_int {
                CellV::I32(
                    match v[k] {
                        Some(x) => Some(f64_bits_to_i32_spec(x)),
                        None => None,
                    },
                )
            } else {
                CellV::F64Bits(v[k])
            },
{
    let n = v.len();
    let mut cells: Vec<CellValue> = Vec::new();
    let mut i: usize = 0;
    while i < n
        invariant
            i <= n,
            n == v@.len(),
            cells@.len() == i,
            forall|k: int|
                0 <= k < i ==> (#[trigger] cells@[k])@ == if to_int {
                    CellV::I32(
                        match v[k] {
                            Some(x) => Some(f64_bits_to_i32_spec(x)),
                            None => None,
                        },
                    )
                } else {
                    CellV::F64Bits(v[k])
                },
        decreases n - i,
    {
        let cell = if to_int {
            match v[i] {
                Some(x) => CellValue::I32(Some(f64_bits_to_i32(x))),
                None => CellValue::I32(None),
            }
        } else {
            CellValue::F64Bits(v[i])
        };
        cells.push(cell);
        i = i + 1;
    }
    cells
}

/// Text maps to a variable-length text value; the payload is kept as is.
fn conv_text(v: &Vec<Option<String>>) -> (cells: Vec<CellValue>)
    ensures
        cells@.len() == v@.len(),
        forall|k: int|
            0 <= k < v@.len() ==> (#[trigger] cells@[k])@ == CellV::Text(
                match v[k] {
                    Some(s) => Some(s@),
                    None => None,
                },
            ),
{
    let n = v.len();
    let mut cells: Vec<CellValue> = Vec::new();
    let mut i: usize = 0;
    while i < n
        invariant
            i <= n,
            n == v@.len(),
            cells@.len() == i,
            forall|k: int|
                0 <= k < i ==> (#[trigger] cells@[k])@ == CellV::Text(
                    match v[k] {
                        Some(s) => Some(s@),
                        None => None,
                    },
                ),
        decreases n - i,
    {
        let cell = match &v[i] {
            Some(s) => CellValue::Text(Some(s.clone())),
            None => CellValue::Text(None),
        };
        cells.push(cell);
        i = i + 1;
    }
    cells
}

/// Binary maps to a variable-length binary value; the payload is kept as is.
fn conv_binary(v: &Vec<Option<Vec<u8>>>) -> (cells: Vec<CellValue>)
    ensures
        cells@.len() == v@.len(),
        forall|k: int|
            0 <= k < v@.len() ==> (#[trigger] cells@[k])@ == CellV::Binary(
                match v[k] {
                    Some(b) => Some(b@),
                    None => None,
                },
            ),
{
    let n = v.len();
    let mut cells: Vec<CellValue> = Vec::new();
    let mut i: usize = 0;
    while i < n
        invariant
            i <= n,
            n == v@.len(),
            cells@.len() == i,
            forall|k: int|
                0 <= k < i ==> (#[trigger] cells@[k])@ == CellV::Binary(
                    match v[k] {
                        Some(b) => Some(b@),
                        None => None,
                    },
                ),
        decreases n - i,
    {
        let cell = match &v[i] {
            Some(b) => CellValue::Binary(Some(clone_bytes(b))),
            None => CellValue::Binary(None),
        };
        cells.push(cell);
        i = i + 1;
    }
    cells
}

/// A millisecond count since the Unix epoch becomes an absolute instant; a
/// pre-epoch count becomes a null, because the destination's minimum
/// representable instant is later than the epoch.
fn conv_ts_ms(v: &Vec<Option<i64>>) -> (cells: Vec<CellValue>)
    requires
        forall|i: int|
            0 <= i < v@.len() ==> (#[trigger] v[i] matches Some(ms) ==> ms < MAX_TIMESTAMP_MS),
    ensures
        cells@.len() == v@.len(),
        forall|k: int|
            0 <= k < v@.len() ==> (#[trigger] cells@[k])@ == CellV::DateTime2(
                match v[k] {
                    Some(ms) => if ms < 0 {
                        None
                    } else {
                        Some(instant_of_ms(ms))
                    },
                    None => None,
                },
            ),
{
    let n = v.len();
    let mut cells: Vec<CellValue> = Vec::new();
    let mut i: usize = 0;
    while i < n
        invariant
            i <= n,
            n == v@.len(),
            cells@.len() == i,
            forall|t: int|
                0 <= t < v@.len() ==> (#[trigger] v[t] matches Some(ms) ==> ms < MAX_TIMESTAMP_MS),
            forall|k: int|
                0 <= k < i ==> (#[trigger] cells@[k])@ == CellV::DateTime2(
                    match v[k] {
                        Some(ms) => if ms < 0 {
                            None
                        } else {
                            Some(instant_of_ms(ms))
                        },
                        None => None,
                    },
                ),
        decreases n - i,
    {
        let cell = match v[i] {
            Some(ms) => if ms < 0 {
                CellValue::DateTime2(None)
            } else {
                proof {
                    lemma_div_is_ordered(ms as int, (MAX_TIMESTAMP_MS - 1) as int, MS_PER_DAY as int);
                    lemma_mod_bound(ms as int, MS_PER_DAY as int);
                }
                let days: i64 = DAYS_CE_TO_UNIX_EPOCH as i64 + ms / MS_PER_DAY;
                let rem: i64 = ms % MS_PER_DAY;
                CellValue::DateTime2(
                    Some(
                        SqlDateTime2 {
                            date: SqlDate { days: days as u32 },
                            time: SqlTime { increments: (rem * 10000) as u64, scale: 7 },
                        },
                    ),
                )
            },
            None => CellValue::DateTime2(None),
        };
        cells.push(cell);
        i = i + 1;
    }
    cells
}

/// A microsecond count since the Unix epoch becomes an absolute instant; a
/// pre-epoch count becomes a null.
fn conv_ts_us(v: &Vec<Option<i64>>) -> (cells: Vec<CellValue>)
    requires
        forall|i: int|
            0 <= i < v@.len() ==> (#[trigger] v[i] matches Some(us) ==> us < MAX_TIMESTAMP_US),
    ensures
        cells@.len() == v@.len(),
        forall|k: int|
            0 <= k < v@.len() ==> (#[trigger] cells@[k])@ == CellV::DateTime2(
                match v[k] {
                    Some(us) => if us < 0 {
                        None
                    } else {
                        Some(instant_of_us(us))
                    },
                    None => None,
                },
            ),
{
    let n = v.len();
    let mut cells: Vec<CellValue> = Vec::new();
    let mut i: usize = 0;
    while i < n
        invariant
            i <= n,
            n == v@.len(),
            cells@.len() == i,
            forall|t: int|
                0 <= t < v@.len() ==> (#[trigger] v[t] matches Some(us) ==> us < MAX_TIMESTAMP_US),
            forall|k: int|
                0 <= k < i ==> (#[trigger] cells@[k])@ == CellV::DateTime2(
                    match v[k] {
                        Some(us) => if us < 0 {
                            None
                        } else {
                            Some(instant_of_us(us))
                        },
                        None => None,
                    },
                ),
        decreases n - i,
    {
        let cell = match v[i] {
            Some(us) => if us < 0 {
                CellValue::DateTime2(None)
            } else {
                proof {
                    lemma_div_is_ordered(us as int, (MAX_TIMESTAMP_US - 1) as int, US_PER_DAY as int);
                    lemma_mod_bound(us as int, US_PER_DAY as int);
                }
                let days: i64 = DAYS_CE_TO_UNIX_EPOCH as i64 + us / US_PER_DAY;
                let rem: i64 = us % US_PER_DAY;
                CellValue::DateTime2(
                    Some(
                        SqlDateTime2 {
                            date: SqlDate { days: days as u32 },
                            time: SqlTime { increments: (rem * 10) as u64, scale: 7 },
                        },
                    ),
                )
            },
            None => CellValue::DateTime2(None),
        };
        cells.push(cell);
        i = i + 1;
    }
    cells
}

/// A nanosecond count since the Unix epoch becomes an absolute instant at
/// the wire's 100 ns resolution; a pre-epoch count becomes a null.
fn conv_ts_ns(v: &Vec<Option<i64>>) -> (cells: Vec<CellValue>)
    ensures
        cells@.len() == v@.len(),
        forall|k: int|
            0 <= k < v@.len() ==> (#[trigger] cells@[k])@ == CellV::DateTime2(
                match v[k] {
                    Some(ns) => if ns < 0 {
                        None
                    } else {
                        Some(instant_of_ns(ns))
                    },
                    None => None,
                },
            ),
{
    let n = v.len();
    let mut cells: Vec<CellValue> = Vec::new();
    let mut i: usize = 0;
    while i < n
        invariant
            i <= n,
            n == v@.len(),
            cells@.len() == i,
            forall|k: int|
                0 <= k < i ==> (#[trigger] cells@[k])@ == CellV::DateTime2(
                    match v[k] {
                        Some(ns) => if ns < 0 {
                            None
                        } else {
                            Some(instant_of_ns(ns))
                        },
                        None => None,
                    },
                ),
        decreases n - i,
    {
        let cell = match v[i] {
            Some(ns) => if ns < 0 {
                CellValue::DateTime2(None)
            } else {
                proof {
                    lemma_div_is_ordered(ns as int, i64::MAX as int, NS_PER_DAY as int);
                    lemma_mod_bound(ns as int, NS_PER_DAY as int);
                }
                let days: i64 = DAYS_CE_TO_UNIX_EPOCH as i64 + ns / NS_PER_DAY;
                let rem: i64 = ns % NS_PER_DAY;
                CellValue::DateTime2(
                    Some(
                        SqlDateTime2 {
                            date: SqlDate { days: days as u32 },
                            time: SqlTime { increments: (rem / 100) as u64, scale: 7 },
                        },
                    ),
                )
            },
            None => CellValue::DateTime2(None),
        };
        cells.push(cell);
        i = i + 1;
    }
    cells
}

/// A day count since the Unix epoch is re-based: against a legacy datetime
/// destination onto the 1900-01-01 epoch, otherwise onto the year-one epoch
/// of the wire's `date` type.
fn conv_date32(v: &Vec<Option<i32>>, as_datetime: bool) -> (cells: Vec<CellValue>)
    requires
        forall|i: int|
            0 <= i < v@.len() ==> (#[trigger] v[i] matches Some(d) ==> -(DAYS_CE_TO_UNIX_EPOCH as int)
                <= d <= 0xFFFFFF - DAYS_CE_TO_UNIX_EPOCH),
    ensures
        cells@.len() == v@.len(),
        forall|k: int|
            0 <= k < v@.len() ==> (#[trigger] cells@[k])@ == if as_datetime {
                CellV::DateTime(
                    match v[k] {
                        Some(d) => Some(
                            SqlDateTime {
                                days: (DAYS_1900_TO_UNIX_EPOCH + d) as i32,
                                seconds_fragments: 0,
                            },
                        ),
                        None => None,
                    },
                )
            } else {
                CellV::Date(
                    match v[k] {
                        Some(d) => Some(SqlDate { days: (DAYS_CE_TO_UNIX_EPOCH + d) as u32 }),
                        None => None,
                    },
                )
            },
{
    let n = v.len();
    let mut cells: Vec<CellValue> = Vec::new();
    let mut i: usize = 0;
    while i < n
        invariant
            i <= n,
            n == v@.len(),
            cells@.len() == i,
            forall|t: int|
                0 <= t < v@.len() ==> (#[trigger] v[t] matches Some(d) ==> -(DAYS_CE_TO_UNIX_EPOCH
                    as int) <= d <= 0xFFFFFF - DAYS_CE_TO_UNIX_EPOCH),
            forall|k: int|
                0 <= k < i ==> (#[trigger] cells@[k])@ == if as_datetime {
                    CellV::DateTime(
                        match v[k] {
                            Some(d) => Some(
                                SqlDateTime {
                                    days: (DAYS_1900_TO_UNIX_EPOCH + d) as i32,
                                    seconds_fragments: 0,
                                },
                            ),
                            None => None,
                        },
                    )
                } else {
                    CellV::Date(
                        match v[k] {
                            Some(d) => Some(SqlDate { days: (DAYS_CE_TO_UNIX_EPOCH + d) as u32 }),
                            None => None,
                        },
                    )
                },
        decreases n - i,
    {
        let cell = if as_datetime {
            match v[i] {
                Some(d) => {
                    let days: i64 = DAYS_1900_TO_UNIX_EPOCH as i64 + d as i64;
                    CellValue::DateTime(
                        Some(SqlDateTime { days: days as i32, seconds_fragments: 0 }),
                    )
                },
                None => CellValue::DateTime(None),
            }
        } else {
            match v[i] {
                Some(d) => {
                    let days: i64 = DAYS_CE_TO_UNIX_EPOCH as i64 + d as i64;
                    CellValue::Date(Some(SqlDate { days: days as u32 }))
                },
                None => CellValue::Date(None),
            }
        };
        cells.push(cell);
        i = i + 1;
    }
    cells
}

/// A 64-bit day count since the Unix epoch is re-based onto the year-one
/// epoch of the wire's `date` type.
fn conv_date64(v: &Vec<Option<i64>>) -> (cells: Vec<CellValue>)
    requires
        forall|i: int|
            0 <= i < v@.len() ==> (#[trigger] v[i] matches Some(d) ==> -(DAYS_CE_TO_UNIX_EPOCH as int)
                <= d <= 0xFFFFFF - DAYS_CE_TO_UNIX_EPOCH),
    ensures
        cells@.len() == v@.len(),
        forall|k: int|
            0 <= k < v@.len() ==> (#[trigger] cells@[k])@ == CellV::Date(
                match v[k] {
                    Some(d) => Some(SqlDate { days: (DAYS_CE_TO_UNIX_EPOCH + d) as u32 }),
                    None => None,
                },
            ),
{
    let n = v.len();
    let mut cells: Vec<CellValue> = Vec::new();
    let mut i: usize = 0;
    while i < n
        invariant
            i <= n,
            n == v@.len(),
            cells@.len() == i,
            forall|t: int|
                0 <= t < v@.len() ==> (#[trigger] v[t] matches Some(d) ==> -(DAYS_CE_TO_UNIX_EPOCH
                    as int) <= d <= 0xFFFFFF - DAYS_CE_TO_UNIX_EPOCH),
            forall|k: int|
                0 <= k < i ==> (#[trigger] cells@[k])@ == CellV::Date(
                    match v[k] {
                        Some(d) => Some(SqlDate { days: (DAYS_CE_TO_UNIX_EPOCH + d) as u32 }),
                        None => None,
                    },
                ),
        decreases n - i,
    {
        let cell = match v[i] {
            Some(d) => {
                let days: i64 = DAYS_CE_TO_UNIX_EPOCH as i64 + d;
                CellValue::Date(Some(SqlDate { days: days as u32 }))
            },
            None => CellValue::Date(None),
        };
        cells.push(cell);
        i = i + 1;
    }
    cells
}

/// A non-negative sub-day second count becomes a time of day at the wire's
/// 100 ns resolution; a negative count becomes a null.
fn conv_time_s(v: &Vec<Option<i32>>) -> (cells: Vec<CellValue>)
    ensures
        cells@.len() == v@.len(),
        forall|k: int|
            0 <= k < v@.len() ==> (#[trigger] cells@[k])@ == CellV::Time(
                match v[k] {
                    Some(s) => if s < 0 {
                        None
                    } else {
                        Some(SqlTime { increments: (s * 10000000) as u64, scale: 7 })
                    },
                    None => None,
                },
            ),
{
    let n = v.len();
    let mut cells: Vec<CellValue> = Vec::new();
    let mut i: usize = 0;
    while i < n
        invariant
            i <= n,
            n == v@.len(),
            cells@.len() == i,
            forall|k: int|
                0 <= k < i ==> (#[trigger] cells@[k])@ == CellV::Time(
                    match v[k] {
                        Some(s) => if s < 0 {
                            None
                        } else {
                            Some(SqlTime { increments: (s * 10000000) as u64, scale: 7 })
                        },
                        None => None,
                    },
                ),
        decreases n - i,
    {
        let cell = match v[i] {
            Some(s) => if s < 0 {
                CellValue::Time(None)
            } else {
                let inc: i64 = (s as i64) * 10000000;
                CellValue::Time(Some(SqlTime { increments: inc as u64, scale: 7 }))
            },
            None => CellValue::Time(None),
        };
        cells.push(cell);
        i = i + 1;
    }
    cells
}

/// A non-negative sub-day millisecond count becomes a time of day at the
/// wire's 100 ns resolution; a negative count becomes a null.
fn conv_time_ms(v: &Vec<Option<i32>>) -> (cells: Vec<CellValue>)
    ensures
        cells@.len() == v@.len(),
        forall|k: int|
            0 <= k < v@.len() ==> (#[trigger] cells@[k])@ == CellV::Time(
                match v[k] {
                    Some(ms) => if ms < 0 {
                        None
                    } else {
                        Some(SqlTime { increments: (ms * 10000) as u64, scale: 7 })
                    },
                    None => None,
                },
            ),
{
    let n = v.len();
    let mut cells: Vec<CellValue> = Vec::new();
    let mut i: usize = 0;
    while i < n
        invariant
            i <= n,
            n == v@.len(),
            cells@.len() == i,
            forall|k: int|
                0 <= k < i ==> (#[trigger] cells@[k])@ == CellV::Time(
                    match v[k] {
                        Some(ms) => if ms < 0 {
                            None
                        } else {
                            Some(SqlTime { increments: (ms * 10000) as u64, scale: 7 })
                        },
                        None => None,
                    },
                ),
        decreases n - i,
    {
        let cell = match v[i] {
            Some(ms) => if ms < 0 {
                CellValue::Time(None)
            } else {
                let inc: i64 = (ms as i64) * 10000;
                CellValue::Time(Some(SqlTime { increments: inc as u64, scale: 7 }))
            },
            None => CellValue::Time(None),
        };
        cells.push(cell);
        i = i + 1;
    }
    cells
}

/// A decimal mantissa either passes through exactly with its scale, or is
/// rescaled to a double where the destination declares a float column.
fn conv_decimal(scale: u8, values: &Vec<Option<i128>>, to_float: bool) -> (cells: Vec<CellValue>)
    requires
        to_float ==> scale <= MAX_DECIMAL_SCALE,
        to_float ==> forall|i: int|
            0 <= i < values@.len() ==> (#[trigger] values[i] matches Some(m)
                ==> -MAX_DECIMAL_MANTISSA <= m <= MAX_DECIMAL_MANTISSA),
    ensures
        cells@.len() == values@.len(),
        forall|k: int|
            0 <= k < values@.len() ==> (#[trigger] cells@[k])@ == if to_float {
                CellV::F64Bits(
                    match values[k] {
                        Some(m) => Some(f64_bits_of_decimal(m, scale as u32)),
                        None => None,
                    },
                )
            } else {
                CellV::Numeric(
                    match values[k] {
                        Some(m) => Some(SqlNumeric { value: m, scale }),
                        None => None,
                    },
                )
            },
{
    let n = values.len();
    let mut cells: Vec<CellValue> = Vec::new();
    let mut i: usize = 0;
    while i < n
        invariant
            i <= n,
            n == values@.len(),
            cells@.len() == i,
            to_float ==> scale <= MAX_DECIMAL_SCALE,
            to_float ==> forall|t: int|
                0 <= t < values@.len() ==> (#[trigger] values[t] matches Some(m)
                    ==> -MAX_DECIMAL_MANTISSA <= m <= MAX_DECIMAL_MANTISSA),
            forall|k: int|
                0 <= k < i ==> (#[trigger] cells@[k])@ == if to_float {
                    CellV::F64Bits(
                        match values[k] {
                            Some(m) => Some(f64_bits_of_decimal(m, scale as u32)),
                            None => None,
                        },
                    )
                } else {
                    CellV::Numeric(
                        match values[k] {
                            Some(m) => Some(SqlNumeric { value: m, scale }),
                            None => None,
                        },
                    )
                },
        decreases n - i,
    {
        let cell = if to_float {
            match values[i] {
                Some(m) => CellValue::F64Bits(Some(decimal_to_f64_bits(m, scale as u32))),
                None => CellValue::F64Bits(None),
            }
        } else {
            match values[i] {
                Some(m) => CellValue::Numeric(Some(SqlNumeric { value: m, scale })),
                None => CellValue::Numeric(None),
            }
        };
        cells.push(cell);
        i = i + 1;
    }
    cells
}

/// The correctly-typed null for the destination column.
fn null_cell_for(dest: ColumnType) -> (c: CellValue)
    ensures
        c@ == null_cell_of(dest),
{
    if dest == ColumnType::BigVarChar || dest == ColumnType::Text || dest == ColumnType::NVarchar
        || dest == ColumnType::NChar || dest == ColumnType::BigChar || dest == ColumnType::NText {
        CellValue::Text(None)
    } else if dest == ColumnType::Datetime || dest == ColumnType::Datetimen || dest
        == ColumnType::Datetime4 {
        CellValue::DateTime(None)
    } else if dest == ColumnType::Bit || dest == ColumnType::Bitn {
        CellValue::Bit(None)
    } else {
        CellValue::I32(None)
    }
}

/// Every row of the untyped null column maps to the destination's own null.
fn conv_null(dest: ColumnType, nrows: usize) -> (cells: Vec<CellValue>)
    ensures
        cells@.len() == nrows,
        forall|k: int| 0 <= k < nrows ==> (#[trigger] cells@[k])@ == null_cell_of(dest),
{
    let mut cells: Vec<CellValue> = Vec::new();
    let mut i: usize = 0;
    while i < nrows
        invariant
            i <= nrows,
            cells@.len() == i,
            forall|k: int| 0 <= k < i ==> (#[trigger] cells@[k])@ == null_cell_of(dest),
        decreases nrows - i,
    {
        cells.push(null_cell_for(dest));
        i = i + 1;
    }
    cells
}

/// Converts one column against its destination type, producing one cell per
/// row, or the error that names the unsupported pairing.
fn convert_column(col: &Column, dest: ColumnType, nrows: usize) -> (r: Result<
    Vec<CellValue>,
    LakeApi2SqlError,
>)
    requires
        column_len(*col) matches Some(n) ==> n == nrows,
        column_values_in_range(*col),
        decimal_ok(*col, dest),
    ensures
        match r {
            Ok(cells) => {
                &&& supported_pair(*col, dest)
                &&& cells@.len() == nrows
                &&& forall|k: int|
                    0 <= k < nrows ==> (#[trigger] cells@[k])@ == cell_of(*col, dest, k)
            },
            Err(e) => {
                &&& !supported_pair(*col, dest)
                &&& e matches LakeApi2SqlError::NotSupported { dtype, column_type }
                    && dtype@ == kind_name_spec(*col) && column_type == dest
            },
        },
{
    match col {
        Column::Boolean(v) => {
            if dest == ColumnType::Bit || dest == ColumnType::Bitn {
                Ok(conv_bool(v))
            } else {
                Err(
                    LakeApi2SqlError::NotSupported {
                        dtype: kind_name_of(col),
                        column_type: dest,
                    },
                )
            }
        },
        Column::Int8(v) => Ok(conv_i8(v, dest == ColumnType::Int2)),
        Column::Int16(v) => Ok(conv_i16(v)),
        Column::Int32(v) => {
            if dest == ColumnType::Int4 || dest == ColumnType::Intn {
                Ok(conv_i32(v))
            } else {
                Err(
                    LakeApi2SqlError::NotSupported {
                        dtype: kind_name_of(col),
                        column_type: dest,
                    },
                )
            }
        },
        Column::Int64(v) => Ok(conv_i64(v)),
        Column::UInt8(v) => Ok(conv_u8(v, dest == ColumnType::Int2)),
        Column::UInt16(v) => Ok(conv_u16(v)),
        Column::UInt32(v) => Ok(conv_u32(v)),
        Column::UInt64(v) => Ok(conv_u64(v)),
        Column::Float16(v) => Ok(conv_f16(v)),
        Column::Float32(v) => Ok(conv_f32(v)),
        Column::Float64(v) => Ok(
            conv_f64(v, dest == ColumnType::Int4 || dest == ColumnType::Intn),
        ),
        Column::Utf8(v) => Ok(conv_text(v)),
        Column::LargeUtf8(v) => Ok(conv_text(v)),
        Column::Binary(v) => Ok(conv_binary(v)),
        Column::LargeBinary(v) => Ok(conv_binary(v)),
        Column::FixedSizeBinary(v) => Ok(conv_binary(v)),
        Column::TimestampMillisecond(v) => Ok(conv_ts_ms(v)),
        Column::TimestampMicrosecond(v) => Ok(conv_ts_us(v)),
        Column::TimestampNanosecond(v) => Ok(conv_ts_ns(v)),
        Column::Date32(v) => Ok(
            conv_date32(v, dest == ColumnType::Datetime || dest == ColumnType::Datetimen),
        ),
        Column::Date64(v) => Ok(conv_date64(v)),
        Column::Time32Second(v) => Ok(conv_time_s(v)),
        Column::Time32Millisecond(v) => Ok(conv_time_ms(v)),
        Column::Decimal128 { scale, values } => {
            if dest == ColumnType::Numericn || dest == ColumnType::Decimaln {
                Ok(conv_decimal(*scale, values, false))
            } else if dest == ColumnType::Floatn {
                Ok(conv_decimal(*scale, values, true))
            } else {
                Err(
                    LakeApi2SqlError::NotSupported {
                        dtype: kind_name_of(col),
                        column_type: dest,
                    },
                )
            }
        },
        Column::Null => Ok(conv_null(dest, nrows)),
        Column::Unsupported { .. } => Err(
            LakeApi2SqlError::NotSupported { dtype: kind_name_of(col), column_type: dest },
        ),
    }
}

/// Appends one cell to row `i`, leaving every other row as it was.
fn row_push(rows: &mut Vec<TokenRow>, i: usize, c: CellValue)
    requires
        i < old(rows)@.len(),
    ensures
        final(rows)@.len() == old(rows)@.len(),
        final(rows)@[i as int]@ == old(rows)@[i as int]@.push(c@),
        forall|k: int|
            0 <= k < old(rows)@.len() && k != i ==> final(rows)@[k] == old(rows)@[k],
{
    let row = &mut rows[i];
    row.push(c);
}

/// Converts one batch against the resolved destination schema.
///
/// The result holds one row per batch row; each row holds one cell per
/// schema entry, in schema order, as `converted_cell` states it. A schema
/// entry naming no batch column yields text nulls; the first entry whose
/// column exists but whose pairing has no rule fails the whole conversion
/// with an error naming both types, and the conversion succeeds if and only
/// if no such entry exists.
pub fn get_token_rows(batch: &Batch, colsnames: &Vec<(String, ColumnType)>) -> (r: Result<
    Vec<TokenRow>,
    LakeApi2SqlError,
>)
    requires
        batch.wf(),
        decimals_in_range(*batch, colsnames@),
    ensures
        match r {
            Ok(rows) => {
                &&& first_unsupported(*batch, colsnames@) is None
                &&& rows@.len() == batch.num_rows
                &&& forall|i: int|
                    0 <= i < rows@.len() ==> (#[trigger] rows@[i])@.len() == colsnames@.len()
                &&& forall|i: int, j: int|
                    0 <= i < rows@.len() && 0 <= j < colsnames@.len() ==> rows@[i]@[j]
                        == converted_cell(*batch, colsnames@[j], i)
            },
            Err(e) => {
                &&& first_unsupported(*batch, colsnames@) matches Some(j) && {
                    let ci = batch.index_of(colsnames@[j].0@)->Some_0;
                    e matches LakeApi2SqlError::NotSupported { dtype, column_type }
                        && dtype@ == kind_name_spec(batch.columns[ci].data) && column_type
                        == colsnames@[j].1
                }
            },
        },
{
    let nrows = batch.num_rows;
    let mut rows: Vec<TokenRow> = Vec::new();
    let mut i: usize = 0;
    while i < nrows
        invariant
            i <= nrows,
            rows@.len() == i,
            forall|k: int| 0 <= k < i ==> (#[trigger] rows@[k])@ == Seq::<CellV>::empty(),
        decreases nrows - i,
    {
        rows.push(TokenRow::new());
        i = i + 1;
    }
    let ncols = colsnames.len();
    let mut j: usize = 0;
    while j < ncols
        invariant
            j <= ncols,
            ncols == colsnames@.len(),
            batch.wf(),
            decimals_in_range(*batch, colsnames@),
            rows@.len() == nrows,
            nrows == batch.num_rows,
            forall|k: int| 0 <= k < nrows ==> (#[trigger] rows@[k])@.len() == j,
            forall|k: int, l: int|
                0 <= k < nrows && 0 <= l < j ==> rows@[k]@[l] == converted_cell(
                    *batch,
                    colsnames@[l],
                    k,
                ),
            first_unsupported_from(*batch, colsnames@, 0) == first_unsupported_from(
                *batch,
                colsnames@,
                j as int,
            ),
        decreases ncols - j,
    {
        let entry = &colsnames[j];
        let dest: ColumnType = entry.1;
        match column_index_by_name(batch, &entry.0) {
            None => {
                let mut k: usize = 0;
                while k < nrows
                    invariant
                        k <= nrows,
                        rows@.len() == nrows,
                        batch.index_of(colsnames@[j as int].0@) is None,
                        j < colsnames@.len(),
                        forall|t: int| 0 <= t < k ==> (#[trigger] rows@[t])@.len() == j + 1,
                        forall|t: int| k <= t < nrows ==> (#[trigger] rows@[t])@.len() == j,
                        forall|t: int, l: int|
                            0 <= t < nrows && 0 <= l < j ==> rows@[t]@[l] == converted_cell(
                                *batch,
                                colsnames@[l],
                                t,
                            ),
                        forall|t: int|
                            0 <= t < k ==> (#[trigger] rows@[t])@[j as int] == CellV::Text(None),
                    decreases nrows - k,
                {
                    row_push(&mut rows, k, CellValue::Text(None));
                    k = k + 1;
                }
            },
            Some(ci) => {
                proof {
                    crate::batch::lemma_index_of_from_bounds(*batch, colsnames@[j as int].0@, 0);
                    assert(column_len(batch.columns[ci as int].data) matches Some(n) ==> n
                        == batch.num_rows);
                    assert(column_values_in_range(batch.columns[ci as int].data));
                    assert(decimal_ok(batch.columns[ci as int].data, colsnames@[j as int].1));
                }
                let cells = match convert_column(&batch.columns[ci].data, dest, nrows) {
                    Ok(cells) => cells,
                    Err(e) => {
                        return Err(e);
                    },
                };
                let ghost cells0: Seq<CellValue> = cells@;
                let mut cells = cells;
                let mut k: usize = nrows;
                while k > 0
                    invariant
                        k <= nrows,
                        rows@.len() == nrows,
                        cells@ == cells0.subrange(0, k as int),
                        cells0.len() == nrows,
                        j < colsnames@.len(),
                        batch.index_of(colsnames@[j as int].0@) == Some(ci as int),
                        ci < batch.columns.len(),
                        forall|t: int|
                            0 <= t < nrows ==> (#[trigger] cells0[t])@ == cell_of(
                                batch.columns[ci as int].data,
                                colsnames@[j as int].1,
                                t,
                            ),
                        forall|t: int| 0 <= t < k ==> (#[trigger] rows@[t])@.len() == j,
                        forall|t: int| k <= t < nrows ==> (#[trigger] rows@[t])@.len() == j + 1,
                        forall|t: int, l: int|
                            0 <= t < nrows && 0 <= l < j ==> rows@[t]@[l] == converted_cell(
                                *batch,
                                colsnames@[l],
                                t,
                            ),
                        forall|t: int|
                            k <= t < nrows ==> (#[trigger] rows@[t])@[j as int] == cells0[t]@,
                    decreases k,
                {
                    k = k - 1;
                    let c = match cells.pop() {
                        Some(c) => c,
                        None => {
                            proof {
                                assert(false);
                            }
                            CellValue::Text(None)
                        },
                    };
                    proof {
                        assert(cells@ =~= cells0.subrange(0, k as int));
                    }
                    row_push(&mut rows, k, c);
                }
            },
        }
        j = j + 1;
    }
    Ok(rows)
}

} // verus!
