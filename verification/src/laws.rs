//! The conversion engine's laws: what a destination reader gets back.
//!
//! Each proof function states one guarantee of `cell_of` / `converted_cell`
//! over the whole input space it holds on, so that the round-trip, null
//! propagation and degrade-gracefully behaviour are theorems of the
//! library, not side effects of one implementation.

use vstd::prelude::*;
use vstd::arithmetic::div_mod::lemma_div_denominator;
use vstd::arithmetic::div_mod::lemma_div_multiples_vanish;
use vstd::arithmetic::div_mod::lemma_fundamental_div_mod;
use vstd::arithmetic::div_mod::lemma_mod_bound;
use crate::batch::Batch;
use crate::batch::Column;
use crate::batch::DAYS_1900_TO_UNIX_EPOCH;
use crate::batch::DAYS_CE_TO_UNIX_EPOCH;
use crate::batch::MAX_TIMESTAMP_MS;
use crate::batch::MAX_TIMESTAMP_US;
use crate::batch::MS_PER_DAY;
use crate::batch::NS_PER_DAY;
use crate::batch::US_PER_DAY;
use crate::convert::cell_of;
use crate::convert::converted_cell;
use crate::convert::entry_unsupported;
use crate::convert::instant_of_ms;
use crate::convert::instant_of_ns;
use crate::convert::instant_of_us;
use crate::convert::null_cell_of;
use crate::convert::supported_pair;
use crate::convert::u64_as_i64;
use crate::floatbits::f16_widen_spec;
use crate::floatbits::f64_bits_of_decimal;
use crate::floatbits::f64_bits_to_i32_spec;
use crate::types::CellV;
use crate::types::ColumnType;
use crate::types::SqlDateTime2;

verus! {

/// The instant a wire `datetime2` denotes, in nanoseconds since the Unix
/// epoch: what a reader of the destination column gets back.
pub open spec fn instant_ns(d: SqlDateTime2) -> int {
    (d.date.days - DAYS_CE_TO_UNIX_EPOCH) * NS_PER_DAY + d.time.increments * 100
}

/// Whether a cell is a null of some wire type, as opposed to any value —
/// in particular, as opposed to the default value of a primitive.
pub open spec fn is_null_cell(c: CellV) -> bool {
    match c {
        CellV::U8(o) => o is None,
        CellV::I16(o) => o is None,
        CellV::I32(o) => o is None,
        CellV::I64(o) => o is None,
        CellV::F32Bits(o) => o is None,
        CellV::F64Bits(o) => o is None,
        CellV::Bit(o) => o is None,
        CellV::Text(o) => o is None,
        CellV::Binary(o) => o is None,
        CellV::Numeric(o) => o is None,
        CellV::DateTime(o) => o is None,
        CellV::Time(o) => o is None,
        CellV::Date(o) => o is None,
        CellV::DateTime2(o) => o is None,
    }
}

/// Round trip of a non-negative millisecond timestamp: the instant on the
/// wire denotes exactly the source's milliseconds, at nanosecond precision.
pub proof fn lemma_timestamp_ms_roundtrip(ms: i64)
    requires
        0 <= ms < MAX_TIMESTAMP_MS,
    ensures
        instant_ns(instant_of_ms(ms)) == ms * 1000000,
{
    lemma_fundamental_div_mod(ms as int, MS_PER_DAY as int);
    lemma_mod_bound(ms as int, MS_PER_DAY as int);
    let q = ms as int / (MS_PER_DAY as int);
    let r = ms as int % (MS_PER_DAY as int);
    assert(ms == MS_PER_DAY * q + r);
    assert(instant_ns(instant_of_ms(ms)) == q * NS_PER_DAY + r * 10000 * 100);
    assert((MS_PER_DAY * q + r) * 1000000 == q * NS_PER_DAY + r * 1000000) by (nonlinear_arith);
}

/// Round trip of a non-negative microsecond timestamp.
pub proof fn lemma_timestamp_us_roundtrip(us: i64)
    requires
        0 <= us < MAX_TIMESTAMP_US,
    ensures
        instant_ns(instant_of_us(us)) == us * 1000,
{
    lemma_fundamental_div_mod(us as int, US_PER_DAY as int);
    lemma_mod_bound(us as int, US_PER_DAY as int);
    let q = us as int / (US_PER_DAY as int);
    let r = us as int % (US_PER_DAY as int);
    assert(us == US_PER_DAY * q + r);
    assert(instant_ns(instant_of_us(us)) == q * NS_PER_DAY + r * 10 * 100);
    assert((US_PER_DAY * q + r) * 1000 == q * NS_PER_DAY + r * 1000) by (nonlinear_arith);
}

/// Round trip of a non-negative nanosecond timestamp: the wire's 100 ns
/// resolution truncates toward zero, so the instant denotes the closest
/// representable value at or below the source.
pub proof fn lemma_timestamp_ns_roundtrip(ns: i64)
    requires
        0 <= ns,
    ensures
        instant_ns(instant_of_ns(ns)) == ns - ns % 100,
        0 <= ns - instant_ns(instant_of_ns(ns)) < 100,
{
    lemma_fundamental_div_mod(ns as int, NS_PER_DAY as int);
    lemma_mod_bound(ns as int, NS_PER_DAY as int);
    let q = ns as int / (NS_PER_DAY as int);
    let r = ns as int % (NS_PER_DAY as int);
    assert(ns == NS_PER_DAY * q + r);
    lemma_fundamental_div_mod(r, 100);
    lemma_mod_bound(r, 100);
    assert(instant_ns(instant_of_ns(ns)) == q * NS_PER_DAY + (r / 100) * 100);
    // The sub-100 ns remainder of the day fragment is the remainder of the
    // whole count, because 100 divides the day length.
    assert(ns % 100 == r % 100) by {
        lemma_div_denominator(ns as int, 100, 864000000000);
        lemma_fundamental_div_mod(ns as int, 100);
        lemma_mod_bound(ns as int, 100);
        let h = ns as int / 100;
        lemma_fundamental_div_mod(h, 864000000000);
        lemma_mod_bound(h, 864000000000);
        assert(NS_PER_DAY * q == 100 * (864000000000 * q)) by (nonlinear_arith);
        assert(ns == 100 * (864000000000 * q) + (100 * (r / 100) + r % 100));
        assert(ns == 100 * (864000000000 * q + r / 100) + r % 100) by (nonlinear_arith)
            requires
                ns == 100 * (864000000000 * q) + (100 * (r / 100) + r % 100),
        ;
        vstd::arithmetic::div_mod::lemma_fundamental_div_mod_converse(
            ns as int,
            100,
            864000000000 * q + r / 100,
            r % 100,
        );
    };
    assert(q * NS_PER_DAY + (r / 100) * 100 == ns - r % 100) by (nonlinear_arith)
        requires
            ns == NS_PER_DAY * q + r,
            r == 100 * (r / 100) + r % 100,
    ;
}

/// Round trip of a calendar day count re-based onto the year-one epoch.
pub proof fn lemma_date32_roundtrip(b: Batch, e: (String, ColumnType), ci: int, r: int, d: i32)
    requires
        b.index_of(e.0@) == Some(ci),
        0 <= ci < b.columns.len(),
        b.columns[ci].data matches Column::Date32(v) && 0 <= r < v@.len() && v[r] == Some(d),
        !(e.1 == ColumnType::Datetime || e.1 == ColumnType::Datetimen),
        -(DAYS_CE_TO_UNIX_EPOCH as int) <= d <= 0xFFFFFF - DAYS_CE_TO_UNIX_EPOCH,
    ensures
        converted_cell(b, e, r) matches CellV::Date(Some(sd)) && sd.days - DAYS_CE_TO_UNIX_EPOCH
            == d,
{
}

/// Round trip of a day count sent to a legacy datetime destination, which
/// re-bases onto the 1900-01-01 epoch.
pub proof fn lemma_date32_datetime_roundtrip(
    b: Batch,
    e: (String, ColumnType),
    ci: int,
    r: int,
    d: i32,
)
    requires
        b.index_of(e.0@) == Some(ci),
        0 <= ci < b.columns.len(),
        b.columns[ci].data matches Column::Date32(v) && 0 <= r < v@.len() && v[r] == Some(d),
        e.1 == ColumnType::Datetime || e.1 == ColumnType::Datetimen,
        -(DAYS_CE_TO_UNIX_EPOCH as int) <= d <= 0xFFFFFF - DAYS_CE_TO_UNIX_EPOCH,
    ensures
        converted_cell(b, e, r) matches CellV::DateTime(Some(dt)) && dt.days
            - DAYS_1900_TO_UNIX_EPOCH == d && dt.seconds_fragments == 0,
{
}

/// Round trip of a non-negative second-of-day count: the wire increments
/// denote exactly the source's seconds.
pub proof fn lemma_time_s_roundtrip(s: i32)
    requires
        0 <= s,
    ensures
        ((s as int) * 10000000) / 10000000 == s,
        ((s as int) * 10000000) % 10000000 == 0,
{
    lemma_div_multiples_vanish(s as int, 10000000);
    assert((s as int) * 10000000 == 10000000 * (s as int)) by (nonlinear_arith);
    vstd::arithmetic::div_mod::lemma_mod_multiples_basic(s as int, 10000000);
}

/// Round trip of a non-negative millisecond-of-day count.
pub proof fn lemma_time_ms_roundtrip(ms: i32)
    requires
        0 <= ms,
    ensures
        ((ms as int) * 10000) / 10000 == ms,
        ((ms as int) * 10000) % 10000 == 0,
{
    lemma_div_multiples_vanish(ms as int, 10000);
    assert((ms as int) * 10000 == 10000 * (ms as int)) by (nonlinear_arith);
    vstd::arithmetic::div_mod::lemma_mod_multiples_basic(ms as int, 10000);
}

/// Direct pass-through pairs deliver the source value bit for bit: what the
/// destination reads back equals the source cell, nulls included.
pub proof fn lemma_passthrough_exact(col: Column, dest: ColumnType, r: int)
    requires
        supported_pair(col, dest),
    ensures
        col matches Column::Boolean(v) ==> cell_of(col, dest, r) == CellV::Bit(v[r]),
        col matches Column::Int16(v) ==> cell_of(col, dest, r) == CellV::I16(v[r]),
        col matches Column::Int32(v) ==> cell_of(col, dest, r) == CellV::I32(v[r]),
        col matches Column::Int64(v) ==> cell_of(col, dest, r) == CellV::I64(v[r]),
        col matches Column::UInt8(v) ==> (dest != ColumnType::Int2 ==> cell_of(col, dest, r)
            == CellV::U8(v[r])),
        col matches Column::Float32(v) ==> cell_of(col, dest, r) == CellV::F32Bits(v[r]),
        col matches Column::Float64(v) ==> (!(dest == ColumnType::Int4 || dest
            == ColumnType::Intn) ==> cell_of(col, dest, r) == CellV::F64Bits(v[r])),
        col matches Column::Utf8(v) ==> (v[r] matches Some(s) ==> cell_of(col, dest, r)
            == CellV::Text(Some(s@))),
        col matches Column::LargeUtf8(v) ==> (v[r] matches Some(s) ==> cell_of(col, dest, r)
            == CellV::Text(Some(s@))),
        col matches Column::Binary(v) ==> (v[r] matches Some(p) ==> cell_of(col, dest, r)
            == CellV::Binary(Some(p@))),
        col matches Column::LargeBinary(v) ==> (v[r] matches Some(p) ==> cell_of(col, dest, r)
            == CellV::Binary(Some(p@))),
        col matches Column::FixedSizeBinary(v) ==> (v[r] matches Some(p) ==> cell_of(col, dest, r)
            == CellV::Binary(Some(p@))),
{
}

/// Widening pairs deliver the source value numerically unchanged: an
/// unsigned 16-bit value as a 32-bit integer, an unsigned 32-bit value as a
/// 64-bit integer, a signed or unsigned byte as a 16-bit value where the
/// destination declares one, and an unsigned 64-bit value that a signed
/// 64-bit integer can represent. (An unsigned 64-bit value above `i64::MAX`
/// wraps instead and is excluded here.)
pub proof fn lemma_widening_exact(col: Column, dest: ColumnType, r: int)
    requires
        supported_pair(col, dest),
    ensures
        col matches Column::UInt16(v) ==> (v[r] matches Some(x) ==> cell_of(col, dest, r)
            == CellV::I32(Some(x as i32)) && x as i32 == x),
        col matches Column::UInt8(v) ==> (v[r] matches Some(x) ==> (dest == ColumnType::Int2
            ==> cell_of(col, dest, r) == CellV::I16(Some(x as i16)) && x as i16 == x)),
        col matches Column::UInt32(v) ==> (v[r] matches Some(x) ==> cell_of(col, dest, r)
            == CellV::I64(Some(x as i64)) && x as i64 == x),
        col matches Column::Int8(v) ==> (v[r] matches Some(x) ==> (dest == ColumnType::Int2
            ==> cell_of(col, dest, r) == CellV::I16(Some(x as i16)) && x as i16 == x)),
        col matches Column::Int8(v) ==> (v[r] matches Some(x) ==> (x >= 0 && dest
            != ColumnType::Int2 ==> cell_of(col, dest, r) == CellV::U8(Some(x as u8)) && x as u8
            == x)),
        col matches Column::UInt64(v) ==> (v[r] matches Some(x) ==> (x <= i64::MAX ==> cell_of(
            col,
            dest,
            r,
        ) == CellV::I64(Some(u64_as_i64(x))) && u64_as_i64(x) == x)),
{
}

/// The exact fixed-point pass-through: against a numeric destination, the
/// mantissa and scale arrive unchanged, so the destination's decimal
/// denotes exactly `value / 10^scale`.
pub proof fn lemma_decimal_numeric_exact(col: Column, dest: ColumnType, r: int)
    requires
        supported_pair(col, dest),
        dest == ColumnType::Numericn || dest == ColumnType::Decimaln,
    ensures
        col matches Column::Decimal128 { scale, values } ==> (values[r] matches Some(m)
            ==> cell_of(col, dest, r) matches CellV::Numeric(Some(n)) && n.value == m && n.scale
            == scale),
{
}

/// Every cell of a null-typed source column is a correctly-typed null for
/// its destination, never the default value of the primitive.
pub proof fn lemma_null_column_typed_nulls(b: Batch, e: (String, ColumnType), ci: int, r: int)
    requires
        b.index_of(e.0@) == Some(ci),
        0 <= ci < b.columns.len(),
        b.columns[ci].data is Null,
    ensures
        converted_cell(b, e, r) == null_cell_of(e.1),
        is_null_cell(converted_cell(b, e, r)),
        !entry_unsupported(b, e),
{
}

/// A schema entry naming no batch column never fails the conversion: it
/// degrades to a text null in every row.
pub proof fn lemma_missing_column_degrades(b: Batch, e: (String, ColumnType), r: int)
    requires
        b.index_of(e.0@) is None,
    ensures
        converted_cell(b, e, r) == CellV::Text(None),
        is_null_cell(converted_cell(b, e, r)),
        !entry_unsupported(b, e),
{
}

/// Source nulls propagate exactly: a null source cell converts to a null
/// destination cell for every supported pairing.
pub proof fn lemma_null_bit_preserved(col: Column, dest: ColumnType, r: int)
    requires
        supported_pair(col, dest),
        match col {
            Column::Boolean(v) => v[r] is None,
            Column::Int8(v) => v[r] is None,
            Column::Int16(v) => v[r] is None,
            Column::Int32(v) => v[r] is None,
            Column::Int64(v) => v[r] is None,
            Column::UInt8(v) => v[r] is None,
            Column::UInt16(v) => v[r] is None,
            Column::UInt32(v) => v[r] is None,
            Column::UInt64(v) => v[r] is None,
            Column::Float16(v) => v[r] is None,
            Column::Float32(v) => v[r] is None,
            Column::Float64(v) => v[r] is None,
            Column::Utf8(v) => v[r] is None,
            Column::LargeUtf8(v) => v[r] is None,
            Column::Binary(v) => v[r] is None,
            Column::LargeBinary(v) => v[r] is None,
            Column::FixedSizeBinary(v) => v[r] is None,
            Column::TimestampMillisecond(v) => v[r] is None,
            Column::TimestampMicrosecond(v) => v[r] is None,
            Column::TimestampNanosecond(v) => v[r] is None,
            Column::Date32(v) => v[r] is None,
            Column::Date64(v) => v[r] is None,
            Column::Time32Second(v) => v[r] is None,
            Column::Time32Millisecond(v) => v[r] is None,
            Column::Decimal128 { scale: _, values } => values[r] is None,
            Column::Null => true,
            Column::Unsupported { .. } => true,
        },
    ensures
        is_null_cell(cell_of(col, dest, r)),
{
}

/// What converting one cell and reading it back from the destination wire
/// type gives, over the whole pair matrix: the semantically closest
/// representable value under each family's stated rescale or rounding
/// rule. A null source cell is a null destination cell throughout. Two
/// pairings wrap instead of preserving the value and claim nothing here: an
/// unsigned 64-bit value above `i64::MAX`, and a negative signed byte
/// against an unsigned-byte destination. A temporal value outside the
/// destination-representable range of `column_values_in_range` has no wire
/// encoding and claims nothing. The decimal-to-float and half-to-single
/// cells are fixed over the bit-level results `f64_bits_of_decimal` and
/// `f16_widen_spec`; the truncating double-to-integer cast is fixed over
/// `f64_bits_to_i32_spec`.
pub open spec fn roundtrip_claim(col: Column, dest: ColumnType, r: int) -> bool {
    match col {
        Column::Boolean(v) => cell_of(col, dest, r) == CellV::Bit(v[r]),
        Column::Int8(v) => match v[r] {
            Some(x) => if dest == ColumnType::Int2 {
                cell_of(col, dest, r) == CellV::I16(Some(x as i16)) && x as i16 == x
            } else {
                x >= 0 ==> cell_of(col, dest, r) == CellV::U8(Some(x as u8)) && x as u8 == x
            },
            None => is_null_cell(cell_of(col, dest, r)),
        },
        Column::Int16(v) => cell_of(col, dest, r) == CellV::I16(v[r]),
        Column::Int32(v) => cell_of(col, dest, r) == CellV::I32(v[r]),
        Column::Int64(v) => cell_of(col, dest, r) == CellV::I64(v[r]),
        Column::UInt8(v) => match v[r] {
            Some(x) => if dest == ColumnType::Int2 {
                cell_of(col, dest, r) == CellV::I16(Some(x as i16)) && x as i16 == x
            } else {
                cell_of(col, dest, r) == CellV::U8(Some(x))
            },
            None => is_null_cell(cell_of(col, dest, r)),
        },
        Column::UInt16(v) => match v[r] {
            Some(x) => cell_of(col, dest, r) == CellV::I32(Some(x as i32)) && x as i32 == x,
            None => is_null_cell(cell_of(col, dest, r)),
        },
        Column::UInt32(v) => match v[r] {
            Some(x) => cell_of(col, dest, r) == CellV::I64(Some(x as i64)) && x as i64 == x,
            None => is_null_cell(cell_of(col, dest, r)),
        },
        Column::UInt64(v) => match v[r] {
            Some(x) => x <= i64::MAX ==> cell_of(col, dest, r) == CellV::I64(Some(u64_as_i64(x)))
                && u64_as_i64(x) == x,
            None => is_null_cell(cell_of(col, dest, r)),
        },
        Column::Float16(v) => match v[r] {
            Some(x) => cell_of(col, dest, r) == CellV::F32Bits(Some(f16_widen_spec(x))),
            None => is_null_cell(cell_of(col, dest, r)),
        },
        Column::Float32(v) => cell_of(col, dest, r) == CellV::F32Bits(v[r]),
        Column::Float64(v) => match v[r] {
            Some(x) => if dest == ColumnType::Int4 || dest == ColumnType::Intn {
                cell_of(col, dest, r) == CellV::I32(Some(f64_bits_to_i32_spec(x)))
            } else {
                cell_of(col, dest, r) == CellV::F64Bits(Some(x))
            },
            None => is_null_cell(cell_of(col, dest, r)),
        },
        Column::Utf8(v) => match v[r] {
            Some(s) => cell_of(col, dest, r) == CellV::Text(Some(s@)),
            None => is_null_cell(cell_of(col, dest, r)),
        },
        Column::LargeUtf8(v) => match v[r] {
            Some(s) => cell_of(col, dest, r) == CellV::Text(Some(s@)),
            None => is_null_cell(cell_of(col, dest, r)),
        },
        Column::Binary(v) => match v[r] {
            Some(p) => cell_of(col, dest, r) == CellV::Binary(Some(p@)),
            None => is_null_cell(cell_of(col, dest, r)),
        },
        Column::LargeBinary(v) => match v[r] {
            Some(p) => cell_of(col, dest, r) == CellV::Binary(Some(p@)),
            None => is_null_cell(cell_of(col, dest, r)),
        },
        Column::FixedSizeBinary(v) => match v[r] {
            Some(p) => cell_of(col, dest, r) == CellV::Binary(Some(p@)),
            None => is_null_cell(cell_of(col, dest, r)),
        },
        Column::TimestampMillisecond(v) => match v[r] {
            Some(ms) => if ms < 0 {
                is_null_cell(cell_of(col, dest, r))
            } else if ms < MAX_TIMESTAMP_MS {
                cell_of(col, dest, r) matches CellV::DateTime2(Some(d)) && instant_ns(d) == ms
                    * 1000000
            } else {
                true
            },
            None => is_null_cell(cell_of(col, dest, r)),
        },
        Column::TimestampMicrosecond(v) => match v[r] {
            Some(us) => if us < 0 {
                is_null_cell(cell_of(col, dest, r))
            } else if us < MAX_TIMESTAMP_US {
                cell_of(col, dest, r) matches CellV::DateTime2(Some(d)) && instant_ns(d) == us
                    * 1000
            } else {
                true
            },
            None => is_null_cell(cell_of(col, dest, r)),
        },
        Column::TimestampNanosecond(v) => match v[r] {
            Some(ns) => if ns < 0 {
                is_null_cell(cell_of(col, dest, r))
            } else {
                cell_of(col, dest, r) matches CellV::DateTime2(Some(d)) && instant_ns(d) == ns
                    - ns % 100
            },
            None => is_null_cell(cell_of(col, dest, r)),
        },
        Column::Date32(v) => match v[r] {
            Some(d) => if -(DAYS_CE_TO_UNIX_EPOCH as int) <= d <= 0xFFFFFF
                - DAYS_CE_TO_UNIX_EPOCH {
                if dest == ColumnType::Datetime || dest == ColumnType::Datetimen {
                    cell_of(col, dest, r) matches CellV::DateTime(Some(dt)) && dt.days
                        - DAYS_1900_TO_UNIX_EPOCH == d && dt.seconds_fragments == 0
                } else {
                    cell_of(col, dest, r) matches CellV::Date(Some(sd)) && sd.days
                        - DAYS_CE_TO_UNIX_EPOCH == d
                }
            } else {
                true
            },
            None => is_null_cell(cell_of(col, dest, r)),
        },
        Column::Date64(v) => match v[r] {
            Some(d) => if -(DAYS_CE_TO_UNIX_EPOCH as int) <= d <= 0xFFFFFF
                - DAYS_CE_TO_UNIX_EPOCH {
                cell_of(col, dest, r) matches CellV::Date(Some(sd)) && sd.days
                    - DAYS_CE_TO_UNIX_EPOCH == d
            } else {
                true
            },
            None => is_null_cell(cell_of(col, dest, r)),
        },
        Column::Time32Second(v) => match v[r] {
            Some(s) => if s < 0 {
                is_null_cell(cell_of(col, dest, r))
            } else {
                cell_of(col, dest, r) matches CellV::Time(Some(t)) && t.increments == s
                    * 10000000 && t.scale == 7
            },
            None => is_null_cell(cell_of(col, dest, r)),
        },
        Column::Time32Millisecond(v) => match v[r] {
            Some(ms) => if ms < 0 {
                is_null_cell(cell_of(col, dest, r))
            } else {
                cell_of(col, dest, r) matches CellV::Time(Some(t)) && t.increments == ms * 10000
                    && t.scale == 7
            },
            None => is_null_cell(cell_of(col, dest, r)),
        },
        Column::Decimal128 { scale, values } => match values[r] {
            Some(m) => if dest == ColumnType::Floatn {
                cell_of(col, dest, r) == CellV::F64Bits(Some(f64_bits_of_decimal(m, scale as u32)))
            } else {
                cell_of(col, dest, r) matches CellV::Numeric(Some(n)) && n.value == m && n.scale
                    == scale
            },
            None => is_null_cell(cell_of(col, dest, r)),
        },
        Column::Null => cell_of(col, dest, r) == null_cell_of(dest) && is_null_cell(
            cell_of(col, dest, r),
        ),
        Column::Unsupported { .. } => true,
    }
}

/// The round-trip law over the whole type matrix: for every supported
/// pairing, `roundtrip_claim` holds of every row.
pub proof fn lemma_conversion_roundtrip(col: Column, dest: ColumnType, r: int)
    requires
        supported_pair(col, dest),
    ensures
        roundtrip_claim(col, dest, r),
{
    match col {
        Column::TimestampMillisecond(v) => {
            match v[r] {
                Some(ms) => {
                    if 0 <= ms < MAX_TIMESTAMP_MS {
                        lemma_timestamp_ms_roundtrip(ms);
                    }
                },
                None => {},
            }
        },
        Column::TimestampMicrosecond(v) => {
            match v[r] {
                Some(us) => {
                    if 0 <= us < MAX_TIMESTAMP_US {
                        lemma_timestamp_us_roundtrip(us);
                    }
                },
                None => {},
            }
        },
        Column::TimestampNanosecond(v) => {
            match v[r] {
                Some(ns) => {
                    if 0 <= ns {
                        lemma_timestamp_ns_roundtrip(ns);
                    }
                },
                None => {},
            }
        },
        _ => {},
    }
}

} // verus!
