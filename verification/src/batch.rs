//! The columnar side of the conversion: an immutable snapshot of rows split
//! into named, independently nullable columns of one element type each.
//!
//! Element types mirror what the columnar stream can deliver. Floating-point
//! elements are carried as IEEE 754 bit patterns; a decimal element is a
//! 128-bit mantissa with the column's scale. A column whose element type has
//! no conversion rule at all is kept as `Unsupported` together with its
//! textual type name, so that the engine can name it in the error it returns.

use vstd::prelude::*;

verus! {

/// One column's data: the element type and the per-row values, each
/// independently nullable.
#[derive(Clone, Debug)]
pub enum Column {
    Boolean(Vec<Option<bool>>),
    Int8(Vec<Option<i8>>),
    Int16(Vec<Option<i16>>),
    Int32(Vec<Option<i32>>),
    Int64(Vec<Option<i64>>),
    UInt8(Vec<Option<u8>>),
    UInt16(Vec<Option<u16>>),
    UInt32(Vec<Option<u32>>),
    UInt64(Vec<Option<u64>>),
    /// Half-precision floats, as IEEE 754 binary16 bit patterns.
    Float16(Vec<Option<u16>>),
    /// Single-precision floats, as IEEE 754 binary32 bit patterns.
    Float32(Vec<Option<u32>>),
    /// Double-precision floats, as IEEE 754 binary64 bit patterns.
    Float64(Vec<Option<u64>>),
    Utf8(Vec<Option<String>>),
    LargeUtf8(Vec<Option<String>>),
    Binary(Vec<Option<Vec<u8>>>),
    LargeBinary(Vec<Option<Vec<u8>>>),
    FixedSizeBinary(Vec<Option<Vec<u8>>>),
    /// Milliseconds since the Unix epoch.
    TimestampMillisecond(Vec<Option<i64>>),
    /// Microseconds since the Unix epoch.
    TimestampMicrosecond(Vec<Option<i64>>),
    /// Nanoseconds since the Unix epoch.
    TimestampNanosecond(Vec<Option<i64>>),
    /// Days since the Unix epoch.
    Date32(Vec<Option<i32>>),
    /// Day counts since the Unix epoch, in a 64-bit element.
    Date64(Vec<Option<i64>>),
    /// Seconds since midnight.
    Time32Second(Vec<Option<i32>>),
    /// Milliseconds since midnight.
    Time32Millisecond(Vec<Option<i32>>),
    /// 128-bit mantissas, each to be read as `value / 10^scale`.
    Decimal128 { scale: u8, values: Vec<Option<i128>> },
    /// The untyped null column: every row is null.
    Null,
    /// An element type the engine has no rule for; `kind_name` is its
    /// textual name, used in the resulting error.
    Unsupported { kind_name: String },
}

/// One named column of a batch.
#[derive(Clone, Debug)]
pub struct BatchColumn {
    pub name: String,
    pub data: Column,
}

/// An immutable columnar snapshot of `num_rows` rows.
#[derive(Clone, Debug)]
pub struct Batch {
    pub num_rows: usize,
    pub columns: Vec<BatchColumn>,
}

/// The number of values a column holds, where it holds any.
pub open spec fn column_len(c: Column) -> Option<nat> {
    match c {
        Column::Boolean(v) => Some(v@.len()),
        Column::Int8(v) => Some(v@.len()),
        Column::Int16(v) => Some(v@.len()),
        Column::Int32(v) => Some(v@.len()),
        Column::Int64(v) => Some(v@.len()),
        Column::UInt8(v) => Some(v@.len()),
        Column::UInt16(v) => Some(v@.len()),
        Column::UInt32(v) => Some(v@.len()),
        Column::UInt64(v) => Some(v@.len()),
        Column::Float16(v) => Some(v@.len()),
        Column::Float32(v) => Some(v@.len()),
        Column::Float64(v) => Some(v@.len()),
        Column::Utf8(v) => Some(v@.len()),
        Column::LargeUtf8(v) => Some(v@.len()),
        Column::Binary(v) => Some(v@.len()),
        Column::LargeBinary(v) => Some(v@.len()),
        Column::FixedSizeBinary(v) => Some(v@.len()),
        Column::TimestampMillisecond(v) => Some(v@.len()),
        Column::TimestampMicrosecond(v) => Some(v@.len()),
        Column::TimestampNanosecond(v) => Some(v@.len()),
        Column::Date32(v) => Some(v@.len()),
        Column::Date64(v) => Some(v@.len()),
        Column::Time32Second(v) => Some(v@.len()),
        Column::Time32Millisecond(v) => Some(v@.len()),
        Column::Decimal128 { scale: _, values } => Some(values@.len()),
        Column::Null => None,
        Column::Unsupported { .. } => None,
    }
}

/// The last day the destination's calendar can hold, 9999-12-31, as a count
/// of days since 0001-01-01.
pub const MAX_DAYS_CE: u32 = 3652058;

/// Days from 0001-01-01 to 1970-01-01.
pub const DAYS_CE_TO_UNIX_EPOCH: u32 = 719162;

/// Days from 1900-01-01 to 1970-01-01.
pub const DAYS_1900_TO_UNIX_EPOCH: u32 = 25567;

/// Milliseconds from 1970-01-01T00:00 to 10000-01-01T00:00: the first Unix
/// millisecond count past the destination calendar.
pub const MAX_TIMESTAMP_MS: i64 = 253402300800000;

/// Microseconds from 1970-01-01T00:00 to 10000-01-01T00:00.
pub const MAX_TIMESTAMP_US: i64 = 253402300800000000;

pub const MS_PER_DAY: i64 = 86400000;

pub const US_PER_DAY: i64 = 86400000000;

pub const NS_PER_DAY: i64 = 86400000000000;

pub const SECONDS_PER_DAY: i32 = 86400;

/// Whether every non-null value of the column lies in the range its
/// conversion rule can represent. A value outside these ranges has no
/// encoding on the destination wire at all, so the engine does not accept it.
pub open spec fn column_values_in_range(c: Column) -> bool {
    match c {
        Column::TimestampMillisecond(v) => forall|i: int|
            0 <= i < v@.len() ==> (#[trigger] v[i] matches Some(ms) ==> ms < MAX_TIMESTAMP_MS),
        Column::TimestampMicrosecond(v) => forall|i: int|
            0 <= i < v@.len() ==> (#[trigger] v[i] matches Some(us) ==> us < MAX_TIMESTAMP_US),
        Column::Date32(v) => forall|i: int|
            0 <= i < v@.len() ==> (#[trigger] v[i] matches Some(d) ==> -(DAYS_CE_TO_UNIX_EPOCH as int) <= d
                <= 0xFFFFFF - DAYS_CE_TO_UNIX_EPOCH),
        Column::Date64(v) => forall|i: int|
            0 <= i < v@.len() ==> (#[trigger] v[i] matches Some(d) ==> -(DAYS_CE_TO_UNIX_EPOCH as int) <= d
                <= 0xFFFFFF - DAYS_CE_TO_UNIX_EPOCH),
        Column::Time32Second(v) => forall|i: int|
            0 <= i < v@.len() ==> (#[trigger] v[i] matches Some(s) ==> s < SECONDS_PER_DAY),
        Column::Time32Millisecond(v) => forall|i: int|
            0 <= i < v@.len() ==> (#[trigger] v[i] matches Some(ms) ==> ms < MS_PER_DAY),
        _ => true,
    }
}

impl Batch {
    /// Every data-bearing column holds exactly one value per row, and every
    /// non-null temporal value lies in its destination-representable range.
    pub open spec fn wf(self) -> bool {
        forall|i: int|
            0 <= i < self.columns.len() ==> {
                &&& (column_len(self.columns[i].data) matches Some(n) ==> n == self.num_rows)
                &&& column_values_in_range(self.columns[i].data)
            }
    }

    /// The index of the first column with the given name, if any: batch
    /// column lookup is by name, first match wins.
    pub open spec fn index_of(self, name: Seq<char>) -> Option<int> {
        self.index_of_from(name, 0)
    }

    /// The index of the first column at or after `start` with the given name.
    pub open spec fn index_of_from(self, name: Seq<char>, start: int) -> Option<int>
        decreases self.columns.len() - start,
    {
        if start < 0 || start >= self.columns.len() {
            None
        } else if self.columns[start].name@ == name {
            Some(start)
        } else {
            self.index_of_from(name, start + 1)
        }
    }
}

/// A found column index is in bounds and carries the searched-for name.
pub proof fn lemma_index_of_from_bounds(b: Batch, name: Seq<char>, start: int)
    ensures
        b.index_of_from(name, start) matches Some(i) ==> start <= i < b.columns.len()
            && b.columns[i].name@ == name,
    decreases b.columns.len() - start,
{
    if 0 <= start < b.columns.len() && b.columns[start].name@ != name {
        lemma_index_of_from_bounds(b, name, start + 1);
    }
}

/// Finds the first column of `batch` whose name equals `name`.
pub fn column_index_by_name(batch: &Batch, name: &String) -> (r: Option<usize>)
    ensures
        match r {
            Some(i) => batch.index_of(name@) == Some(i as int),
            None => batch.index_of(name@) is None,
        },
{
    let n = batch.columns.len();
    let mut i: usize = 0;
    while i < n
        invariant
            0 <= i <= n,
            n == batch.columns.len(),
            batch.index_of_from(name@, 0) == batch.index_of_from(name@, i as int),
        decreases n - i,
    {
        if batch.columns[i].name.eq(name) {
            return Some(i);
        }
        i = i + 1;
    }
    None
}

} // verus!
