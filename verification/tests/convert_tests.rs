use lakeapi2sql::batch::Batch;
use lakeapi2sql::batch::BatchColumn;
use lakeapi2sql::batch::Column;
use lakeapi2sql::convert::get_token_rows;
use lakeapi2sql::error::LakeApi2SqlError;
use lakeapi2sql::types::CellValue;
use lakeapi2sql::types::ColumnType;
use lakeapi2sql::types::SqlDate;
use lakeapi2sql::types::SqlDateTime;
use lakeapi2sql::types::SqlDateTime2;
use lakeapi2sql::types::SqlNumeric;
use lakeapi2sql::types::SqlTime;

fn one_column_batch(name: &str, rows: usize, data: Column) -> Batch {
    Batch {
        num_rows: rows,
        columns: vec![BatchColumn { name: name.to_string(), data }],
    }
}

fn schema(entries: &[(&str, ColumnType)]) -> Vec<(String, ColumnType)> {
    entries.iter().map(|(n, t)| (n.to_string(), *t)).collect()
}

#[test]
fn timestamp_one_day_converts_to_second_epoch_day() {
    let batch = one_column_batch(
        "ts",
        2,
        Column::TimestampMillisecond(vec![Some(86400000), Some(-1000)]),
    );
    let cols = schema(&[("ts", ColumnType::Datetime2)]);
    let rows = get_token_rows(&batch, &cols).unwrap();
    assert_eq!(rows.len(), 2);
    // 1970-01-02T00:00:00: one day past the Unix epoch, 719163 days past
    // 0001-01-01, at midnight.
    assert_eq!(
        rows[0].data[0],
        CellValue::DateTime2(Some(SqlDateTime2 {
            date: SqlDate { days: 719163 },
            time: SqlTime { increments: 0, scale: 7 },
        }))
    );
    // A pre-epoch instant clamps to a destination null.
    assert_eq!(rows[1].data[0], CellValue::DateTime2(None));
}

#[test]
fn timestamp_with_time_of_day_keeps_increments() {
    // 12:34:56.789 on the epoch day.
    let ms: i64 = ((12 * 3600 + 34 * 60 + 56) * 1000 + 789) as i64;
    let batch = one_column_batch("ts", 1, Column::TimestampMillisecond(vec![Some(ms)]));
    let cols = schema(&[("ts", ColumnType::Datetime2)]);
    let rows = get_token_rows(&batch, &cols).unwrap();
    assert_eq!(
        rows[0].data[0],
        CellValue::DateTime2(Some(SqlDateTime2 {
            date: SqlDate { days: 719162 },
            time: SqlTime { increments: (ms as u64) * 10_000, scale: 7 },
        }))
    );
}

#[test]
fn timestamp_microseconds_and_nanoseconds() {
    let us: i64 = 86400000000 + 5_000_000; // 1970-01-02T00:00:05
    let ns: i64 = 86400000000000 + 1_234_567_850; // and one with sub-100ns detail
    let b_us = one_column_batch("c", 1, Column::TimestampMicrosecond(vec![Some(us)]));
    let b_ns = one_column_batch("c", 1, Column::TimestampNanosecond(vec![Some(ns)]));
    let cols = schema(&[("c", ColumnType::Datetime2)]);
    let r_us = get_token_rows(&b_us, &cols).unwrap();
    assert_eq!(
        r_us[0].data[0],
        CellValue::DateTime2(Some(SqlDateTime2 {
            date: SqlDate { days: 719163 },
            time: SqlTime { increments: 50_000_000, scale: 7 },
        }))
    );
    let r_ns = get_token_rows(&b_ns, &cols).unwrap();
    assert_eq!(
        r_ns[0].data[0],
        CellValue::DateTime2(Some(SqlDateTime2 {
            date: SqlDate { days: 719163 },
            // 1234567850 ns after midnight truncates to 100 ns resolution.
            time: SqlTime { increments: 12345678, scale: 7 },
        }))
    );
}

#[test]
fn decimal_mantissa_rescales_to_float_destination() {
    let batch = one_column_batch(
        "d",
        1,
        Column::Decimal128 { scale: 2, values: vec![Some(12345)] },
    );
    let cols = schema(&[("d", ColumnType::Floatn)]);
    let rows = get_token_rows(&batch, &cols).unwrap();
    match &rows[0].data[0] {
        CellValue::F64Bits(Some(bits)) => assert_eq!(f64::from_bits(*bits), 123.45),
        other => panic!("expected a float cell, got {:?}", other),
    }
}

#[test]
fn decimal_mantissa_passes_through_to_numeric_destination() {
    let batch = one_column_batch(
        "d",
        2,
        Column::Decimal128 { scale: 5, values: vec![Some(-9876543210), None] },
    );
    let cols = schema(&[("d", ColumnType::Numericn)]);
    let rows = get_token_rows(&batch, &cols).unwrap();
    assert_eq!(
        rows[0].data[0],
        CellValue::Numeric(Some(SqlNumeric { value: -9876543210, scale: 5 }))
    );
    assert_eq!(rows[1].data[0], CellValue::Numeric(None));
}

#[test]
fn missing_column_degrades_to_nulls_in_every_row() {
    let batch = one_column_batch("present", 3, Column::Int32(vec![Some(1), Some(2), None]));
    let cols = schema(&[("present", ColumnType::Int4), ("absent", ColumnType::Int4)]);
    let rows = get_token_rows(&batch, &cols).unwrap();
    assert_eq!(rows.len(), 3);
    for row in &rows {
        assert_eq!(row.data.len(), 2);
        assert_eq!(row.data[1], CellValue::Text(None));
    }
    assert_eq!(rows[0].data[0], CellValue::I32(Some(1)));
    assert_eq!(rows[2].data[0], CellValue::I32(None));
}

#[test]
fn null_column_yields_destination_typed_nulls() {
    let batch = Batch {
        num_rows: 2,
        columns: vec![
            BatchColumn { name: "a".to_string(), data: Column::Null },
            BatchColumn { name: "b".to_string(), data: Column::Null },
            BatchColumn { name: "c".to_string(), data: Column::Null },
            BatchColumn { name: "d".to_string(), data: Column::Null },
        ],
    };
    let cols = schema(&[
        ("a", ColumnType::NVarchar),
        ("b", ColumnType::Datetime),
        ("c", ColumnType::Bitn),
        ("d", ColumnType::Int8),
    ]);
    let rows = get_token_rows(&batch, &cols).unwrap();
    for row in &rows {
        assert_eq!(row.data[0], CellValue::Text(None));
        assert_eq!(row.data[1], CellValue::DateTime(None));
        assert_eq!(row.data[2], CellValue::Bit(None));
        assert_eq!(row.data[3], CellValue::I32(None));
    }
}

#[test]
fn row_and_cell_counts_match_batch_and_schema() {
    let batch = Batch {
        num_rows: 4,
        columns: vec![
            BatchColumn { name: "x".to_string(), data: Column::Int64(vec![Some(1), None, Some(3), Some(4)]) },
            BatchColumn { name: "y".to_string(), data: Column::Boolean(vec![Some(true), Some(false), None, Some(true)]) },
        ],
    };
    let cols = schema(&[("y", ColumnType::Bit), ("x", ColumnType::Int8), ("z", ColumnType::Text)]);
    let rows = get_token_rows(&batch, &cols).unwrap();
    assert_eq!(rows.len(), 4);
    for row in &rows {
        assert_eq!(row.data.len(), 3);
    }
    assert_eq!(rows[1].data[0], CellValue::Bit(Some(false)));
    assert_eq!(rows[1].data[1], CellValue::I64(None));
}

#[test]
fn boolean_against_integer_destination_is_unsupported() {
    let batch = one_column_batch("b", 1, Column::Boolean(vec![Some(true)]));
    let cols = schema(&[("b", ColumnType::Int4)]);
    match get_token_rows(&batch, &cols) {
        Err(LakeApi2SqlError::NotSupported { dtype, column_type }) => {
            assert_eq!(dtype, "Boolean");
            assert_eq!(column_type, ColumnType::Int4);
        }
        other => panic!("expected the unsupported-pair error, got {:?}", other.is_ok()),
    }
}

#[test]
fn unknown_element_type_is_unsupported_and_named() {
    let batch = one_column_batch(
        "weird",
        1,
        Column::Unsupported { kind_name: "Struct".to_string() },
    );
    let cols = schema(&[("weird", ColumnType::NVarchar)]);
    match get_token_rows(&batch, &cols) {
        Err(LakeApi2SqlError::NotSupported { dtype, column_type }) => {
            assert_eq!(dtype, "Struct");
            assert_eq!(column_type, ColumnType::NVarchar);
        }
        other => panic!("expected the unsupported-pair error, got {:?}", other.is_ok()),
    }
}

#[test]
fn first_unsupported_entry_in_schema_order_wins() {
    let batch = Batch {
        num_rows: 1,
        columns: vec![
            BatchColumn { name: "a".to_string(), data: Column::Int32(vec![Some(1)]) },
            BatchColumn { name: "b".to_string(), data: Column::Decimal128 { scale: 0, values: vec![Some(7)] } },
        ],
    };
    // "a" against Bit has no rule and stands first in schema order.
    let cols = schema(&[("a", ColumnType::Bit), ("b", ColumnType::Bit)]);
    match get_token_rows(&batch, &cols) {
        Err(LakeApi2SqlError::NotSupported { dtype, .. }) => assert_eq!(dtype, "Int32"),
        other => panic!("expected the unsupported-pair error, got {:?}", other.is_ok()),
    }
}

#[test]
fn integer_widenings_preserve_values() {
    let batch = Batch {
        num_rows: 2,
        columns: vec![
            BatchColumn { name: "u16".to_string(), data: Column::UInt16(vec![Some(65535), None]) },
            BatchColumn { name: "u32".to_string(), data: Column::UInt32(vec![Some(4294967295), None]) },
            BatchColumn { name: "i8w".to_string(), data: Column::Int8(vec![Some(-128), Some(127)]) },
            BatchColumn { name: "u8".to_string(), data: Column::UInt8(vec![Some(255), None]) },
            BatchColumn { name: "u8w".to_string(), data: Column::UInt8(vec![Some(255), Some(0)]) },
        ],
    };
    let cols = schema(&[
        ("u16", ColumnType::Int4),
        ("u32", ColumnType::Int8),
        ("i8w", ColumnType::Int2),
        ("u8", ColumnType::Int1),
        ("u8w", ColumnType::Int2),
    ]);
    let rows = get_token_rows(&batch, &cols).unwrap();
    assert_eq!(rows[0].data[0], CellValue::I32(Some(65535)));
    assert_eq!(rows[0].data[1], CellValue::I64(Some(4294967295)));
    assert_eq!(rows[0].data[2], CellValue::I16(Some(-128)));
    assert_eq!(rows[0].data[3], CellValue::U8(Some(255)));
    assert_eq!(rows[1].data[2], CellValue::I16(Some(127)));
    // An unsigned byte against a signed 16-bit destination widens, keeping
    // the full 0..=255 range representable.
    assert_eq!(rows[0].data[4], CellValue::I16(Some(255)));
    assert_eq!(rows[1].data[4], CellValue::I16(Some(0)));
}

#[test]
fn narrow_signed_bytes_reinterpret_like_the_hardware_cast() {
    let batch = one_column_batch("i8", 3, Column::Int8(vec![Some(-1), Some(5), Some(-128)]));
    let cols = schema(&[("i8", ColumnType::Int1)]);
    let rows = get_token_rows(&batch, &cols).unwrap();
    assert_eq!(rows[0].data[0], CellValue::U8(Some((-1i8) as u8)));
    assert_eq!(rows[1].data[0], CellValue::U8(Some(5)));
    assert_eq!(rows[2].data[0], CellValue::U8(Some((-128i8) as u8)));
}

#[test]
fn unsigned_64_bit_values_wrap_like_the_hardware_cast() {
    let big: u64 = u64::MAX - 41;
    let batch = one_column_batch("u", 2, Column::UInt64(vec![Some(big), Some(17)]));
    let cols = schema(&[("u", ColumnType::Int8)]);
    let rows = get_token_rows(&batch, &cols).unwrap();
    assert_eq!(rows[0].data[0], CellValue::I64(Some(big as i64)));
    assert_eq!(rows[1].data[0], CellValue::I64(Some(17)));
}

#[test]
fn text_and_binary_pass_through_by_value() {
    let batch = Batch {
        num_rows: 2,
        columns: vec![
            BatchColumn {
                name: "t".to_string(),
                data: Column::Utf8(vec![Some("héllo".to_string()), None]),
            },
            BatchColumn {
                name: "lb".to_string(),
                data: Column::LargeBinary(vec![Some(vec![1, 2, 255]), None]),
            },
        ],
    };
    let cols = schema(&[("t", ColumnType::NVarchar), ("lb", ColumnType::BigVarBin)]);
    let rows = get_token_rows(&batch, &cols).unwrap();
    assert_eq!(rows[0].data[0], CellValue::Text(Some("héllo".to_string())));
    assert_eq!(rows[1].data[0], CellValue::Text(None));
    assert_eq!(rows[0].data[1], CellValue::Binary(Some(vec![1, 2, 255])));
    assert_eq!(rows[1].data[1], CellValue::Binary(None));
}

#[test]
fn date32_rebases_onto_year_one_epoch() {
    let batch = one_column_batch("d", 3, Column::Date32(vec![Some(0), Some(1), Some(-719162)]));
    let cols = schema(&[("d", ColumnType::Daten)]);
    let rows = get_token_rows(&batch, &cols).unwrap();
    assert_eq!(rows[0].data[0], CellValue::Date(Some(SqlDate { days: 719162 })));
    assert_eq!(rows[1].data[0], CellValue::Date(Some(SqlDate { days: 719163 })));
    assert_eq!(rows[2].data[0], CellValue::Date(Some(SqlDate { days: 0 })));
}

#[test]
fn date32_against_datetime_destination_rebases_onto_1900() {
    let batch = one_column_batch("d", 2, Column::Date32(vec![Some(0), Some(-25567)]));
    let cols = schema(&[("d", ColumnType::Datetime)]);
    let rows = get_token_rows(&batch, &cols).unwrap();
    assert_eq!(
        rows[0].data[0],
        CellValue::DateTime(Some(SqlDateTime { days: 25567, seconds_fragments: 0 }))
    );
    assert_eq!(
        rows[1].data[0],
        CellValue::DateTime(Some(SqlDateTime { days: 0, seconds_fragments: 0 }))
    );
}

#[test]
fn date64_rebases_like_date32() {
    let batch = one_column_batch("d", 1, Column::Date64(vec![Some(20000)]));
    let cols = schema(&[("d", ColumnType::Daten)]);
    let rows = get_token_rows(&batch, &cols).unwrap();
    assert_eq!(rows[0].data[0], CellValue::Date(Some(SqlDate { days: 739162 })));
}

#[test]
fn time_of_day_decomposes_to_wire_increments() {
    // 13:14:15 is 47655 seconds since midnight.
    let b_s = one_column_batch("t", 2, Column::Time32Second(vec![Some(47655), Some(-5)]));
    let b_ms = one_column_batch("t", 1, Column::Time32Millisecond(vec![Some(47655432)]));
    let cols = schema(&[("t", ColumnType::Timen)]);
    let r_s = get_token_rows(&b_s, &cols).unwrap();
    assert_eq!(
        r_s[0].data[0],
        CellValue::Time(Some(SqlTime { increments: 47655 * 10_000_000, scale: 7 }))
    );
    assert_eq!(r_s[1].data[0], CellValue::Time(None));
    let r_ms = get_token_rows(&b_ms, &cols).unwrap();
    assert_eq!(
        r_ms[0].data[0],
        CellValue::Time(Some(SqlTime { increments: 47655432 * 10_000, scale: 7 }))
    );
}

#[test]
fn empty_batch_converts_to_no_rows() {
    let batch = one_column_batch("x", 0, Column::Int32(vec![]));
    let cols = schema(&[("x", ColumnType::Int4)]);
    let rows = get_token_rows(&batch, &cols).unwrap();
    assert!(rows.is_empty());
}

#[test]
fn empty_schema_yields_empty_rows() {
    let batch = one_column_batch("x", 2, Column::Int32(vec![Some(1), Some(2)]));
    let cols: Vec<(String, ColumnType)> = Vec::new();
    let rows = get_token_rows(&batch, &cols).unwrap();
    assert_eq!(rows.len(), 2);
    assert!(rows[0].data.is_empty());
}

#[test]
fn duplicate_column_names_resolve_to_the_first() {
    let batch = Batch {
        num_rows: 1,
        columns: vec![
            BatchColumn { name: "x".to_string(), data: Column::Int32(vec![Some(1)]) },
            BatchColumn { name: "x".to_string(), data: Column::Int32(vec![Some(2)]) },
        ],
    };
    let cols = schema(&[("x", ColumnType::Int4)]);
    let rows = get_token_rows(&batch, &cols).unwrap();
    assert_eq!(rows[0].data[0], CellValue::I32(Some(1)));
}

#[test]
fn the_last_representable_day_fits_the_three_byte_wire_field() {
    // 9999-12-31 is day 3652058 since year one; the wire field holds three
    // bytes, so anything up to 0xFFFFFF is encodable.
    let at_limit: i32 = 0xFFFFFF - 719162;
    let batch = one_column_batch("d", 1, Column::Date32(vec![Some(at_limit)]));
    let cols = schema(&[("d", ColumnType::Daten)]);
    let rows = get_token_rows(&batch, &cols).unwrap();
    assert_eq!(rows[0].data[0], CellValue::Date(Some(SqlDate { days: 0xFFFFFF })));
}

#[test]
fn error_messages_carry_their_context() {
    assert_eq!(
        LakeApi2SqlError::TiberiusError("login refused".to_string()).message(),
        "login refused"
    );
    assert_eq!(
        LakeApi2SqlError::HttpError("connection reset".to_string()).message(),
        "connection reset"
    );
    let e = LakeApi2SqlError::NotSupported {
        dtype: "Interval".to_string(),
        column_type: ColumnType::Money,
    };
    assert_eq!(
        e.message(),
        "no conversion rule for source type Interval to destination type Money"
    );
}
