use lakeapi2sql::batch::Batch;
use lakeapi2sql::batch::BatchColumn;
use lakeapi2sql::batch::Column;
use lakeapi2sql::convert::get_token_rows;
use lakeapi2sql::floatbits::f16_widen_to_f32_bits;
use lakeapi2sql::floatbits::f64_bits_to_i32;
use lakeapi2sql::types::CellValue;
use lakeapi2sql::types::ColumnType;

#[test]
fn f64_bits_cast_agrees_with_the_hardware_cast() {
    let samples: Vec<f64> = vec![
        0.0,
        -0.0,
        1.0,
        -1.0,
        1.5,
        -2.7,
        0.999999,
        -0.5,
        123456789.123,
        -123456789.99,
        2147483646.9,
        2147483647.0,
        2147483648.0,
        -2147483648.0,
        -2147483649.5,
        1.0e10,
        -1.0e10,
        1.0e300,
        -1.0e300,
        f64::MAX,
        f64::MIN,
        f64::INFINITY,
        f64::NEG_INFINITY,
        f64::NAN,
        -f64::NAN,
        f64::MIN_POSITIVE,
        5e-324,
    ];
    for v in samples {
        assert_eq!(
            f64_bits_to_i32(v.to_bits()),
            v as i32,
            "cast disagreement for {v}"
        );
    }
}

#[test]
fn f16_widening_agrees_with_the_half_library() {
    let samples: Vec<u16> = vec![
        0x0000, // +0
        0x8000, // -0
        0x3C00, // 1.0
        0xBC00, // -1.0
        0x3E00, // 1.5
        0x0001, // smallest subnormal
        0x8001,
        0x03FF, // largest subnormal
        0x0400, // smallest normal
        0x7BFF, // largest finite
        0xFBFF,
        0x7C00, // +inf
        0xFC00, // -inf
        0x7E00, // quiet NaN
        0x7C01, // signalling NaN payload
        0x1234, 0xABCD, 0x5555,
    ];
    for bits in samples {
        let expected = half::f16::from_bits(bits).to_f32().to_bits();
        assert_eq!(
            f16_widen_to_f32_bits(bits),
            expected,
            "widening disagreement for {bits:#06x}"
        );
    }
}

#[test]
fn f16_widening_exhaustive_against_half() {
    for bits in 0..=u16::MAX {
        let ours = f16_widen_to_f32_bits(bits);
        let theirs = half::f16::from_bits(bits).to_f32().to_bits();
        assert_eq!(ours, theirs, "widening disagreement for {bits:#06x}");
    }
}

#[test]
fn half_precision_column_widens_to_single_precision() {
    let one_point_five = half::f16::from_f32(1.5).to_bits();
    let batch = Batch {
        num_rows: 2,
        columns: vec![BatchColumn {
            name: "h".to_string(),
            data: Column::Float16(vec![Some(one_point_five), None]),
        }],
    };
    let cols = vec![("h".to_string(), ColumnType::Float4)];
    let rows = get_token_rows(&batch, &cols).unwrap();
    assert_eq!(rows[0].data[0], CellValue::F32Bits(Some(1.5f32.to_bits())));
    assert_eq!(rows[1].data[0], CellValue::F32Bits(None));
}

#[test]
fn double_column_passes_bits_through_or_casts_to_int() {
    let batch = Batch {
        num_rows: 2,
        columns: vec![
            BatchColumn {
                name: "f".to_string(),
                data: Column::Float64(vec![Some(3.25f64.to_bits()), Some((-7.9f64).to_bits())]),
            },
            BatchColumn {
                name: "g".to_string(),
                data: Column::Float64(vec![Some(3.25f64.to_bits()), Some((-7.9f64).to_bits())]),
            },
        ],
    };
    let cols = vec![
        ("f".to_string(), ColumnType::Float8),
        ("g".to_string(), ColumnType::Int4),
    ];
    let rows = get_token_rows(&batch, &cols).unwrap();
    assert_eq!(rows[0].data[0], CellValue::F64Bits(Some(3.25f64.to_bits())));
    assert_eq!(rows[1].data[0], CellValue::F64Bits(Some((-7.9f64).to_bits())));
    assert_eq!(rows[0].data[1], CellValue::I32(Some(3)));
    assert_eq!(rows[1].data[1], CellValue::I32(Some(-7)));
}

#[test]
fn float_column_passes_single_precision_bits_through() {
    let batch = Batch {
        num_rows: 1,
        columns: vec![BatchColumn {
            name: "f".to_string(),
            data: Column::Float32(vec![Some(2.5f32.to_bits())]),
        }],
    };
    let cols = vec![("f".to_string(), ColumnType::Float4)];
    let rows = get_token_rows(&batch, &cols).unwrap();
    assert_eq!(rows[0].data[0], CellValue::F32Bits(Some(2.5f32.to_bits())));
}

#[test]
fn decimal_rescale_agrees_with_rust_decimal_over_samples() {
    let samples: Vec<(i128, u32)> = vec![
        (12345, 2),
        (-12345, 2),
        (0, 0),
        (1, 28),
        (-1, 28),
        (79228162514264337593543950335, 10),
        (-79228162514264337593543950335, 10),
        (42, 0),
    ];
    for (mantissa, scale) in samples {
        let batch = Batch {
            num_rows: 1,
            columns: vec![BatchColumn {
                name: "d".to_string(),
                data: Column::Decimal128 { scale: scale as u8, values: vec![Some(mantissa)] },
            }],
        };
        let cols = vec![("d".to_string(), ColumnType::Floatn)];
        let rows = get_token_rows(&batch, &cols).unwrap();
        let expected = rust_decimal::prelude::ToPrimitive::to_f64(
            &rust_decimal::Decimal::from_i128_with_scale(mantissa, scale),
        )
        .unwrap();
        match &rows[0].data[0] {
            CellValue::F64Bits(Some(bits)) => {
                assert_eq!(f64::from_bits(*bits), expected, "for {mantissa} / 10^{scale}")
            }
            other => panic!("expected a float cell, got {:?}", other),
        }
    }
}
