use std::cmp::Ordering;

use vectordb::{
    avx2_dot_i8_sum, avx2_squared_l2_i8_sum, avx512_dot_i8_sum, avx512_squared_l2_i8_sum,
    chunked_dot_i8_sum, chunked_squared_l2_i8_sum, dot_i8_sum, squared_l2_i8_sum, DataType, Doc,
    DocId, Error, FieldSchema, Limits, Schema, Value, F16, MAX_I8_DIMENSION,
};

fn bits32(values: &[f32]) -> Vec<u32> {
    values.iter().map(|value| value.to_bits()).collect()
}

fn field(name: &str, data_type: DataType) -> FieldSchema {
    FieldSchema::builder(name, data_type).build().unwrap()
}

fn vector_field(name: &str, data_type: DataType, dimension: usize) -> FieldSchema {
    FieldSchema::builder(name, data_type)
        .dimension(dimension)
        .build()
        .unwrap()
}

fn one_field_schema(field: FieldSchema) -> Schema {
    Schema::builder().field(field).build().unwrap()
}

fn invalid_message(error: Error) -> String {
    assert!(matches!(error, Error::InvalidArgument { .. }), "{error:?}");
    error.message().unwrap().to_owned()
}

const ALL_TYPES: [DataType; 23] = [
    DataType::Bool,
    DataType::I32,
    DataType::I64,
    DataType::U32,
    DataType::U64,
    DataType::F32,
    DataType::F64,
    DataType::String,
    DataType::Binary,
    DataType::BoolArray,
    DataType::I32Array,
    DataType::I64Array,
    DataType::U32Array,
    DataType::U64Array,
    DataType::F32Array,
    DataType::F64Array,
    DataType::StringArray,
    DataType::BinaryArray,
    DataType::DenseVectorF32,
    DataType::DenseVectorF16,
    DataType::DenseVectorI8,
    DataType::SparseVectorF32,
    DataType::SparseVectorF16,
];

#[test]
fn vector_classification_is_dense_or_sparse() {
    for data_type in ALL_TYPES {
        assert_eq!(
            data_type.is_vector(),
            data_type.is_dense_vector() || data_type.is_sparse_vector()
        );
        assert_eq!(data_type.requires_dimension(), data_type.is_vector());
        assert!(!(data_type.is_dense_vector() && data_type.is_sparse_vector()));
        assert_eq!(format!("{data_type:?}"), data_type.variant_name());
    }
}

#[test]
fn doc_id_renders_its_decimal_value() {
    assert_eq!(DocId::new(42).to_string(), "42");
    assert_eq!(DocId::new(0).to_string(), "0");
    assert_eq!(DocId::new(u64::MAX).to_string(), u64::MAX.to_string());
    assert_eq!(u64::from(DocId::new(7)), 7);
}

#[test]
fn error_text_is_category_prefix_and_message() {
    assert_eq!(Error::invalid_argument("x").to_string(), "invalid argument: x");
    assert_eq!(Error::not_found("x").to_string(), "not found: x");
    assert_eq!(Error::already_exists("x").to_string(), "already exists: x");
    assert_eq!(Error::corruption("x").to_string(), "corruption: x");
    assert_eq!(Error::unsupported("x").to_string(), "unsupported: x");
    assert_eq!(Error::internal("x").to_string(), "internal error: x");
    let io = Error::io(std::io::Error::other("disk"));
    assert_eq!(io.to_string(), "I/O error: disk");
    assert!(io.source().is_some());
    assert!(Error::internal("x").source().is_none());
}

#[test]
fn field_errors_carry_exact_messages() {
    let cases: [(&str, DataType, Option<usize>, &str); 8] = [
        (
            "pk",
            DataType::String,
            None,
            "field name `pk` is reserved for the implicit string primary key",
        ),
        ("", DataType::String, None, "field name cannot be empty"),
        (
            "9field",
            DataType::String,
            None,
            "field name `9field` must be an ASCII identifier",
        ),
        (
            "v",
            DataType::DenseVectorF32,
            None,
            "vector field `v` requires a dimension",
        ),
        (
            "s",
            DataType::F32,
            Some(3),
            "non-vector field `s` cannot have a dimension",
        ),
        (
            "v",
            DataType::DenseVectorI8,
            Some(0),
            "vector field `v` must have a non-zero dimension",
        ),
        (
            "v",
            DataType::DenseVectorF16,
            Some(16_385),
            "vector field `v` dimension 16385 exceeds limit 16384",
        ),
        (
            "s",
            DataType::SparseVectorF32,
            Some(4_294_967_297),
            "sparse vector field `s` dimension 4294967297 exceeds the u32 coordinate capacity of 4294967296",
        ),
    ];
    for (name, data_type, dimension, expected) in cases {
        let mut builder = FieldSchema::builder(name, data_type);
        if let Some(dimension) = dimension {
            builder = builder.dimension(dimension);
        }
        assert_eq!(invalid_message(builder.build().unwrap_err()), expected);
    }
}

#[test]
fn schema_errors_carry_exact_messages() {
    let error = Schema::builder()
        .field(field("title", DataType::String))
        .field(field("title", DataType::I32))
        .build()
        .unwrap_err();
    assert_eq!(invalid_message(error), "duplicate field name `title`");

    let mut builder = Schema::builder();
    for index in 0..5 {
        builder = builder.field(vector_field(&format!("v{index}"), DataType::DenseVectorI8, 1));
    }
    assert_eq!(
        invalid_message(builder.build().unwrap_err()),
        "schema has 5 vector fields, exceeding limit 4"
    );
}

#[test]
fn schema_reports_the_first_problem_in_field_order() {
    let mut limits = Limits::default();
    limits.max_vector_dimension = 8;
    let wide = FieldSchema::builder("wide", DataType::DenseVectorF32)
        .dimension(9)
        .build_with_limits(&Limits::default())
        .unwrap();
    let error = Schema::builder()
        .limits(limits)
        .field(field("a", DataType::Bool))
        .field(field("a", DataType::Bool))
        .field(wide)
        .build()
        .unwrap_err();
    assert_eq!(invalid_message(error), "duplicate field name `a`");
}

#[test]
fn schema_lookup_finds_fields_by_exact_name() {
    let schema = Schema::builder()
        .field(field("title", DataType::String))
        .field(field("Title", DataType::I32))
        .build()
        .unwrap();
    assert_eq!(schema.field("Title").unwrap().data_type(), DataType::I32);
    assert_eq!(schema.field("title").unwrap().data_type(), DataType::String);
    assert!(schema.field("titl").is_none());
    let copy = schema.clone();
    assert_eq!(copy.fields().len(), 2);
    assert_eq!(copy.limits(), schema.limits());
}

#[test]
fn write_then_read_returns_what_was_written() {
    let mut doc = Doc::new();
    doc.set_i32("count", 1).set_i32("count", 2).set_string("name", "first");
    assert_eq!(doc.get_i32("count").unwrap(), Some(2));
    doc.set_null("count");
    assert!(doc.is_null("count"));
    assert_eq!(doc.get_i32("count").unwrap(), None);
    doc.set_u64("count", 9);
    assert_eq!(doc.get_u64("count").unwrap(), Some(9));
    assert_eq!(doc.get_string("name").unwrap(), Some("first"));
    assert!(!doc.contains_field("other"));
}

#[test]
fn getters_report_the_stored_and_expected_types() {
    let mut doc = Doc::new();
    doc.set_string("value", "text");
    assert_eq!(
        invalid_message(doc.get_bool("value").unwrap_err()),
        "field `value` has type String, expected Bool"
    );
    assert_eq!(
        invalid_message(doc.get_sparse_vector_f16("value").unwrap_err()),
        "field `value` has type String, expected SparseVectorF16"
    );
}

#[test]
fn validation_reports_the_first_failing_entry_in_name_order() {
    let schema = one_field_schema(field("count", DataType::U64));
    let mut doc = Doc::new();
    doc.set_u64("count", 1).set_bool("zeta", true).set_bool("alpha", true);
    assert_eq!(
        invalid_message(doc.validate(&schema).unwrap_err()),
        "document contains unknown field `alpha`"
    );
    let mut doc = Doc::new();
    doc.set_bool("count", true).set_bool("b", true);
    assert_eq!(
        invalid_message(doc.validate(&schema).unwrap_err()),
        "document contains unknown field `b`"
    );
    let mut doc = Doc::new();
    doc.set_bool("count", true).set_bool("d", true);
    assert_eq!(
        invalid_message(doc.validate(&schema).unwrap_err()),
        "field `count` has type Bool, expected U64"
    );
}

#[test]
fn validation_messages_name_the_field_and_the_rule() {
    let schema = one_field_schema(field("title", DataType::String));
    let mut explicit = Doc::new();
    explicit.set_null("title");
    assert_eq!(
        invalid_message(explicit.validate(&schema).unwrap_err()),
        "non-nullable field `title` cannot be null"
    );
    assert_eq!(
        invalid_message(Doc::new().validate(&schema).unwrap_err()),
        "non-nullable field `title` is missing or null"
    );

    let schema = one_field_schema(vector_field("v", DataType::DenseVectorF32, 2));
    let mut doc = Doc::new();
    doc.set_dense_vector_f32("v", bits32(&[1.0]));
    assert_eq!(
        invalid_message(schema.validate_doc(&doc).unwrap_err()),
        "dense vector field `v` has dimension 1, expected 2"
    );
    doc.set_dense_vector_f32("v", bits32(&[1.0, f32::NAN]));
    assert_eq!(
        invalid_message(schema.validate_doc(&doc).unwrap_err()),
        "field `v` contains a non-finite floating-point value"
    );

    let mut limits = Limits::default();
    limits.max_sparse_vector_entries = 2;
    let sparse = FieldSchema::builder("s", DataType::SparseVectorF32)
        .dimension(4)
        .build_with_limits(&limits)
        .unwrap();
    let schema = Schema::builder().limits(limits).field(sparse).build().unwrap();
    let cases: [(Vec<u32>, Vec<f32>, &str); 4] = [
        (
            vec![0, 1],
            vec![1.0],
            "sparse vector field `s` has 2 indices but 1 values",
        ),
        (
            vec![0, 1, 2],
            vec![1.0, 1.0, 1.0],
            "sparse vector field `s` has 3 entries, exceeding limit 2",
        ),
        (
            vec![1, 1],
            vec![1.0, 1.0],
            "sparse vector field `s` indices must be strictly increasing and unique",
        ),
        (
            vec![1, 4],
            vec![1.0, 1.0],
            "sparse vector field `s` contains an index outside dimension 4",
        ),
    ];
    for (indices, values, expected) in cases {
        let mut doc = Doc::new();
        doc.set_sparse_vector_f32("s", indices, bits32(&values));
        assert_eq!(invalid_message(doc.validate(&schema).unwrap_err()), expected);
    }
}

#[test]
fn nullable_fields_accept_null_and_absence() {
    let schema = Schema::builder()
        .field(
            FieldSchema::builder("note", DataType::String)
                .nullable(true)
                .build()
                .unwrap(),
        )
        .build()
        .unwrap();
    Doc::new().validate(&schema).unwrap();
    let mut doc = Doc::new();
    doc.set_null("note");
    doc.validate(&schema).unwrap();
}

#[test]
fn f16_equality_and_order_follow_ieee_754() {
    let positive_zero = F16::from_bits(0x0000);
    let negative_zero = F16::from_bits(0x8000);
    let one = F16::from_bits(0x3c00);
    let minus_one = F16::from_bits(0xbc00);
    let two = F16::from_bits(0x4000);
    let nan = F16::from_bits(0x7e00);
    let infinity = F16::from_bits(0x7c00);

    assert_eq!(positive_zero, negative_zero);
    assert_eq!(negative_zero.partial_cmp(&positive_zero), Some(Ordering::Equal));
    assert_eq!(one.partial_cmp(&two), Some(Ordering::Less));
    assert_eq!(minus_one.partial_cmp(&one), Some(Ordering::Less));
    assert_eq!(F16::from_bits(0xc000).partial_cmp(&minus_one), Some(Ordering::Less));
    assert_eq!(infinity.partial_cmp(&two), Some(Ordering::Greater));
    assert_eq!(nan.partial_cmp(&one), None);
    assert_ne!(nan, nan);
    assert!(nan.is_nan());
    assert!(!infinity.is_nan());
    assert!(!infinity.is_finite());
    assert!(two.is_finite());
}

#[test]
fn doc_equality_follows_stored_floating_point_values() {
    let mut a = Doc::new();
    a.set_f32("x", 0.0f32.to_bits()).set_string("s", "v");
    let mut b = Doc::new();
    b.set_string("s", "v").set_f32("x", (-0.0f32).to_bits());
    assert!(a == b);

    let mut nan = Doc::new();
    nan.set_dense_vector_f32("v", bits32(&[f32::NAN]));
    assert!(nan != nan.clone());

    let mut c = Doc::new();
    c.set_string("s", "w").set_f32("x", 0.0f32.to_bits());
    assert!(a != c);

    let copy = a.clone();
    assert!(copy == a);
    assert_eq!(copy.get_string("s").unwrap(), Some("v"));
}

#[test]
fn values_report_their_logical_type() {
    assert_eq!(Value::Null.data_type(), None);
    assert_eq!(Value::U32(1).data_type(), Some(DataType::U32));
    assert_eq!(
        Value::SparseVectorF16 {
            indices: vec![],
            values: vec![]
        }
        .data_type(),
        Some(DataType::SparseVectorF16)
    );
}

#[test]
fn chunked_i8_sums_equal_the_plain_sums() {
    let a: Vec<i8> = (0..41).map(|i| (i * 37 % 251 - 125) as i8).collect();
    let b: Vec<i8> = (0..41).map(|i| (i * 53 % 241 - 120) as i8).collect();
    for n in 0..=a.len() {
        assert_eq!(
            chunked_squared_l2_i8_sum(&a[..n], &b[..n]),
            squared_l2_i8_sum(&a[..n], &b[..n])
        );
        assert_eq!(chunked_dot_i8_sum(&a[..n], &b[..n]), dot_i8_sum(&a[..n], &b[..n]));
    }
    let a_i8 = [1, 2, 3, -4, 5, -6, 7, 8, -9, 10, 11];
    let b_i8 = [4, 6, 8, 2, -3, 1, 5, -7, 9, 0, -2];
    assert_eq!(chunked_squared_l2_i8_sum(&a_i8, &b_i8), squared_l2_i8_sum(&a_i8, &b_i8));
    assert_eq!(chunked_dot_i8_sum(&a_i8, &b_i8), dot_i8_sum(&a_i8, &b_i8));
}

#[test]
fn limits_clone_and_default_agree() {
    let limits = Limits::default();
    assert_eq!(limits.clone(), limits);
    assert_eq!(limits.max_vector_fields, 4);
}

#[test]
fn lane_layout_sums_equal_the_plain_sums() {
    let a: Vec<i8> = (0..300).map(|i| ((i * 73 + 11) % 256 - 128) as i8).collect();
    let b: Vec<i8> = (0..300).map(|i| ((i * 151 + 5) % 256 - 128) as i8).collect();
    for n in 0..=a.len() {
        let (x, y) = (&a[..n], &b[..n]);
        let squared = squared_l2_i8_sum(x, y);
        let dot = dot_i8_sum(x, y);
        assert_eq!(avx2_squared_l2_i8_sum(x, y), squared, "n = {n}");
        assert_eq!(avx512_squared_l2_i8_sum(x, y), squared, "n = {n}");
        assert_eq!(avx2_dot_i8_sum(x, y), dot, "n = {n}");
        assert_eq!(avx512_dot_i8_sum(x, y), dot, "n = {n}");
    }
}

#[test]
fn lane_layout_sums_are_exact_at_the_max_dimension() {
    let lows = vec![i8::MIN; MAX_I8_DIMENSION];
    let highs = vec![i8::MAX; MAX_I8_DIMENSION];
    assert_eq!(avx2_squared_l2_i8_sum(&lows, &highs), 32_768 * 65_025);
    assert_eq!(avx512_squared_l2_i8_sum(&lows, &highs), 32_768 * 65_025);
    assert_eq!(avx2_dot_i8_sum(&lows, &lows), 32_768 * 16_384);
    assert_eq!(avx512_dot_i8_sum(&lows, &lows), 32_768 * 16_384);
    assert_eq!(avx512_dot_i8_sum(&lows, &highs), -32_768 * 16_256);
}

#[test]
fn vnni_query_bias_identity_matches_signed_dot_product() {
    // The biased sum Σ (q ^ 0x80)·t − 128·Σ t equals the signed dot product Σ q·t.
    const EDGE_VALUES: [i8; 7] = [-128, -127, -1, 0, 1, 126, 127];
    const LANES: usize = 64;
    let signed_dot = |query: &[i8], target: &[i8]| -> i32 {
        query.iter().zip(target).map(|(q, t)| i32::from(*q) * i32::from(*t)).sum()
    };

    for query_value in EDGE_VALUES {
        for target_value in EDGE_VALUES {
            let query = [query_value; LANES];
            let target = [target_value; LANES];
            assert_eq!(
                avx512_dot_i8_sum(&query, &target),
                signed_dot(&query, &target),
                "query value {query_value}, target value {target_value}"
            );
        }
    }

    // Asymmetric vectors from a fixed linear congruential sequence.
    let mut state: u32 = 0x2545_f491;
    let mut next = || {
        state = state.wrapping_mul(1_664_525).wrapping_add(1_013_904_223);
        (state >> 24) as u8 as i8
    };
    for _ in 0..32 {
        let query: Vec<i8> = (0..LANES).map(|_| next()).collect();
        let target: Vec<i8> = (0..LANES).map(|_| next()).collect();
        assert_ne!(query, target);
        assert_eq!(avx512_dot_i8_sum(&query, &target), signed_dot(&query, &target));
    }
}

#[test]
fn doc_ids_compare_by_value() {
    let small = DocId::new(7);
    let large = DocId::new(u64::MAX);
    assert_eq!(small.partial_cmp(&large), Some(Ordering::Less));
    assert_eq!(large.partial_cmp(&small), Some(Ordering::Greater));
    assert_eq!(small.partial_cmp(&DocId::new(7)), Some(Ordering::Equal));
    assert!(small <= DocId::new(7) && small >= DocId::new(7));
    assert_eq!(small.cmp(&large), Ordering::Less);
    let mut ids = vec![DocId::new(3), DocId::new(1), DocId::new(2)];
    ids.sort();
    assert_eq!(ids.iter().map(|id| id.get()).collect::<Vec<u64>>(), vec![1, 2, 3]);
}
