use jsonschema::compile::{compile_validators, CompilationError};
use jsonschema::content::DefaultContentFunctions;
use jsonschema::validator::{all_valid, list_errors, ValidationError, Validator};
use jsonschema::value::{Number, Value};

fn uint(n: u64) -> Value {
    Value::Number(Number::PosInt(n))
}

fn sint(n: i64) -> Value {
    Value::Number(Number::NegInt(n))
}

fn text(s: &str) -> Value {
    Value::String(s.to_string())
}

fn obj(props: Vec<(&str, Value)>) -> Value {
    Value::Object(props.into_iter().map(|(k, v)| (k.to_string(), v)).collect())
}

fn compile(schema: &Value) -> Vec<Validator> {
    compile_validators(schema, &DefaultContentFunctions).expect("schema compiles")
}

fn is_valid(schema: &Value, instance: &Value) -> bool {
    let validators = compile(schema);
    let valid = all_valid(&validators, &DefaultContentFunctions, instance);
    let errors = list_errors(&validators, &DefaultContentFunctions, instance);
    assert_eq!(valid, errors.is_empty());
    valid
}

fn errors(schema: &Value, instance: &Value) -> Vec<ValidationError> {
    list_errors(&compile(schema), &DefaultContentFunctions, instance)
}

#[test]
fn maximum_precision_unsigned() {
    let schema = obj(vec![("maximum", uint(1u64 << 54))]);
    assert!(!is_valid(&schema, &uint((1u64 << 54) + 1)));
    assert!(is_valid(&schema, &uint(1u64 << 54)));
}

#[test]
fn maximum_precision_signed() {
    let schema = obj(vec![("maximum", sint(1i64 << 54))]);
    assert!(!is_valid(&schema, &sint((1i64 << 54) + 1)));
}

#[test]
fn minimum_precision_unsigned() {
    let schema = obj(vec![("minimum", uint(1u64 << 54))]);
    assert!(!is_valid(&schema, &uint((1u64 << 54) - 1)));
    assert!(is_valid(&schema, &uint(1u64 << 54)));
}

#[test]
fn minimum_precision_signed() {
    let schema = obj(vec![("minimum", sint(1i64 << 54))]);
    assert!(!is_valid(&schema, &sint((1i64 << 54) - 1)));
}

#[test]
fn maximum_across_signedness() {
    let negative_limit = obj(vec![("maximum", sint(-5))]);
    assert!(!is_valid(&negative_limit, &uint(3)));
    assert!(is_valid(&negative_limit, &sint(-7)));
    assert!(!is_valid(&negative_limit, &uint(u64::MAX)));
    let positive_limit = obj(vec![("maximum", uint(10))]);
    assert!(is_valid(&positive_limit, &sint(-3)));
    assert!(is_valid(&positive_limit, &sint(10)));
    assert!(!is_valid(&positive_limit, &sint(11)));
}

#[test]
fn minimum_across_signedness() {
    let positive_limit = obj(vec![("minimum", uint(10))]);
    assert!(!is_valid(&positive_limit, &sint(-3)));
    let negative_limit = obj(vec![("minimum", sint(-5))]);
    assert!(is_valid(&negative_limit, &uint(3)));
    assert!(!is_valid(&negative_limit, &sint(-6)));
    assert!(is_valid(&negative_limit, &sint(-5)));
}

#[test]
fn maximum_error_carries_instance_and_limit() {
    let errs = errors(&obj(vec![("maximum", uint(3))]), &uint(4));
    assert_eq!(errs.len(), 1);
    assert!(matches!(errs[0], ValidationError::Maximum { instance: Number::PosInt(4), limit: Number::PosInt(3) }));
    assert_eq!(errs[0].keyword(), "maximum");
}

#[test]
fn numeric_bounds_pass_non_numbers() {
    let schema = obj(vec![("maximum", uint(1)), ("minimum", uint(0))]);
    assert!(is_valid(&schema, &text("large")));
    assert!(is_valid(&schema, &Value::Null));
    assert!(is_valid(&schema, &Value::Array(vec![uint(100)])));
}

#[test]
fn numeric_bound_must_be_a_number() {
    let schema = obj(vec![("maximum", text("ten"))]);
    assert!(matches!(compile_validators(&schema, &DefaultContentFunctions), Err(CompilationError::SchemaError)));
}

#[test]
fn items_bounds() {
    let schema = obj(vec![("minItems", uint(1)), ("maxItems", uint(2))]);
    assert!(!is_valid(&schema, &Value::Array(vec![])));
    assert!(is_valid(&schema, &Value::Array(vec![uint(1)])));
    assert!(is_valid(&schema, &Value::Array(vec![uint(1), uint(2)])));
    let errs = errors(&schema, &Value::Array(vec![uint(1), uint(2), uint(3)]));
    assert_eq!(errs.len(), 1);
    assert!(matches!(errs[0], ValidationError::MaxItems { length: 3, limit: 2 }));
    let errs = errors(&schema, &Value::Array(vec![]));
    assert!(matches!(errs[0], ValidationError::MinItems { length: 0, limit: 1 }));
    assert!(is_valid(&schema, &text("not an array")));
}

#[test]
fn items_bound_must_be_non_negative() {
    let schema = obj(vec![("maxItems", sint(-1))]);
    assert!(compile_validators(&schema, &DefaultContentFunctions).is_err());
    let schema = obj(vec![("minItems", text("1"))]);
    assert!(compile_validators(&schema, &DefaultContentFunctions).is_err());
}

#[test]
fn boolean_schemas() {
    assert!(compile(&Value::Bool(true)).is_empty());
    let errs = errors(&Value::Bool(false), &uint(1));
    assert_eq!(errs.len(), 1);
    assert_eq!(errs[0].keyword(), "false");
    assert!(!is_valid(&Value::Bool(false), &Value::Null));
}

#[test]
fn scalar_schema_is_an_error() {
    assert!(compile_validators(&Value::Null, &DefaultContentFunctions).is_err());
    assert!(compile_validators(&uint(3), &DefaultContentFunctions).is_err());
}

#[test]
fn keywords_compile_in_table_order() {
    let schema = obj(vec![("minimum", uint(10)), ("maximum", uint(5))]);
    let errs = errors(&schema, &uint(7));
    assert_eq!(errs.len(), 2);
    assert_eq!(errs[0].keyword(), "maximum");
    assert_eq!(errs[1].keyword(), "minimum");
}

#[test]
fn unknown_keywords_are_ignored() {
    assert!(compile(&obj(vec![("title", text("x"))])).is_empty());
}

#[test]
fn additional_properties_false_reports_first_extra() {
    let schema = obj(vec![("additionalProperties", Value::Bool(false)), ("properties", obj(vec![("a", obj(vec![]))]))]);
    let instance = obj(vec![("a", uint(1)), ("b", uint(2)), ("c", uint(3))]);
    let errs = errors(&schema, &instance);
    assert_eq!(errs.len(), 1);
    match &errs[0] {
        ValidationError::AdditionalProperty { property } => assert_eq!(property, "b"),
        other => panic!("unexpected error {:?}", other),
    }
    assert!(!is_valid(&schema, &instance));
    assert!(is_valid(&schema, &obj(vec![("a", uint(1))])));
}

#[test]
fn additional_properties_false_without_siblings() {
    let schema = obj(vec![("additionalProperties", Value::Bool(false))]);
    assert!(is_valid(&schema, &obj(vec![])));
    let errs = errors(&schema, &obj(vec![("z", uint(1)), ("y", uint(2))]));
    assert_eq!(errs.len(), 1);
    assert!(matches!(&errs[0], ValidationError::AdditionalProperty { property } if property == "z"));
}

#[test]
fn additional_properties_schema_collects_all() {
    let schema = obj(vec![("additionalProperties", obj(vec![("minimum", uint(10))]))]);
    let errs = errors(&schema, &obj(vec![("x", uint(1)), ("y", uint(2))]));
    assert_eq!(errs.len(), 2);
    assert!(matches!(errs[0], ValidationError::Minimum { instance: Number::PosInt(1), .. }));
    assert!(matches!(errs[1], ValidationError::Minimum { instance: Number::PosInt(2), .. }));
}

#[test]
fn additional_properties_schema_order_is_validator_then_property() {
    let schema = obj(vec![("additionalProperties", obj(vec![("maximum", uint(0)), ("minimum", uint(10))]))]);
    let errs = errors(&schema, &obj(vec![("x", uint(1)), ("y", uint(2))]));
    let kinds: Vec<&str> = errs.iter().map(|e| e.keyword()).collect();
    assert_eq!(kinds, vec!["maximum", "maximum", "minimum", "minimum"]);
}

#[test]
fn additional_properties_with_patterns() {
    let schema = obj(vec![
        ("additionalProperties", Value::Bool(false)),
        ("patternProperties", obj(vec![("^x", obj(vec![])), ("^y", obj(vec![]))])),
    ]);
    assert!(is_valid(&schema, &obj(vec![("x1", uint(1)), ("yy", uint(2))])));
    let errs = errors(&schema, &obj(vec![("x1", uint(1)), ("z", uint(2))]));
    assert_eq!(errs.len(), 1);
    assert!(matches!(&errs[0], ValidationError::AdditionalProperty { property } if property == "z"));
}

#[test]
fn additional_properties_with_patterns_and_properties() {
    let schema = obj(vec![
        ("additionalProperties", obj(vec![("maximum", uint(5))])),
        ("patternProperties", obj(vec![("^x", obj(vec![]))])),
        ("properties", obj(vec![("a", obj(vec![]))])),
    ]);
    let instance = obj(vec![("a", uint(100)), ("x9", uint(100)), ("b", uint(6)), ("c", uint(5))]);
    let errs = errors(&schema, &instance);
    assert_eq!(errs.len(), 1);
    assert!(matches!(errs[0], ValidationError::Maximum { instance: Number::PosInt(6), .. }));
}

#[test]
fn additional_properties_invalid_pattern() {
    let schema = obj(vec![("additionalProperties", Value::Bool(false)), ("patternProperties", obj(vec![("(", obj(vec![]))]))]);
    assert!(compile_validators(&schema, &DefaultContentFunctions).is_err());
    let schema = obj(vec![("additionalProperties", Value::Bool(false)), ("patternProperties", uint(1))]);
    assert!(compile_validators(&schema, &DefaultContentFunctions).is_err());
}

#[test]
fn additional_properties_malformed_properties() {
    let schema = obj(vec![("additionalProperties", Value::Bool(false)), ("properties", uint(1))]);
    assert!(compile_validators(&schema, &DefaultContentFunctions).is_err());
}

#[test]
fn additional_properties_true_compiles_to_nothing() {
    assert!(compile(&obj(vec![("additionalProperties", Value::Bool(true))])).is_empty());
    let schema = obj(vec![
        ("additionalProperties", Value::Bool(true)),
        ("properties", obj(vec![("a", obj(vec![]))])),
        ("patternProperties", obj(vec![("^x", obj(vec![]))])),
    ]);
    assert!(compile(&schema).is_empty());
    let schema = obj(vec![("additionalProperties", Value::Bool(true)), ("properties", uint(3))]);
    assert!(compile(&schema).is_empty());
}

#[test]
fn additional_properties_passes_non_objects() {
    let schema = obj(vec![("additionalProperties", Value::Bool(false))]);
    assert!(is_valid(&schema, &Value::Array(vec![uint(1)])));
    assert!(is_valid(&schema, &text("x")));
}

fn if_then_else() -> Value {
    obj(vec![
        ("if", obj(vec![("minimum", uint(0))])),
        ("then", obj(vec![("maximum", uint(10))])),
        ("else", obj(vec![("maximum", sint(-10))])),
    ])
}

#[test]
fn if_then_else_branches() {
    let schema = if_then_else();
    assert!(is_valid(&schema, &uint(5)));
    assert!(!is_valid(&schema, &uint(15)));
    assert!(is_valid(&schema, &sint(-15)));
    assert!(!is_valid(&schema, &sint(-5)));
    let errs = errors(&schema, &sint(-5));
    assert_eq!(errs.len(), 1);
    assert!(matches!(errs[0], ValidationError::Maximum { instance: Number::NegInt(-5), limit: Number::NegInt(-10) }));
    let errs = errors(&schema, &uint(15));
    assert!(matches!(errs[0], ValidationError::Maximum { instance: Number::PosInt(15), limit: Number::PosInt(10) }));
}

#[test]
fn if_then_only() {
    let schema = obj(vec![("if", obj(vec![("minimum", uint(0))])), ("then", obj(vec![("maximum", uint(10))]))]);
    assert!(is_valid(&schema, &sint(-100)));
    assert!(!is_valid(&schema, &uint(11)));
}

#[test]
fn if_else_only() {
    let schema = obj(vec![("if", obj(vec![("minimum", uint(0))])), ("else", obj(vec![("minimum", sint(-10))]))]);
    assert!(is_valid(&schema, &uint(100)));
    assert!(is_valid(&schema, &sint(-3)));
    assert!(!is_valid(&schema, &sint(-11)));
}

#[test]
fn if_alone_compiles_to_nothing() {
    assert!(compile(&obj(vec![("if", obj(vec![("minimum", uint(0))]))])).is_empty());
    assert!(compile(&obj(vec![("if", uint(0))])).is_empty());
}

#[test]
fn if_with_malformed_branch() {
    let schema = obj(vec![("if", obj(vec![])), ("then", uint(3))]);
    assert!(compile_validators(&schema, &DefaultContentFunctions).is_err());
}

fn content_schema() -> Value {
    obj(vec![("contentEncoding", text("base64")), ("contentMediaType", text("application/json"))])
}

#[test]
fn content_chain_accepts_encoded_json() {
    assert!(is_valid(&content_schema(), &text("eyJhIjogMX0=")));
}

#[test]
fn content_chain_reports_encoding_first() {
    let errs = errors(&content_schema(), &text("not-base64!!"));
    assert_eq!(errs.len(), 1);
    assert!(matches!(&errs[0], ValidationError::ContentEncoding { encoding, .. } if encoding == "base64"));
}

#[test]
fn content_chain_reports_media_type() {
    // "bm90IGpzb24=" is the encoding of "not json"
    let errs = errors(&content_schema(), &text("bm90IGpzb24="));
    assert_eq!(errs.len(), 1);
    assert!(matches!(&errs[0], ValidationError::ContentMediaType { media_type, .. } if media_type == "application/json"));
}

#[test]
fn content_chain_reports_conversion_failure() {
    // "/w==" decodes to the single byte 0xFF, which is not UTF-8
    let errs = errors(&content_schema(), &text("/w=="));
    assert_eq!(errs.len(), 1);
    assert!(matches!(errs[0], ValidationError::Conversion(_)));
    assert_eq!(errs[0].keyword(), "contentEncoding");
}

#[test]
fn content_media_type_alone() {
    let schema = obj(vec![("contentMediaType", text("application/json"))]);
    assert!(is_valid(&schema, &text("{\"a\": [1, 2]}")));
    assert!(!is_valid(&schema, &text("{\"a\": ")));
    assert!(is_valid(&schema, &uint(3)));
}

#[test]
fn content_encoding_alone() {
    let schema = obj(vec![("contentEncoding", text("base64"))]);
    assert!(is_valid(&schema, &text("aGVsbG8=")));
    assert!(!is_valid(&schema, &text("***")));
    assert!(is_valid(&schema, &Value::Null));
}

#[test]
fn content_unknown_names_are_skipped() {
    assert!(compile(&obj(vec![("contentMediaType", text("text/unknown"))])).is_empty());
    assert!(compile(&obj(vec![("contentEncoding", text("rot13"))])).is_empty());
    let schema = obj(vec![("contentEncoding", text("rot13")), ("contentMediaType", text("application/json"))]);
    assert!(compile(&schema).is_empty());
}

#[test]
fn content_keywords_must_be_strings() {
    assert!(compile_validators(&obj(vec![("contentMediaType", uint(1))]), &DefaultContentFunctions).is_err());
    assert!(compile_validators(&obj(vec![("contentEncoding", uint(1))]), &DefaultContentFunctions).is_err());
    let schema = obj(vec![("contentEncoding", uint(1)), ("contentMediaType", text("application/json"))]);
    assert!(compile_validators(&schema, &DefaultContentFunctions).is_err());
}

#[test]
fn validity_agrees_with_errors() {
    let schemas = vec![
        if_then_else(),
        content_schema(),
        obj(vec![("additionalProperties", obj(vec![("maxItems", uint(1))])), ("properties", obj(vec![("k", obj(vec![]))]))]),
        obj(vec![("minItems", uint(2)), ("minimum", sint(-2))]),
        Value::Bool(false),
    ];
    let instances = vec![
        uint(3),
        sint(-30),
        text("e30="),
        Value::Array(vec![uint(1)]),
        obj(vec![("k", Value::Array(vec![uint(1), uint(2)])), ("m", Value::Array(vec![uint(1), uint(2)]))]),
        Value::Null,
    ];
    for schema in &schemas {
        for instance in &instances {
            is_valid(schema, instance);
        }
    }
}

#[test]
fn kind_bound_keywords_pass_other_kinds() {
    let schema = obj(vec![
        ("maximum", uint(0)),
        ("maxItems", uint(0)),
        ("additionalProperties", Value::Bool(false)),
        ("contentMediaType", text("application/json")),
    ]);
    assert!(is_valid(&schema, &Value::Bool(true)));
    assert!(is_valid(&schema, &Value::Null));
    assert!(!is_valid(&schema, &uint(1)));
    assert!(!is_valid(&schema, &Value::Array(vec![uint(1)])));
    assert!(!is_valid(&schema, &text("{")));
}
