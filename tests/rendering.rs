use jsonschema::compile::compile_validators;
use jsonschema::content::DefaultContentFunctions;
use jsonschema::describe::{describe_list, number_text};
use jsonschema::validator::{list_errors, Validator};
use jsonschema::value::{Number, Value};

fn uint(n: u64) -> Value {
    Value::Number(Number::PosInt(n))
}

fn obj(props: Vec<(&str, Value)>) -> Value {
    Value::Object(props.into_iter().map(|(k, v)| (k.to_string(), v)).collect())
}

fn compile(schema: &Value) -> Vec<Validator> {
    compile_validators(schema, &DefaultContentFunctions).expect("schema compiles")
}

#[test]
fn describe_conditional() {
    let schema = obj(vec![
        ("if", obj(vec![("minimum", uint(0))])),
        ("then", obj(vec![("maximum", uint(10))])),
        ("else", obj(vec![("maximum", Value::Number(Number::NegInt(-10)))])),
    ]);
    let validators = compile(&schema);
    assert_eq!(validators.len(), 1);
    assert_eq!(validators[0].describe(), "if: {minimum: 0}, then: {maximum: 10}, else: {maximum: -10}");
}

#[test]
fn describe_collections() {
    let validators = compile(&obj(vec![("minimum", uint(10)), ("maximum", uint(5)), ("maxItems", uint(3))]));
    assert_eq!(describe_list(&validators), "{maxItems: 3, maximum: 5, minimum: 10}");
    assert_eq!(describe_list(&Vec::new()), "{}");
    assert_eq!(describe_list(&compile(&Value::Bool(false))), "{false}");
}

#[test]
fn describe_object_and_content_keywords() {
    let validators = compile(&obj(vec![("additionalProperties", obj(vec![("minimum", uint(10))]))]));
    assert_eq!(validators[0].describe(), "additionalProperties: {minimum: 10}");
    let validators = compile(&obj(vec![("additionalProperties", Value::Bool(false))]));
    assert_eq!(validators[0].describe(), "additionalProperties: false");
    let validators = compile(&obj(vec![
        ("contentMediaType", Value::String("application/json".to_string())),
        ("contentEncoding", Value::String("base64".to_string())),
    ]));
    assert_eq!(validators[0].describe(), "{contentMediaType: application/json, contentEncoding: base64}");
}

#[test]
fn error_messages() {
    let validators = compile(&obj(vec![("maximum", uint(3)), ("minItems", uint(2))]));
    let errs = list_errors(&validators, &DefaultContentFunctions, &uint(40));
    assert_eq!(errs[0].message(), "40 is greater than the maximum of 3");
    let errs = list_errors(&validators, &DefaultContentFunctions, &Value::Array(vec![uint(1)]));
    assert_eq!(errs[0].message(), "an array of 1 items has fewer than 2");
    let closed = compile(&obj(vec![("additionalProperties", Value::Bool(false))]));
    let errs = list_errors(&closed, &DefaultContentFunctions, &obj(vec![("extra", Value::Null)]));
    assert_eq!(errs[0].message(), "additional property extra is not allowed");
    assert_eq!(errs[0].keyword(), "additionalProperties");
}

#[test]
fn numbers_render_in_decimal() {
    assert_eq!(number_text(&Number::NegInt(i64::MIN)), "-9223372036854775808");
    assert_eq!(number_text(&Number::PosInt(u64::MAX)), "18446744073709551615");
    assert_eq!(number_text(&Number::PosInt(0)), "0");
}
