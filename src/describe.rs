//! Human-readable renderings of validators and of validation errors.
use vstd::prelude::*;
use crate::primitive_type::spec_type_name;
use crate::validator::{ErrorView, ValidationError, Validator};
use crate::value::Number;

verus! {

/// The decimal digit for `d`.
pub open spec fn spec_digit(d: int) -> char {
    if d == 0 {
        '0'
    } else if d == 1 {
        '1'
    } else if d == 2 {
        '2'
    } else if d == 3 {
        '3'
    } else if d == 4 {
        '4'
    } else if d == 5 {
        '5'
    } else if d == 6 {
        '6'
    } else if d == 7 {
        '7'
    } else if d == 8 {
        '8'
    } else {
        '9'
    }
}

/// The decimal notation of a non-negative integer, without leading zeros.
pub open spec fn spec_natural_text(n: nat) -> Seq<char>
    decreases n,
{
    if n < 10 {
        seq![spec_digit(n as int)]
    } else {
        spec_natural_text((n / 10) as nat) + seq![spec_digit((n % 10) as int)]
    }
}

/// The decimal notation of an integer, with `-` before a negative one.
pub open spec fn spec_decimal(n: int) -> Seq<char> {
    if n < 0 {
        seq!['-'] + spec_natural_text((-n) as nat)
    } else {
        spec_natural_text(n as nat)
    }
}

/// Relies on `u64`'s `Display`, which writes the decimal notation.
#[verifier::external_body]
fn u64_text(n: u64) -> (r: String)
    ensures
        r@ == spec_decimal(n as int),
{
    n.to_string()
}

/// Relies on `i64`'s `Display`, which writes the decimal notation.
#[verifier::external_body]
fn i64_text(n: i64) -> (r: String)
    ensures
        r@ == spec_decimal(n as int),
{
    n.to_string()
}

/// The decimal notation of a number.
pub fn number_text(n: &Number) -> (r: String)
    ensures
        r@ == spec_decimal(n.value()),
{
    match *n {
        Number::PosInt(v) => u64_text(v),
        Number::NegInt(v) => i64_text(v),
    }
}

/// The rendering of the first `n` validators of `vs`, joined by `, `.
pub open spec fn spec_describe_upto(vs: Vec<Validator>, n: int) -> Seq<char>
    decreases vs, n,
{
    if n <= 0 || n > vs.len() {
        Seq::empty()
    } else if n == 1 {
        spec_describe(vs[0])
    } else {
        spec_describe_upto(vs, n - 1) + ", "@ + spec_describe(vs[n - 1])
    }
}

/// The rendering of a collection of validators, in braces.
pub open spec fn spec_describe_list(vs: Vec<Validator>) -> Seq<char>
    decreases vs, vs.len() + 1,
{
    "{"@ + spec_describe_upto(vs, vs.len() as int) + "}"@
}

/// The rendering of a validator: its keyword and compiled parameters.
pub open spec fn spec_describe(v: Validator) -> Seq<char>
    decreases v, 0int,
{
    match v {
        Validator::FalseSchema => "false"@,
        Validator::MaximumU64(l) => "maximum: "@ + spec_decimal(l as int),
        Validator::MaximumI64(l) => "maximum: "@ + spec_decimal(l as int),
        Validator::MinimumU64(l) => "minimum: "@ + spec_decimal(l as int),
        Validator::MinimumI64(l) => "minimum: "@ + spec_decimal(l as int),
        Validator::MaxItems(l) => "maxItems: "@ + spec_decimal(l as int),
        Validator::MinItems(l) => "minItems: "@ + spec_decimal(l as int),
        Validator::IfThen { condition, then_branch } => "if: "@ + spec_describe_list(condition) + ", then: "@
            + spec_describe_list(then_branch),
        Validator::IfElse { condition, else_branch } => "if: "@ + spec_describe_list(condition) + ", else: "@
            + spec_describe_list(else_branch),
        Validator::IfThenElse { condition, then_branch, else_branch } => "if: "@ + spec_describe_list(condition)
            + ", then: "@ + spec_describe_list(then_branch) + ", else: "@ + spec_describe_list(else_branch),
        Validator::AdditionalProperties { validators, .. } => "additionalProperties: "@ + spec_describe_list(validators),
        Validator::AdditionalPropertiesFalse { .. } => "additionalProperties: false"@,
        Validator::ContentMediaType { media_type } => "contentMediaType: "@ + media_type@,
        Validator::ContentEncoding { encoding } => "contentEncoding: "@ + encoding@,
        Validator::ContentMediaTypeAndEncoding { media_type, encoding } => "{contentMediaType: "@ + media_type@
            + ", contentEncoding: "@ + encoding@ + "}"@,
    }
}

/// `prefix` followed by `rest`.
fn joined(prefix: &str, rest: &str) -> (r: String)
    ensures
        r@ == prefix@ + rest@,
{
    let mut out = prefix.to_owned();
    out.append(rest);
    out
}

/// Renders a collection of validators, in braces and joined by `, `.
pub fn describe_list(vs: &Vec<Validator>) -> (r: String)
    ensures
        r@ == spec_describe_list(*vs),
    decreases vs, 1int,
{
    let mut out = "{".to_owned();
    let mut i: usize = 0;
    while i < vs.len()
        invariant
            0 <= i <= vs@.len(),
            out@ == "{"@ + spec_describe_upto(*vs, i as int),
        decreases vs@.len() - i,
    {
        if i > 0 {
            out.append(", ");
        }
        let item = vs[i].describe();
        out.append(item.as_str());
        proof {
            assert(("{"@ + spec_describe_upto(*vs, i as int)) + ", "@ + spec_describe(vs[i as int])
                =~= "{"@ + (spec_describe_upto(*vs, i as int) + ", "@ + spec_describe(vs[i as int])));
            assert(("{"@ + spec_describe_upto(*vs, i as int)) + spec_describe(vs[i as int])
                =~= "{"@ + (spec_describe_upto(*vs, i as int) + spec_describe(vs[i as int])));
            assert(i == 0 ==> spec_describe_upto(*vs, i as int) =~= Seq::<char>::empty());
        }
        i = i + 1;
    }
    out.append("}");
    out
}

impl Validator {
    /// Renders the keyword and its compiled parameters.
    pub fn describe(&self) -> (r: String)
        ensures
            r@ == spec_describe(*self),
        decreases self, 0int,
    {
        match self {
            Validator::FalseSchema => "false".to_owned(),
            Validator::MaximumU64(l) => joined("maximum: ", u64_text(*l).as_str()),
            Validator::MaximumI64(l) => joined("maximum: ", i64_text(*l).as_str()),
            Validator::MinimumU64(l) => joined("minimum: ", u64_text(*l).as_str()),
            Validator::MinimumI64(l) => joined("minimum: ", i64_text(*l).as_str()),
            Validator::MaxItems(l) => joined("maxItems: ", u64_text(*l).as_str()),
            Validator::MinItems(l) => joined("minItems: ", u64_text(*l).as_str()),
            Validator::IfThen { condition, then_branch } => {
                let mut out = joined("if: ", describe_list(condition).as_str());
                out.append(", then: ");
                out.append(describe_list(then_branch).as_str());
                out
            },
            Validator::IfElse { condition, else_branch } => {
                let mut out = joined("if: ", describe_list(condition).as_str());
                out.append(", else: ");
                out.append(describe_list(else_branch).as_str());
                out
            },
            Validator::IfThenElse { condition, then_branch, else_branch } => {
                let mut out = joined("if: ", describe_list(condition).as_str());
                out.append(", then: ");
                out.append(describe_list(then_branch).as_str());
                out.append(", else: ");
                out.append(describe_list(else_branch).as_str());
                out
            },
            Validator::AdditionalProperties { validators, .. } => joined(
                "additionalProperties: ",
                describe_list(validators).as_str(),
            ),
            Validator::AdditionalPropertiesFalse { .. } => "additionalProperties: false".to_owned(),
            Validator::ContentMediaType { media_type } => joined("contentMediaType: ", media_type.as_str()),
            Validator::ContentEncoding { encoding } => joined("contentEncoding: ", encoding.as_str()),
            Validator::ContentMediaTypeAndEncoding { media_type, encoding } => {
                let mut out = joined("{contentMediaType: ", media_type.as_str());
                out.append(", contentEncoding: ");
                out.append(encoding.as_str());
                out.append("}");
                out
            },
        }
    }
}

/// The human-readable message of an error.
pub open spec fn spec_message(e: ErrorView) -> Seq<char> {
    match e {
        ErrorView::FalseSchema { kind } => "the schema false does not allow this "@ + spec_type_name(kind),
        ErrorView::AdditionalProperty { property } => "additional property "@ + property + " is not allowed"@,
        ErrorView::Maximum { instance, limit } => spec_decimal(instance.value()) + " is greater than the maximum of "@
            + spec_decimal(limit.value()),
        ErrorView::Minimum { instance, limit } => spec_decimal(instance.value()) + " is less than the minimum of "@
            + spec_decimal(limit.value()),
        ErrorView::MaxItems { length, limit } => "an array of "@ + spec_decimal(length as int) + " items has more than "@
            + spec_decimal(limit as int),
        ErrorView::MinItems { length, limit } => "an array of "@ + spec_decimal(length as int) + " items has fewer than "@
            + spec_decimal(limit as int),
        ErrorView::ContentEncoding { instance, encoding } => instance + " is not compliant with the content encoding "@
            + encoding,
        ErrorView::ContentMediaType { instance, media_type } => instance + " is not compliant with the media type "@
            + media_type,
        ErrorView::Conversion { message } => message,
    }
}

/// `a`, `b` and `c` in turn.
fn joined3(a: &str, b: &str, c: &str) -> (r: String)
    ensures
        r@ == a@ + b@ + c@,
{
    let mut out = a.to_owned();
    out.append(b);
    out.append(c);
    out
}

impl ValidationError {
    /// The human-readable message of the error.
    pub fn message(&self) -> (r: String)
        ensures
            r@ == spec_message(self@),
    {
        match self {
            ValidationError::FalseSchema { kind } => joined("the schema false does not allow this ", kind.name()),
            ValidationError::AdditionalProperty { property } => joined3(
                "additional property ",
                property.as_str(),
                " is not allowed",
            ),
            ValidationError::Maximum { instance, limit } => joined3(
                number_text(instance).as_str(),
                " is greater than the maximum of ",
                number_text(limit).as_str(),
            ),
            ValidationError::Minimum { instance, limit } => joined3(
                number_text(instance).as_str(),
                " is less than the minimum of ",
                number_text(limit).as_str(),
            ),
            ValidationError::MaxItems { length, limit } => {
                let mut out = joined3("an array of ", u64_text(*length).as_str(), " items has more than ");
                out.append(u64_text(*limit).as_str());
                out
            },
            ValidationError::MinItems { length, limit } => {
                let mut out = joined3("an array of ", u64_text(*length).as_str(), " items has fewer than ");
                out.append(u64_text(*limit).as_str());
                out
            },
            ValidationError::ContentEncoding { instance, encoding } => joined3(
                instance.as_str(),
                " is not compliant with the content encoding ",
                encoding.as_str(),
            ),
            ValidationError::ContentMediaType { instance, media_type } => joined3(
                instance.as_str(),
                " is not compliant with the media type ",
                media_type.as_str(),
            ),
            ValidationError::Conversion(e) => e.message.clone(),
        }
    }
}

} // verus!
