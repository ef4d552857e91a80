//! Compiled validators: what each one accepts, and the errors it reports.
use vstd::prelude::*;
use crate::content::{ContentFunctions, ConversionError};
use crate::numeric::{num_gt_i64, num_gt_u64, num_lt_i64, num_lt_u64};
use crate::pattern::{regex_matches, Pattern};
use crate::primitive_type::{spec_kind_of, PrimitiveType};
use crate::value::{Number, Value};

verus! {

/// The properties that an `additionalProperties` keyword leaves alone: those
/// named by a sibling `properties`, and those that the alternation of the
/// names of a sibling `patternProperties` matches.
pub struct Exemptions {
    pub properties: Option<Vec<String>>,
    pub pattern: Option<Pattern>,
}

/// Whether the property `name` is left alone by `e`.
pub open spec fn spec_exempt(e: Exemptions, name: Seq<char>) -> bool {
    let named = match e.properties {
        Some(ps) => exists|i: int| 0 <= i < ps.len() && (#[trigger] ps@[i])@ == name,
        None => false,
    };
    let matched = match e.pattern {
        Some(p) => regex_matches(p.source(), name),
        None => false,
    };
    named || matched
}

impl Exemptions {
    /// Whether the property `name` is left alone.
    pub fn is_exempt(&self, name: &String) -> (r: bool)
        ensures
            r == spec_exempt(*self, name@),
    {
        if let Some(ps) = &self.properties {
            let mut i: usize = 0;
            while i < ps.len()
                invariant
                    0 <= i <= ps@.len(),
                    self.properties == Some(*ps),
                    forall|j: int| 0 <= j < i ==> (#[trigger] ps@[j])@ != name@,
                decreases ps@.len() - i,
            {
                if ps[i] == *name {
                    let ghost q = self.properties->Some_0;
                    assert(q@[i as int]@ == name@);
                    return true;
                }
                i = i + 1;
            }
        }
        match &self.pattern {
            Some(p) => p.is_match(name.as_str()),
            None => false,
        }
    }
}

/// A compiled check of one schema keyword (or of the schema `false`).
pub enum Validator {
    /// The schema `false`: fails for every instance.
    FalseSchema,
    /// `maximum` with a non-negative integer limit.
    MaximumU64(u64),
    /// `maximum` with a negative integer limit.
    MaximumI64(i64),
    /// `minimum` with a non-negative integer limit.
    MinimumU64(u64),
    /// `minimum` with a negative integer limit.
    MinimumI64(i64),
    /// `maxItems`.
    MaxItems(u64),
    /// `minItems`.
    MinItems(u64),
    /// `if` with `then` and no `else`.
    IfThen { condition: Vec<Validator>, then_branch: Vec<Validator> },
    /// `if` with `else` and no `then`.
    IfElse { condition: Vec<Validator>, else_branch: Vec<Validator> },
    /// `if` with both `then` and `else`.
    IfThenElse { condition: Vec<Validator>, then_branch: Vec<Validator>, else_branch: Vec<Validator> },
    /// `additionalProperties` with a sub-schema.
    AdditionalProperties { validators: Vec<Validator>, exemptions: Exemptions },
    /// `additionalProperties: false`.
    AdditionalPropertiesFalse { exemptions: Exemptions },
    /// `contentMediaType` without `contentEncoding`.
    ContentMediaType { media_type: String },
    /// `contentEncoding` without `contentMediaType`.
    ContentEncoding { encoding: String },
    /// `contentMediaType` together with `contentEncoding`.
    ContentMediaTypeAndEncoding { media_type: String, encoding: String },
}

/// A violation found by a validator.
#[derive(Debug)]
#[allow(inconsistent_fields)]
pub enum ValidationError {
    /// The schema `false` rejects every instance; `kind` is the instance's kind.
    FalseSchema { kind: PrimitiveType },
    /// `additionalProperties: false` met the property `property`.
    AdditionalProperty { property: String },
    Maximum { instance: Number, limit: Number },
    Minimum { instance: Number, limit: Number },
    MaxItems { length: u64, limit: u64 },
    MinItems { length: u64, limit: u64 },
    ContentEncoding { instance: String, encoding: String },
    ContentMediaType { instance: String, media_type: String },
    /// A content converter failed.
    Conversion(ConversionError),
}

/// A [`ValidationError`] over plain values.
#[allow(inconsistent_fields)]
pub enum ErrorView {
    FalseSchema { kind: PrimitiveType },
    AdditionalProperty { property: Seq<char> },
    Maximum { instance: Number, limit: Number },
    Minimum { instance: Number, limit: Number },
    MaxItems { length: u64, limit: u64 },
    MinItems { length: u64, limit: u64 },
    ContentEncoding { instance: Seq<char>, encoding: Seq<char> },
    ContentMediaType { instance: Seq<char>, media_type: Seq<char> },
    Conversion { message: Seq<char> },
}

impl View for ValidationError {
    type V = ErrorView;

    open spec fn view(&self) -> ErrorView {
        match self {
            ValidationError::FalseSchema { kind } => ErrorView::FalseSchema { kind: *kind },
            ValidationError::AdditionalProperty { property } => ErrorView::AdditionalProperty { property: property@ },
            ValidationError::Maximum { instance, limit } => ErrorView::Maximum { instance: *instance, limit: *limit },
            ValidationError::Minimum { instance, limit } => ErrorView::Minimum { instance: *instance, limit: *limit },
            ValidationError::MaxItems { length, limit } => ErrorView::MaxItems { length: *length, limit: *limit },
            ValidationError::MinItems { length, limit } => ErrorView::MinItems { length: *length, limit: *limit },
            ValidationError::ContentEncoding { instance, encoding } => ErrorView::ContentEncoding { instance: instance@, encoding: encoding@ },
            ValidationError::ContentMediaType { instance, media_type } => ErrorView::ContentMediaType { instance: instance@, media_type: media_type@ },
            ValidationError::Conversion(e) => ErrorView::Conversion { message: e.message@ },
        }
    }
}

impl ValidationError {
    /// The keyword that was violated.
    pub fn keyword(&self) -> (r: &'static str)
        ensures
            r@ == spec_error_keyword(self@),
    {
        match self {
            ValidationError::FalseSchema { .. } => "false",
            ValidationError::AdditionalProperty { .. } => "additionalProperties",
            ValidationError::Maximum { .. } => "maximum",
            ValidationError::Minimum { .. } => "minimum",
            ValidationError::MaxItems { .. } => "maxItems",
            ValidationError::MinItems { .. } => "minItems",
            ValidationError::ContentEncoding { .. } => "contentEncoding",
            ValidationError::ContentMediaType { .. } => "contentMediaType",
            ValidationError::Conversion(_) => "contentEncoding",
        }
    }
}

/// The keyword that an error reports a violation of.
pub open spec fn spec_error_keyword(e: ErrorView) -> Seq<char> {
    match e {
        ErrorView::FalseSchema { .. } => "false"@,
        ErrorView::AdditionalProperty { .. } => "additionalProperties"@,
        ErrorView::Maximum { .. } => "maximum"@,
        ErrorView::Minimum { .. } => "minimum"@,
        ErrorView::MaxItems { .. } => "maxItems"@,
        ErrorView::MinItems { .. } => "minItems"@,
        ErrorView::ContentEncoding { .. } => "contentEncoding"@,
        ErrorView::ContentMediaType { .. } => "contentMediaType"@,
        ErrorView::Conversion { .. } => "contentEncoding"@,
    }
}

/// The plain views of a sequence of errors.
pub open spec fn spec_views(errors: Seq<ValidationError>) -> Seq<ErrorView> {
    errors.map_values(|e: ValidationError| e@)
}

/// Whether every validator of `vs` accepts `inst`.
pub open spec fn spec_all_valid<C: ContentFunctions>(vs: Vec<Validator>, ctx: C, inst: Value) -> bool
    decreases vs, 0int,
{
    forall|i: int| 0 <= i < vs.len() ==> spec_is_valid(#[trigger] vs[i], ctx, inst)
}

/// Whether `v` accepts `inst`. A keyword bound to one kind accepts every
/// instance of another kind.
pub open spec fn spec_is_valid<C: ContentFunctions>(v: Validator, ctx: C, inst: Value) -> bool
    decreases v, 0int,
{
    match v {
        Validator::FalseSchema => false,
        Validator::MaximumU64(l) => !(inst matches Value::Number(n) && n.value() > l),
        Validator::MaximumI64(l) => !(inst matches Value::Number(n) && n.value() > l),
        Validator::MinimumU64(l) => !(inst matches Value::Number(n) && n.value() < l),
        Validator::MinimumI64(l) => !(inst matches Value::Number(n) && n.value() < l),
        Validator::MaxItems(l) => !(inst matches Value::Array(items) && items.len() > l),
        Validator::MinItems(l) => !(inst matches Value::Array(items) && items.len() < l),
        Validator::IfThen { condition, then_branch } => spec_all_valid(condition, ctx, inst)
            ==> spec_all_valid(then_branch, ctx, inst),
        Validator::IfElse { condition, else_branch } => spec_all_valid(condition, ctx, inst)
            || spec_all_valid(else_branch, ctx, inst),
        Validator::IfThenElse { condition, then_branch, else_branch } => if spec_all_valid(condition, ctx, inst) {
            spec_all_valid(then_branch, ctx, inst)
        } else {
            spec_all_valid(else_branch, ctx, inst)
        },
        Validator::AdditionalProperties { validators, exemptions } => match inst {
            Value::Object(props) => forall|k: int|
                0 <= k < props.len() && !spec_exempt(exemptions, (#[trigger] props@[k]).0@)
                    ==> spec_all_valid(validators, ctx, props@[k].1),
            _ => true,
        },
        Validator::AdditionalPropertiesFalse { exemptions } => match inst {
            Value::Object(props) => forall|k: int| 0 <= k < props.len() ==> spec_exempt(exemptions, (#[trigger] props@[k]).0@),
            _ => true,
        },
        Validator::ContentMediaType { media_type } => match inst {
            Value::String(s) => ctx.media_type_accepts(media_type@, s@),
            _ => true,
        },
        Validator::ContentEncoding { encoding } => match inst {
            Value::String(s) => ctx.encoding_accepts(encoding@, s@),
            _ => true,
        },
        Validator::ContentMediaTypeAndEncoding { media_type, encoding } => match inst {
            Value::String(s) => match ctx.converted(encoding@, s@) {
                Ok(Some(decoded)) => ctx.media_type_accepts(media_type@, decoded),
                _ => false,
            },
            _ => true,
        },
    }
}

/// The errors of the first `n` validators of `vs` on `inst`, in order.
pub open spec fn spec_list_errors<C: ContentFunctions>(vs: Vec<Validator>, n: int, ctx: C, inst: Value) -> Seq<ErrorView>
    decreases vs, n,
{
    if n <= 0 || n > vs.len() {
        Seq::empty()
    } else {
        spec_list_errors(vs, n - 1, ctx, inst) + spec_errors(vs[n - 1], ctx, inst)
    }
}

/// The errors of the sub-schema validators `vs` (the first `n` of them) on
/// the properties of `props` that `ex` does not exempt: validator by
/// validator, and for each, property by property.
pub open spec fn spec_extra_errors<C: ContentFunctions>(
    vs: Vec<Validator>,
    n: int,
    props: Seq<(String, Value)>,
    ex: Exemptions,
    ctx: C,
) -> Seq<ErrorView>
    decreases vs, n,
{
    if n <= 0 || n > vs.len() {
        Seq::empty()
    } else {
        spec_extra_errors(vs, n - 1, props, ex, ctx) + spec_property_errors(vs[n - 1], props, props.len() as int, ex, ctx)
    }
}

/// The errors of `w` on the values of the first `m` properties of `props`
/// that `ex` does not exempt.
pub open spec fn spec_property_errors<C: ContentFunctions>(
    w: Validator,
    props: Seq<(String, Value)>,
    m: int,
    ex: Exemptions,
    ctx: C,
) -> Seq<ErrorView>
    decreases w, if m < 0 { 1 } else { m + 1 },
{
    if m <= 0 || m > props.len() {
        Seq::empty()
    } else if spec_exempt(ex, props[m - 1].0@) {
        spec_property_errors(w, props, m - 1, ex, ctx)
    } else {
        spec_property_errors(w, props, m - 1, ex, ctx) + spec_errors(w, ctx, props[m - 1].1)
    }
}

/// The error for the first property of `props` from index `k` on that `ex`
/// does not exempt, if there is one.
pub open spec fn spec_first_extra(props: Seq<(String, Value)>, ex: Exemptions, k: int) -> Seq<ErrorView>
    decreases props.len() - k,
{
    if k < 0 || k >= props.len() {
        Seq::empty()
    } else if !spec_exempt(ex, props[k].0@) {
        seq![ErrorView::AdditionalProperty { property: props[k].0@ }]
    } else {
        spec_first_extra(props, ex, k + 1)
    }
}

/// The errors that `v` reports for `inst`, in order.
pub open spec fn spec_errors<C: ContentFunctions>(v: Validator, ctx: C, inst: Value) -> Seq<ErrorView>
    decreases v, 0int,
{
    match v {
        Validator::FalseSchema => seq![ErrorView::FalseSchema { kind: spec_kind_of(inst) }],
        Validator::MaximumU64(l) => match inst {
            Value::Number(n) => if n.value() > l {
                seq![ErrorView::Maximum { instance: n, limit: Number::PosInt(l) }]
            } else {
                Seq::empty()
            },
            _ => Seq::empty(),
        },
        Validator::MaximumI64(l) => match inst {
            Value::Number(n) => if n.value() > l {
                seq![ErrorView::Maximum { instance: n, limit: Number::NegInt(l) }]
            } else {
                Seq::empty()
            },
            _ => Seq::empty(),
        },
        Validator::MinimumU64(l) => match inst {
            Value::Number(n) => if n.value() < l {
                seq![ErrorView::Minimum { instance: n, limit: Number::PosInt(l) }]
            } else {
                Seq::empty()
            },
            _ => Seq::empty(),
        },
        Validator::MinimumI64(l) => match inst {
            Value::Number(n) => if n.value() < l {
                seq![ErrorView::Minimum { instance: n, limit: Number::NegInt(l) }]
            } else {
                Seq::empty()
            },
            _ => Seq::empty(),
        },
        Validator::MaxItems(l) => match inst {
            Value::Array(items) => if items.len() > l {
                seq![ErrorView::MaxItems { length: items.len() as u64, limit: l }]
            } else {
                Seq::empty()
            },
            _ => Seq::empty(),
        },
        Validator::MinItems(l) => match inst {
            Value::Array(items) => if items.len() < l {
                seq![ErrorView::MinItems { length: items.len() as u64, limit: l }]
            } else {
                Seq::empty()
            },
            _ => Seq::empty(),
        },
        Validator::IfThen { condition, then_branch } => if spec_all_valid(condition, ctx, inst) {
            spec_list_errors(then_branch, then_branch.len() as int, ctx, inst)
        } else {
            Seq::empty()
        },
        Validator::IfElse { condition, else_branch } => if spec_all_valid(condition, ctx, inst) {
            Seq::empty()
        } else {
            spec_list_errors(else_branch, else_branch.len() as int, ctx, inst)
        },
        Validator::IfThenElse { condition, then_branch, else_branch } => if spec_all_valid(condition, ctx, inst) {
            spec_list_errors(then_branch, then_branch.len() as int, ctx, inst)
        } else {
            spec_list_errors(else_branch, else_branch.len() as int, ctx, inst)
        },
        Validator::AdditionalProperties { validators, exemptions } => match inst {
            Value::Object(props) => spec_extra_errors(validators, validators.len() as int, props@, exemptions, ctx),
            _ => Seq::empty(),
        },
        Validator::AdditionalPropertiesFalse { exemptions } => match inst {
            Value::Object(props) => spec_first_extra(props@, exemptions, 0),
            _ => Seq::empty(),
        },
        Validator::ContentMediaType { media_type } => match inst {
            Value::String(s) => if ctx.media_type_accepts(media_type@, s@) {
                Seq::empty()
            } else {
                seq![ErrorView::ContentMediaType { instance: s@, media_type: media_type@ }]
            },
            _ => Seq::empty(),
        },
        Validator::ContentEncoding { encoding } => match inst {
            Value::String(s) => if ctx.encoding_accepts(encoding@, s@) {
                Seq::empty()
            } else {
                seq![ErrorView::ContentEncoding { instance: s@, encoding: encoding@ }]
            },
            _ => Seq::empty(),
        },
        Validator::ContentMediaTypeAndEncoding { media_type, encoding } => match inst {
            Value::String(s) => match ctx.converted(encoding@, s@) {
                Ok(None) => seq![ErrorView::ContentEncoding { instance: s@, encoding: encoding@ }],
                Ok(Some(decoded)) => if ctx.media_type_accepts(media_type@, decoded) {
                    Seq::empty()
                } else {
                    seq![ErrorView::ContentMediaType { instance: s@, media_type: media_type@ }]
                },
                Err(message) => seq![ErrorView::Conversion { message }],
            },
            _ => Seq::empty(),
        },
    }
}

fn single(e: ValidationError) -> (r: Vec<ValidationError>)
    ensures
        spec_views(r@) == seq![e@],
{
    let mut r = Vec::new();
    r.push(e);
    assert(spec_views(r@) =~= seq![e@]);
    r
}

proof fn lemma_views_append(a: Seq<ValidationError>, b: Seq<ValidationError>)
    ensures
        spec_views(a + b) == spec_views(a) + spec_views(b),
{
    assert(spec_views(a + b) =~= spec_views(a) + spec_views(b));
}

/// Whether every validator of `vs` accepts `instance`; stops at the first
/// one that does not.
pub fn all_valid<C: ContentFunctions>(vs: &Vec<Validator>, ctx: &C, instance: &Value) -> (r: bool)
    ensures
        r == spec_all_valid(*vs, *ctx, *instance),
    decreases vs, 0int,
{
    let mut i: usize = 0;
    while i < vs.len()
        invariant
            0 <= i <= vs@.len(),
            forall|j: int| 0 <= j < i ==> spec_is_valid(#[trigger] vs[j], *ctx, *instance),
        decreases vs@.len() - i,
    {
        if !vs[i].is_valid(ctx, instance) {
            return false;
        }
        i = i + 1;
    }
    true
}

/// The errors of every validator of `vs` on `instance`, in order.
pub fn list_errors<C: ContentFunctions>(vs: &Vec<Validator>, ctx: &C, instance: &Value) -> (r: Vec<ValidationError>)
    ensures
        spec_views(r@) == spec_list_errors(*vs, vs.len() as int, *ctx, *instance),
    decreases vs, 0int,
{
    let mut out: Vec<ValidationError> = Vec::new();
    let mut i: usize = 0;
    while i < vs.len()
        invariant
            0 <= i <= vs@.len(),
            spec_views(out@) == spec_list_errors(*vs, i as int, *ctx, *instance),
        decreases vs@.len() - i,
    {
        let mut errors = vs[i].validate(ctx, instance);
        proof {
            lemma_views_append(out@, errors@);
        }
        out.append(&mut errors);
        i = i + 1;
    }
    out
}

/// The errors of `w` on the values of the properties of `props` that `ex`
/// does not exempt.
fn property_errors<C: ContentFunctions>(
    w: &Validator,
    props: &Vec<(String, Value)>,
    ex: &Exemptions,
    ctx: &C,
) -> (r: Vec<ValidationError>)
    ensures
        spec_views(r@) == spec_property_errors(*w, props@, props@.len() as int, *ex, *ctx),
    decreases w, 1int,
{
    let mut out: Vec<ValidationError> = Vec::new();
    let mut k: usize = 0;
    while k < props.len()
        invariant
            0 <= k <= props@.len(),
            spec_views(out@) == spec_property_errors(*w, props@, k as int, *ex, *ctx),
        decreases props@.len() - k,
    {
        if !ex.is_exempt(&props[k].0) {
            let mut errors = w.validate(ctx, &props[k].1);
            proof {
                lemma_views_append(out@, errors@);
            }
            out.append(&mut errors);
        }
        k = k + 1;
    }
    out
}

/// Whether every validator of `validators` accepts the value of each
/// property of `props` that `ex` does not exempt.
fn extras_valid<C: ContentFunctions>(
    validators: &Vec<Validator>,
    ex: &Exemptions,
    props: &Vec<(String, Value)>,
    ctx: &C,
) -> (r: bool)
    ensures
        r == forall|q: int|
            0 <= q < props@.len() && !spec_exempt(*ex, (#[trigger] props@[q]).0@)
                ==> spec_all_valid(*validators, *ctx, props@[q].1),
    decreases validators, 1int,
{
    let mut k: usize = 0;
    while k < props.len()
        invariant
            0 <= k <= props@.len(),
            forall|q: int|
                0 <= q < k && !spec_exempt(*ex, (#[trigger] props@[q]).0@)
                    ==> spec_all_valid(*validators, *ctx, props@[q].1),
        decreases props@.len() - k,
    {
        if !ex.is_exempt(&props[k].0) && !all_valid(validators, ctx, &props[k].1) {
            return false;
        }
        k = k + 1;
    }
    true
}

/// Whether `ex` exempts every property of `props`.
fn no_extras(ex: &Exemptions, props: &Vec<(String, Value)>) -> (r: bool)
    ensures
        r == forall|q: int| 0 <= q < props@.len() ==> spec_exempt(*ex, (#[trigger] props@[q]).0@),
{
    let mut k: usize = 0;
    while k < props.len()
        invariant
            0 <= k <= props@.len(),
            forall|q: int| 0 <= q < k ==> spec_exempt(*ex, (#[trigger] props@[q]).0@),
        decreases props@.len() - k,
    {
        if !ex.is_exempt(&props[k].0) {
            return false;
        }
        k = k + 1;
    }
    true
}

/// The errors of the sub-schema validators on the properties that `ex`
/// does not exempt: validator by validator, property by property.
fn extra_errors<C: ContentFunctions>(
    validators: &Vec<Validator>,
    ex: &Exemptions,
    props: &Vec<(String, Value)>,
    ctx: &C,
) -> (r: Vec<ValidationError>)
    ensures
        spec_views(r@) == spec_extra_errors(*validators, validators.len() as int, props@, *ex, *ctx),
    decreases validators, 1int,
{
    let mut out: Vec<ValidationError> = Vec::new();
    let mut j: usize = 0;
    while j < validators.len()
        invariant
            0 <= j <= validators@.len(),
            spec_views(out@) == spec_extra_errors(*validators, j as int, props@, *ex, *ctx),
        decreases validators@.len() - j,
    {
        let mut errors = property_errors(&validators[j], props, ex, ctx);
        proof {
            lemma_views_append(out@, errors@);
        }
        out.append(&mut errors);
        j = j + 1;
    }
    out
}

/// The error for the first property of `props` that `ex` does not exempt.
fn first_extra(ex: &Exemptions, props: &Vec<(String, Value)>) -> (r: Vec<ValidationError>)
    ensures
        spec_views(r@) == spec_first_extra(props@, *ex, 0),
{
    let mut k: usize = 0;
    while k < props.len()
        invariant
            0 <= k <= props@.len(),
            spec_first_extra(props@, *ex, 0) == spec_first_extra(props@, *ex, k as int),
        decreases props@.len() - k,
    {
        if !ex.is_exempt(&props[k].0) {
            return single(ValidationError::AdditionalProperty { property: props[k].0.clone() });
        }
        k = k + 1;
    }
    Vec::new()
}

impl Validator {
    /// Whether the validator accepts `instance`.
    pub fn is_valid<C: ContentFunctions>(&self, ctx: &C, instance: &Value) -> (r: bool)
        ensures
            r == spec_is_valid(*self, *ctx, *instance),
        decreases self, 0int,
    {
        match self {
            Validator::FalseSchema => false,
            Validator::MaximumU64(l) => match instance {
                Value::Number(n) => !num_gt_u64(n, *l),
                _ => true,
            },
            Validator::MaximumI64(l) => match instance {
                Value::Number(n) => !num_gt_i64(n, *l),
                _ => true,
            },
            Validator::MinimumU64(l) => match instance {
                Value::Number(n) => !num_lt_u64(n, *l),
                _ => true,
            },
            Validator::MinimumI64(l) => match instance {
                Value::Number(n) => !num_lt_i64(n, *l),
                _ => true,
            },
            Validator::MaxItems(l) => match instance {
                Value::Array(items) => items.len() as u64 <= *l,
                _ => true,
            },
            Validator::MinItems(l) => match instance {
                Value::Array(items) => items.len() as u64 >= *l,
                _ => true,
            },
            Validator::IfThen { condition, then_branch } => {
                if all_valid(condition, ctx, instance) {
                    all_valid(then_branch, ctx, instance)
                } else {
                    true
                }
            },
            Validator::IfElse { condition, else_branch } => {
                if all_valid(condition, ctx, instance) {
                    true
                } else {
                    all_valid(else_branch, ctx, instance)
                }
            },
            Validator::IfThenElse { condition, then_branch, else_branch } => {
                if all_valid(condition, ctx, instance) {
                    all_valid(then_branch, ctx, instance)
                } else {
                    all_valid(else_branch, ctx, instance)
                }
            },
            Validator::AdditionalProperties { validators, exemptions } => match instance {
                Value::Object(props) => extras_valid(validators, exemptions, props, ctx),
                _ => true,
            },
            Validator::AdditionalPropertiesFalse { exemptions } => match instance {
                Value::Object(props) => no_extras(exemptions, props),
                _ => true,
            },
            Validator::ContentMediaType { media_type } => match instance {
                Value::String(s) => ctx.check_media_type(media_type.as_str(), s.as_str()),
                _ => true,
            },
            Validator::ContentEncoding { encoding } => match instance {
                Value::String(s) => ctx.check_encoding(encoding.as_str(), s.as_str()),
                _ => true,
            },
            Validator::ContentMediaTypeAndEncoding { media_type, encoding } => match instance {
                Value::String(s) => match ctx.convert(encoding.as_str(), s.as_str()) {
                    Ok(Some(decoded)) => ctx.check_media_type(media_type.as_str(), decoded.as_str()),
                    _ => false,
                },
                _ => true,
            },
        }
    }

    /// The errors that the validator reports for `instance`, in order:
    /// empty exactly where [`Validator::is_valid`] holds.
    pub fn validate<C: ContentFunctions>(&self, ctx: &C, instance: &Value) -> (r: Vec<ValidationError>)
        ensures
            spec_views(r@) == spec_errors(*self, *ctx, *instance),
        decreases self, 0int,
    {
        match self {
            Validator::FalseSchema => single(ValidationError::FalseSchema { kind: PrimitiveType::of(instance) }),
            Validator::MaximumU64(l) => match instance {
                Value::Number(n) => if num_gt_u64(n, *l) {
                    single(ValidationError::Maximum { instance: *n, limit: Number::PosInt(*l) })
                } else {
                    Vec::new()
                },
                _ => Vec::new(),
            },
            Validator::MaximumI64(l) => match instance {
                Value::Number(n) => if num_gt_i64(n, *l) {
                    single(ValidationError::Maximum { instance: *n, limit: Number::NegInt(*l) })
                } else {
                    Vec::new()
                },
                _ => Vec::new(),
            },
            Validator::MinimumU64(l) => match instance {
                Value::Number(n) => if num_lt_u64(n, *l) {
                    single(ValidationError::Minimum { instance: *n, limit: Number::PosInt(*l) })
                } else {
                    Vec::new()
                },
                _ => Vec::new(),
            },
            Validator::MinimumI64(l) => match instance {
                Value::Number(n) => if num_lt_i64(n, *l) {
                    single(ValidationError::Minimum { instance: *n, limit: Number::NegInt(*l) })
                } else {
                    Vec::new()
                },
                _ => Vec::new(),
            },
            Validator::MaxItems(l) => match instance {
                Value::Array(items) => if items.len() as u64 > *l {
                    single(ValidationError::MaxItems { length: items.len() as u64, limit: *l })
                } else {
                    Vec::new()
                },
                _ => Vec::new(),
            },
            Validator::MinItems(l) => match instance {
                Value::Array(items) => if (items.len() as u64) < *l {
                    single(ValidationError::MinItems { length: items.len() as u64, limit: *l })
                } else {
                    Vec::new()
                },
                _ => Vec::new(),
            },
            Validator::IfThen { condition, then_branch } => {
                if all_valid(condition, ctx, instance) {
                    list_errors(then_branch, ctx, instance)
                } else {
                    Vec::new()
                }
            },
            Validator::IfElse { condition, else_branch } => {
                if all_valid(condition, ctx, instance) {
                    Vec::new()
                } else {
                    list_errors(else_branch, ctx, instance)
                }
            },
            Validator::IfThenElse { condition, then_branch, else_branch } => {
                if all_valid(condition, ctx, instance) {
                    list_errors(then_branch, ctx, instance)
                } else {
                    list_errors(else_branch, ctx, instance)
                }
            },
            Validator::AdditionalProperties { validators, exemptions } => match instance {
                Value::Object(props) => extra_errors(validators, exemptions, props, ctx),
                _ => Vec::new(),
            },
            Validator::AdditionalPropertiesFalse { exemptions } => match instance {
                Value::Object(props) => first_extra(exemptions, props),
                _ => Vec::new(),
            },
            Validator::ContentMediaType { media_type } => match instance {
                Value::String(s) => if ctx.check_media_type(media_type.as_str(), s.as_str()) {
                    Vec::new()
                } else {
                    single(ValidationError::ContentMediaType { instance: s.clone(), media_type: media_type.clone() })
                },
                _ => Vec::new(),
            },
            Validator::ContentEncoding { encoding } => match instance {
                Value::String(s) => if ctx.check_encoding(encoding.as_str(), s.as_str()) {
                    Vec::new()
                } else {
                    single(ValidationError::ContentEncoding { instance: s.clone(), encoding: encoding.clone() })
                },
                _ => Vec::new(),
            },
            Validator::ContentMediaTypeAndEncoding { media_type, encoding } => match instance {
                Value::String(s) => match ctx.convert(encoding.as_str(), s.as_str()) {
                    Ok(None) => single(ValidationError::ContentEncoding { instance: s.clone(), encoding: encoding.clone() }),
                    Ok(Some(decoded)) => if ctx.check_media_type(media_type.as_str(), decoded.as_str()) {
                        Vec::new()
                    } else {
                        single(ValidationError::ContentMediaType { instance: s.clone(), media_type: media_type.clone() })
                    },
                    Err(e) => single(ValidationError::Conversion(e)),
                },
                _ => Vec::new(),
            },
        }
    }
}

} // verus!
