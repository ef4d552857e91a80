//! The compilation engine: from a schema value to an ordered collection of
//! validators, keyword by keyword in the order of a fixed dispatch table.
use vstd::prelude::*;
use crate::content::ContentFunctions;
use crate::pattern::{alternation, regex_accepts, spec_alternation, Pattern};
use crate::validator::{Exemptions, Validator};
use crate::value::{find_property, keys, lemma_find_in_range, spec_find, spec_keys, Value};

verus! {

/// The schema is structurally invalid for a keyword.
#[derive(Clone, Copy, Debug, PartialEq, Eq, Structural)]
pub enum CompilationError {
    SchemaError,
}

/// What compiling one keyword gives.
pub enum CompilationOutcome {
    /// The keyword adds no constraint beside its siblings.
    NotApplicable,
    Compiled(Validator),
    Failed(CompilationError),
}

/// The number of keywords in the dispatch table.
pub const KEYWORD_COUNT: usize = 8;

/// The dispatch table: the keyword at each place, in compilation order.
pub open spec fn spec_keyword(kw: int) -> Seq<char> {
    if kw == 0 {
        "additionalProperties"@
    } else if kw == 1 {
        "contentEncoding"@
    } else if kw == 2 {
        "contentMediaType"@
    } else if kw == 3 {
        "if"@
    } else if kw == 4 {
        "maxItems"@
    } else if kw == 5 {
        "maximum"@
    } else if kw == 6 {
        "minItems"@
    } else {
        "minimum"@
    }
}

/// The keyword at place `kw` of the dispatch table.
pub fn keyword_name(kw: usize) -> (r: &'static str)
    requires
        kw < KEYWORD_COUNT,
    ensures
        r@ == spec_keyword(kw as int),
{
    proof {
        reveal_strlit("additionalProperties");
        reveal_strlit("contentEncoding");
        reveal_strlit("contentMediaType");
        reveal_strlit("if");
        reveal_strlit("maxItems");
        reveal_strlit("maximum");
        reveal_strlit("minItems");
        reveal_strlit("minimum");
    }
    if kw == 0 {
        "additionalProperties"
    } else if kw == 1 {
        "contentEncoding"
    } else if kw == 2 {
        "contentMediaType"
    } else if kw == 3 {
        "if"
    } else if kw == 4 {
        "maxItems"
    } else if kw == 5 {
        "maximum"
    } else if kw == 6 {
        "minItems"
    } else {
        "minimum"
    }
}

/// Whether `props` has a property named `key`.
pub open spec fn spec_has(props: Seq<(String, Value)>, key: Seq<char>) -> bool {
    spec_find(props, key) is Some
}

/// The value of the first property of `props` named `key`, where there is one.
pub open spec fn spec_get(props: Seq<(String, Value)>, key: Seq<char>) -> Value {
    props[spec_find(props, key)->Some_0].1
}

/// Whether `v` is an object.
pub open spec fn spec_is_object(v: Value) -> bool {
    v is Object
}

/// The names of the properties of the object `v`.
pub open spec fn spec_object_keys(v: Value) -> Seq<Seq<char>> {
    match v {
        Value::Object(pp) => spec_keys(pp@),
        _ => Seq::empty(),
    }
}

/// Whether the siblings of `additionalProperties` in `props` are malformed:
/// a `patternProperties` that is not an object or whose alternation is no
/// valid regular expression, or (where `additionalProperties` is not `true`)
/// a `properties` that is not an object.
pub open spec fn spec_siblings_fail(props: Seq<(String, Value)>, value: Value) -> bool {
    ||| (spec_has(props, "patternProperties"@) && (!spec_is_object(spec_get(props, "patternProperties"@))
        || !regex_accepts(spec_alternation(spec_object_keys(spec_get(props, "patternProperties"@))))))
    ||| (value != Value::Bool(true) && spec_has(props, "properties"@) && !spec_is_object(spec_get(props, "properties"@)))
}

/// Whether the keyword at place `kw` of the table, whose value is the
/// property at index `i` of `props`, makes compilation fail.
pub open spec fn spec_keyword_fails<C: ContentFunctions>(kw: int, props: Vec<(String, Value)>, i: int, ctx: C) -> bool
    decreases props, 0int,
{
    if !(0 <= i < props.len()) {
        false
    } else {
        proof {
            lemma_find_in_range(props@, "then"@, 0);
            lemma_find_in_range(props@, "else"@, 0);
        }
        let value = props@[i].1;
        if kw == 0 {
            spec_siblings_fail(props@, value) || (!(value is Bool) && spec_schema_fails(value, ctx))
        } else if kw == 1 {
            !spec_has(props@, "contentMediaType"@) && !(value is String)
        } else if kw == 2 {
            match value {
                Value::String(mt) => ctx.knows_media_type(mt@) && spec_has(props@, "contentEncoding"@)
                    && !(spec_get(props@, "contentEncoding"@) is String),
                _ => true,
            }
        } else if kw == 3 {
            (spec_has(props@, "then"@) || spec_has(props@, "else"@)) && (spec_schema_fails(value, ctx)
                || (spec_has(props@, "then"@) && spec_schema_fails(props@[spec_find(props@, "then"@)->Some_0].1, ctx))
                || (spec_has(props@, "else"@) && spec_schema_fails(props@[spec_find(props@, "else"@)->Some_0].1, ctx)))
        } else if kw == 4 || kw == 6 {
            !(value matches Value::Number(n) && n.value() >= 0)
        } else {
            !(value is Number)
        }
    }
}

/// Whether a keyword from place `kw` of the table on makes compilation of
/// the object schema `props` fail.
pub open spec fn spec_keywords_fail_from<C: ContentFunctions>(props: Vec<(String, Value)>, kw: int, ctx: C) -> bool
    decreases props, 9 - kw,
{
    if kw < 0 || kw >= 8 {
        false
    } else {
        (spec_find(props@, spec_keyword(kw)) matches Some(i) && spec_keyword_fails(kw, props, i, ctx))
            || spec_keywords_fail_from(props, kw + 1, ctx)
    }
}

/// Whether compiling `schema` fails: it is neither a boolean nor an object,
/// or one of its keywords is malformed, here or in a sub-schema.
pub open spec fn spec_schema_fails<C: ContentFunctions>(schema: Value, ctx: C) -> bool
    decreases schema, 0int,
{
    match schema {
        Value::Bool(_) => false,
        Value::Object(props) => spec_keywords_fail_from(props, 0, ctx),
        _ => true,
    }
}

/// Whether the keyword at place `kw`, with value at index `i` of `props`,
/// adds a validator (given that it does not fail).
pub open spec fn spec_keyword_applies<C: ContentFunctions>(kw: int, props: Seq<(String, Value)>, i: int, ctx: C) -> bool {
    let value = props[i].1;
    if kw == 0 {
        value != Value::Bool(true)
    } else if kw == 1 {
        !spec_has(props, "contentMediaType"@) && (value matches Value::String(e) && ctx.knows_encoding(e@))
    } else if kw == 2 {
        value matches Value::String(mt) && ctx.knows_media_type(mt@) && (!spec_has(props, "contentEncoding"@)
            || (spec_get(props, "contentEncoding"@) matches Value::String(e) && ctx.knows_encoding(e@)))
    } else if kw == 3 {
        spec_has(props, "then"@) || spec_has(props, "else"@)
    } else {
        true
    }
}

/// Whether `e` holds what the siblings `properties` and `patternProperties`
/// of `props` exempt.
pub open spec fn spec_exemptions_of(e: Exemptions, props: Seq<(String, Value)>) -> bool {
    &&& if spec_has(props, "properties"@) {
        e.properties matches Some(ps) && ps@.map_values(|s: String| s@) == spec_object_keys(spec_get(props, "properties"@))
    } else {
        e.properties is None
    }
    &&& if spec_has(props, "patternProperties"@) {
        e.pattern matches Some(p) && p.source() == spec_alternation(spec_object_keys(spec_get(props, "patternProperties"@)))
    } else {
        e.pattern is None
    }
}

/// Whether `v` is what the keyword at place `kw`, with value at index `i`
/// of `props`, compiles to.
pub open spec fn spec_keyword_compiled<C: ContentFunctions>(kw: int, props: Vec<(String, Value)>, i: int, ctx: C, v: Validator) -> bool
    decreases props, 0int,
{
    if !(0 <= i < props.len()) {
        false
    } else {
        proof {
            lemma_find_in_range(props@, "then"@, 0);
            lemma_find_in_range(props@, "else"@, 0);
        }
        let value = props@[i].1;
        if kw == 0 {
            if value == Value::Bool(false) {
                v matches Validator::AdditionalPropertiesFalse { exemptions } && spec_exemptions_of(exemptions, props@)
            } else {
                v matches Validator::AdditionalProperties { validators, exemptions } && spec_exemptions_of(exemptions, props@)
                    && spec_compiled_to(value, ctx, validators@)
            }
        } else if kw == 1 {
            v matches Validator::ContentEncoding { encoding } && value matches Value::String(e) && encoding@ == e@
        } else if kw == 2 {
            if spec_has(props@, "contentEncoding"@) {
                v matches Validator::ContentMediaTypeAndEncoding { media_type, encoding } && value matches Value::String(mt)
                    && media_type@ == mt@ && (spec_get(props@, "contentEncoding"@) matches Value::String(e) && encoding@ == e@)
            } else {
                v matches Validator::ContentMediaType { media_type } && value matches Value::String(mt) && media_type@ == mt@
            }
        } else if kw == 3 {
            let c = spec_find(props@, "then"@);
            let a = spec_find(props@, "else"@);
            if c is Some && a is Some {
                v matches Validator::IfThenElse { condition, then_branch, else_branch } && spec_compiled_to(value, ctx, condition@)
                    && spec_compiled_to(props@[c->Some_0].1, ctx, then_branch@)
                    && spec_compiled_to(props@[a->Some_0].1, ctx, else_branch@)
            } else if c is Some {
                v matches Validator::IfThen { condition, then_branch } && spec_compiled_to(value, ctx, condition@)
                    && spec_compiled_to(props@[c->Some_0].1, ctx, then_branch@)
            } else if a is Some {
                v matches Validator::IfElse { condition, else_branch } && spec_compiled_to(value, ctx, condition@)
                    && spec_compiled_to(props@[a->Some_0].1, ctx, else_branch@)
            } else {
                false
            }
        } else if kw == 4 {
            value matches Value::Number(n) && v == Validator::MaxItems(n.value() as u64)
        } else if kw == 6 {
            value matches Value::Number(n) && v == Validator::MinItems(n.value() as u64)
        } else if kw == 5 {
            value matches Value::Number(n) && v == (if n.value() >= 0 {
                Validator::MaximumU64(n.value() as u64)
            } else {
                Validator::MaximumI64(n.value() as i64)
            })
        } else {
            value matches Value::Number(n) && v == (if n.value() >= 0 {
                Validator::MinimumU64(n.value() as u64)
            } else {
                Validator::MinimumI64(n.value() as i64)
            })
        }
    }
}

/// Whether `vs` is what the keywords from place `kw` of the table on
/// compile to, in table order.
pub open spec fn spec_keywords_compiled<C: ContentFunctions>(props: Vec<(String, Value)>, kw: int, ctx: C, vs: Seq<Validator>) -> bool
    decreases props, 9 - kw,
{
    if kw < 0 || kw >= 8 {
        vs.len() == 0
    } else {
        match spec_find(props@, spec_keyword(kw)) {
            Some(i) => if spec_keyword_applies(kw, props@, i, ctx) {
                vs.len() > 0 && spec_keyword_compiled(kw, props, i, ctx, vs[0])
                    && spec_keywords_compiled(props, kw + 1, ctx, vs.drop_first())
            } else {
                spec_keywords_compiled(props, kw + 1, ctx, vs)
            },
            None => spec_keywords_compiled(props, kw + 1, ctx, vs),
        }
    }
}

/// Whether `vs` is what `schema` compiles to: nothing for `true`, one
/// always-failing validator for `false`, and for an object one validator
/// per applicable keyword, in table order.
pub open spec fn spec_compiled_to<C: ContentFunctions>(schema: Value, ctx: C, vs: Seq<Validator>) -> bool
    decreases schema, 0int,
{
    match schema {
        Value::Bool(true) => vs.len() == 0,
        Value::Bool(false) => vs.len() == 1 && vs[0] is FalseSchema,
        Value::Object(props) => spec_keywords_compiled(props, 0, ctx, vs),
        _ => false,
    }
}

/// The builder of the validator of `contentMediaType` alone.
pub struct ContentMediaTypeValidator;

impl ContentMediaTypeValidator {
    /// The validator that checks strings against the media type `media_type`.
    pub fn compile(media_type: &str) -> (r: Result<Validator, CompilationError>)
        ensures
            r matches Ok(Validator::ContentMediaType { media_type: m }) && m@ == media_type@,
    {
        Ok(Validator::ContentMediaType { media_type: media_type.to_owned() })
    }
}

/// The builder of the validator of `contentEncoding` alone.
pub struct ContentEncodingValidator;

impl ContentEncodingValidator {
    /// The validator that checks strings against the encoding `encoding`.
    pub fn compile(encoding: &str) -> (r: Result<Validator, CompilationError>)
        ensures
            r matches Ok(Validator::ContentEncoding { encoding: e }) && e@ == encoding@,
    {
        Ok(Validator::ContentEncoding { encoding: encoding.to_owned() })
    }
}

/// The builder of the validator of `contentMediaType` with `contentEncoding`.
pub struct ContentMediaTypeAndEncodingValidator;

impl ContentMediaTypeAndEncodingValidator {
    /// The validator that decodes strings by `encoding`, then checks the
    /// decoded text against `media_type`.
    pub fn compile(media_type: &str, encoding: &str) -> (r: Result<Validator, CompilationError>)
        ensures
            r matches Ok(Validator::ContentMediaTypeAndEncoding { media_type: m, encoding: e }) && m@ == media_type@
                && e@ == encoding@,
    {
        Ok(Validator::ContentMediaTypeAndEncoding { media_type: media_type.to_owned(), encoding: encoding.to_owned() })
    }
}

/// The builder of `additionalProperties: false` without sibling
/// `properties` or `patternProperties`.
pub struct AdditionalPropertiesFalseValidator;

impl AdditionalPropertiesFalseValidator {
    /// The validator that rejects every property.
    pub fn compile() -> (r: Result<Validator, CompilationError>)
        ensures
            r matches Ok(Validator::AdditionalPropertiesFalse { exemptions }) && exemptions.properties is None
                && exemptions.pattern is None,
    {
        Ok(Validator::AdditionalPropertiesFalse { exemptions: Exemptions { properties: None, pattern: None } })
    }
}

/// The outcome of a builder's result.
fn outcome_of(r: Result<Validator, CompilationError>) -> (o: CompilationOutcome)
    ensures
        r matches Ok(v) ==> o == CompilationOutcome::Compiled(v),
        r matches Err(e) ==> o == CompilationOutcome::Failed(e),
{
    match r {
        Ok(v) => CompilationOutcome::Compiled(v),
        Err(e) => CompilationOutcome::Failed(e),
    }
}

/// Whether `o` is what the keyword at place `kw`, with value at index `i` of
/// `props`, compiles to: a failure exactly where the keyword is malformed,
/// nothing where it does not apply, and otherwise its validator.
pub open spec fn spec_outcome<C: ContentFunctions>(kw: int, props: Vec<(String, Value)>, i: int, ctx: C, o: CompilationOutcome) -> bool {
    &&& (o is Failed <==> spec_keyword_fails(kw, props, i, ctx))
    &&& (o is NotApplicable <==> !spec_keyword_fails(kw, props, i, ctx) && !spec_keyword_applies(kw, props@, i, ctx))
    &&& (o matches CompilationOutcome::Compiled(v) ==> spec_keyword_compiled(kw, props, i, ctx, v))
}

/// Compiles `additionalProperties`, whose value is the property at `index`
/// of `parent`, against its siblings `properties` and `patternProperties`.
/// The value `true` never adds a validator.
pub fn compile_additional_properties<C: ContentFunctions>(parent: &Vec<(String, Value)>, index: usize, ctx: &C) -> (r: CompilationOutcome)
    requires
        index < parent@.len(),
    ensures
        spec_outcome(0, *parent, index as int, *ctx, r),
        parent@[index as int].1 == Value::Bool(true) ==> !(r is Compiled),
    decreases parent, 1int,
{
    proof {
        reveal_strlit("patternProperties");
        reveal_strlit("properties");
    }
    let value = &parent[index].1;
    let pattern = match find_property(parent, "patternProperties") {
        Some(qi) => match &parent[qi].1 {
            Value::Object(pp) => {
                let names = keys(pp);
                let source = alternation(&names);
                match Pattern::new(&source) {
                    Some(p) => Some(p),
                    None => return CompilationOutcome::Failed(CompilationError::SchemaError),
                }
            },
            _ => return CompilationOutcome::Failed(CompilationError::SchemaError),
        },
        None => None,
    };
    if let Value::Bool(true) = value {
        return CompilationOutcome::NotApplicable;
    }
    let properties = match find_property(parent, "properties") {
        Some(pi) => match &parent[pi].1 {
            Value::Object(pp) => Some(keys(pp)),
            _ => return CompilationOutcome::Failed(CompilationError::SchemaError),
        },
        None => None,
    };
    if let Value::Bool(false) = value {
        if properties.is_none() && pattern.is_none() {
            return outcome_of(AdditionalPropertiesFalseValidator::compile());
        }
        return CompilationOutcome::Compiled(Validator::AdditionalPropertiesFalse { exemptions: Exemptions { properties, pattern } });
    }
    let exemptions = Exemptions { properties, pattern };
    match compile_validators(value, ctx) {
        Ok(validators) => CompilationOutcome::Compiled(Validator::AdditionalProperties { validators, exemptions }),
        Err(e) => CompilationOutcome::Failed(e),
    }
}

/// Compiles `contentEncoding`, whose value is the property at `index` of
/// `parent`. Where `contentMediaType` is present it does the work, and an
/// unknown encoding name adds nothing.
pub fn compile_content_encoding<C: ContentFunctions>(parent: &Vec<(String, Value)>, index: usize, ctx: &C) -> (r: CompilationOutcome)
    requires
        index < parent@.len(),
    ensures
        spec_outcome(1, *parent, index as int, *ctx, r),
{
    proof {
        reveal_strlit("contentMediaType");
    }
    if find_property(parent, "contentMediaType").is_some() {
        return CompilationOutcome::NotApplicable;
    }
    match &parent[index].1 {
        Value::String(encoding) => if ctx.has_encoding(encoding.as_str()) {
            outcome_of(ContentEncodingValidator::compile(encoding.as_str()))
        } else {
            CompilationOutcome::NotApplicable
        },
        _ => CompilationOutcome::Failed(CompilationError::SchemaError),
    }
}

/// Compiles `contentMediaType`, whose value is the property at `index` of
/// `parent`, together with a sibling `contentEncoding` where there is one.
/// An unknown media type or encoding name adds nothing.
pub fn compile_media_type<C: ContentFunctions>(parent: &Vec<(String, Value)>, index: usize, ctx: &C) -> (r: CompilationOutcome)
    requires
        index < parent@.len(),
    ensures
        spec_outcome(2, *parent, index as int, *ctx, r),
{
    proof {
        reveal_strlit("contentEncoding");
    }
    match &parent[index].1 {
        Value::String(media_type) => {
            if !ctx.has_media_type(media_type.as_str()) {
                return CompilationOutcome::NotApplicable;
            }
            match find_property(parent, "contentEncoding") {
                Some(j) => match &parent[j].1 {
                    Value::String(encoding) => if ctx.has_encoding(encoding.as_str()) {
                        outcome_of(ContentMediaTypeAndEncodingValidator::compile(media_type.as_str(), encoding.as_str()))
                    } else {
                        CompilationOutcome::NotApplicable
                    },
                    _ => CompilationOutcome::Failed(CompilationError::SchemaError),
                },
                None => outcome_of(ContentMediaTypeValidator::compile(media_type.as_str())),
            }
        },
        _ => CompilationOutcome::Failed(CompilationError::SchemaError),
    }
}

/// Compiles `if`, whose value is the property at `index` of `parent`,
/// together with its siblings `then` and `else`; with neither of them it
/// adds nothing.
pub fn compile_if<C: ContentFunctions>(parent: &Vec<(String, Value)>, index: usize, ctx: &C) -> (r: CompilationOutcome)
    requires
        index < parent@.len(),
    ensures
        spec_outcome(3, *parent, index as int, *ctx, r),
    decreases parent, 1int,
{
    proof {
        reveal_strlit("then");
        reveal_strlit("else");
        lemma_find_in_range(parent@, "then"@, 0);
        lemma_find_in_range(parent@, "else"@, 0);
    }
    let then_index = find_property(parent, "then");
    let else_index = find_property(parent, "else");
    if then_index.is_none() && else_index.is_none() {
        return CompilationOutcome::NotApplicable;
    }
    let condition = match compile_validators(&parent[index].1, ctx) {
        Ok(vs) => vs,
        Err(e) => return CompilationOutcome::Failed(e),
    };
    let then_branch = match then_index {
        Some(t) => match compile_validators(&parent[t].1, ctx) {
            Ok(vs) => Some(vs),
            Err(e) => return CompilationOutcome::Failed(e),
        },
        None => None,
    };
    let else_branch = match else_index {
        Some(a) => match compile_validators(&parent[a].1, ctx) {
            Ok(vs) => Some(vs),
            Err(e) => return CompilationOutcome::Failed(e),
        },
        None => None,
    };
    match (then_branch, else_branch) {
        (Some(then_branch), Some(else_branch)) => CompilationOutcome::Compiled(
            Validator::IfThenElse { condition, then_branch, else_branch },
        ),
        (Some(then_branch), None) => CompilationOutcome::Compiled(Validator::IfThen { condition, then_branch }),
        (None, Some(else_branch)) => CompilationOutcome::Compiled(Validator::IfElse { condition, else_branch }),
        (None, None) => CompilationOutcome::NotApplicable,
    }
}

/// Compiles `maxItems`, whose value is the property at `index` of `parent`:
/// it must be a non-negative integer.
pub fn compile_max_items<C: ContentFunctions>(parent: &Vec<(String, Value)>, index: usize, ctx: &C) -> (r: CompilationOutcome)
    requires
        index < parent@.len(),
    ensures
        spec_outcome(4, *parent, index as int, *ctx, r),
{
    match &parent[index].1 {
        Value::Number(n) => match n.as_u64() {
            Some(limit) => CompilationOutcome::Compiled(Validator::MaxItems(limit)),
            None => CompilationOutcome::Failed(CompilationError::SchemaError),
        },
        _ => CompilationOutcome::Failed(CompilationError::SchemaError),
    }
}

/// Compiles `minItems`, whose value is the property at `index` of `parent`:
/// it must be a non-negative integer.
pub fn compile_min_items<C: ContentFunctions>(parent: &Vec<(String, Value)>, index: usize, ctx: &C) -> (r: CompilationOutcome)
    requires
        index < parent@.len(),
    ensures
        spec_outcome(6, *parent, index as int, *ctx, r),
{
    match &parent[index].1 {
        Value::Number(n) => match n.as_u64() {
            Some(limit) => CompilationOutcome::Compiled(Validator::MinItems(limit)),
            None => CompilationOutcome::Failed(CompilationError::SchemaError),
        },
        _ => CompilationOutcome::Failed(CompilationError::SchemaError),
    }
}

/// Compiles `maximum`, whose value is the property at `index` of `parent`:
/// the limit is kept as `u64` where it fits, and as `i64` otherwise.
pub fn compile_maximum<C: ContentFunctions>(parent: &Vec<(String, Value)>, index: usize, ctx: &C) -> (r: CompilationOutcome)
    requires
        index < parent@.len(),
    ensures
        spec_outcome(5, *parent, index as int, *ctx, r),
{
    match &parent[index].1 {
        Value::Number(n) => match n.as_u64() {
            Some(limit) => CompilationOutcome::Compiled(Validator::MaximumU64(limit)),
            None => match n.as_i64() {
                Some(limit) => CompilationOutcome::Compiled(Validator::MaximumI64(limit)),
                None => CompilationOutcome::Failed(CompilationError::SchemaError),
            },
        },
        _ => CompilationOutcome::Failed(CompilationError::SchemaError),
    }
}

/// Compiles `minimum`, whose value is the property at `index` of `parent`:
/// the limit is kept as `u64` where it fits, and as `i64` otherwise.
pub fn compile_minimum<C: ContentFunctions>(parent: &Vec<(String, Value)>, index: usize, ctx: &C) -> (r: CompilationOutcome)
    requires
        index < parent@.len(),
    ensures
        spec_outcome(7, *parent, index as int, *ctx, r),
{
    match &parent[index].1 {
        Value::Number(n) => match n.as_u64() {
            Some(limit) => CompilationOutcome::Compiled(Validator::MinimumU64(limit)),
            None => match n.as_i64() {
                Some(limit) => CompilationOutcome::Compiled(Validator::MinimumI64(limit)),
                None => CompilationOutcome::Failed(CompilationError::SchemaError),
            },
        },
        _ => CompilationOutcome::Failed(CompilationError::SchemaError),
    }
}

/// Compiles the keyword at place `kw` of the dispatch table, whose value is
/// the property at `index` of `parent`.
pub fn compile_keyword<C: ContentFunctions>(kw: usize, parent: &Vec<(String, Value)>, index: usize, ctx: &C) -> (r: CompilationOutcome)
    requires
        kw < KEYWORD_COUNT,
        index < parent@.len(),
    ensures
        spec_outcome(kw as int, *parent, index as int, *ctx, r),
    decreases parent, 2int,
{
    if kw == 0 {
        compile_additional_properties(parent, index, ctx)
    } else if kw == 1 {
        compile_content_encoding(parent, index, ctx)
    } else if kw == 2 {
        compile_media_type(parent, index, ctx)
    } else if kw == 3 {
        compile_if(parent, index, ctx)
    } else if kw == 4 {
        compile_max_items(parent, index, ctx)
    } else if kw == 5 {
        compile_maximum(parent, index, ctx)
    } else if kw == 6 {
        compile_min_items(parent, index, ctx)
    } else {
        compile_minimum(parent, index, ctx)
    }
}

/// Compiles the keywords of the object schema `props`, in table order.
fn compile_keywords<C: ContentFunctions>(props: &Vec<(String, Value)>, ctx: &C) -> (r: Result<Vec<Validator>, CompilationError>)
    ensures
        r is Err <==> spec_keywords_fail_from(*props, 0, *ctx),
        r matches Ok(vs) ==> spec_keywords_compiled(*props, 0, *ctx, vs@),
    decreases props, 3int,
{
    let mut out: Vec<Validator> = Vec::new();
    let mut kw: usize = 0;
    while kw < KEYWORD_COUNT
        invariant
            0 <= kw <= KEYWORD_COUNT,
            spec_keywords_fail_from(*props, 0, *ctx) == spec_keywords_fail_from(*props, kw as int, *ctx),
            forall|s: Seq<Validator>|
                #[trigger] spec_keywords_compiled(*props, kw as int, *ctx, s) ==> spec_keywords_compiled(*props, 0, *ctx, out@ + s),
        decreases KEYWORD_COUNT - kw,
    {
        let name = keyword_name(kw);
        match find_property(props, name) {
            Some(i) => {
                let outcome = compile_keyword(kw, props, i, ctx);
                match outcome {
                    CompilationOutcome::Failed(e) => return Err(e),
                    CompilationOutcome::NotApplicable => {
                        assert forall|s: Seq<Validator>|
                            #[trigger] spec_keywords_compiled(*props, kw + 1, *ctx, s)
                                implies spec_keywords_compiled(*props, 0, *ctx, out@ + s) by {
                            assert(spec_keywords_compiled(*props, kw as int, *ctx, s));
                        }
                    },
                    CompilationOutcome::Compiled(v) => {
                        proof {
                            assert forall|s: Seq<Validator>|
                                #[trigger] spec_keywords_compiled(*props, kw + 1, *ctx, s)
                                    implies spec_keywords_compiled(*props, 0, *ctx, out@.push(v) + s) by {
                                let t = seq![v] + s;
                                assert(t.drop_first() =~= s);
                                assert(spec_keywords_compiled(*props, kw as int, *ctx, t));
                                assert(out@ + t =~= out@.push(v) + s);
                            }
                        }
                        out.push(v);
                    },
                }
            },
            None => {
                assert forall|s: Seq<Validator>|
                    #[trigger] spec_keywords_compiled(*props, kw + 1, *ctx, s)
                        implies spec_keywords_compiled(*props, 0, *ctx, out@ + s) by {
                    assert(spec_keywords_compiled(*props, kw as int, *ctx, s));
                }
            },
        }
        kw = kw + 1;
    }
    assert(out@ + Seq::<Validator>::empty() =~= out@);
    assert(spec_keywords_compiled(*props, 8, *ctx, Seq::<Validator>::empty()));
    Ok(out)
}

/// Compiles `schema` into its validators, in the order of the dispatch
/// table: `true` gives none, `false` one that fails for every instance, an
/// object one per applicable keyword. Anything else, and a malformed
/// keyword here or in a sub-schema, is a schema error.
pub fn compile_validators<C: ContentFunctions>(schema: &Value, ctx: &C) -> (r: Result<Vec<Validator>, CompilationError>)
    ensures
        r is Err <==> spec_schema_fails(*schema, *ctx),
        r matches Ok(vs) ==> spec_compiled_to(*schema, *ctx, vs@),
    decreases schema, 4int,
{
    match schema {
        Value::Bool(true) => Ok(Vec::new()),
        Value::Bool(false) => {
            let mut vs: Vec<Validator> = Vec::new();
            vs.push(Validator::FalseSchema);
            Ok(vs)
        },
        Value::Object(props) => compile_keywords(props, ctx),
        _ => Err(CompilationError::SchemaError),
    }
}

} // verus!
