//! Properties that hold of every compiled validator.
use vstd::prelude::*;
use crate::content::ContentFunctions;
use crate::primitive_type::{spec_kind_of, PrimitiveType};
use crate::validator::{
    ErrorView, spec_all_valid, spec_errors, spec_exempt, spec_extra_errors, spec_first_extra, spec_is_valid, spec_list_errors,
    spec_property_errors, Exemptions, Validator,
};
use crate::value::Value;

verus! {

proof fn lemma_list_valid_iff_no_errors<C: ContentFunctions>(vs: Vec<Validator>, n: int, ctx: C, inst: Value)
    requires
        0 <= n <= vs.len(),
    ensures
        (spec_list_errors(vs, n, ctx, inst).len() == 0) == (forall|i: int| 0 <= i < n ==> spec_is_valid(#[trigger] vs[i], ctx, inst)),
    decreases vs, n,
{
    if n > 0 {
        lemma_list_valid_iff_no_errors(vs, n - 1, ctx, inst);
        lemma_valid_iff_no_errors(vs[n - 1], ctx, inst);
    }
}

proof fn lemma_property_valid_iff_no_errors<C: ContentFunctions>(w: Validator, props: Seq<(String, Value)>, m: int, ex: Exemptions, ctx: C)
    requires
        0 <= m <= props.len(),
    ensures
        (spec_property_errors(w, props, m, ex, ctx).len() == 0) == (forall|k: int|
            0 <= k < m && !spec_exempt(ex, props[k].0@) ==> spec_is_valid(w, ctx, (#[trigger] props[k]).1)),
    decreases w, m + 1,
{
    if m > 0 {
        lemma_property_valid_iff_no_errors(w, props, m - 1, ex, ctx);
        lemma_valid_iff_no_errors(w, ctx, props[m - 1].1);
    }
}

proof fn lemma_extra_valid_iff_no_errors<C: ContentFunctions>(vs: Vec<Validator>, n: int, props: Seq<(String, Value)>, ex: Exemptions, ctx: C)
    requires
        0 <= n <= vs.len(),
    ensures
        (spec_extra_errors(vs, n, props, ex, ctx).len() == 0) == (forall|j: int, k: int|
            0 <= j < n && 0 <= k < props.len() && !spec_exempt(ex, props[k].0@)
                ==> spec_is_valid(#[trigger] vs[j], ctx, (#[trigger] props[k]).1)),
    decreases vs, n,
{
    if n > 0 {
        lemma_extra_valid_iff_no_errors(vs, n - 1, props, ex, ctx);
        lemma_property_valid_iff_no_errors(vs[n - 1], props, props.len() as int, ex, ctx);
    }
}

proof fn lemma_first_extra_empty_iff_exempt(props: Seq<(String, Value)>, ex: Exemptions, k: int)
    requires
        0 <= k <= props.len(),
    ensures
        (spec_first_extra(props, ex, k).len() == 0) == (forall|q: int| k <= q < props.len() ==> spec_exempt(ex, (#[trigger] props[q]).0@)),
    decreases props.len() - k,
{
    if k < props.len() {
        lemma_first_extra_empty_iff_exempt(props, ex, k + 1);
    }
}

/// A validator accepts an instance exactly where it reports no error for it.
pub proof fn lemma_valid_iff_no_errors<C: ContentFunctions>(v: Validator, ctx: C, inst: Value)
    ensures
        spec_is_valid(v, ctx, inst) == (spec_errors(v, ctx, inst).len() == 0),
    decreases v, 0int,
{
    match v {
        Validator::IfThen { condition, then_branch } => {
            lemma_list_valid_iff_no_errors(then_branch, then_branch.len() as int, ctx, inst);
        },
        Validator::IfElse { condition, else_branch } => {
            lemma_list_valid_iff_no_errors(else_branch, else_branch.len() as int, ctx, inst);
        },
        Validator::IfThenElse { condition, then_branch, else_branch } => {
            lemma_list_valid_iff_no_errors(then_branch, then_branch.len() as int, ctx, inst);
            lemma_list_valid_iff_no_errors(else_branch, else_branch.len() as int, ctx, inst);
        },
        Validator::AdditionalProperties { validators, exemptions } => match inst {
            Value::Object(props) => {
                lemma_extra_valid_iff_no_errors(validators, validators.len() as int, props@, exemptions, ctx);
                assert(spec_is_valid(v, ctx, inst) == (forall|j: int, k: int|
                    0 <= j < validators.len() && 0 <= k < props@.len() && !spec_exempt(exemptions, props@[k].0@)
                        ==> spec_is_valid(#[trigger] validators[j], ctx, (#[trigger] props@[k]).1))) by {
                    if spec_is_valid(v, ctx, inst) {
                        assert forall|j: int, k: int|
                            0 <= j < validators.len() && 0 <= k < props@.len() && !spec_exempt(exemptions, props@[k].0@)
                                implies spec_is_valid(#[trigger] validators[j], ctx, (#[trigger] props@[k]).1) by {
                            assert(spec_all_valid(validators, ctx, props@[k].1));
                        }
                    }
                }
            },
            _ => {},
        },
        Validator::AdditionalPropertiesFalse { exemptions } => match inst {
            Value::Object(props) => {
                lemma_first_extra_empty_iff_exempt(props@, exemptions, 0);
            },
            _ => {},
        },
        _ => {},
    }
}

/// The one structural kind that a validator's keyword is bound to, if any.
pub open spec fn spec_bound_kind(v: Validator) -> Option<PrimitiveType> {
    match v {
        Validator::MaximumU64(_) | Validator::MaximumI64(_) | Validator::MinimumU64(_) | Validator::MinimumI64(_) => Some(
            PrimitiveType::Number,
        ),
        Validator::MaxItems(_) | Validator::MinItems(_) => Some(PrimitiveType::Array),
        Validator::AdditionalProperties { .. } | Validator::AdditionalPropertiesFalse { .. } => Some(PrimitiveType::Object),
        Validator::ContentMediaType { .. } | Validator::ContentEncoding { .. } | Validator::ContentMediaTypeAndEncoding {
            ..
        } => Some(PrimitiveType::String),
        _ => None,
    }
}

/// A validator whose keyword is bound to one structural kind accepts every
/// instance of another kind, and reports no error for it.
pub proof fn lemma_other_kind_passes<C: ContentFunctions>(v: Validator, ctx: C, inst: Value)
    requires
        spec_bound_kind(v) matches Some(k) && spec_kind_of(inst) != k,
    ensures
        spec_is_valid(v, ctx, inst),
        spec_errors(v, ctx, inst).len() == 0,
{
    lemma_valid_iff_no_errors(v, ctx, inst);
}

proof fn lemma_first_extra_skips(props: Seq<(String, Value)>, ex: Exemptions, j: int)
    requires
        0 <= j <= props.len(),
        forall|q: int| 0 <= q < j ==> spec_exempt(ex, (#[trigger] props[q]).0@),
    ensures
        spec_first_extra(props, ex, 0) == spec_first_extra(props, ex, j),
    decreases j,
{
    if j > 0 {
        lemma_first_extra_skips(props, ex, j - 1);
    }
}

/// `additionalProperties: false` reports exactly one error for an object
/// with a property that it does not exempt: the first such property, in
/// the object's order.
pub proof fn lemma_false_reports_first_extra<C: ContentFunctions>(
    exemptions: Exemptions,
    ctx: C,
    props: Vec<(String, Value)>,
    k: int,
)
    requires
        0 <= k < props.len(),
        !spec_exempt(exemptions, props@[k].0@),
        forall|q: int| 0 <= q < k ==> spec_exempt(exemptions, (#[trigger] props@[q]).0@),
    ensures
        spec_errors(Validator::AdditionalPropertiesFalse { exemptions }, ctx, Value::Object(props))
            == seq![ErrorView::AdditionalProperty { property: props@[k].0@ }],
{
    lemma_first_extra_skips(props@, exemptions, k);
}

} // verus!
