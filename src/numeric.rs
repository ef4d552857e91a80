//! Exact comparison of integers held in different representations.
use vstd::prelude::*;
use crate::value::Number;

verus! {

/// Relies on num_cmp::NumCmp::num_gt for `u64` against `i64`: an exact comparison.
#[verifier::external_body]
fn u64_gt_i64(a: u64, b: i64) -> (r: bool)
    ensures
        r == (a as int > b as int),
{
    num_cmp::NumCmp::num_gt(a, b)
}

/// Relies on num_cmp::NumCmp::num_gt for `i64` against `u64`: an exact comparison.
#[verifier::external_body]
fn i64_gt_u64(a: i64, b: u64) -> (r: bool)
    ensures
        r == (a as int > b as int),
{
    num_cmp::NumCmp::num_gt(a, b)
}

/// Relies on num_cmp::NumCmp::num_lt for `u64` against `i64`: an exact comparison.
#[verifier::external_body]
fn u64_lt_i64(a: u64, b: i64) -> (r: bool)
    ensures
        r == ((a as int) < (b as int)),
{
    num_cmp::NumCmp::num_lt(a, b)
}

/// Relies on num_cmp::NumCmp::num_lt for `i64` against `u64`: an exact comparison.
#[verifier::external_body]
fn i64_lt_u64(a: i64, b: u64) -> (r: bool)
    ensures
        r == ((a as int) < (b as int)),
{
    num_cmp::NumCmp::num_lt(a, b)
}

/// Whether `item` is greater than the unsigned `limit`, compared exactly.
pub fn num_gt_u64(item: &Number, limit: u64) -> (r: bool)
    ensures
        r == (item.value() > limit as int),
{
    if let Some(n) = item.as_u64() {
        n > limit
    } else if let Some(n) = item.as_i64() {
        i64_gt_u64(n, limit)
    } else {
        true
    }
}

/// Whether `item` is greater than the signed `limit`, compared exactly.
pub fn num_gt_i64(item: &Number, limit: i64) -> (r: bool)
    ensures
        r == (item.value() > limit as int),
{
    if let Some(n) = item.as_u64() {
        u64_gt_i64(n, limit)
    } else if let Some(n) = item.as_i64() {
        n > limit
    } else {
        true
    }
}

/// Whether `item` is less than the unsigned `limit`, compared exactly.
pub fn num_lt_u64(item: &Number, limit: u64) -> (r: bool)
    ensures
        r == (item.value() < limit as int),
{
    if let Some(n) = item.as_u64() {
        n < limit
    } else if let Some(n) = item.as_i64() {
        i64_lt_u64(n, limit)
    } else {
        false
    }
}

/// Whether `item` is less than the signed `limit`, compared exactly.
pub fn num_lt_i64(item: &Number, limit: i64) -> (r: bool)
    ensures
        r == (item.value() < limit as int),
{
    if let Some(n) = item.as_u64() {
        u64_lt_i64(n, limit)
    } else if let Some(n) = item.as_i64() {
        n < limit
    } else {
        false
    }
}

} // verus!
