//! The structured value model that schemas and instances are written in.
use vstd::prelude::*;

verus! {

/// A number as a JSON document stores it: a non-negative integer that fits
/// in `u64`, or a negative one that fits in `i64`.
#[derive(Clone, Copy, Debug, PartialEq, Eq, Structural)]
pub enum Number {
    PosInt(u64),
    NegInt(i64),
}

impl Number {
    /// The mathematical value of the number.
    pub open spec fn value(self) -> int {
        match self {
            Number::PosInt(n) => n as int,
            Number::NegInt(n) => n as int,
        }
    }

    /// The number as `u64`, where it is a non-negative integer in range.
    pub fn as_u64(&self) -> (r: Option<u64>)
        ensures
            r == (if 0 <= self.value() <= u64::MAX { Some(self.value() as u64) } else { None::<u64> }),
    {
        match *self {
            Number::PosInt(n) => Some(n),
            Number::NegInt(n) => if n >= 0 {
                Some(n as u64)
            } else {
                None
            },
        }
    }

    /// The number as `i64`, where it fits.
    pub fn as_i64(&self) -> (r: Option<i64>)
        ensures
            r == (if i64::MIN <= self.value() <= i64::MAX { Some(self.value() as i64) } else { None::<i64> }),
    {
        match *self {
            Number::PosInt(n) => if n <= i64::MAX as u64 {
                Some(n as i64)
            } else {
                None
            },
            Number::NegInt(n) => Some(n),
        }
    }
}

/// A JSON-like value: a schema or an instance.
///
/// An object is the sequence of its properties in iteration order.
#[derive(Debug)]
pub enum Value {
    Null,
    Bool(bool),
    Number(Number),
    String(String),
    Array(Vec<Value>),
    Object(Vec<(String, Value)>),
}

/// The index of the first property of `props`, from index `k` on, named `key`.
pub open spec fn spec_find_from(props: Seq<(String, Value)>, key: Seq<char>, k: int) -> Option<int>
    decreases props.len() - k,
{
    if k < 0 || k >= props.len() {
        None
    } else if props[k].0@ == key {
        Some(k)
    } else {
        spec_find_from(props, key, k + 1)
    }
}

/// The index of the first property of `props` named `key`.
pub open spec fn spec_find(props: Seq<(String, Value)>, key: Seq<char>) -> Option<int> {
    spec_find_from(props, key, 0)
}

/// A found index lies in range and names `key`.
pub proof fn lemma_find_in_range(props: Seq<(String, Value)>, key: Seq<char>, k: int)
    ensures
        spec_find_from(props, key, k) matches Some(i) ==> 0 <= k <= i < props.len() && props[i].0@ == key,
    decreases props.len() - k,
{
    if 0 <= k < props.len() && props[k].0@ != key {
        lemma_find_in_range(props, key, k + 1);
    }
}

/// The names of the properties of `props`, in order.
pub open spec fn spec_keys(props: Seq<(String, Value)>) -> Seq<Seq<char>> {
    props.map_values(|p: (String, Value)| p.0@)
}

/// Finds the index of the first property of `props` named `key`.
pub fn find_property(props: &Vec<(String, Value)>, key: &str) -> (r: Option<usize>)
    ensures
        match r {
            Some(i) => spec_find(props@, key@) == Some(i as int),
            None => spec_find(props@, key@) is None,
        },
        r matches Some(i) ==> i < props@.len() && props@[i as int].0@ == key@,
{
    let wanted = key.to_owned();
    let mut i: usize = 0;
    while i < props.len()
        invariant
            0 <= i <= props@.len(),
            wanted@ == key@,
            spec_find(props@, key@) == spec_find_from(props@, key@, i as int),
        decreases props@.len() - i,
    {
        if props[i].0 == wanted {
            return Some(i);
        }
        i = i + 1;
    }
    None
}

/// The names of the properties of `props`, in order.
pub fn keys(props: &Vec<(String, Value)>) -> (r: Vec<String>)
    ensures
        r@.map_values(|s: String| s@) == spec_keys(props@),
{
    let mut out: Vec<String> = Vec::new();
    let mut i: usize = 0;
    while i < props.len()
        invariant
            0 <= i <= props@.len(),
            out@.map_values(|s: String| s@) == spec_keys(props@.take(i as int)),
        decreases props@.len() - i,
    {
        out.push(props[i].0.clone());
        assert(spec_keys(props@.take(i + 1)) =~= spec_keys(props@.take(i as int)).push(props@[i as int].0@));
        assert(out@.map_values(|s: String| s@) =~= spec_keys(props@.take(i + 1)));
        i = i + 1;
    }
    assert(props@.take(i as int) =~= props@);
    out
}

} // verus!
