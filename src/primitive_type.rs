//! The seven structural kinds of a value, and a compact set of them.
use vstd::prelude::*;
use crate::value::Value;

verus! {

/// A structural kind, matched on in place of its name.
#[derive(Clone, Copy, Debug, PartialEq, Eq, Structural)]
pub enum PrimitiveType {
    Array,
    Boolean,
    Integer,
    Null,
    Number,
    Object,
    String,
}

/// The single bit that stands for `t` in a [`PrimitiveTypesBitMap`].
pub open spec fn spec_bit(t: PrimitiveType) -> u8 {
    match t {
        PrimitiveType::Array => 1,
        PrimitiveType::Boolean => 2,
        PrimitiveType::Integer => 4,
        PrimitiveType::Null => 8,
        PrimitiveType::Number => 16,
        PrimitiveType::Object => 32,
        PrimitiveType::String => 64,
    }
}

/// The kind whose bit is `b`, for a bit that stands for one.
pub open spec fn spec_type_of_bit(b: u8) -> Option<PrimitiveType> {
    if b == 1 {
        Some(PrimitiveType::Array)
    } else if b == 2 {
        Some(PrimitiveType::Boolean)
    } else if b == 4 {
        Some(PrimitiveType::Integer)
    } else if b == 8 {
        Some(PrimitiveType::Null)
    } else if b == 16 {
        Some(PrimitiveType::Number)
    } else if b == 32 {
        Some(PrimitiveType::Object)
    } else if b == 64 {
        Some(PrimitiveType::String)
    } else {
        None
    }
}

/// The kinds in the order in which a set of them is listed.
pub open spec fn spec_type_order() -> Seq<PrimitiveType> {
    seq![
        PrimitiveType::Array,
        PrimitiveType::Boolean,
        PrimitiveType::Integer,
        PrimitiveType::Null,
        PrimitiveType::Number,
        PrimitiveType::Object,
        PrimitiveType::String,
    ]
}

impl PrimitiveType {
    /// The kind's name as schemas write it.
    pub fn name(&self) -> (r: &'static str)
        ensures
            r@ == spec_type_name(*self),
    {
        match self {
            PrimitiveType::Array => "array",
            PrimitiveType::Boolean => "boolean",
            PrimitiveType::Integer => "integer",
            PrimitiveType::Null => "null",
            PrimitiveType::Number => "number",
            PrimitiveType::Object => "object",
            PrimitiveType::String => "string",
        }
    }

    /// The kind named `name`, if any.
    pub fn from_name(name: &str) -> (r: Option<PrimitiveType>)
        ensures
            r matches Some(t) ==> spec_type_name(t) == name@,
            r is None ==> forall|t: PrimitiveType| spec_type_name(t) != name@,
    {
        let owned = name.to_owned();
        let mut i: usize = 0;
        let kinds = [
            PrimitiveType::Array,
            PrimitiveType::Boolean,
            PrimitiveType::Integer,
            PrimitiveType::Null,
            PrimitiveType::Number,
            PrimitiveType::Object,
            PrimitiveType::String,
        ];
        while i < 7
            invariant
                0 <= i <= 7,
                owned@ == name@,
                kinds@ == spec_type_order(),
                forall|j: int| 0 <= j < i ==> spec_type_name(#[trigger] spec_type_order()[j]) != name@,
            decreases 7 - i,
        {
            let candidate = kinds[i].name().to_owned();
            if candidate == owned {
                return Some(kinds[i]);
            }
            i = i + 1;
        }
        assert forall|t: PrimitiveType| spec_type_name(t) != name@ by {
            match t {
                PrimitiveType::Array => assert(spec_type_order()[0] == t),
                PrimitiveType::Boolean => assert(spec_type_order()[1] == t),
                PrimitiveType::Integer => assert(spec_type_order()[2] == t),
                PrimitiveType::Null => assert(spec_type_order()[3] == t),
                PrimitiveType::Number => assert(spec_type_order()[4] == t),
                PrimitiveType::Object => assert(spec_type_order()[5] == t),
                PrimitiveType::String => assert(spec_type_order()[6] == t),
            }
        }
        None
    }

    /// The structural kind of a value.
    pub fn of(instance: &Value) -> (r: PrimitiveType)
        ensures
            r == spec_kind_of(*instance),
    {
        match instance {
            Value::Null => PrimitiveType::Null,
            Value::Bool(_) => PrimitiveType::Boolean,
            Value::Number(_) => PrimitiveType::Number,
            Value::String(_) => PrimitiveType::String,
            Value::Array(_) => PrimitiveType::Array,
            Value::Object(_) => PrimitiveType::Object,
        }
    }
}

/// The name of a kind as schemas write it.
pub open spec fn spec_type_name(t: PrimitiveType) -> Seq<char> {
    match t {
        PrimitiveType::Array => "array"@,
        PrimitiveType::Boolean => "boolean"@,
        PrimitiveType::Integer => "integer"@,
        PrimitiveType::Null => "null"@,
        PrimitiveType::Number => "number"@,
        PrimitiveType::Object => "object"@,
        PrimitiveType::String => "string"@,
    }
}

/// The structural kind of a value (a number's kind is `Number`).
pub open spec fn spec_kind_of(v: Value) -> PrimitiveType {
    match v {
        Value::Null => PrimitiveType::Null,
        Value::Bool(_) => PrimitiveType::Boolean,
        Value::Number(_) => PrimitiveType::Number,
        Value::String(_) => PrimitiveType::String,
        Value::Array(_) => PrimitiveType::Array,
        Value::Object(_) => PrimitiveType::Object,
    }
}

/// The bit that stands for `primitive_type`.
pub fn primitive_type_to_bit_map_representation(primitive_type: PrimitiveType) -> (r: u8)
    ensures
        r == spec_bit(primitive_type),
{
    match primitive_type {
        PrimitiveType::Array => 1,
        PrimitiveType::Boolean => 2,
        PrimitiveType::Integer => 4,
        PrimitiveType::Null => 8,
        PrimitiveType::Number => 16,
        PrimitiveType::Object => 32,
        PrimitiveType::String => 64,
    }
}

/// The kind that the single bit `bit_representation` stands for.
pub fn bit_map_representation_primitive_type(bit_representation: u8) -> (r: PrimitiveType)
    requires
        spec_type_of_bit(bit_representation) is Some,
    ensures
        Some(r) == spec_type_of_bit(bit_representation),
        spec_bit(r) == bit_representation,
{
    if bit_representation == 1 {
        PrimitiveType::Array
    } else if bit_representation == 2 {
        PrimitiveType::Boolean
    } else if bit_representation == 4 {
        PrimitiveType::Integer
    } else if bit_representation == 8 {
        PrimitiveType::Null
    } else if bit_representation == 16 {
        PrimitiveType::Number
    } else if bit_representation == 32 {
        PrimitiveType::Object
    } else {
        PrimitiveType::String
    }
}

/// A set of kinds, one bit per kind.
#[derive(Clone, Copy, Debug)]
pub struct PrimitiveTypesBitMap {
    inner: u8,
}

proof fn lemma_bits_distinct(a: u8, x: u8, y: u8)
    requires
        spec_type_of_bit(x) is Some,
        spec_type_of_bit(y) is Some,
    ensures
        ((a | x) & y != 0) == ((a & y != 0) || x == y),
{
    assert(x == 1 || x == 2 || x == 4 || x == 8 || x == 16 || x == 32 || x == 64);
    assert(y == 1 || y == 2 || y == 4 || y == 8 || y == 16 || y == 32 || y == 64);
    assert(((x == 1 || x == 2 || x == 4 || x == 8 || x == 16 || x == 32 || x == 64) && (y == 1
        || y == 2 || y == 4 || y == 8 || y == 16 || y == 32 || y == 64)) ==> (((a | x) & y != 0)
        == ((a & y != 0) || x == y))) by (bit_vector);
}

proof fn lemma_bit_of_type(t: PrimitiveType)
    ensures
        spec_type_of_bit(spec_bit(t)) == Some(t),
{
}

impl View for PrimitiveTypesBitMap {
    type V = Set<PrimitiveType>;

    closed spec fn view(&self) -> Set<PrimitiveType> {
        Set::new(|t: PrimitiveType| self.inner & spec_bit(t) != 0)
    }
}

impl PrimitiveTypesBitMap {
    /// The empty set.
    pub fn new() -> (r: Self)
        ensures
            r@ == Set::<PrimitiveType>::empty(),
    {
        let r = PrimitiveTypesBitMap { inner: 0 };
        assert forall|t: PrimitiveType| !r@.contains(t) by {
            let b = spec_bit(t);
            assert(0u8 & b == 0) by (bit_vector);
        }
        assert(r@ =~= Set::<PrimitiveType>::empty());
        r
    }

    /// The set with `primitive_type` added.
    pub fn add_type(self, primitive_type: PrimitiveType) -> (r: Self)
        ensures
            r@ == self@.insert(primitive_type),
    {
        let bit = primitive_type_to_bit_map_representation(primitive_type);
        let r = PrimitiveTypesBitMap { inner: self.inner | bit };
        assert forall|t: PrimitiveType| r@.contains(t) == self@.insert(primitive_type).contains(t) by {
            lemma_bit_of_type(t);
            lemma_bit_of_type(primitive_type);
            lemma_bits_distinct(self.inner, bit, spec_bit(t));
            if spec_bit(t) == bit {
                assert(t == primitive_type);
            }
        }
        assert(r@ =~= self@.insert(primitive_type));
        r
    }

    /// Whether `primitive_type` is in the set.
    pub fn contains_type(self, primitive_type: PrimitiveType) -> (r: bool)
        ensures
            r == self@.contains(primitive_type),
    {
        let bit = primitive_type_to_bit_map_representation(primitive_type);
        let inner = self.inner;
        assert(bit & inner == inner & bit) by (bit_vector);
        bit & inner != 0
    }

    /// Adds `rhs` to the set in place.
    pub fn bitor_assign(&mut self, rhs: PrimitiveType)
        ensures
            final(self)@ == old(self)@.insert(rhs),
    {
        *self = self.add_type(rhs);
    }

    /// The set of the kinds listed in `types`.
    pub fn from_types(types: &Vec<PrimitiveType>) -> (r: Self)
        ensures
            r@ == types@.to_set(),
    {
        let mut result = Self::new();
        let mut i: usize = 0;
        while i < types.len()
            invariant
                0 <= i <= types@.len(),
                result@ == types@.take(i as int).to_set(),
            decreases types@.len() - i,
        {
            proof {
                assert(types@.take(i + 1) =~= types@.take(i as int).push(types@[i as int]));
                types@.take(i as int).lemma_push_to_set_commute(types@[i as int]);
            }
            result.bitor_assign(types[i]);
            i = i + 1;
        }
        assert(types@.take(i as int) =~= types@);
        result
    }

    /// The kinds in the set, in the fixed order array, boolean, integer,
    /// null, number, object, string.
    pub fn types(self) -> (r: Vec<PrimitiveType>)
        ensures
            r@ == spec_type_order().filter(|t: PrimitiveType| self@.contains(t)),
    {
        let mut out: Vec<PrimitiveType> = Vec::new();
        let mut shift: u8 = 0;
        while shift < 7
            invariant
                0 <= shift <= 7,
                out@ == spec_type_order().take(shift as int).filter(|t: PrimitiveType| self@.contains(t)),
            decreases 7 - shift,
        {
            let bit: u8 = 1u8 << shift;
            assert(spec_type_of_bit(bit) is Some && spec_type_of_bit(bit) == Some(spec_type_order()[shift as int])) by {
                assert(shift == 0 ==> (1u8 << shift) == 1) by (bit_vector);
                assert(shift == 1 ==> (1u8 << shift) == 2) by (bit_vector);
                assert(shift == 2 ==> (1u8 << shift) == 4) by (bit_vector);
                assert(shift == 3 ==> (1u8 << shift) == 8) by (bit_vector);
                assert(shift == 4 ==> (1u8 << shift) == 16) by (bit_vector);
                assert(shift == 5 ==> (1u8 << shift) == 32) by (bit_vector);
                assert(shift == 6 ==> (1u8 << shift) == 64) by (bit_vector);
            }
            proof {
                let s = spec_type_order().take(shift as int);
                assert(spec_type_order().take(shift + 1) =~= s.push(spec_type_order()[shift as int]));
                s.lemma_filter_push(spec_type_order()[shift as int], |t: PrimitiveType| self@.contains(t));
            }
            if self.inner & bit != 0 {
                out.push(bit_map_representation_primitive_type(bit));
            }
            shift = shift + 1;
        }
        assert(spec_type_order().take(7) =~= spec_type_order());
        out
    }
}

} // verus!
