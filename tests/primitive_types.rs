use jsonschema::primitive_type::{
    bit_map_representation_primitive_type, primitive_type_to_bit_map_representation, PrimitiveType, PrimitiveTypesBitMap,
};
use jsonschema::value::{Number, Value};

#[test]
fn bits_are_distinct_single_bits() {
    let kinds = [
        PrimitiveType::Array,
        PrimitiveType::Boolean,
        PrimitiveType::Integer,
        PrimitiveType::Null,
        PrimitiveType::Number,
        PrimitiveType::Object,
        PrimitiveType::String,
    ];
    let mut seen = 0u8;
    for kind in kinds {
        let bit = primitive_type_to_bit_map_representation(kind);
        assert_eq!(bit.count_ones(), 1);
        assert_eq!(seen & bit, 0);
        seen |= bit;
        assert_eq!(bit_map_representation_primitive_type(bit), kind);
    }
    assert_eq!(primitive_type_to_bit_map_representation(PrimitiveType::Object), 32);
}

#[test]
fn bitmap_membership() {
    let map = PrimitiveTypesBitMap::new().add_type(PrimitiveType::Null).add_type(PrimitiveType::String);
    assert!(map.contains_type(PrimitiveType::Null));
    assert!(map.contains_type(PrimitiveType::String));
    assert!(!map.contains_type(PrimitiveType::Array));
    assert!(!PrimitiveTypesBitMap::new().contains_type(PrimitiveType::Integer));
}

#[test]
fn bitmap_lists_in_fixed_order() {
    let mut map = PrimitiveTypesBitMap::new();
    map.bitor_assign(PrimitiveType::String);
    map.bitor_assign(PrimitiveType::Array);
    map.bitor_assign(PrimitiveType::Integer);
    assert_eq!(map.types(), vec![PrimitiveType::Array, PrimitiveType::Integer, PrimitiveType::String]);
    let all = PrimitiveTypesBitMap::from_types(&vec![
        PrimitiveType::Object,
        PrimitiveType::Number,
        PrimitiveType::Null,
        PrimitiveType::Integer,
        PrimitiveType::Boolean,
        PrimitiveType::Array,
        PrimitiveType::String,
    ]);
    assert_eq!(all.types().len(), 7);
    assert_eq!(all.types()[0], PrimitiveType::Array);
}

#[test]
fn names_round_trip() {
    assert_eq!(PrimitiveType::from_name("integer"), Some(PrimitiveType::Integer));
    assert_eq!(PrimitiveType::from_name("object"), Some(PrimitiveType::Object));
    assert_eq!(PrimitiveType::from_name("float"), None);
    assert_eq!(PrimitiveType::Boolean.name(), "boolean");
}

#[test]
fn kind_of_values() {
    assert_eq!(PrimitiveType::of(&Value::Null), PrimitiveType::Null);
    assert_eq!(PrimitiveType::of(&Value::Number(Number::NegInt(-1))), PrimitiveType::Number);
    assert_eq!(PrimitiveType::of(&Value::Object(vec![])), PrimitiveType::Object);
}

#[test]
fn number_conversions() {
    assert_eq!(Number::NegInt(-1).as_u64(), None);
    assert_eq!(Number::NegInt(7).as_u64(), Some(7));
    assert_eq!(Number::PosInt(u64::MAX).as_i64(), None);
    assert_eq!(Number::PosInt(9).as_i64(), Some(9));
}
