use terser_options::literal::literals_from_defs;
use terser_options::{Lit, NameMap, Number, RawValue, TerserError};

fn number(value: f64, whole: Option<u64>) -> RawValue {
    RawValue::Number(Number { bits: value.to_bits(), whole })
}

#[test]
fn each_scalar_has_the_literal_of_its_kind() {
    assert_eq!(Lit::from_value(&RawValue::Null), Ok(Lit::Null));
    assert_eq!(Lit::from_value(&RawValue::Bool(true)), Ok(Lit::Bool(true)));
    assert_eq!(Lit::from_value(&RawValue::Bool(false)), Ok(Lit::Bool(false)));
    assert_eq!(Lit::from_value(&number(3.0, Some(3))), Ok(Lit::Num(3.0f64.to_bits())));
    assert_eq!(Lit::from_value(&number(-1.5, None)), Ok(Lit::Num((-1.5f64).to_bits())));
    assert_eq!(
        Lit::from_value(&RawValue::Text("1.0".to_string())),
        Ok(Lit::Str("1.0".to_string()))
    );
}

#[test]
fn a_string_is_taken_as_it_stands() {
    let raw = "a\\nb \\u0041 \"q\"";
    assert_eq!(Lit::from_value(&RawValue::Text(raw.to_string())), Ok(Lit::Str(raw.to_string())));
}

#[test]
fn a_list_or_a_record_has_no_literal() {
    assert_eq!(
        Lit::from_value(&RawValue::List(Vec::new())),
        Err(TerserError::UnsupportedLiteralShape)
    );
    assert_eq!(
        Lit::from_value(&RawValue::Record(Vec::new())),
        Err(TerserError::UnsupportedLiteralShape)
    );
    assert_eq!(
        Lit::from_value(&RawValue::List(vec![RawValue::Bool(true)])),
        Err(TerserError::UnsupportedLiteralShape)
    );
}

#[test]
fn global_definitions_become_literals() {
    let mut defs: NameMap<RawValue> = NameMap::new();
    defs.insert("DEBUG".to_string(), RawValue::Bool(false));
    defs.insert("VERSION".to_string(), RawValue::Text("1.0".to_string()));
    defs.insert("COUNT".to_string(), number(3.0, Some(3)));
    defs.insert("X".to_string(), RawValue::Null);
    let lits = literals_from_defs(&defs).unwrap();
    assert_eq!(lits.len(), 4);
    assert_eq!(lits.get("DEBUG"), Some(&Lit::Bool(false)));
    assert_eq!(lits.get("VERSION"), Some(&Lit::Str("1.0".to_string())));
    assert_eq!(lits.get("X"), Some(&Lit::Null));
    match lits.get("COUNT") {
        Some(Lit::Num(bits)) => assert_eq!(f64::from_bits(*bits), 3.0),
        other => panic!("COUNT is {:?}", other),
    }
    assert_eq!(lits.get("OTHER"), None);
}

#[test]
fn a_record_among_the_definitions_is_turned_down() {
    let mut defs: NameMap<RawValue> = NameMap::new();
    defs.insert("BAD".to_string(), RawValue::Record(Vec::new()));
    assert_eq!(literals_from_defs(&defs).err(), Some(TerserError::UnsupportedLiteralShape));
}

#[test]
fn a_list_among_the_definitions_is_turned_down() {
    let mut defs: NameMap<RawValue> = NameMap::new();
    defs.insert("OK".to_string(), RawValue::Bool(true));
    defs.insert("BAD".to_string(), RawValue::List(Vec::new()));
    defs.insert("ALSO_OK".to_string(), RawValue::Null);
    assert_eq!(literals_from_defs(&defs).err(), Some(TerserError::UnsupportedLiteralShape));
}

#[test]
fn no_definitions_give_no_literals() {
    let defs: NameMap<RawValue> = NameMap::new();
    assert_eq!(literals_from_defs(&defs).unwrap().len(), 0);
}

#[test]
fn a_literal_goes_back_to_a_value_of_that_literal() {
    for lit in [
        Lit::Null,
        Lit::Bool(true),
        Lit::Num(2.5f64.to_bits()),
        Lit::Str("s".to_string()),
    ] {
        assert_eq!(Lit::from_value(&lit.to_value()), Ok(lit));
    }
}
