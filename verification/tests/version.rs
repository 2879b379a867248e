use terser_options::{ecma_default, EsVersion, TerserEcmaVersion, TerserError};

fn num(n: usize) -> Result<EsVersion, TerserError> {
    EsVersion::from_terser(&TerserEcmaVersion::Num(n))
}

fn text(s: &str) -> Result<EsVersion, TerserError> {
    EsVersion::from_terser(&TerserEcmaVersion::Str(s.to_string()))
}

#[test]
fn numbers_of_the_table_name_their_edition() {
    assert_eq!(num(3), Ok(EsVersion::Es3));
    assert_eq!(num(5), Ok(EsVersion::Es5));
    assert_eq!(num(6), Ok(EsVersion::Es2015));
    assert_eq!(num(2015), Ok(EsVersion::Es2015));
    assert_eq!(num(2016), Ok(EsVersion::Es2016));
    assert_eq!(num(2017), Ok(EsVersion::Es2017));
    assert_eq!(num(2018), Ok(EsVersion::Es2018));
    assert_eq!(num(2019), Ok(EsVersion::Es2019));
    assert_eq!(num(2020), Ok(EsVersion::Es2020));
}

#[test]
fn six_and_2015_are_one_edition() {
    assert_eq!(num(6), num(2015));
    assert_eq!(text("6"), text("2015"));
    assert_eq!(text("6"), Ok(EsVersion::Es2015));
}

#[test]
fn texts_of_the_table_name_their_edition() {
    assert_eq!(text("3"), Ok(EsVersion::Es3));
    assert_eq!(text("5"), Ok(EsVersion::Es5));
    assert_eq!(text("6"), Ok(EsVersion::Es2015));
    assert_eq!(text("2015"), Ok(EsVersion::Es2015));
    assert_eq!(text("2016"), Ok(EsVersion::Es2016));
    assert_eq!(text("2017"), Ok(EsVersion::Es2017));
    assert_eq!(text("2018"), Ok(EsVersion::Es2018));
    assert_eq!(text("2019"), Ok(EsVersion::Es2019));
    assert_eq!(text("2020"), Ok(EsVersion::Es2020));
    assert_eq!(text("+5"), Ok(EsVersion::Es5));
    assert_eq!(text("02016"), Ok(EsVersion::Es2016));
}

#[test]
fn other_numbers_are_unsupported() {
    for n in [0usize, 1, 2, 4, 7, 8, 9, 10, 11, 2009, 2014, 2021, 2022, 20150, usize::MAX] {
        assert_eq!(num(n), Err(TerserError::UnsupportedVersion), "{}", n);
    }
}

#[test]
fn every_number_up_to_3000_is_in_the_table_or_unsupported() {
    let table = [3usize, 5, 6, 2015, 2016, 2017, 2018, 2019, 2020];
    for n in 0..3000usize {
        assert_eq!(num(n).is_ok(), table.contains(&n), "{}", n);
        assert_eq!(text(&n.to_string()), num(n), "{}", n);
    }
}

#[test]
fn other_texts_are_unsupported() {
    for s in [
        "", "es5", "ES2015", "2015.0", " 2015", "2015 ", "-5", "five", "0x5", "2021", "4",
        "99999999999999999999999999999999", "5,6", "+", "５",
    ] {
        assert_eq!(text(s), Err(TerserError::UnsupportedVersion), "{:?}", s);
    }
}

#[test]
fn from_number_and_from_text_are_the_two_paths() {
    assert_eq!(EsVersion::from_number(2017), Ok(EsVersion::Es2017));
    assert_eq!(EsVersion::from_number(12), Err(TerserError::UnsupportedVersion));
    assert_eq!(EsVersion::from_text("2017"), Ok(EsVersion::Es2017));
    assert_eq!(EsVersion::from_text("x"), Err(TerserError::UnsupportedVersion));
}

#[test]
fn an_edition_is_named_by_its_own_number() {
    for e in [
        EsVersion::Es3,
        EsVersion::Es5,
        EsVersion::Es2015,
        EsVersion::Es2016,
        EsVersion::Es2017,
        EsVersion::Es2018,
        EsVersion::Es2019,
        EsVersion::Es2020,
    ] {
        assert_eq!(num(e.number()), Ok(e));
    }
    assert_eq!(EsVersion::Es3.number(), 3);
    assert_eq!(EsVersion::Es2015.number(), 2015);
}

#[test]
fn the_default_version_is_edition_5() {
    assert_eq!(ecma_default(), TerserEcmaVersion::Num(5));
    assert_eq!(EsVersion::from_terser(&ecma_default()), Ok(EsVersion::Es5));
}

#[test]
fn each_error_says_what_it_is() {
    assert_eq!(
        TerserError::SchemaViolation.describe(),
        "the configuration does not fit the schema"
    );
    assert_eq!(
        TerserError::UnsupportedVersion.describe(),
        "the version names no supported edition"
    );
    assert_eq!(
        TerserError::UnsupportedLiteralShape.describe(),
        "a global definition is a list or a record"
    );
}
