use terser_options::cascade::{flag_level, resolve_flag, resolve_inline, resolve_sequences};
use terser_options::{
    TerserInlineOption, TerserPureGetterOption, TerserSequenceOptions, TerserTopLevelOptions,
    TopLevelOptions,
};
use terser_options::toplevel::resolve_top_level;

#[test]
fn a_given_flag_keeps_its_value() {
    for defaults in [false, true] {
        assert_eq!(resolve_flag(Some(true), defaults), true);
        assert_eq!(resolve_flag(Some(false), defaults), false);
    }
}

#[test]
fn an_open_flag_takes_the_default() {
    assert_eq!(resolve_flag(None, true), true);
    assert_eq!(resolve_flag(None, false), false);
}

#[test]
fn levels_of_flags() {
    assert_eq!(flag_level(true), 3);
    assert_eq!(flag_level(false), 0);
}

#[test]
fn inline_levels() {
    for defaults in [false, true] {
        assert_eq!(resolve_inline(Some(TerserInlineOption::Bool(true)), defaults), 3);
        assert_eq!(resolve_inline(Some(TerserInlineOption::Bool(false)), defaults), 0);
        for n in [0u8, 1, 2, 3, 4, 17, 255] {
            assert_eq!(resolve_inline(Some(TerserInlineOption::Num(n)), defaults), n);
        }
    }
    assert_eq!(resolve_inline(None, true), 3);
    assert_eq!(resolve_inline(None, false), 0);
}

#[test]
fn sequences_levels() {
    for defaults in [false, true] {
        assert_eq!(resolve_sequences(Some(TerserSequenceOptions::Bool(true)), defaults), 3);
        assert_eq!(resolve_sequences(Some(TerserSequenceOptions::Bool(false)), defaults), 0);
        for n in [0u8, 1, 2, 3, 4, 200, 255] {
            assert_eq!(resolve_sequences(Some(TerserSequenceOptions::Num(n)), defaults), n);
        }
    }
    assert_eq!(resolve_sequences(None, true), 3);
    assert_eq!(resolve_sequences(None, false), 0);
}

#[test]
fn level_methods() {
    assert_eq!(TerserInlineOption::Bool(true).level(), 3);
    assert_eq!(TerserInlineOption::Num(2).level(), 2);
    assert_eq!(TerserSequenceOptions::Bool(false).level(), 0);
    assert_eq!(TerserSequenceOptions::Num(9).level(), 9);
}

#[test]
fn top_level_takes_the_boolean() {
    assert_eq!(
        TopLevelOptions::from(TerserTopLevelOptions::Bool(true)),
        TopLevelOptions { functions: true }
    );
    assert_eq!(
        TopLevelOptions::from(TerserTopLevelOptions::Bool(false)),
        TopLevelOptions { functions: false }
    );
}

#[test]
fn top_level_text_switches_nothing_on() {
    for s in ["", "all", "funcs", "true"] {
        assert_eq!(
            TopLevelOptions::from(TerserTopLevelOptions::Str(s.to_string())),
            TopLevelOptions { functions: false }
        );
    }
}

#[test]
fn top_level_left_open_stays_open() {
    assert_eq!(resolve_top_level(None), None);
    assert_eq!(
        resolve_top_level(Some(TerserTopLevelOptions::Bool(true))),
        Some(TopLevelOptions { functions: true })
    );
    assert_eq!(
        resolve_top_level(Some(TerserTopLevelOptions::Str("x".to_string()))),
        Some(TopLevelOptions { functions: false })
    );
}

#[test]
fn pure_getters_default_is_strict() {
    assert_eq!(TerserPureGetterOption::default(), TerserPureGetterOption::Strict);
}
