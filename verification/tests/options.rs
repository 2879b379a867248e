use terser_options::{
    CompressOptions, EsVersion, Lit, NameMap, Number, RawValue, TerserCompressorOptions,
    TerserEcmaVersion, TerserError, TerserInlineOption, TerserPureGetterOption,
    TerserSequenceOptions, TerserTopLevelOptions, TerserTopRetainOption, TopLevelOptions,
};

fn blank() -> TerserCompressorOptions {
    TerserCompressorOptions::default()
}

fn resolve(c: TerserCompressorOptions) -> CompressOptions {
    CompressOptions::from_terser(c).unwrap()
}

fn optional_flags(o: &CompressOptions) -> [bool; 16] {
    [
        o.arrows,
        o.bools,
        o.collapse_vars,
        o.comparisons,
        o.drop_debugger,
        o.evaluate,
        o.hoist_props,
        o.if_return,
        o.join_vars,
        o.keep_fargs,
        o.loops,
        o.negate_iife,
        o.props,
        o.side_effects,
        o.typeofs,
        o.unused,
    ]
}

fn with_optional_flags(given: Option<bool>, defaults: bool) -> TerserCompressorOptions {
    TerserCompressorOptions {
        defaults,
        arrows: given,
        booleans: given,
        collapse_vars: given,
        comparisons: given,
        drop_debugger: given,
        evaluate: given,
        hoist_props: given,
        if_return: given,
        join_vars: given,
        keep_fargs: given,
        loops: given,
        negate_iife: given,
        properties: given,
        side_effects: given,
        typeofs: given,
        unused: given,
        ..blank()
    }
}

#[test]
fn the_blank_configuration() {
    let c = blank();
    assert!(!c.arguments && !c.defaults && !c.module && !c.unsafe_passes && !c.ie8);
    assert_eq!(c.arrows, None);
    assert_eq!(c.unused, None);
    assert_eq!(c.ecma, TerserEcmaVersion::Num(5));
    assert_eq!(c.global_defs.len(), 0);
    assert_eq!(c.inline, None);
    assert_eq!(c.sequences, None);
    assert_eq!(c.passes, 0);
    assert_eq!(c.pure_getters, TerserPureGetterOption::Strict);
    assert!(c.pure_funcs.is_empty());
    assert_eq!(c.top_retain, None);
    assert_eq!(c.toplevel, None);
}

#[test]
fn the_blank_configuration_resolves_to_all_off() {
    let o = resolve(blank());
    assert_eq!(optional_flags(&o), [false; 16]);
    assert_eq!(o.ecma, EsVersion::Es5);
    assert_eq!(o.inline, 0);
    assert_eq!(o.sequences, 0);
    assert_eq!(o.passes, 0);
    assert_eq!(o.global_defs.len(), 0);
    assert!(o.top_retain.is_empty());
    assert_eq!(o.top_level, None);
    assert!(!o.arguments && !o.dead_code && !o.unsafe_passes && !o.keep_fnames);
}

#[test]
fn open_flags_take_the_default() {
    assert_eq!(optional_flags(&resolve(with_optional_flags(None, true))), [true; 16]);
    assert_eq!(optional_flags(&resolve(with_optional_flags(None, false))), [false; 16]);
}

#[test]
fn given_flags_keep_their_value_whatever_the_default() {
    for defaults in [false, true] {
        assert_eq!(
            optional_flags(&resolve(with_optional_flags(Some(true), defaults))),
            [true; 16]
        );
        assert_eq!(
            optional_flags(&resolve(with_optional_flags(Some(false), defaults))),
            [false; 16]
        );
    }
}

#[test]
fn each_optional_flag_is_resolved_by_itself() {
    let c = TerserCompressorOptions {
        defaults: true,
        arrows: Some(false),
        unused: Some(false),
        loops: None,
        ..blank()
    };
    let o = resolve(c);
    assert!(!o.arrows);
    assert!(!o.unused);
    assert!(o.loops);
    assert!(o.bools);
    assert!(o.typeofs);
}

#[test]
fn the_default_does_not_touch_plain_fields() {
    let o = resolve(TerserCompressorOptions { defaults: true, ..blank() });
    assert!(!o.arguments);
    assert!(!o.bools_as_ints);
    assert!(!o.computed_props);
    assert!(!o.conditionals);
    assert!(!o.dead_code);
    assert!(!o.directives);
    assert!(!o.drop_console);
    assert!(!o.expr);
    assert!(!o.hoist_fns);
    assert!(!o.hoist_vars);
    assert!(!o.ie8);
    assert!(!o.keep_classnames);
    assert!(!o.keep_fnames);
    assert!(!o.keep_infinity);
    assert!(!o.reduce_fns);
    assert!(!o.reduce_vars);
    assert!(!o.switches);
    assert!(!o.unsafe_passes);
    assert!(!o.unsafe_undefined);
    assert_eq!(o.passes, 0);
    assert_eq!(o.top_level, None);
}

#[test]
fn plain_fields_are_handed_on_under_their_new_names() {
    let c = TerserCompressorOptions {
        arguments: true,
        booleans_as_integers: true,
        expression: true,
        hoist_funs: true,
        reduce_funcs: true,
        unsafe_passes: true,
        unsafe_function: true,
        passes: 7,
        ..blank()
    };
    let o = resolve(c);
    assert!(o.arguments);
    assert!(o.bools_as_ints);
    assert!(o.expr);
    assert!(o.hoist_fns);
    assert!(o.reduce_fns);
    assert!(o.unsafe_passes);
    assert!(o.unsafe_function);
    assert_eq!(o.passes, 7);
    assert!(!o.unsafe_arrows);
    assert!(!o.reduce_vars);
}

#[test]
fn levels_in_a_configuration() {
    let level = |inline: Option<TerserInlineOption>, defaults: bool| {
        resolve(TerserCompressorOptions { inline, defaults, ..blank() }).inline
    };
    assert_eq!(level(Some(TerserInlineOption::Bool(true)), false), 3);
    assert_eq!(level(Some(TerserInlineOption::Bool(false)), true), 0);
    assert_eq!(level(Some(TerserInlineOption::Num(2)), true), 2);
    assert_eq!(level(Some(TerserInlineOption::Num(9)), false), 9);
    assert_eq!(level(None, true), 3);
    assert_eq!(level(None, false), 0);
    let seq = |sequences: Option<TerserSequenceOptions>, defaults: bool| {
        resolve(TerserCompressorOptions { sequences, defaults, ..blank() }).sequences
    };
    assert_eq!(seq(Some(TerserSequenceOptions::Bool(true)), false), 3);
    assert_eq!(seq(Some(TerserSequenceOptions::Bool(false)), true), 0);
    assert_eq!(seq(Some(TerserSequenceOptions::Num(1)), true), 1);
    assert_eq!(seq(None, true), 3);
    assert_eq!(seq(None, false), 0);
}

#[test]
fn versions_in_a_configuration() {
    let edition = |ecma: TerserEcmaVersion| {
        CompressOptions::from_terser(TerserCompressorOptions { ecma, ..blank() }).map(|o| o.ecma)
    };
    assert_eq!(edition(TerserEcmaVersion::Num(2018)), Ok(EsVersion::Es2018));
    assert_eq!(edition(TerserEcmaVersion::Str("6".to_string())), Ok(EsVersion::Es2015));
    assert_eq!(edition(TerserEcmaVersion::Num(7)), Err(TerserError::UnsupportedVersion));
    assert_eq!(
        edition(TerserEcmaVersion::Str("latest".to_string())),
        Err(TerserError::UnsupportedVersion)
    );
}

#[test]
fn names_to_keep_in_a_configuration() {
    let keep = |top_retain: Option<TerserTopRetainOption>| {
        resolve(TerserCompressorOptions { top_retain, ..blank() }).top_retain
    };
    assert_eq!(
        keep(Some(TerserTopRetainOption::Str("a, b,,c ".to_string()))),
        vec!["a".to_string(), "b".to_string(), "c".to_string()]
    );
    assert_eq!(
        keep(Some(TerserTopRetainOption::List(vec!["a".to_string(), "b".to_string()]))),
        vec!["a".to_string(), "b".to_string()]
    );
    assert_eq!(keep(None), Vec::<String>::new());
}

#[test]
fn top_level_in_a_configuration() {
    let top = |toplevel: Option<TerserTopLevelOptions>| {
        resolve(TerserCompressorOptions { toplevel, ..blank() }).top_level
    };
    assert_eq!(top(None), None);
    assert_eq!(
        top(Some(TerserTopLevelOptions::Bool(true))),
        Some(TopLevelOptions { functions: true })
    );
    assert_eq!(
        top(Some(TerserTopLevelOptions::Str("funcs".to_string()))),
        Some(TopLevelOptions { functions: false })
    );
}

fn sample_defs() -> NameMap<RawValue> {
    let mut defs: NameMap<RawValue> = NameMap::new();
    defs.insert("DEBUG".to_string(), RawValue::Bool(false));
    defs.insert("VERSION".to_string(), RawValue::Text("1.0".to_string()));
    defs.insert(
        "COUNT".to_string(),
        RawValue::Number(Number { bits: 3.0f64.to_bits(), whole: Some(3) }),
    );
    defs.insert("X".to_string(), RawValue::Null);
    defs
}

#[test]
fn global_definitions_in_a_configuration() {
    let o = resolve(TerserCompressorOptions { global_defs: sample_defs(), ..blank() });
    assert_eq!(o.global_defs.len(), 4);
    assert_eq!(o.global_defs.get("DEBUG"), Some(&Lit::Bool(false)));
    assert_eq!(o.global_defs.get("VERSION"), Some(&Lit::Str("1.0".to_string())));
    assert_eq!(o.global_defs.get("COUNT"), Some(&Lit::Num(3.0f64.to_bits())));
    assert_eq!(o.global_defs.get("X"), Some(&Lit::Null));
}

#[test]
fn a_structured_definition_rules_the_configuration_out() {
    for bad in [RawValue::Record(Vec::new()), RawValue::List(Vec::new())] {
        let mut defs = sample_defs();
        defs.insert("BAD".to_string(), bad);
        let r = CompressOptions::from_terser(TerserCompressorOptions {
            global_defs: defs,
            ..blank()
        });
        assert_eq!(r.err(), Some(TerserError::UnsupportedLiteralShape));
    }
}

#[test]
fn a_wrong_version_is_reported_before_a_wrong_definition() {
    let mut defs: NameMap<RawValue> = NameMap::new();
    defs.insert("BAD".to_string(), RawValue::List(Vec::new()));
    let r = CompressOptions::from_terser(TerserCompressorOptions {
        ecma: TerserEcmaVersion::Num(4),
        global_defs: defs,
        ..blank()
    });
    assert_eq!(r.err(), Some(TerserError::UnsupportedVersion));
}

#[test]
fn fields_without_a_part_in_the_record_change_nothing() {
    let plain = resolve(blank());
    let other = resolve(TerserCompressorOptions {
        pure_getters: TerserPureGetterOption::Bool(true),
        pure_funcs: vec!["f".to_string()],
        module: true,
        ..blank()
    });
    assert_eq!(format!("{:?}", plain), format!("{:?}", other));
}

fn rich() -> TerserCompressorOptions {
    TerserCompressorOptions {
        defaults: true,
        arrows: Some(false),
        dead_code: true,
        ecma: TerserEcmaVersion::Str("6".to_string()),
        global_defs: sample_defs(),
        inline: Some(TerserInlineOption::Bool(true)),
        sequences: Some(TerserSequenceOptions::Num(2)),
        passes: 3,
        top_retain: Some(TerserTopRetainOption::Str(" keep , me ".to_string())),
        toplevel: Some(TerserTopLevelOptions::Bool(true)),
        unsafe_math: true,
        ..blank()
    }
}

#[test]
fn writing_a_record_back_gives_every_field_outright() {
    let o = resolve(rich());
    let back = o.to_terser(false);
    assert!(!back.defaults);
    assert_eq!(back.arrows, Some(false));
    assert_eq!(back.booleans, Some(true));
    assert_eq!(back.unused, Some(true));
    assert!(back.dead_code);
    assert_eq!(back.ecma, TerserEcmaVersion::Num(2015));
    assert_eq!(back.inline, Some(TerserInlineOption::Num(3)));
    assert_eq!(back.sequences, Some(TerserSequenceOptions::Num(2)));
    assert_eq!(back.passes, 3);
    assert_eq!(
        back.top_retain,
        Some(TerserTopRetainOption::List(vec!["keep".to_string(), "me".to_string()]))
    );
    assert_eq!(back.toplevel, Some(TerserTopLevelOptions::Bool(true)));
    assert_eq!(back.global_defs.len(), 4);
    assert!(back.to_owned().unsafe_math);
}

#[test]
fn resolving_twice_changes_nothing() {
    for c in [
        blank(),
        rich(),
        with_optional_flags(None, true),
        with_optional_flags(Some(true), false),
    ] {
        let first = resolve(c);
        for defaults in [false, true] {
            let second = resolve(first.to_terser(defaults));
            assert_eq!(format!("{:?}", first), format!("{:?}", second));
            let third = resolve(second.to_terser(!defaults));
            assert_eq!(format!("{:?}", first), format!("{:?}", third));
        }
    }
}

#[test]
fn resolving_is_a_function_of_the_configuration() {
    let a = resolve(rich());
    let b = resolve(rich());
    assert_eq!(format!("{:?}", a), format!("{:?}", b));
}
