use terser_options::schema::slot;
use terser_options::{
    CompressOptions, EsVersion, Lit, Number, RawValue, TerserCompressorOptions, TerserEcmaVersion,
    TerserError, TerserInlineOption, TerserPureGetterOption, TerserSequenceOptions,
    TerserTopLevelOptions, TerserTopRetainOption,
};

fn record(fields: Vec<(&str, RawValue)>) -> RawValue {
    RawValue::Record(fields.into_iter().map(|(k, v)| (k.to_string(), v)).collect())
}

fn whole(n: u64) -> RawValue {
    RawValue::Number(Number { bits: (n as f64).to_bits(), whole: Some(n) })
}

fn fraction(x: f64) -> RawValue {
    RawValue::Number(Number { bits: x.to_bits(), whole: None })
}

fn text(s: &str) -> RawValue {
    RawValue::Text(s.to_string())
}

fn list(items: &[&str]) -> RawValue {
    RawValue::List(items.iter().map(|s| text(s)).collect())
}

fn read(fields: Vec<(&str, RawValue)>) -> Result<TerserCompressorOptions, TerserError> {
    TerserCompressorOptions::from_value(record(fields))
}

const KEYS: [&str; 54] = [
    "arguments",
    "arrows",
    "booleans",
    "booleans_as_integers",
    "collapse_vars",
    "comparisons",
    "computed_props",
    "conditionals",
    "dead_code",
    "defaults",
    "directives",
    "drop_console",
    "drop_debugger",
    "ecma",
    "evaluate",
    "expression",
    "global_defs",
    "hoist_funs",
    "hoist_props",
    "hoist_vars",
    "ie8",
    "if_return",
    "inline",
    "join_vars",
    "keep_classnames",
    "keep_fargs",
    "keep_fnames",
    "keep_infinity",
    "loops",
    "negate_iife",
    "passes",
    "properties",
    "pure_getters",
    "pure_funcs",
    "reduce_funcs",
    "reduce_vars",
    "sequences",
    "side_effects",
    "switches",
    "top_retain",
    "toplevel",
    "typeofs",
    "unsafe",
    "unsafe_arrows",
    "unsafe_comps",
    "unsafe_Function",
    "unsafe_math",
    "unsafe_symbols",
    "unsafe_methods",
    "unsafe_proto",
    "unsafe_regexp",
    "unsafe_undefined",
    "unused",
    "module",
];

#[test]
fn each_key_has_its_slot() {
    for (i, key) in KEYS.iter().enumerate() {
        assert_eq!(slot(key), Some(i as u8), "{}", key);
    }
}

#[test]
fn other_names_have_no_slot() {
    for name in [
        "",
        "not_a_real_option",
        "Arguments",
        "arguments ",
        "unsafe_passes",
        "unsafe_function",
        "bools",
        "props",
        "top_level",
        "globalDefs",
    ] {
        assert_eq!(slot(name), None, "{:?}", name);
    }
}

#[test]
fn an_unknown_key_is_a_schema_violation() {
    assert_eq!(
        read(vec![("not_a_real_option", RawValue::Bool(true))]).err(),
        Some(TerserError::SchemaViolation)
    );
    assert_eq!(
        read(vec![("dead_code", RawValue::Bool(true)), ("deadcode", RawValue::Bool(true))]).err(),
        Some(TerserError::SchemaViolation)
    );
}

#[test]
fn a_key_given_twice_is_a_schema_violation() {
    assert_eq!(
        read(vec![("dead_code", RawValue::Bool(true)), ("dead_code", RawValue::Bool(true))]).err(),
        Some(TerserError::SchemaViolation)
    );
}

#[test]
fn what_is_no_record_is_a_schema_violation() {
    for v in [
        RawValue::Null,
        RawValue::Bool(true),
        whole(1),
        text("{}"),
        RawValue::List(Vec::new()),
    ] {
        assert_eq!(
            TerserCompressorOptions::from_value(v).err(),
            Some(TerserError::SchemaViolation)
        );
    }
}

#[test]
fn the_empty_record_is_the_blank_configuration() {
    let c = read(Vec::new()).unwrap();
    assert_eq!(
        format!("{:?}", c),
        format!("{:?}", TerserCompressorOptions::default())
    );
}

#[test]
fn plain_flags_take_booleans_only() {
    let c =
        read(vec![("dead_code", RawValue::Bool(true)), ("ie8", RawValue::Bool(false))]).unwrap();
    assert!(c.dead_code);
    assert!(!c.ie8);
    assert!(!c.arguments);
    for bad in [RawValue::Null, whole(1), text("true"), RawValue::List(Vec::new())] {
        assert_eq!(read(vec![("dead_code", bad)]).err(), Some(TerserError::SchemaViolation));
    }
}

#[test]
fn every_plain_flag_is_read_under_its_key() {
    let plain = [
        "arguments",
        "booleans_as_integers",
        "computed_props",
        "conditionals",
        "dead_code",
        "defaults",
        "directives",
        "drop_console",
        "expression",
        "hoist_funs",
        "hoist_vars",
        "ie8",
        "keep_classnames",
        "keep_fnames",
        "keep_infinity",
        "reduce_funcs",
        "reduce_vars",
        "switches",
        "unsafe",
        "unsafe_arrows",
        "unsafe_comps",
        "unsafe_Function",
        "unsafe_math",
        "unsafe_symbols",
        "unsafe_methods",
        "unsafe_proto",
        "unsafe_regexp",
        "unsafe_undefined",
        "module",
    ];
    let all = read(plain.iter().map(|k| (*k, RawValue::Bool(true))).collect()).unwrap();
    let flags = |c: &TerserCompressorOptions| {
        vec![
            c.arguments,
            c.booleans_as_integers,
            c.computed_props,
            c.conditionals,
            c.dead_code,
            c.defaults,
            c.directives,
            c.drop_console,
            c.expression,
            c.hoist_funs,
            c.hoist_vars,
            c.ie8,
            c.keep_classnames,
            c.keep_fnames,
            c.keep_infinity,
            c.reduce_funcs,
            c.reduce_vars,
            c.switches,
            c.unsafe_passes,
            c.unsafe_arrows,
            c.unsafe_comps,
            c.unsafe_function,
            c.unsafe_math,
            c.unsafe_symbols,
            c.unsafe_methods,
            c.unsafe_proto,
            c.unsafe_regexp,
            c.unsafe_undefined,
            c.module,
        ]
    };
    assert_eq!(flags(&all), vec![true; 29]);
    for (i, key) in plain.iter().enumerate() {
        let one = read(vec![(*key, RawValue::Bool(true))]).unwrap();
        let mut expected = vec![false; 29];
        expected[i] = true;
        assert_eq!(flags(&one), expected, "{}", key);
    }
}

#[test]
fn every_open_flag_is_read_under_its_key() {
    let open = [
        "arrows",
        "booleans",
        "collapse_vars",
        "comparisons",
        "drop_debugger",
        "evaluate",
        "hoist_props",
        "if_return",
        "join_vars",
        "keep_fargs",
        "loops",
        "negate_iife",
        "properties",
        "side_effects",
        "typeofs",
        "unused",
    ];
    let flags = |c: &TerserCompressorOptions| {
        vec![
            c.arrows,
            c.booleans,
            c.collapse_vars,
            c.comparisons,
            c.drop_debugger,
            c.evaluate,
            c.hoist_props,
            c.if_return,
            c.join_vars,
            c.keep_fargs,
            c.loops,
            c.negate_iife,
            c.properties,
            c.side_effects,
            c.typeofs,
            c.unused,
        ]
    };
    for (i, key) in open.iter().enumerate() {
        for given in [true, false] {
            let one = read(vec![(*key, RawValue::Bool(given))]).unwrap();
            let mut expected = vec![None; 16];
            expected[i] = Some(given);
            assert_eq!(flags(&one), expected, "{}", key);
        }
        let null = read(vec![(*key, RawValue::Null)]).unwrap();
        assert_eq!(flags(&null), vec![None; 16], "{}", key);
        assert_eq!(read(vec![(*key, whole(1))]).err(), Some(TerserError::SchemaViolation));
    }
}

#[test]
fn absent_is_not_false() {
    let absent = read(vec![("defaults", RawValue::Bool(true))]).unwrap();
    let given = read(vec![("defaults", RawValue::Bool(true)), ("unused", RawValue::Bool(false))])
        .unwrap();
    assert_eq!(absent.unused, None);
    assert_eq!(given.unused, Some(false));
    assert!(CompressOptions::from_terser(absent).unwrap().unused);
    assert!(!CompressOptions::from_terser(given).unwrap().unused);
}

#[test]
fn versions_are_numbers_or_text() {
    assert_eq!(read(vec![("ecma", whole(2015))]).unwrap().ecma, TerserEcmaVersion::Num(2015));
    assert_eq!(read(vec![("ecma", whole(7))]).unwrap().ecma, TerserEcmaVersion::Num(7));
    assert_eq!(
        read(vec![("ecma", text("2015"))]).unwrap().ecma,
        TerserEcmaVersion::Str("2015".to_string())
    );
    for bad in [RawValue::Null, RawValue::Bool(true), fraction(5.5), fraction(-5.0), list(&["5"])] {
        assert_eq!(read(vec![("ecma", bad)]).err(), Some(TerserError::SchemaViolation));
    }
}

#[test]
fn levels_are_booleans_or_small_numbers() {
    assert_eq!(
        read(vec![("inline", RawValue::Bool(true))]).unwrap().inline,
        Some(TerserInlineOption::Bool(true))
    );
    assert_eq!(read(vec![("inline", whole(2))]).unwrap().inline, Some(TerserInlineOption::Num(2)));
    assert_eq!(
        read(vec![("inline", whole(255))]).unwrap().inline,
        Some(TerserInlineOption::Num(255))
    );
    assert_eq!(read(vec![("inline", RawValue::Null)]).unwrap().inline, None);
    assert_eq!(
        read(vec![("sequences", RawValue::Bool(false))]).unwrap().sequences,
        Some(TerserSequenceOptions::Bool(false))
    );
    assert_eq!(
        read(vec![("sequences", whole(3))]).unwrap().sequences,
        Some(TerserSequenceOptions::Num(3))
    );
    for key in ["inline", "sequences"] {
        for bad in [whole(256), fraction(1.5), fraction(-1.0), text("3"), list(&[])] {
            assert_eq!(read(vec![(key, bad)]).err(), Some(TerserError::SchemaViolation));
        }
    }
}

#[test]
fn passes_is_a_whole_number() {
    assert_eq!(read(vec![("passes", whole(0))]).unwrap().passes, 0);
    assert_eq!(read(vec![("passes", whole(12))]).unwrap().passes, 12);
    for bad in [RawValue::Null, RawValue::Bool(true), fraction(1.5), fraction(-2.0), text("2")] {
        assert_eq!(read(vec![("passes", bad)]).err(), Some(TerserError::SchemaViolation));
    }
}

#[test]
fn pure_getters_keeps_its_three_forms() {
    assert_eq!(
        read(vec![("pure_getters", RawValue::Bool(true))]).unwrap().pure_getters,
        TerserPureGetterOption::Bool(true)
    );
    assert_eq!(
        read(vec![("pure_getters", text("strict"))]).unwrap().pure_getters,
        TerserPureGetterOption::Strict
    );
    assert_eq!(
        read(vec![("pure_getters", text("Strict"))]).unwrap().pure_getters,
        TerserPureGetterOption::Str("Strict".to_string())
    );
    assert_eq!(
        read(vec![("pure_getters", text(""))]).unwrap().pure_getters,
        TerserPureGetterOption::Str(String::new())
    );
    assert_eq!(read(Vec::new()).unwrap().pure_getters, TerserPureGetterOption::Strict);
    for bad in [RawValue::Null, whole(1), list(&["strict"])] {
        assert_eq!(read(vec![("pure_getters", bad)]).err(), Some(TerserError::SchemaViolation));
    }
}

#[test]
fn pure_funcs_is_a_list_of_names() {
    assert_eq!(
        read(vec![("pure_funcs", list(&["f", "g.h"]))]).unwrap().pure_funcs,
        vec!["f".to_string(), "g.h".to_string()]
    );
    assert_eq!(read(vec![("pure_funcs", list(&[]))]).unwrap().pure_funcs, Vec::<String>::new());
    let mixed = RawValue::List(vec![text("f"), whole(1)]);
    for bad in [RawValue::Null, text("f"), mixed] {
        assert_eq!(read(vec![("pure_funcs", bad)]).err(), Some(TerserError::SchemaViolation));
    }
}

#[test]
fn top_retain_is_text_or_a_list_of_names() {
    assert_eq!(
        read(vec![("top_retain", text("a, b"))]).unwrap().top_retain,
        Some(TerserTopRetainOption::Str("a, b".to_string()))
    );
    assert_eq!(
        read(vec![("top_retain", list(&["a", " b "]))]).unwrap().top_retain,
        Some(TerserTopRetainOption::List(vec!["a".to_string(), " b ".to_string()]))
    );
    assert_eq!(read(vec![("top_retain", RawValue::Null)]).unwrap().top_retain, None);
    let mixed = RawValue::List(vec![text("a"), RawValue::Bool(true)]);
    for bad in [RawValue::Bool(true), whole(1), mixed, record(Vec::new())] {
        assert_eq!(read(vec![("top_retain", bad)]).err(), Some(TerserError::SchemaViolation));
    }
}

#[test]
fn toplevel_is_a_boolean_or_text() {
    assert_eq!(
        read(vec![("toplevel", RawValue::Bool(true))]).unwrap().toplevel,
        Some(TerserTopLevelOptions::Bool(true))
    );
    assert_eq!(
        read(vec![("toplevel", text("funcs"))]).unwrap().toplevel,
        Some(TerserTopLevelOptions::Str("funcs".to_string()))
    );
    assert_eq!(read(vec![("toplevel", RawValue::Null)]).unwrap().toplevel, None);
    for bad in [whole(1), list(&[])] {
        assert_eq!(read(vec![("toplevel", bad)]).err(), Some(TerserError::SchemaViolation));
    }
}

#[test]
fn global_defs_is_a_record_of_any_values() {
    let defs = record(vec![
        ("DEBUG", RawValue::Bool(false)),
        ("VERSION", text("1.0")),
        ("COUNT", whole(3)),
        ("X", RawValue::Null),
    ]);
    let c = read(vec![("global_defs", defs)]).unwrap();
    assert_eq!(c.global_defs.len(), 4);
    let o = CompressOptions::from_terser(c).unwrap();
    assert_eq!(o.global_defs.get("DEBUG"), Some(&Lit::Bool(false)));
    assert_eq!(o.global_defs.get("VERSION"), Some(&Lit::Str("1.0".to_string())));
    assert_eq!(o.global_defs.get("COUNT"), Some(&Lit::Num(3.0f64.to_bits())));
    assert_eq!(o.global_defs.get("X"), Some(&Lit::Null));
    for bad in [RawValue::Null, list(&[]), text("{}")] {
        assert_eq!(read(vec![("global_defs", bad)]).err(), Some(TerserError::SchemaViolation));
    }
}

#[test]
fn of_two_definitions_under_one_name_the_later_stays() {
    let defs = record(vec![("A", whole(1)), ("B", whole(2)), ("A", text("last"))]);
    let c = read(vec![("global_defs", defs)]).unwrap();
    assert_eq!(c.global_defs.len(), 2);
    let o = CompressOptions::from_terser(c).unwrap();
    assert_eq!(o.global_defs.get("A"), Some(&Lit::Str("last".to_string())));
    assert_eq!(o.global_defs.get("B"), Some(&Lit::Num(2.0f64.to_bits())));
}

#[test]
fn a_structured_definition_is_read_and_then_turned_down() {
    for bad in [record(Vec::new()), list(&[])] {
        let c = read(vec![("global_defs", record(vec![("BAD", bad)]))]).unwrap();
        assert_eq!(
            CompressOptions::from_terser(c).err(),
            Some(TerserError::UnsupportedLiteralShape)
        );
    }
}

#[test]
fn the_order_of_the_keys_does_not_matter() {
    let a = read(vec![
        ("defaults", RawValue::Bool(true)),
        ("ecma", whole(2017)),
        ("unused", RawValue::Bool(false)),
        ("top_retain", text("x,y")),
    ])
    .unwrap();
    let b = read(vec![
        ("top_retain", text("x,y")),
        ("unused", RawValue::Bool(false)),
        ("ecma", whole(2017)),
        ("defaults", RawValue::Bool(true)),
    ])
    .unwrap();
    assert_eq!(format!("{:?}", a), format!("{:?}", b));
}

#[test]
fn from_a_value_to_the_record() {
    let c = read(vec![
        ("defaults", RawValue::Bool(true)),
        ("ecma", text("2016")),
        ("inline", RawValue::Bool(false)),
        ("sequences", whole(2)),
        ("arrows", RawValue::Bool(false)),
        ("top_retain", text("a, b,,c ")),
        ("toplevel", RawValue::Bool(true)),
        ("passes", whole(2)),
    ])
    .unwrap();
    let o = CompressOptions::from_terser(c).unwrap();
    assert_eq!(o.ecma, EsVersion::Es2016);
    assert_eq!(o.inline, 0);
    assert_eq!(o.sequences, 2);
    assert!(!o.arrows);
    assert!(o.bools);
    assert!(o.unused);
    assert!(!o.dead_code);
    assert_eq!(o.top_retain, vec!["a".to_string(), "b".to_string(), "c".to_string()]);
    assert_eq!(o.top_level.map(|t| t.functions), Some(true));
    assert_eq!(o.passes, 2);
}

#[test]
fn a_wrong_version_is_read_and_then_turned_down() {
    let c = read(vec![("ecma", whole(2021))]).unwrap();
    assert_eq!(CompressOptions::from_terser(c).err(), Some(TerserError::UnsupportedVersion));
    let c = read(vec![("ecma", text("es2015"))]).unwrap();
    assert_eq!(CompressOptions::from_terser(c).err(), Some(TerserError::UnsupportedVersion));
}

#[test]
fn a_clone_of_a_value_reads_the_same() {
    let v = record(vec![
        ("global_defs", record(vec![("A", list(&["x"])), ("B", whole(2))])),
        ("pure_funcs", list(&["f"])),
    ]);
    let a = TerserCompressorOptions::from_value(v.clone()).unwrap();
    let b = TerserCompressorOptions::from_value(v).unwrap();
    assert_eq!(format!("{:?}", a), format!("{:?}", b));
}
