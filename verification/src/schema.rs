//! Reading a configuration from a structured value: the closed schema.
//!
//! A configuration is a record. Each of its keys names one option, no key
//! comes twice, and each value has a shape that its option accepts. An
//! option that the record leaves out is open, off, or at its default.

use crate::cascade::{TerserInlineOption, TerserSequenceOptions};
use crate::error::TerserError;
use crate::names::NameMap;
use crate::options::TerserCompressorOptions;
use crate::retain::{names_view, TerserTopRetainOption};
use crate::text::same_text;
use crate::toplevel::{TerserPureGetterOption, TerserTopLevelOptions};
use crate::value::{Number, RawValue};
use crate::version::TerserEcmaVersion;
use vstd::prelude::*;

verus! {

/// How many options there are. Each has a slot, from 0 up, in the order
/// of the fields of `TerserCompressorOptions`.
pub const SLOTS: u8 = 54;

/// The slot of `arguments`.
pub const ARGUMENTS: u8 = 0;

/// The slot of `arrows`.
pub const ARROWS: u8 = 1;

/// The slot of `booleans`.
pub const BOOLEANS: u8 = 2;

/// The slot of `booleans_as_integers`.
pub const BOOLEANS_AS_INTEGERS: u8 = 3;

/// The slot of `collapse_vars`.
pub const COLLAPSE_VARS: u8 = 4;

/// The slot of `comparisons`.
pub const COMPARISONS: u8 = 5;

/// The slot of `computed_props`.
pub const COMPUTED_PROPS: u8 = 6;

/// The slot of `conditionals`.
pub const CONDITIONALS: u8 = 7;

/// The slot of `dead_code`.
pub const DEAD_CODE: u8 = 8;

/// The slot of `defaults`.
pub const DEFAULTS: u8 = 9;

/// The slot of `directives`.
pub const DIRECTIVES: u8 = 10;

/// The slot of `drop_console`.
pub const DROP_CONSOLE: u8 = 11;

/// The slot of `drop_debugger`.
pub const DROP_DEBUGGER: u8 = 12;

/// The slot of `ecma`.
pub const ECMA: u8 = 13;

/// The slot of `evaluate`.
pub const EVALUATE: u8 = 14;

/// The slot of `expression`.
pub const EXPRESSION: u8 = 15;

/// The slot of `global_defs`.
pub const GLOBAL_DEFS: u8 = 16;

/// The slot of `hoist_funs`.
pub const HOIST_FUNS: u8 = 17;

/// The slot of `hoist_props`.
pub const HOIST_PROPS: u8 = 18;

/// The slot of `hoist_vars`.
pub const HOIST_VARS: u8 = 19;

/// The slot of `ie8`.
pub const IE8: u8 = 20;

/// The slot of `if_return`.
pub const IF_RETURN: u8 = 21;

/// The slot of `inline`.
pub const INLINE: u8 = 22;

/// The slot of `join_vars`.
pub const JOIN_VARS: u8 = 23;

/// The slot of `keep_classnames`.
pub const KEEP_CLASSNAMES: u8 = 24;

/// The slot of `keep_fargs`.
pub const KEEP_FARGS: u8 = 25;

/// The slot of `keep_fnames`.
pub const KEEP_FNAMES: u8 = 26;

/// The slot of `keep_infinity`.
pub const KEEP_INFINITY: u8 = 27;

/// The slot of `loops`.
pub const LOOPS: u8 = 28;

/// The slot of `negate_iife`.
pub const NEGATE_IIFE: u8 = 29;

/// The slot of `passes`.
pub const PASSES: u8 = 30;

/// The slot of `properties`.
pub const PROPERTIES: u8 = 31;

/// The slot of `pure_getters`.
pub const PURE_GETTERS: u8 = 32;

/// The slot of `pure_funcs`.
pub const PURE_FUNCS: u8 = 33;

/// The slot of `reduce_funcs`.
pub const REDUCE_FUNCS: u8 = 34;

/// The slot of `reduce_vars`.
pub const REDUCE_VARS: u8 = 35;

/// The slot of `sequences`.
pub const SEQUENCES: u8 = 36;

/// The slot of `side_effects`.
pub const SIDE_EFFECTS: u8 = 37;

/// The slot of `switches`.
pub const SWITCHES: u8 = 38;

/// The slot of `top_retain`.
pub const TOP_RETAIN: u8 = 39;

/// The slot of `toplevel`.
pub const TOPLEVEL: u8 = 40;

/// The slot of `typeofs`.
pub const TYPEOFS: u8 = 41;

/// The slot of `unsafe`.
pub const UNSAFE_PASSES: u8 = 42;

/// The slot of `unsafe_arrows`.
pub const UNSAFE_ARROWS: u8 = 43;

/// The slot of `unsafe_comps`.
pub const UNSAFE_COMPS: u8 = 44;

/// The slot of `unsafe_Function`.
pub const UNSAFE_FUNCTION: u8 = 45;

/// The slot of `unsafe_math`.
pub const UNSAFE_MATH: u8 = 46;

/// The slot of `unsafe_symbols`.
pub const UNSAFE_SYMBOLS: u8 = 47;

/// The slot of `unsafe_methods`.
pub const UNSAFE_METHODS: u8 = 48;

/// The slot of `unsafe_proto`.
pub const UNSAFE_PROTO: u8 = 49;

/// The slot of `unsafe_regexp`.
pub const UNSAFE_REGEXP: u8 = 50;

/// The slot of `unsafe_undefined`.
pub const UNSAFE_UNDEFINED: u8 = 51;

/// The slot of `unused`.
pub const UNUSED: u8 = 52;

/// The slot of `module`.
pub const MODULE: u8 = 53;

/// The slot of the option that a key names. A key that names no option
/// has none.
pub open spec fn slot_of(name: Seq<char>) -> Option<nat> {
    if name == "arguments"@ {
        Some(ARGUMENTS as nat)
    } else if name == "arrows"@ {
        Some(ARROWS as nat)
    } else if name == "booleans"@ {
        Some(BOOLEANS as nat)
    } else if name == "booleans_as_integers"@ {
        Some(BOOLEANS_AS_INTEGERS as nat)
    } else if name == "collapse_vars"@ {
        Some(COLLAPSE_VARS as nat)
    } else if name == "comparisons"@ {
        Some(COMPARISONS as nat)
    } else if name == "computed_props"@ {
        Some(COMPUTED_PROPS as nat)
    } else if name == "conditionals"@ {
        Some(CONDITIONALS as nat)
    } else if name == "dead_code"@ {
        Some(DEAD_CODE as nat)
    } else if name == "defaults"@ {
        Some(DEFAULTS as nat)
    } else if name == "directives"@ {
        Some(DIRECTIVES as nat)
    } else if name == "drop_console"@ {
        Some(DROP_CONSOLE as nat)
    } else if name == "drop_debugger"@ {
        Some(DROP_DEBUGGER as nat)
    } else if name == "ecma"@ {
        Some(ECMA as nat)
    } else if name == "evaluate"@ {
        Some(EVALUATE as nat)
    } else if name == "expression"@ {
        Some(EXPRESSION as nat)
    } else if name == "global_defs"@ {
        Some(GLOBAL_DEFS as nat)
    } else if name == "hoist_funs"@ {
        Some(HOIST_FUNS as nat)
    } else if name == "hoist_props"@ {
        Some(HOIST_PROPS as nat)
    } else if name == "hoist_vars"@ {
        Some(HOIST_VARS as nat)
    } else if name == "ie8"@ {
        Some(IE8 as nat)
    } else if name == "if_return"@ {
        Some(IF_RETURN as nat)
    } else if name == "inline"@ {
        Some(INLINE as nat)
    } else if name == "join_vars"@ {
        Some(JOIN_VARS as nat)
    } else if name == "keep_classnames"@ {
        Some(KEEP_CLASSNAMES as nat)
    } else if name == "keep_fargs"@ {
        Some(KEEP_FARGS as nat)
    } else if name == "keep_fnames"@ {
        Some(KEEP_FNAMES as nat)
    } else if name == "keep_infinity"@ {
        Some(KEEP_INFINITY as nat)
    } else if name == "loops"@ {
        Some(LOOPS as nat)
    } else if name == "negate_iife"@ {
        Some(NEGATE_IIFE as nat)
    } else if name == "passes"@ {
        Some(PASSES as nat)
    } else if name == "properties"@ {
        Some(PROPERTIES as nat)
    } else if name == "pure_getters"@ {
        Some(PURE_GETTERS as nat)
    } else if name == "pure_funcs"@ {
        Some(PURE_FUNCS as nat)
    } else if name == "reduce_funcs"@ {
        Some(REDUCE_FUNCS as nat)
    } else if name == "reduce_vars"@ {
        Some(REDUCE_VARS as nat)
    } else if name == "sequences"@ {
        Some(SEQUENCES as nat)
    } else if name == "side_effects"@ {
        Some(SIDE_EFFECTS as nat)
    } else if name == "switches"@ {
        Some(SWITCHES as nat)
    } else if name == "top_retain"@ {
        Some(TOP_RETAIN as nat)
    } else if name == "toplevel"@ {
        Some(TOPLEVEL as nat)
    } else if name == "typeofs"@ {
        Some(TYPEOFS as nat)
    } else if name == "unsafe"@ {
        Some(UNSAFE_PASSES as nat)
    } else if name == "unsafe_arrows"@ {
        Some(UNSAFE_ARROWS as nat)
    } else if name == "unsafe_comps"@ {
        Some(UNSAFE_COMPS as nat)
    } else if name == "unsafe_Function"@ {
        Some(UNSAFE_FUNCTION as nat)
    } else if name == "unsafe_math"@ {
        Some(UNSAFE_MATH as nat)
    } else if name == "unsafe_symbols"@ {
        Some(UNSAFE_SYMBOLS as nat)
    } else if name == "unsafe_methods"@ {
        Some(UNSAFE_METHODS as nat)
    } else if name == "unsafe_proto"@ {
        Some(UNSAFE_PROTO as nat)
    } else if name == "unsafe_regexp"@ {
        Some(UNSAFE_REGEXP as nat)
    } else if name == "unsafe_undefined"@ {
        Some(UNSAFE_UNDEFINED as nat)
    } else if name == "unused"@ {
        Some(UNUSED as nat)
    } else if name == "module"@ {
        Some(MODULE as nat)
    } else {
        None
    }
}

/// Finds the slot of a key.
pub fn slot(name: &str) -> (r: Option<u8>)
    ensures
        match r {
            Some(j) => j < SLOTS && slot_of(name@) == Some(j as nat),
            None => slot_of(name@) is None,
        },
{
    if same_text(name, "arguments") {
        Some(ARGUMENTS)
    } else if same_text(name, "arrows") {
        Some(ARROWS)
    } else if same_text(name, "booleans") {
        Some(BOOLEANS)
    } else if same_text(name, "booleans_as_integers") {
        Some(BOOLEANS_AS_INTEGERS)
    } else if same_text(name, "collapse_vars") {
        Some(COLLAPSE_VARS)
    } else if same_text(name, "comparisons") {
        Some(COMPARISONS)
    } else if same_text(name, "computed_props") {
        Some(COMPUTED_PROPS)
    } else if same_text(name, "conditionals") {
        Some(CONDITIONALS)
    } else if same_text(name, "dead_code") {
        Some(DEAD_CODE)
    } else if same_text(name, "defaults") {
        Some(DEFAULTS)
    } else if same_text(name, "directives") {
        Some(DIRECTIVES)
    } else if same_text(name, "drop_console") {
        Some(DROP_CONSOLE)
    } else if same_text(name, "drop_debugger") {
        Some(DROP_DEBUGGER)
    } else if same_text(name, "ecma") {
        Some(ECMA)
    } else if same_text(name, "evaluate") {
        Some(EVALUATE)
    } else if same_text(name, "expression") {
        Some(EXPRESSION)
    } else if same_text(name, "global_defs") {
        Some(GLOBAL_DEFS)
    } else if same_text(name, "hoist_funs") {
        Some(HOIST_FUNS)
    } else if same_text(name, "hoist_props") {
        Some(HOIST_PROPS)
    } else if same_text(name, "hoist_vars") {
        Some(HOIST_VARS)
    } else if same_text(name, "ie8") {
        Some(IE8)
    } else if same_text(name, "if_return") {
        Some(IF_RETURN)
    } else if same_text(name, "inline") {
        Some(INLINE)
    } else if same_text(name, "join_vars") {
        Some(JOIN_VARS)
    } else if same_text(name, "keep_classnames") {
        Some(KEEP_CLASSNAMES)
    } else if same_text(name, "keep_fargs") {
        Some(KEEP_FARGS)
    } else if same_text(name, "keep_fnames") {
        Some(KEEP_FNAMES)
    } else if same_text(name, "keep_infinity") {
        Some(KEEP_INFINITY)
    } else if same_text(name, "loops") {
        Some(LOOPS)
    } else if same_text(name, "negate_iife") {
        Some(NEGATE_IIFE)
    } else if same_text(name, "passes") {
        Some(PASSES)
    } else if same_text(name, "properties") {
        Some(PROPERTIES)
    } else if same_text(name, "pure_getters") {
        Some(PURE_GETTERS)
    } else if same_text(name, "pure_funcs") {
        Some(PURE_FUNCS)
    } else if same_text(name, "reduce_funcs") {
        Some(REDUCE_FUNCS)
    } else if same_text(name, "reduce_vars") {
        Some(REDUCE_VARS)
    } else if same_text(name, "sequences") {
        Some(SEQUENCES)
    } else if same_text(name, "side_effects") {
        Some(SIDE_EFFECTS)
    } else if same_text(name, "switches") {
        Some(SWITCHES)
    } else if same_text(name, "top_retain") {
        Some(TOP_RETAIN)
    } else if same_text(name, "toplevel") {
        Some(TOPLEVEL)
    } else if same_text(name, "typeofs") {
        Some(TYPEOFS)
    } else if same_text(name, "unsafe") {
        Some(UNSAFE_PASSES)
    } else if same_text(name, "unsafe_arrows") {
        Some(UNSAFE_ARROWS)
    } else if same_text(name, "unsafe_comps") {
        Some(UNSAFE_COMPS)
    } else if same_text(name, "unsafe_Function") {
        Some(UNSAFE_FUNCTION)
    } else if same_text(name, "unsafe_math") {
        Some(UNSAFE_MATH)
    } else if same_text(name, "unsafe_symbols") {
        Some(UNSAFE_SYMBOLS)
    } else if same_text(name, "unsafe_methods") {
        Some(UNSAFE_METHODS)
    } else if same_text(name, "unsafe_proto") {
        Some(UNSAFE_PROTO)
    } else if same_text(name, "unsafe_regexp") {
        Some(UNSAFE_REGEXP)
    } else if same_text(name, "unsafe_undefined") {
        Some(UNSAFE_UNDEFINED)
    } else if same_text(name, "unused") {
        Some(UNUSED)
    } else if same_text(name, "module") {
        Some(MODULE)
    } else {
        None
    }
}

/// A flag: a boolean and nothing else.
pub open spec fn flag_of(v: RawValue) -> Option<bool> {
    match v {
        RawValue::Bool(on) => Some(on),
        _ => None,
    }
}

/// A flag that may be open: a boolean, or null for open.
pub open spec fn open_flag_of(v: RawValue) -> Option<Option<bool>> {
    match v {
        RawValue::Null => Some(None),
        RawValue::Bool(on) => Some(Some(on)),
        _ => None,
    }
}

/// A whole number that a `usize` holds.
pub open spec fn whole_of(n: Number) -> Option<usize> {
    match n.whole {
        Some(w) => if w <= usize::MAX {
            Some(w as usize)
        } else {
            None
        },
        None => None,
    }
}

/// A level as a number: a whole number up to 255.
pub open spec fn level_of(n: Number) -> Option<u8> {
    match n.whole {
        Some(w) => if w <= u8::MAX {
            Some(w as u8)
        } else {
            None
        },
        None => None,
    }
}

/// A count: a whole number that a `usize` holds.
pub open spec fn count_of(v: RawValue) -> Option<usize> {
    match v {
        RawValue::Number(n) => whole_of(n),
        _ => None,
    }
}

/// A version: a whole number, or text.
pub open spec fn version_of(v: RawValue) -> Option<TerserEcmaVersion> {
    match v {
        RawValue::Number(n) => match whole_of(n) {
            Some(w) => Some(TerserEcmaVersion::Num(w)),
            None => None,
        },
        RawValue::Text(s) => Some(TerserEcmaVersion::Str(s)),
        _ => None,
    }
}

/// `inline`: a boolean first, else a level; null for open.
pub open spec fn inline_of(v: RawValue) -> Option<Option<TerserInlineOption>> {
    match v {
        RawValue::Null => Some(None),
        RawValue::Bool(on) => Some(Some(TerserInlineOption::Bool(on))),
        RawValue::Number(n) => match level_of(n) {
            Some(level) => Some(Some(TerserInlineOption::Num(level))),
            None => None,
        },
        _ => None,
    }
}

/// `sequences`: a boolean first, else a level; null for open.
pub open spec fn sequences_of(v: RawValue) -> Option<Option<TerserSequenceOptions>> {
    match v {
        RawValue::Null => Some(None),
        RawValue::Bool(on) => Some(Some(TerserSequenceOptions::Bool(on))),
        RawValue::Number(n) => match level_of(n) {
            Some(level) => Some(Some(TerserSequenceOptions::Num(level))),
            None => None,
        },
        _ => None,
    }
}

/// `pure_getters`: a boolean first, else the keyword `strict`, else any
/// other text.
pub open spec fn getters_of(v: RawValue) -> Option<TerserPureGetterOption> {
    match v {
        RawValue::Bool(on) => Some(TerserPureGetterOption::Bool(on)),
        RawValue::Text(s) => if s@ == "strict"@ {
            Some(TerserPureGetterOption::Strict)
        } else {
            Some(TerserPureGetterOption::Str(s))
        },
        _ => None,
    }
}

/// `toplevel`: a boolean first, else text; null for open.
pub open spec fn top_level_given(v: RawValue) -> Option<Option<TerserTopLevelOptions>> {
    match v {
        RawValue::Null => Some(None),
        RawValue::Bool(on) => Some(Some(TerserTopLevelOptions::Bool(on))),
        RawValue::Text(s) => Some(Some(TerserTopLevelOptions::Str(s))),
        _ => None,
    }
}

/// Whether every value of a list is text.
pub open spec fn all_text(items: Seq<RawValue>) -> bool {
    forall|i: int| 0 <= i < items.len() ==> (#[trigger] items[i]) is Text
}

/// The texts of a list of texts.
pub open spec fn texts(items: Seq<RawValue>) -> Seq<Seq<char>> {
    Seq::new(items.len(), |i: int| items[i]->Text_0@)
}

/// A list of names: a list of which every value is text.
pub open spec fn texts_of(v: RawValue) -> Option<Seq<Seq<char>>> {
    match v {
        RawValue::List(items) => if all_text(items@) {
            Some(texts(items@))
        } else {
            None
        },
        _ => None,
    }
}

/// Whether `top_retain` is what a value gives: text first, as it stands,
/// else a list of names; null for open.
pub open spec fn top_retain_reads(o: Option<TerserTopRetainOption>, v: RawValue) -> bool {
    match v {
        RawValue::Null => o is None,
        RawValue::Text(s) => o == Some(TerserTopRetainOption::Str(s)),
        RawValue::List(items) => {
            &&& all_text(items@)
            &&& o matches Some(TerserTopRetainOption::List(names))
            &&& names_view(names@) == texts(items@)
        },
        _ => false,
    }
}

/// The map that a record writes: each name with its value, the last one
/// where a name comes more than once.
pub open spec fn defs_map(fields: Seq<(String, RawValue)>) -> Map<Seq<char>, RawValue>
    decreases fields.len(),
{
    if fields.len() == 0 {
        Map::empty()
    } else {
        defs_map(fields.drop_last()).insert(fields.last().0@, fields.last().1)
    }
}

/// A flag as a record gives it: off where it is left out.
pub open spec fn flag_reads(x: bool, g: Option<RawValue>) -> bool {
    x == match g {
        Some(v) => flag_of(v)->0,
        None => false,
    }
}

/// An open flag as a record gives it: open where it is left out.
pub open spec fn open_flag_reads(x: Option<bool>, g: Option<RawValue>) -> bool {
    x == match g {
        Some(v) => open_flag_of(v)->0,
        None => None,
    }
}

/// A count as a record gives it: 0 where it is left out.
pub open spec fn count_reads(x: usize, g: Option<RawValue>) -> bool {
    x == match g {
        Some(v) => count_of(v)->0,
        None => 0,
    }
}

/// A version as a record gives it: 5 where it is left out.
pub open spec fn version_reads(x: TerserEcmaVersion, g: Option<RawValue>) -> bool {
    x == match g {
        Some(v) => version_of(v)->0,
        None => TerserEcmaVersion::Num(5),
    }
}

/// `inline` as a record gives it: open where it is left out.
pub open spec fn inline_reads(x: Option<TerserInlineOption>, g: Option<RawValue>) -> bool {
    x == match g {
        Some(v) => inline_of(v)->0,
        None => None,
    }
}

/// `sequences` as a record gives it: open where it is left out.
pub open spec fn sequences_reads(x: Option<TerserSequenceOptions>, g: Option<RawValue>) -> bool {
    x == match g {
        Some(v) => sequences_of(v)->0,
        None => None,
    }
}

/// `pure_getters` as a record gives it: `strict` where it is left out.
pub open spec fn getters_reads(x: TerserPureGetterOption, g: Option<RawValue>) -> bool {
    x == match g {
        Some(v) => getters_of(v)->0,
        None => TerserPureGetterOption::Strict,
    }
}

/// `toplevel` as a record gives it: open where it is left out.
pub open spec fn top_level_reads(x: Option<TerserTopLevelOptions>, g: Option<RawValue>) -> bool {
    x == match g {
        Some(v) => top_level_given(v)->0,
        None => None,
    }
}

/// A list of names as a record gives it: empty where it is left out.
pub open spec fn names_read(x: Vec<String>, g: Option<RawValue>) -> bool {
    names_view(x@) == match g {
        Some(v) => texts_of(v)->0,
        None => Seq::empty(),
    }
}

/// `top_retain` as a record gives it: open where it is left out.
pub open spec fn retain_reads(x: Option<TerserTopRetainOption>, g: Option<RawValue>) -> bool {
    match g {
        Some(v) => top_retain_reads(x, v),
        None => x is None,
    }
}

/// Global definitions as a record gives them: none where they are left
/// out.
pub open spec fn defs_read(x: NameMap<RawValue>, g: Option<RawValue>) -> bool {
    x@ == match g {
        Some(v) => defs_map(v->Record_0@),
        None => Map::empty(),
    }
}

/// Whether the option of a slot accepts a value.
pub open spec fn accepts(slot: nat, v: RawValue) -> bool {
    if slot == ARGUMENTS {
        flag_of(v) is Some
    } else if slot == ARROWS {
        open_flag_of(v) is Some
    } else if slot == BOOLEANS {
        open_flag_of(v) is Some
    } else if slot == BOOLEANS_AS_INTEGERS {
        flag_of(v) is Some
    } else if slot == COLLAPSE_VARS {
        open_flag_of(v) is Some
    } else if slot == COMPARISONS {
        open_flag_of(v) is Some
    } else if slot == COMPUTED_PROPS {
        flag_of(v) is Some
    } else if slot == CONDITIONALS {
        flag_of(v) is Some
    } else if slot == DEAD_CODE {
        flag_of(v) is Some
    } else if slot == DEFAULTS {
        flag_of(v) is Some
    } else if slot == DIRECTIVES {
        flag_of(v) is Some
    } else if slot == DROP_CONSOLE {
        flag_of(v) is Some
    } else if slot == DROP_DEBUGGER {
        open_flag_of(v) is Some
    } else if slot == ECMA {
        version_of(v) is Some
    } else if slot == EVALUATE {
        open_flag_of(v) is Some
    } else if slot == EXPRESSION {
        flag_of(v) is Some
    } else if slot == GLOBAL_DEFS {
        v is Record
    } else if slot == HOIST_FUNS {
        flag_of(v) is Some
    } else if slot == HOIST_PROPS {
        open_flag_of(v) is Some
    } else if slot == HOIST_VARS {
        flag_of(v) is Some
    } else if slot == IE8 {
        flag_of(v) is Some
    } else if slot == IF_RETURN {
        open_flag_of(v) is Some
    } else if slot == INLINE {
        inline_of(v) is Some
    } else if slot == JOIN_VARS {
        open_flag_of(v) is Some
    } else if slot == KEEP_CLASSNAMES {
        flag_of(v) is Some
    } else if slot == KEEP_FARGS {
        open_flag_of(v) is Some
    } else if slot == KEEP_FNAMES {
        flag_of(v) is Some
    } else if slot == KEEP_INFINITY {
        flag_of(v) is Some
    } else if slot == LOOPS {
        open_flag_of(v) is Some
    } else if slot == NEGATE_IIFE {
        open_flag_of(v) is Some
    } else if slot == PASSES {
        count_of(v) is Some
    } else if slot == PROPERTIES {
        open_flag_of(v) is Some
    } else if slot == PURE_GETTERS {
        getters_of(v) is Some
    } else if slot == PURE_FUNCS {
        texts_of(v) is Some
    } else if slot == REDUCE_FUNCS {
        flag_of(v) is Some
    } else if slot == REDUCE_VARS {
        flag_of(v) is Some
    } else if slot == SEQUENCES {
        sequences_of(v) is Some
    } else if slot == SIDE_EFFECTS {
        open_flag_of(v) is Some
    } else if slot == SWITCHES {
        flag_of(v) is Some
    } else if slot == TOP_RETAIN {
        v is Null || v is Text || texts_of(v) is Some
    } else if slot == TOPLEVEL {
        top_level_given(v) is Some
    } else if slot == TYPEOFS {
        open_flag_of(v) is Some
    } else if slot == UNSAFE_PASSES {
        flag_of(v) is Some
    } else if slot == UNSAFE_ARROWS {
        flag_of(v) is Some
    } else if slot == UNSAFE_COMPS {
        flag_of(v) is Some
    } else if slot == UNSAFE_FUNCTION {
        flag_of(v) is Some
    } else if slot == UNSAFE_MATH {
        flag_of(v) is Some
    } else if slot == UNSAFE_SYMBOLS {
        flag_of(v) is Some
    } else if slot == UNSAFE_METHODS {
        flag_of(v) is Some
    } else if slot == UNSAFE_PROTO {
        flag_of(v) is Some
    } else if slot == UNSAFE_REGEXP {
        flag_of(v) is Some
    } else if slot == UNSAFE_UNDEFINED {
        flag_of(v) is Some
    } else if slot == UNUSED {
        open_flag_of(v) is Some
    } else if slot == MODULE {
        flag_of(v) is Some
    } else {
        false
    }
}

/// Whether the field of a slot is what a record gives it: the reading of
/// the value under its key, or what stands for a key that is left out.
pub open spec fn field_reads(o: TerserCompressorOptions, slot: nat, g: Option<RawValue>) -> bool {
    if slot == ARGUMENTS {
        flag_reads(o.arguments, g)
    } else if slot == ARROWS {
        open_flag_reads(o.arrows, g)
    } else if slot == BOOLEANS {
        open_flag_reads(o.booleans, g)
    } else if slot == BOOLEANS_AS_INTEGERS {
        flag_reads(o.booleans_as_integers, g)
    } else if slot == COLLAPSE_VARS {
        open_flag_reads(o.collapse_vars, g)
    } else if slot == COMPARISONS {
        open_flag_reads(o.comparisons, g)
    } else if slot == COMPUTED_PROPS {
        flag_reads(o.computed_props, g)
    } else if slot == CONDITIONALS {
        flag_reads(o.conditionals, g)
    } else if slot == DEAD_CODE {
        flag_reads(o.dead_code, g)
    } else if slot == DEFAULTS {
        flag_reads(o.defaults, g)
    } else if slot == DIRECTIVES {
        flag_reads(o.directives, g)
    } else if slot == DROP_CONSOLE {
        flag_reads(o.drop_console, g)
    } else if slot == DROP_DEBUGGER {
        open_flag_reads(o.drop_debugger, g)
    } else if slot == ECMA {
        version_reads(o.ecma, g)
    } else if slot == EVALUATE {
        open_flag_reads(o.evaluate, g)
    } else if slot == EXPRESSION {
        flag_reads(o.expression, g)
    } else if slot == GLOBAL_DEFS {
        defs_read(o.global_defs, g)
    } else if slot == HOIST_FUNS {
        flag_reads(o.hoist_funs, g)
    } else if slot == HOIST_PROPS {
        open_flag_reads(o.hoist_props, g)
    } else if slot == HOIST_VARS {
        flag_reads(o.hoist_vars, g)
    } else if slot == IE8 {
        flag_reads(o.ie8, g)
    } else if slot == IF_RETURN {
        open_flag_reads(o.if_return, g)
    } else if slot == INLINE {
        inline_reads(o.inline, g)
    } else if slot == JOIN_VARS {
        open_flag_reads(o.join_vars, g)
    } else if slot == KEEP_CLASSNAMES {
        flag_reads(o.keep_classnames, g)
    } else if slot == KEEP_FARGS {
        open_flag_reads(o.keep_fargs, g)
    } else if slot == KEEP_FNAMES {
        flag_reads(o.keep_fnames, g)
    } else if slot == KEEP_INFINITY {
        flag_reads(o.keep_infinity, g)
    } else if slot == LOOPS {
        open_flag_reads(o.loops, g)
    } else if slot == NEGATE_IIFE {
        open_flag_reads(o.negate_iife, g)
    } else if slot == PASSES {
        count_reads(o.passes, g)
    } else if slot == PROPERTIES {
        open_flag_reads(o.properties, g)
    } else if slot == PURE_GETTERS {
        getters_reads(o.pure_getters, g)
    } else if slot == PURE_FUNCS {
        names_read(o.pure_funcs, g)
    } else if slot == REDUCE_FUNCS {
        flag_reads(o.reduce_funcs, g)
    } else if slot == REDUCE_VARS {
        flag_reads(o.reduce_vars, g)
    } else if slot == SEQUENCES {
        sequences_reads(o.sequences, g)
    } else if slot == SIDE_EFFECTS {
        open_flag_reads(o.side_effects, g)
    } else if slot == SWITCHES {
        flag_reads(o.switches, g)
    } else if slot == TOP_RETAIN {
        retain_reads(o.top_retain, g)
    } else if slot == TOPLEVEL {
        top_level_reads(o.toplevel, g)
    } else if slot == TYPEOFS {
        open_flag_reads(o.typeofs, g)
    } else if slot == UNSAFE_PASSES {
        flag_reads(o.unsafe_passes, g)
    } else if slot == UNSAFE_ARROWS {
        flag_reads(o.unsafe_arrows, g)
    } else if slot == UNSAFE_COMPS {
        flag_reads(o.unsafe_comps, g)
    } else if slot == UNSAFE_FUNCTION {
        flag_reads(o.unsafe_function, g)
    } else if slot == UNSAFE_MATH {
        flag_reads(o.unsafe_math, g)
    } else if slot == UNSAFE_SYMBOLS {
        flag_reads(o.unsafe_symbols, g)
    } else if slot == UNSAFE_METHODS {
        flag_reads(o.unsafe_methods, g)
    } else if slot == UNSAFE_PROTO {
        flag_reads(o.unsafe_proto, g)
    } else if slot == UNSAFE_REGEXP {
        flag_reads(o.unsafe_regexp, g)
    } else if slot == UNSAFE_UNDEFINED {
        flag_reads(o.unsafe_undefined, g)
    } else if slot == UNUSED {
        open_flag_reads(o.unused, g)
    } else if slot == MODULE {
        flag_reads(o.module, g)
    } else {
        true
    }
}

/// The value that a record gives to a slot, if it gives one.
pub open spec fn lookup(fields: Seq<(String, RawValue)>, slot: nat) -> Option<RawValue>
    decreases fields.len(),
{
    if fields.len() == 0 {
        None
    } else if slot_of(fields.last().0@) == Some(slot) {
        Some(fields.last().1)
    } else {
        lookup(fields.drop_last(), slot)
    }
}

/// Whether each key of a record names an option and none comes twice.
pub open spec fn keys_ok(fields: Seq<(String, RawValue)>) -> bool
    decreases fields.len(),
{
    if fields.len() == 0 {
        true
    } else {
        &&& keys_ok(fields.drop_last())
        &&& slot_of(fields.last().0@) matches Some(slot)
        &&& lookup(fields.drop_last(), slot) is None
    }
}

/// Whether what a record gives to a slot, if anything, is accepted there.
pub open spec fn slot_ok(slot: nat, g: Option<RawValue>) -> bool {
    match g {
        Some(v) => accepts(slot, v),
        None => true,
    }
}

/// Whether a record is a configuration: each key names an option, none
/// comes twice, and each value has a shape that its option accepts.
pub open spec fn readable(fields: Seq<(String, RawValue)>) -> bool {
    &&& keys_ok(fields)
    &&& forall|slot: nat| slot < SLOTS ==> slot_ok(slot, #[trigger] lookup(fields, slot))
}

/// Whether a value is a configuration: a record that is readable.
pub open spec fn is_configuration(v: RawValue) -> bool {
    v matches RawValue::Record(fields) && readable(fields@)
}

/// Whether `o` is the configuration that a record writes.
pub open spec fn reads(o: TerserCompressorOptions, fields: Seq<(String, RawValue)>) -> bool {
    forall|slot: nat| slot < SLOTS ==> field_reads(o, slot, #[trigger] lookup(fields, slot))
}

fn read_flag(v: RawValue) -> (r: Option<bool>)
    ensures
        r == flag_of(v),
{
    match v {
        RawValue::Bool(on) => Some(on),
        _ => None,
    }
}

fn read_open_flag(v: RawValue) -> (r: Option<Option<bool>>)
    ensures
        r == open_flag_of(v),
{
    match v {
        RawValue::Null => Some(None),
        RawValue::Bool(on) => Some(Some(on)),
        _ => None,
    }
}

fn read_whole(n: Number) -> (r: Option<usize>)
    ensures
        r == whole_of(n),
{
    match n.whole {
        Some(w) => if w <= usize::MAX as u64 {
            Some(w as usize)
        } else {
            None
        },
        None => None,
    }
}

fn read_level(n: Number) -> (r: Option<u8>)
    ensures
        r == level_of(n),
{
    match n.whole {
        Some(w) => if w <= 255 {
            Some(w as u8)
        } else {
            None
        },
        None => None,
    }
}

fn read_count(v: RawValue) -> (r: Option<usize>)
    ensures
        r == count_of(v),
{
    match v {
        RawValue::Number(n) => read_whole(n),
        _ => None,
    }
}

fn read_version(v: RawValue) -> (r: Option<TerserEcmaVersion>)
    ensures
        r == version_of(v),
{
    match v {
        RawValue::Number(n) => match read_whole(n) {
            Some(w) => Some(TerserEcmaVersion::Num(w)),
            None => None,
        },
        RawValue::Text(s) => Some(TerserEcmaVersion::Str(s)),
        _ => None,
    }
}

fn read_inline(v: RawValue) -> (r: Option<Option<TerserInlineOption>>)
    ensures
        r == inline_of(v),
{
    match v {
        RawValue::Null => Some(None),
        RawValue::Bool(on) => Some(Some(TerserInlineOption::Bool(on))),
        RawValue::Number(n) => match read_level(n) {
            Some(level) => Some(Some(TerserInlineOption::Num(level))),
            None => None,
        },
        _ => None,
    }
}

fn read_sequences(v: RawValue) -> (r: Option<Option<TerserSequenceOptions>>)
    ensures
        r == sequences_of(v),
{
    match v {
        RawValue::Null => Some(None),
        RawValue::Bool(on) => Some(Some(TerserSequenceOptions::Bool(on))),
        RawValue::Number(n) => match read_level(n) {
            Some(level) => Some(Some(TerserSequenceOptions::Num(level))),
            None => None,
        },
        _ => None,
    }
}

fn read_getters(v: RawValue) -> (r: Option<TerserPureGetterOption>)
    ensures
        r == getters_of(v),
{
    match v {
        RawValue::Bool(on) => Some(TerserPureGetterOption::Bool(on)),
        RawValue::Text(s) => if same_text(s.as_str(), "strict") {
            Some(TerserPureGetterOption::Strict)
        } else {
            Some(TerserPureGetterOption::Str(s))
        },
        _ => None,
    }
}

fn read_top_level(v: RawValue) -> (r: Option<Option<TerserTopLevelOptions>>)
    ensures
        r == top_level_given(v),
{
    match v {
        RawValue::Null => Some(None),
        RawValue::Bool(on) => Some(Some(TerserTopLevelOptions::Bool(on))),
        RawValue::Text(s) => Some(Some(TerserTopLevelOptions::Str(s))),
        _ => None,
    }
}

/// Takes the texts out of a list, if it holds nothing else.
fn read_items(items: Vec<RawValue>) -> (r: Option<Vec<String>>)
    ensures
        match r {
            Some(names) => all_text(items@) && names_view(names@) == texts(items@),
            None => !all_text(items@),
        },
{
    let ghost all = items@;
    let mut names: Vec<String> = Vec::new();
    for item in it: items
        invariant
            it.seq() == all,
            names.len() == it.index(),
            forall|i: int| 0 <= i < it.index() ==> (#[trigger] all[i]) is Text,
            forall|i: int| 0 <= i < it.index() ==> (#[trigger] names[i])@ == all[i]->Text_0@,
    {
        match item {
            RawValue::Text(s) => {
                names.push(s);
            },
            _ => {
                return None;
            },
        }
    }
    assert(names_view(names@) =~= texts(all));
    Some(names)
}

fn read_texts(v: RawValue) -> (r: Option<Vec<String>>)
    ensures
        match r {
            Some(names) => texts_of(v) is Some && names_view(names@) == texts_of(v)->0,
            None => texts_of(v) is None,
        },
{
    match v {
        RawValue::List(items) => read_items(items),
        _ => None,
    }
}

fn read_top_retain(v: RawValue) -> (r: Option<Option<TerserTopRetainOption>>)
    ensures
        match r {
            Some(o) => top_retain_reads(o, v),
            None => !(v is Null || v is Text || texts_of(v) is Some),
        },
{
    match v {
        RawValue::Null => Some(None),
        RawValue::Text(s) => Some(Some(TerserTopRetainOption::Str(s))),
        RawValue::List(items) => match read_items(items) {
            Some(names) => Some(Some(TerserTopRetainOption::List(names))),
            None => None,
        },
        _ => None,
    }
}

/// Takes the entries of a record into a map; of two entries with one
/// name the later one stays.
fn read_entries(fields: Vec<(String, RawValue)>) -> (m: NameMap<RawValue>)
    ensures
        m@ == defs_map(fields@),
{
    let ghost all = fields@;
    let mut m: NameMap<RawValue> = NameMap::new();
    for e in it: fields
        invariant
            it.seq() == all,
            m@ == defs_map(all.take(it.index() as int)),
    {
        proof {
            let next = all.take(it.index() + 1);
            assert(next.drop_last() =~= all.take(it.index() as int));
            assert(next.last() == e);
        }
        let (name, value) = e;
        m.insert(name, value);
    }
    assert(all.take(all.len() as int) =~= all);
    m
}

fn read_defs(v: RawValue) -> (r: Option<NameMap<RawValue>>)
    ensures
        match r {
            Some(m) => v is Record && m@ == defs_map(v->Record_0@),
            None => !(v is Record),
        },
{
    match v {
        RawValue::Record(fields) => Some(read_entries(fields)),
        _ => None,
    }
}

/// An absent flag is off.
fn take_flag(g: Option<RawValue>) -> (r: Option<bool>)
    ensures
        r == match g {
            Some(v) => flag_of(v),
            None => Some(false),
        },
{
    match g {
        Some(v) => read_flag(v),
        None => Some(false),
    }
}

fn take_open_flag(g: Option<RawValue>) -> (r: Option<Option<bool>>)
    ensures
        r == match g {
            Some(v) => open_flag_of(v),
            None => Some(None),
        },
{
    match g {
        Some(v) => read_open_flag(v),
        None => Some(None),
    }
}

fn take_count(g: Option<RawValue>) -> (r: Option<usize>)
    ensures
        r == match g {
            Some(v) => count_of(v),
            None => Some(0usize),
        },
{
    match g {
        Some(v) => read_count(v),
        None => Some(0),
    }
}

fn take_version(g: Option<RawValue>) -> (r: Option<TerserEcmaVersion>)
    ensures
        r == match g {
            Some(v) => version_of(v),
            None => Some(TerserEcmaVersion::Num(5)),
        },
{
    match g {
        Some(v) => read_version(v),
        None => Some(TerserEcmaVersion::Num(5)),
    }
}

fn take_inline(g: Option<RawValue>) -> (r: Option<Option<TerserInlineOption>>)
    ensures
        r == match g {
            Some(v) => inline_of(v),
            None => Some(None),
        },
{
    match g {
        Some(v) => read_inline(v),
        None => Some(None),
    }
}

fn take_sequences(g: Option<RawValue>) -> (r: Option<Option<TerserSequenceOptions>>)
    ensures
        r == match g {
            Some(v) => sequences_of(v),
            None => Some(None),
        },
{
    match g {
        Some(v) => read_sequences(v),
        None => Some(None),
    }
}

fn take_getters(g: Option<RawValue>) -> (r: Option<TerserPureGetterOption>)
    ensures
        r == match g {
            Some(v) => getters_of(v),
            None => Some(TerserPureGetterOption::Strict),
        },
{
    match g {
        Some(v) => read_getters(v),
        None => Some(TerserPureGetterOption::Strict),
    }
}

fn take_top_level(g: Option<RawValue>) -> (r: Option<Option<TerserTopLevelOptions>>)
    ensures
        r == match g {
            Some(v) => top_level_given(v),
            None => Some(None),
        },
{
    match g {
        Some(v) => read_top_level(v),
        None => Some(None),
    }
}

fn take_texts(g: Option<RawValue>) -> (r: Option<Vec<String>>)
    ensures
        match r {
            Some(names) => names_view(names@) == match g {
                Some(v) => texts_of(v)->0,
                None => Seq::empty(),
            } && (g matches Some(v) ==> texts_of(v) is Some),
            None => g matches Some(v) && texts_of(v) is None,
        },
{
    match g {
        Some(v) => read_texts(v),
        None => {
            let names: Vec<String> = Vec::new();
            assert(names_view(names@) =~= Seq::<Seq<char>>::empty());
            Some(names)
        },
    }
}

fn take_top_retain(g: Option<RawValue>) -> (r: Option<Option<TerserTopRetainOption>>)
    ensures
        match r {
            Some(o) => match g {
                Some(v) => top_retain_reads(o, v),
                None => o is None,
            },
            None => g matches Some(v) && !(v is Null || v is Text || texts_of(v) is Some),
        },
{
    match g {
        Some(v) => read_top_retain(v),
        None => Some(None),
    }
}

fn take_defs(g: Option<RawValue>) -> (r: Option<NameMap<RawValue>>)
    ensures
        match r {
            Some(m) => m@ == match g {
                Some(v) => defs_map(v->Record_0@),
                None => Map::empty(),
            } && (g matches Some(v) ==> v is Record),
            None => g matches Some(v) && !(v is Record),
        },
{
    match g {
        Some(v) => read_defs(v),
        None => Some(NameMap::new()),
    }
}

/// Takes what the last slot of a list holds.
fn take_last(slots: &mut Vec<Option<RawValue>>) -> (g: Option<RawValue>)
    requires
        old(slots).len() > 0,
    ensures
        g == old(slots)@.last(),
        final(slots)@ == old(slots)@.drop_last(),
{
    match slots.pop() {
        Some(g) => g,
        None => None,
    }
}

/// Sorts the values of a record by the slots of their keys. There is no
/// such sorting of a record with a key that names no option or comes
/// twice.
fn sort_by_slot(fields: Vec<(String, RawValue)>) -> (r: Option<Vec<Option<RawValue>>>)
    ensures
        match r {
            Some(slots) => {
                &&& keys_ok(fields@)
                &&& slots.len() == SLOTS
                &&& forall|j: nat| j < SLOTS ==> slots[j as int] == #[trigger] lookup(fields@, j)
            },
            None => !keys_ok(fields@),
        },
{
    let ghost all = fields@;
    let mut slots: Vec<Option<RawValue>> = Vec::new();
    let mut k: u8 = 0;
    while k < SLOTS
        invariant
            k <= SLOTS,
            slots.len() == k,
            forall|j: int| 0 <= j < k ==> slots[j] is None,
        decreases SLOTS - k,
    {
        slots.push(None);
        k = k + 1;
    }
    assert(all.take(0) =~= Seq::<(String, RawValue)>::empty());
    for e in it: fields
        invariant
            it.seq() == all,
            slots.len() == SLOTS,
            keys_ok(all.take(it.index() as int)),
            forall|j: nat|
                j < SLOTS ==> slots[j as int] == #[trigger] lookup(all.take(it.index() as int), j),
    {
        let ghost prefix = all.take(it.index() as int);
        let ghost next = all.take(it.index() + 1);
        proof {
            assert(next.drop_last() =~= prefix);
            assert(next.last() == e);
        }
        let (name, value) = e;
        let j: u8 = match slot(name.as_str()) {
            Some(j) => j,
            None => {
                proof {
                    if keys_ok(all) {
                        lemma_keys_ok_prefix(all, it.index() + 1);
                    }
                }
                return None;
            },
        };
        if slots[j as usize].is_some() {
            proof {
                assert(lookup(prefix, j as nat) is Some);
                if keys_ok(all) {
                    lemma_keys_ok_prefix(all, it.index() + 1);
                }
            }
            return None;
        }
        proof {
            assert(lookup(prefix, j as nat) is None);
        }
        slots.set(j as usize, Some(value));
        proof {
            assert forall|s: nat| s < SLOTS implies slots[s as int] == #[trigger] lookup(
                next,
                s,
            ) by {
                if s != j {
                    assert(lookup(next, s) == lookup(prefix, s));
                }
            }
        }
    }
    assert(all.take(all.len() as int) =~= all);
    Some(slots)
}

/// Keys that are in order stay so when the record is cut short.
pub proof fn lemma_keys_ok_prefix(fields: Seq<(String, RawValue)>, k: int)
    requires
        keys_ok(fields),
        0 <= k <= fields.len(),
    ensures
        keys_ok(fields.take(k)),
    decreases fields.len(),
{
    if k == fields.len() {
        assert(fields.take(k) =~= fields);
    } else {
        lemma_keys_ok_prefix(fields.drop_last(), k);
        assert(fields.drop_last().take(k) =~= fields.take(k));
    }
}

/// A slot that a record fills has an entry there.
pub proof fn lemma_lookup_finds(fields: Seq<(String, RawValue)>, i: int)
    requires
        0 <= i < fields.len(),
        slot_of(fields[i].0@) is Some,
    ensures
        lookup(fields, slot_of(fields[i].0@)->0) is Some,
    decreases fields.len(),
{
    if i < fields.len() - 1 {
        lemma_lookup_finds(fields.drop_last(), i);
    }
}

/// Where the keys are in order, the value of an entry's slot is that
/// entry's.
pub proof fn lemma_lookup_keeps(fields: Seq<(String, RawValue)>, i: int)
    requires
        keys_ok(fields),
        0 <= i < fields.len(),
    ensures
        slot_of(fields[i].0@) is Some,
        lookup(fields, slot_of(fields[i].0@)->0) == Some(fields[i].1),
    decreases fields.len(),
{
    if i < fields.len() - 1 {
        lemma_lookup_keeps(fields.drop_last(), i);
        lemma_lookup_finds(fields.drop_last(), i);
    }
}

/// A slot is below the number of slots.
pub proof fn lemma_slot_in_range(name: Seq<char>)
    ensures
        slot_of(name) matches Some(slot) ==> slot < SLOTS,
{
}

/// Whether each slot of a list holds nothing or what its option accepts.
pub open spec fn slots_ok(given: Seq<Option<RawValue>>) -> bool {
    &&& slot_ok(ARGUMENTS as nat, given[ARGUMENTS as int])
    &&& slot_ok(ARROWS as nat, given[ARROWS as int])
    &&& slot_ok(BOOLEANS as nat, given[BOOLEANS as int])
    &&& slot_ok(BOOLEANS_AS_INTEGERS as nat, given[BOOLEANS_AS_INTEGERS as int])
    &&& slot_ok(COLLAPSE_VARS as nat, given[COLLAPSE_VARS as int])
    &&& slot_ok(COMPARISONS as nat, given[COMPARISONS as int])
    &&& slot_ok(COMPUTED_PROPS as nat, given[COMPUTED_PROPS as int])
    &&& slot_ok(CONDITIONALS as nat, given[CONDITIONALS as int])
    &&& slot_ok(DEAD_CODE as nat, given[DEAD_CODE as int])
    &&& slot_ok(DEFAULTS as nat, given[DEFAULTS as int])
    &&& slot_ok(DIRECTIVES as nat, given[DIRECTIVES as int])
    &&& slot_ok(DROP_CONSOLE as nat, given[DROP_CONSOLE as int])
    &&& slot_ok(DROP_DEBUGGER as nat, given[DROP_DEBUGGER as int])
    &&& slot_ok(ECMA as nat, given[ECMA as int])
    &&& slot_ok(EVALUATE as nat, given[EVALUATE as int])
    &&& slot_ok(EXPRESSION as nat, given[EXPRESSION as int])
    &&& slot_ok(GLOBAL_DEFS as nat, given[GLOBAL_DEFS as int])
    &&& slot_ok(HOIST_FUNS as nat, given[HOIST_FUNS as int])
    &&& slot_ok(HOIST_PROPS as nat, given[HOIST_PROPS as int])
    &&& slot_ok(HOIST_VARS as nat, given[HOIST_VARS as int])
    &&& slot_ok(IE8 as nat, given[IE8 as int])
    &&& slot_ok(IF_RETURN as nat, given[IF_RETURN as int])
    &&& slot_ok(INLINE as nat, given[INLINE as int])
    &&& slot_ok(JOIN_VARS as nat, given[JOIN_VARS as int])
    &&& slot_ok(KEEP_CLASSNAMES as nat, given[KEEP_CLASSNAMES as int])
    &&& slot_ok(KEEP_FARGS as nat, given[KEEP_FARGS as int])
    &&& slot_ok(KEEP_FNAMES as nat, given[KEEP_FNAMES as int])
    &&& slot_ok(KEEP_INFINITY as nat, given[KEEP_INFINITY as int])
    &&& slot_ok(LOOPS as nat, given[LOOPS as int])
    &&& slot_ok(NEGATE_IIFE as nat, given[NEGATE_IIFE as int])
    &&& slot_ok(PASSES as nat, given[PASSES as int])
    &&& slot_ok(PROPERTIES as nat, given[PROPERTIES as int])
    &&& slot_ok(PURE_GETTERS as nat, given[PURE_GETTERS as int])
    &&& slot_ok(PURE_FUNCS as nat, given[PURE_FUNCS as int])
    &&& slot_ok(REDUCE_FUNCS as nat, given[REDUCE_FUNCS as int])
    &&& slot_ok(REDUCE_VARS as nat, given[REDUCE_VARS as int])
    &&& slot_ok(SEQUENCES as nat, given[SEQUENCES as int])
    &&& slot_ok(SIDE_EFFECTS as nat, given[SIDE_EFFECTS as int])
    &&& slot_ok(SWITCHES as nat, given[SWITCHES as int])
    &&& slot_ok(TOP_RETAIN as nat, given[TOP_RETAIN as int])
    &&& slot_ok(TOPLEVEL as nat, given[TOPLEVEL as int])
    &&& slot_ok(TYPEOFS as nat, given[TYPEOFS as int])
    &&& slot_ok(UNSAFE_PASSES as nat, given[UNSAFE_PASSES as int])
    &&& slot_ok(UNSAFE_ARROWS as nat, given[UNSAFE_ARROWS as int])
    &&& slot_ok(UNSAFE_COMPS as nat, given[UNSAFE_COMPS as int])
    &&& slot_ok(UNSAFE_FUNCTION as nat, given[UNSAFE_FUNCTION as int])
    &&& slot_ok(UNSAFE_MATH as nat, given[UNSAFE_MATH as int])
    &&& slot_ok(UNSAFE_SYMBOLS as nat, given[UNSAFE_SYMBOLS as int])
    &&& slot_ok(UNSAFE_METHODS as nat, given[UNSAFE_METHODS as int])
    &&& slot_ok(UNSAFE_PROTO as nat, given[UNSAFE_PROTO as int])
    &&& slot_ok(UNSAFE_REGEXP as nat, given[UNSAFE_REGEXP as int])
    &&& slot_ok(UNSAFE_UNDEFINED as nat, given[UNSAFE_UNDEFINED as int])
    &&& slot_ok(UNUSED as nat, given[UNUSED as int])
    &&& slot_ok(MODULE as nat, given[MODULE as int])
}

/// Whether each field of `o` is what its slot of a list gives it.
pub open spec fn slots_read(o: TerserCompressorOptions, given: Seq<Option<RawValue>>) -> bool {
    &&& field_reads(o, ARGUMENTS as nat, given[ARGUMENTS as int])
    &&& field_reads(o, ARROWS as nat, given[ARROWS as int])
    &&& field_reads(o, BOOLEANS as nat, given[BOOLEANS as int])
    &&& field_reads(o, BOOLEANS_AS_INTEGERS as nat, given[BOOLEANS_AS_INTEGERS as int])
    &&& field_reads(o, COLLAPSE_VARS as nat, given[COLLAPSE_VARS as int])
    &&& field_reads(o, COMPARISONS as nat, given[COMPARISONS as int])
    &&& field_reads(o, COMPUTED_PROPS as nat, given[COMPUTED_PROPS as int])
    &&& field_reads(o, CONDITIONALS as nat, given[CONDITIONALS as int])
    &&& field_reads(o, DEAD_CODE as nat, given[DEAD_CODE as int])
    &&& field_reads(o, DEFAULTS as nat, given[DEFAULTS as int])
    &&& field_reads(o, DIRECTIVES as nat, given[DIRECTIVES as int])
    &&& field_reads(o, DROP_CONSOLE as nat, given[DROP_CONSOLE as int])
    &&& field_reads(o, DROP_DEBUGGER as nat, given[DROP_DEBUGGER as int])
    &&& field_reads(o, ECMA as nat, given[ECMA as int])
    &&& field_reads(o, EVALUATE as nat, given[EVALUATE as int])
    &&& field_reads(o, EXPRESSION as nat, given[EXPRESSION as int])
    &&& field_reads(o, GLOBAL_DEFS as nat, given[GLOBAL_DEFS as int])
    &&& field_reads(o, HOIST_FUNS as nat, given[HOIST_FUNS as int])
    &&& field_reads(o, HOIST_PROPS as nat, given[HOIST_PROPS as int])
    &&& field_reads(o, HOIST_VARS as nat, given[HOIST_VARS as int])
    &&& field_reads(o, IE8 as nat, given[IE8 as int])
    &&& field_reads(o, IF_RETURN as nat, given[IF_RETURN as int])
    &&& field_reads(o, INLINE as nat, given[INLINE as int])
    &&& field_reads(o, JOIN_VARS as nat, given[JOIN_VARS as int])
    &&& field_reads(o, KEEP_CLASSNAMES as nat, given[KEEP_CLASSNAMES as int])
    &&& field_reads(o, KEEP_FARGS as nat, given[KEEP_FARGS as int])
    &&& field_reads(o, KEEP_FNAMES as nat, given[KEEP_FNAMES as int])
    &&& field_reads(o, KEEP_INFINITY as nat, given[KEEP_INFINITY as int])
    &&& field_reads(o, LOOPS as nat, given[LOOPS as int])
    &&& field_reads(o, NEGATE_IIFE as nat, given[NEGATE_IIFE as int])
    &&& field_reads(o, PASSES as nat, given[PASSES as int])
    &&& field_reads(o, PROPERTIES as nat, given[PROPERTIES as int])
    &&& field_reads(o, PURE_GETTERS as nat, given[PURE_GETTERS as int])
    &&& field_reads(o, PURE_FUNCS as nat, given[PURE_FUNCS as int])
    &&& field_reads(o, REDUCE_FUNCS as nat, given[REDUCE_FUNCS as int])
    &&& field_reads(o, REDUCE_VARS as nat, given[REDUCE_VARS as int])
    &&& field_reads(o, SEQUENCES as nat, given[SEQUENCES as int])
    &&& field_reads(o, SIDE_EFFECTS as nat, given[SIDE_EFFECTS as int])
    &&& field_reads(o, SWITCHES as nat, given[SWITCHES as int])
    &&& field_reads(o, TOP_RETAIN as nat, given[TOP_RETAIN as int])
    &&& field_reads(o, TOPLEVEL as nat, given[TOPLEVEL as int])
    &&& field_reads(o, TYPEOFS as nat, given[TYPEOFS as int])
    &&& field_reads(o, UNSAFE_PASSES as nat, given[UNSAFE_PASSES as int])
    &&& field_reads(o, UNSAFE_ARROWS as nat, given[UNSAFE_ARROWS as int])
    &&& field_reads(o, UNSAFE_COMPS as nat, given[UNSAFE_COMPS as int])
    &&& field_reads(o, UNSAFE_FUNCTION as nat, given[UNSAFE_FUNCTION as int])
    &&& field_reads(o, UNSAFE_MATH as nat, given[UNSAFE_MATH as int])
    &&& field_reads(o, UNSAFE_SYMBOLS as nat, given[UNSAFE_SYMBOLS as int])
    &&& field_reads(o, UNSAFE_METHODS as nat, given[UNSAFE_METHODS as int])
    &&& field_reads(o, UNSAFE_PROTO as nat, given[UNSAFE_PROTO as int])
    &&& field_reads(o, UNSAFE_REGEXP as nat, given[UNSAFE_REGEXP as int])
    &&& field_reads(o, UNSAFE_UNDEFINED as nat, given[UNSAFE_UNDEFINED as int])
    &&& field_reads(o, UNUSED as nat, given[UNUSED as int])
    &&& field_reads(o, MODULE as nat, given[MODULE as int])
}

/// Reads the fields from `arguments` to `dead_code`, whose slots
/// stand last in the list, and takes them off it.
fn read_arguments_to_dead_code(slots: &mut Vec<Option<RawValue>>) -> (r: Option<
    (
    bool,
    Option<bool>,
    Option<bool>,
    bool,
    Option<bool>,
    Option<bool>,
    bool,
    bool,
    bool,
    ),
>)
    requires
        old(slots).len() == DEAD_CODE + 1,
    ensures
        match r {
            Some(t) => {
                &&& final(slots)@ == old(slots)@.take(ARGUMENTS as int)
                &&& slot_ok(ARGUMENTS as nat, old(slots)@[ARGUMENTS as int])
                &&& flag_reads(t.0, old(slots)@[ARGUMENTS as int])
                &&& slot_ok(ARROWS as nat, old(slots)@[ARROWS as int])
                &&& open_flag_reads(t.1, old(slots)@[ARROWS as int])
                &&& slot_ok(BOOLEANS as nat, old(slots)@[BOOLEANS as int])
                &&& open_flag_reads(t.2, old(slots)@[BOOLEANS as int])
                &&& slot_ok(BOOLEANS_AS_INTEGERS as nat, old(slots)@[BOOLEANS_AS_INTEGERS as int])
                &&& flag_reads(t.3, old(slots)@[BOOLEANS_AS_INTEGERS as int])
                &&& slot_ok(COLLAPSE_VARS as nat, old(slots)@[COLLAPSE_VARS as int])
                &&& open_flag_reads(t.4, old(slots)@[COLLAPSE_VARS as int])
                &&& slot_ok(COMPARISONS as nat, old(slots)@[COMPARISONS as int])
                &&& open_flag_reads(t.5, old(slots)@[COMPARISONS as int])
                &&& slot_ok(COMPUTED_PROPS as nat, old(slots)@[COMPUTED_PROPS as int])
                &&& flag_reads(t.6, old(slots)@[COMPUTED_PROPS as int])
                &&& slot_ok(CONDITIONALS as nat, old(slots)@[CONDITIONALS as int])
                &&& flag_reads(t.7, old(slots)@[CONDITIONALS as int])
                &&& slot_ok(DEAD_CODE as nat, old(slots)@[DEAD_CODE as int])
                &&& flag_reads(t.8, old(slots)@[DEAD_CODE as int])
            },
            None => {
                ||| !slot_ok(ARGUMENTS as nat, old(slots)@[ARGUMENTS as int])
                ||| !slot_ok(ARROWS as nat, old(slots)@[ARROWS as int])
                ||| !slot_ok(BOOLEANS as nat, old(slots)@[BOOLEANS as int])
                ||| !slot_ok(BOOLEANS_AS_INTEGERS as nat, old(slots)@[BOOLEANS_AS_INTEGERS as int])
                ||| !slot_ok(COLLAPSE_VARS as nat, old(slots)@[COLLAPSE_VARS as int])
                ||| !slot_ok(COMPARISONS as nat, old(slots)@[COMPARISONS as int])
                ||| !slot_ok(COMPUTED_PROPS as nat, old(slots)@[COMPUTED_PROPS as int])
                ||| !slot_ok(CONDITIONALS as nat, old(slots)@[CONDITIONALS as int])
                ||| !slot_ok(DEAD_CODE as nat, old(slots)@[DEAD_CODE as int])
            },
        },
{
    let ghost given = slots@;
    let dead_code: bool = take_flag(take_last(slots))?;
    assert(slots@ =~= given.take(DEAD_CODE as int));
    let conditionals: bool = take_flag(take_last(slots))?;
    assert(slots@ =~= given.take(CONDITIONALS as int));
    let computed_props: bool = take_flag(take_last(slots))?;
    assert(slots@ =~= given.take(COMPUTED_PROPS as int));
    let comparisons: Option<bool> = take_open_flag(take_last(slots))?;
    assert(slots@ =~= given.take(COMPARISONS as int));
    let collapse_vars: Option<bool> = take_open_flag(take_last(slots))?;
    assert(slots@ =~= given.take(COLLAPSE_VARS as int));
    let booleans_as_integers: bool = take_flag(take_last(slots))?;
    assert(slots@ =~= given.take(BOOLEANS_AS_INTEGERS as int));
    let booleans: Option<bool> = take_open_flag(take_last(slots))?;
    assert(slots@ =~= given.take(BOOLEANS as int));
    let arrows: Option<bool> = take_open_flag(take_last(slots))?;
    assert(slots@ =~= given.take(ARROWS as int));
    let arguments: bool = take_flag(take_last(slots))?;
    assert(slots@ =~= given.take(ARGUMENTS as int));
    Some(
        (
            arguments,
            arrows,
            booleans,
            booleans_as_integers,
            collapse_vars,
            comparisons,
            computed_props,
            conditionals,
            dead_code,
        ),
    )
}

/// Reads the fields from `defaults` to `hoist_funs`, whose slots
/// stand last in the list, and takes them off it.
fn read_defaults_to_hoist_funs(slots: &mut Vec<Option<RawValue>>) -> (r: Option<
    (
    bool,
    bool,
    bool,
    Option<bool>,
    TerserEcmaVersion,
    Option<bool>,
    bool,
    NameMap<RawValue>,
    bool,
    ),
>)
    requires
        old(slots).len() == HOIST_FUNS + 1,
    ensures
        match r {
            Some(t) => {
                &&& final(slots)@ == old(slots)@.take(DEFAULTS as int)
                &&& slot_ok(DEFAULTS as nat, old(slots)@[DEFAULTS as int])
                &&& flag_reads(t.0, old(slots)@[DEFAULTS as int])
                &&& slot_ok(DIRECTIVES as nat, old(slots)@[DIRECTIVES as int])
                &&& flag_reads(t.1, old(slots)@[DIRECTIVES as int])
                &&& slot_ok(DROP_CONSOLE as nat, old(slots)@[DROP_CONSOLE as int])
                &&& flag_reads(t.2, old(slots)@[DROP_CONSOLE as int])
                &&& slot_ok(DROP_DEBUGGER as nat, old(slots)@[DROP_DEBUGGER as int])
                &&& open_flag_reads(t.3, old(slots)@[DROP_DEBUGGER as int])
                &&& slot_ok(ECMA as nat, old(slots)@[ECMA as int])
                &&& version_reads(t.4, old(slots)@[ECMA as int])
                &&& slot_ok(EVALUATE as nat, old(slots)@[EVALUATE as int])
                &&& open_flag_reads(t.5, old(slots)@[EVALUATE as int])
                &&& slot_ok(EXPRESSION as nat, old(slots)@[EXPRESSION as int])
                &&& flag_reads(t.6, old(slots)@[EXPRESSION as int])
                &&& slot_ok(GLOBAL_DEFS as nat, old(slots)@[GLOBAL_DEFS as int])
                &&& defs_read(t.7, old(slots)@[GLOBAL_DEFS as int])
                &&& slot_ok(HOIST_FUNS as nat, old(slots)@[HOIST_FUNS as int])
                &&& flag_reads(t.8, old(slots)@[HOIST_FUNS as int])
            },
            None => {
                ||| !slot_ok(DEFAULTS as nat, old(slots)@[DEFAULTS as int])
                ||| !slot_ok(DIRECTIVES as nat, old(slots)@[DIRECTIVES as int])
                ||| !slot_ok(DROP_CONSOLE as nat, old(slots)@[DROP_CONSOLE as int])
                ||| !slot_ok(DROP_DEBUGGER as nat, old(slots)@[DROP_DEBUGGER as int])
                ||| !slot_ok(ECMA as nat, old(slots)@[ECMA as int])
                ||| !slot_ok(EVALUATE as nat, old(slots)@[EVALUATE as int])
                ||| !slot_ok(EXPRESSION as nat, old(slots)@[EXPRESSION as int])
                ||| !slot_ok(GLOBAL_DEFS as nat, old(slots)@[GLOBAL_DEFS as int])
                ||| !slot_ok(HOIST_FUNS as nat, old(slots)@[HOIST_FUNS as int])
            },
        },
{
    let ghost given = slots@;
    let hoist_funs: bool = take_flag(take_last(slots))?;
    assert(slots@ =~= given.take(HOIST_FUNS as int));
    let global_defs: NameMap<RawValue> = take_defs(take_last(slots))?;
    assert(slots@ =~= given.take(GLOBAL_DEFS as int));
    let expression: bool = take_flag(take_last(slots))?;
    assert(slots@ =~= given.take(EXPRESSION as int));
    let evaluate: Option<bool> = take_open_flag(take_last(slots))?;
    assert(slots@ =~= given.take(EVALUATE as int));
    let ecma: TerserEcmaVersion = take_version(take_last(slots))?;
    assert(slots@ =~= given.take(ECMA as int));
    let drop_debugger: Option<bool> = take_open_flag(take_last(slots))?;
    assert(slots@ =~= given.take(DROP_DEBUGGER as int));
    let drop_console: bool = take_flag(take_last(slots))?;
    assert(slots@ =~= given.take(DROP_CONSOLE as int));
    let directives: bool = take_flag(take_last(slots))?;
    assert(slots@ =~= given.take(DIRECTIVES as int));
    let defaults: bool = take_flag(take_last(slots))?;
    assert(slots@ =~= given.take(DEFAULTS as int));
    Some(
        (
            defaults,
            directives,
            drop_console,
            drop_debugger,
            ecma,
            evaluate,
            expression,
            global_defs,
            hoist_funs,
        ),
    )
}

/// Reads the fields from `hoist_props` to `keep_fnames`, whose slots
/// stand last in the list, and takes them off it.
fn read_hoist_props_to_keep_fnames(slots: &mut Vec<Option<RawValue>>) -> (r: Option<
    (
    Option<bool>,
    bool,
    bool,
    Option<bool>,
    Option<TerserInlineOption>,
    Option<bool>,
    bool,
    Option<bool>,
    bool,
    ),
>)
    requires
        old(slots).len() == KEEP_FNAMES + 1,
    ensures
        match r {
            Some(t) => {
                &&& final(slots)@ == old(slots)@.take(HOIST_PROPS as int)
                &&& slot_ok(HOIST_PROPS as nat, old(slots)@[HOIST_PROPS as int])
                &&& open_flag_reads(t.0, old(slots)@[HOIST_PROPS as int])
                &&& slot_ok(HOIST_VARS as nat, old(slots)@[HOIST_VARS as int])
                &&& flag_reads(t.1, old(slots)@[HOIST_VARS as int])
                &&& slot_ok(IE8 as nat, old(slots)@[IE8 as int])
                &&& flag_reads(t.2, old(slots)@[IE8 as int])
                &&& slot_ok(IF_RETURN as nat, old(slots)@[IF_RETURN as int])
                &&& open_flag_reads(t.3, old(slots)@[IF_RETURN as int])
                &&& slot_ok(INLINE as nat, old(slots)@[INLINE as int])
                &&& inline_reads(t.4, old(slots)@[INLINE as int])
                &&& slot_ok(JOIN_VARS as nat, old(slots)@[JOIN_VARS as int])
                &&& open_flag_reads(t.5, old(slots)@[JOIN_VARS as int])
                &&& slot_ok(KEEP_CLASSNAMES as nat, old(slots)@[KEEP_CLASSNAMES as int])
                &&& flag_reads(t.6, old(slots)@[KEEP_CLASSNAMES as int])
                &&& slot_ok(KEEP_FARGS as nat, old(slots)@[KEEP_FARGS as int])
                &&& open_flag_reads(t.7, old(slots)@[KEEP_FARGS as int])
                &&& slot_ok(KEEP_FNAMES as nat, old(slots)@[KEEP_FNAMES as int])
                &&& flag_reads(t.8, old(slots)@[KEEP_FNAMES as int])
            },
            None => {
                ||| !slot_ok(HOIST_PROPS as nat, old(slots)@[HOIST_PROPS as int])
                ||| !slot_ok(HOIST_VARS as nat, old(slots)@[HOIST_VARS as int])
                ||| !slot_ok(IE8 as nat, old(slots)@[IE8 as int])
                ||| !slot_ok(IF_RETURN as nat, old(slots)@[IF_RETURN as int])
                ||| !slot_ok(INLINE as nat, old(slots)@[INLINE as int])
                ||| !slot_ok(JOIN_VARS as nat, old(slots)@[JOIN_VARS as int])
                ||| !slot_ok(KEEP_CLASSNAMES as nat, old(slots)@[KEEP_CLASSNAMES as int])
                ||| !slot_ok(KEEP_FARGS as nat, old(slots)@[KEEP_FARGS as int])
                ||| !slot_ok(KEEP_FNAMES as nat, old(slots)@[KEEP_FNAMES as int])
            },
        },
{
    let ghost given = slots@;
    let keep_fnames: bool = take_flag(take_last(slots))?;
    assert(slots@ =~= given.take(KEEP_FNAMES as int));
    let keep_fargs: Option<bool> = take_open_flag(take_last(slots))?;
    assert(slots@ =~= given.take(KEEP_FARGS as int));
    let keep_classnames: bool = take_flag(take_last(slots))?;
    assert(slots@ =~= given.take(KEEP_CLASSNAMES as int));
    let join_vars: Option<bool> = take_open_flag(take_last(slots))?;
    assert(slots@ =~= given.take(JOIN_VARS as int));
    let inline: Option<TerserInlineOption> = take_inline(take_last(slots))?;
    assert(slots@ =~= given.take(INLINE as int));
    let if_return: Option<bool> = take_open_flag(take_last(slots))?;
    assert(slots@ =~= given.take(IF_RETURN as int));
    let ie8: bool = take_flag(take_last(slots))?;
    assert(slots@ =~= given.take(IE8 as int));
    let hoist_vars: bool = take_flag(take_last(slots))?;
    assert(slots@ =~= given.take(HOIST_VARS as int));
    let hoist_props: Option<bool> = take_open_flag(take_last(slots))?;
    assert(slots@ =~= given.take(HOIST_PROPS as int));
    Some(
        (
            hoist_props,
            hoist_vars,
            ie8,
            if_return,
            inline,
            join_vars,
            keep_classnames,
            keep_fargs,
            keep_fnames,
        ),
    )
}

/// Reads the fields from `keep_infinity` to `reduce_vars`, whose slots
/// stand last in the list, and takes them off it.
fn read_keep_infinity_to_reduce_vars(slots: &mut Vec<Option<RawValue>>) -> (r: Option<
    (
    bool,
    Option<bool>,
    Option<bool>,
    usize,
    Option<bool>,
    TerserPureGetterOption,
    Vec<String>,
    bool,
    bool,
    ),
>)
    requires
        old(slots).len() == REDUCE_VARS + 1,
    ensures
        match r {
            Some(t) => {
                &&& final(slots)@ == old(slots)@.take(KEEP_INFINITY as int)
                &&& slot_ok(KEEP_INFINITY as nat, old(slots)@[KEEP_INFINITY as int])
                &&& flag_reads(t.0, old(slots)@[KEEP_INFINITY as int])
                &&& slot_ok(LOOPS as nat, old(slots)@[LOOPS as int])
                &&& open_flag_reads(t.1, old(slots)@[LOOPS as int])
                &&& slot_ok(NEGATE_IIFE as nat, old(slots)@[NEGATE_IIFE as int])
                &&& open_flag_reads(t.2, old(slots)@[NEGATE_IIFE as int])
                &&& slot_ok(PASSES as nat, old(slots)@[PASSES as int])
                &&& count_reads(t.3, old(slots)@[PASSES as int])
                &&& slot_ok(PROPERTIES as nat, old(slots)@[PROPERTIES as int])
                &&& open_flag_reads(t.4, old(slots)@[PROPERTIES as int])
                &&& slot_ok(PURE_GETTERS as nat, old(slots)@[PURE_GETTERS as int])
                &&& getters_reads(t.5, old(slots)@[PURE_GETTERS as int])
                &&& slot_ok(PURE_FUNCS as nat, old(slots)@[PURE_FUNCS as int])
                &&& names_read(t.6, old(slots)@[PURE_FUNCS as int])
                &&& slot_ok(REDUCE_FUNCS as nat, old(slots)@[REDUCE_FUNCS as int])
                &&& flag_reads(t.7, old(slots)@[REDUCE_FUNCS as int])
                &&& slot_ok(REDUCE_VARS as nat, old(slots)@[REDUCE_VARS as int])
                &&& flag_reads(t.8, old(slots)@[REDUCE_VARS as int])
            },
            None => {
                ||| !slot_ok(KEEP_INFINITY as nat, old(slots)@[KEEP_INFINITY as int])
                ||| !slot_ok(LOOPS as nat, old(slots)@[LOOPS as int])
                ||| !slot_ok(NEGATE_IIFE as nat, old(slots)@[NEGATE_IIFE as int])
                ||| !slot_ok(PASSES as nat, old(slots)@[PASSES as int])
                ||| !slot_ok(PROPERTIES as nat, old(slots)@[PROPERTIES as int])
                ||| !slot_ok(PURE_GETTERS as nat, old(slots)@[PURE_GETTERS as int])
                ||| !slot_ok(PURE_FUNCS as nat, old(slots)@[PURE_FUNCS as int])
                ||| !slot_ok(REDUCE_FUNCS as nat, old(slots)@[REDUCE_FUNCS as int])
                ||| !slot_ok(REDUCE_VARS as nat, old(slots)@[REDUCE_VARS as int])
            },
        },
{
    let ghost given = slots@;
    let reduce_vars: bool = take_flag(take_last(slots))?;
    assert(slots@ =~= given.take(REDUCE_VARS as int));
    let reduce_funcs: bool = take_flag(take_last(slots))?;
    assert(slots@ =~= given.take(REDUCE_FUNCS as int));
    let pure_funcs: Vec<String> = take_texts(take_last(slots))?;
    assert(slots@ =~= given.take(PURE_FUNCS as int));
    let pure_getters: TerserPureGetterOption = take_getters(take_last(slots))?;
    assert(slots@ =~= given.take(PURE_GETTERS as int));
    let properties: Option<bool> = take_open_flag(take_last(slots))?;
    assert(slots@ =~= given.take(PROPERTIES as int));
    let passes: usize = take_count(take_last(slots))?;
    assert(slots@ =~= given.take(PASSES as int));
    let negate_iife: Option<bool> = take_open_flag(take_last(slots))?;
    assert(slots@ =~= given.take(NEGATE_IIFE as int));
    let loops: Option<bool> = take_open_flag(take_last(slots))?;
    assert(slots@ =~= given.take(LOOPS as int));
    let keep_infinity: bool = take_flag(take_last(slots))?;
    assert(slots@ =~= given.take(KEEP_INFINITY as int));
    Some(
        (
            keep_infinity,
            loops,
            negate_iife,
            passes,
            properties,
            pure_getters,
            pure_funcs,
            reduce_funcs,
            reduce_vars,
        ),
    )
}

/// Reads the fields from `sequences` to `unsafe_comps`, whose slots
/// stand last in the list, and takes them off it.
fn read_sequences_to_unsafe_comps(slots: &mut Vec<Option<RawValue>>) -> (r: Option<
    (
    Option<TerserSequenceOptions>,
    Option<bool>,
    bool,
    Option<TerserTopRetainOption>,
    Option<TerserTopLevelOptions>,
    Option<bool>,
    bool,
    bool,
    bool,
    ),
>)
    requires
        old(slots).len() == UNSAFE_COMPS + 1,
    ensures
        match r {
            Some(t) => {
                &&& final(slots)@ == old(slots)@.take(SEQUENCES as int)
                &&& slot_ok(SEQUENCES as nat, old(slots)@[SEQUENCES as int])
                &&& sequences_reads(t.0, old(slots)@[SEQUENCES as int])
                &&& slot_ok(SIDE_EFFECTS as nat, old(slots)@[SIDE_EFFECTS as int])
                &&& open_flag_reads(t.1, old(slots)@[SIDE_EFFECTS as int])
                &&& slot_ok(SWITCHES as nat, old(slots)@[SWITCHES as int])
                &&& flag_reads(t.2, old(slots)@[SWITCHES as int])
                &&& slot_ok(TOP_RETAIN as nat, old(slots)@[TOP_RETAIN as int])
                &&& retain_reads(t.3, old(slots)@[TOP_RETAIN as int])
                &&& slot_ok(TOPLEVEL as nat, old(slots)@[TOPLEVEL as int])
                &&& top_level_reads(t.4, old(slots)@[TOPLEVEL as int])
                &&& slot_ok(TYPEOFS as nat, old(slots)@[TYPEOFS as int])
                &&& open_flag_reads(t.5, old(slots)@[TYPEOFS as int])
                &&& slot_ok(UNSAFE_PASSES as nat, old(slots)@[UNSAFE_PASSES as int])
                &&& flag_reads(t.6, old(slots)@[UNSAFE_PASSES as int])
                &&& slot_ok(UNSAFE_ARROWS as nat, old(slots)@[UNSAFE_ARROWS as int])
                &&& flag_reads(t.7, old(slots)@[UNSAFE_ARROWS as int])
                &&& slot_ok(UNSAFE_COMPS as nat, old(slots)@[UNSAFE_COMPS as int])
                &&& flag_reads(t.8, old(slots)@[UNSAFE_COMPS as int])
            },
            None => {
                ||| !slot_ok(SEQUENCES as nat, old(slots)@[SEQUENCES as int])
                ||| !slot_ok(SIDE_EFFECTS as nat, old(slots)@[SIDE_EFFECTS as int])
                ||| !slot_ok(SWITCHES as nat, old(slots)@[SWITCHES as int])
                ||| !slot_ok(TOP_RETAIN as nat, old(slots)@[TOP_RETAIN as int])
                ||| !slot_ok(TOPLEVEL as nat, old(slots)@[TOPLEVEL as int])
                ||| !slot_ok(TYPEOFS as nat, old(slots)@[TYPEOFS as int])
                ||| !slot_ok(UNSAFE_PASSES as nat, old(slots)@[UNSAFE_PASSES as int])
                ||| !slot_ok(UNSAFE_ARROWS as nat, old(slots)@[UNSAFE_ARROWS as int])
                ||| !slot_ok(UNSAFE_COMPS as nat, old(slots)@[UNSAFE_COMPS as int])
            },
        },
{
    let ghost given = slots@;
    let unsafe_comps: bool = take_flag(take_last(slots))?;
    assert(slots@ =~= given.take(UNSAFE_COMPS as int));
    let unsafe_arrows: bool = take_flag(take_last(slots))?;
    assert(slots@ =~= given.take(UNSAFE_ARROWS as int));
    let unsafe_passes: bool = take_flag(take_last(slots))?;
    assert(slots@ =~= given.take(UNSAFE_PASSES as int));
    let typeofs: Option<bool> = take_open_flag(take_last(slots))?;
    assert(slots@ =~= given.take(TYPEOFS as int));
    let toplevel: Option<TerserTopLevelOptions> = take_top_level(take_last(slots))?;
    assert(slots@ =~= given.take(TOPLEVEL as int));
    let top_retain: Option<TerserTopRetainOption> = take_top_retain(take_last(slots))?;
    assert(slots@ =~= given.take(TOP_RETAIN as int));
    let switches: bool = take_flag(take_last(slots))?;
    assert(slots@ =~= given.take(SWITCHES as int));
    let side_effects: Option<bool> = take_open_flag(take_last(slots))?;
    assert(slots@ =~= given.take(SIDE_EFFECTS as int));
    let sequences: Option<TerserSequenceOptions> = take_sequences(take_last(slots))?;
    assert(slots@ =~= given.take(SEQUENCES as int));
    Some(
        (
            sequences,
            side_effects,
            switches,
            top_retain,
            toplevel,
            typeofs,
            unsafe_passes,
            unsafe_arrows,
            unsafe_comps,
        ),
    )
}

/// Reads the fields from `unsafe_function` to `module`, whose slots
/// stand last in the list, and takes them off it.
fn read_unsafe_function_to_module(slots: &mut Vec<Option<RawValue>>) -> (r: Option<
    (
    bool,
    bool,
    bool,
    bool,
    bool,
    bool,
    bool,
    Option<bool>,
    bool,
    ),
>)
    requires
        old(slots).len() == MODULE + 1,
    ensures
        match r {
            Some(t) => {
                &&& final(slots)@ == old(slots)@.take(UNSAFE_FUNCTION as int)
                &&& slot_ok(UNSAFE_FUNCTION as nat, old(slots)@[UNSAFE_FUNCTION as int])
                &&& flag_reads(t.0, old(slots)@[UNSAFE_FUNCTION as int])
                &&& slot_ok(UNSAFE_MATH as nat, old(slots)@[UNSAFE_MATH as int])
                &&& flag_reads(t.1, old(slots)@[UNSAFE_MATH as int])
                &&& slot_ok(UNSAFE_SYMBOLS as nat, old(slots)@[UNSAFE_SYMBOLS as int])
                &&& flag_reads(t.2, old(slots)@[UNSAFE_SYMBOLS as int])
                &&& slot_ok(UNSAFE_METHODS as nat, old(slots)@[UNSAFE_METHODS as int])
                &&& flag_reads(t.3, old(slots)@[UNSAFE_METHODS as int])
                &&& slot_ok(UNSAFE_PROTO as nat, old(slots)@[UNSAFE_PROTO as int])
                &&& flag_reads(t.4, old(slots)@[UNSAFE_PROTO as int])
                &&& slot_ok(UNSAFE_REGEXP as nat, old(slots)@[UNSAFE_REGEXP as int])
                &&& flag_reads(t.5, old(slots)@[UNSAFE_REGEXP as int])
                &&& slot_ok(UNSAFE_UNDEFINED as nat, old(slots)@[UNSAFE_UNDEFINED as int])
                &&& flag_reads(t.6, old(slots)@[UNSAFE_UNDEFINED as int])
                &&& slot_ok(UNUSED as nat, old(slots)@[UNUSED as int])
                &&& open_flag_reads(t.7, old(slots)@[UNUSED as int])
                &&& slot_ok(MODULE as nat, old(slots)@[MODULE as int])
                &&& flag_reads(t.8, old(slots)@[MODULE as int])
            },
            None => {
                ||| !slot_ok(UNSAFE_FUNCTION as nat, old(slots)@[UNSAFE_FUNCTION as int])
                ||| !slot_ok(UNSAFE_MATH as nat, old(slots)@[UNSAFE_MATH as int])
                ||| !slot_ok(UNSAFE_SYMBOLS as nat, old(slots)@[UNSAFE_SYMBOLS as int])
                ||| !slot_ok(UNSAFE_METHODS as nat, old(slots)@[UNSAFE_METHODS as int])
                ||| !slot_ok(UNSAFE_PROTO as nat, old(slots)@[UNSAFE_PROTO as int])
                ||| !slot_ok(UNSAFE_REGEXP as nat, old(slots)@[UNSAFE_REGEXP as int])
                ||| !slot_ok(UNSAFE_UNDEFINED as nat, old(slots)@[UNSAFE_UNDEFINED as int])
                ||| !slot_ok(UNUSED as nat, old(slots)@[UNUSED as int])
                ||| !slot_ok(MODULE as nat, old(slots)@[MODULE as int])
            },
        },
{
    let ghost given = slots@;
    let module: bool = take_flag(take_last(slots))?;
    assert(slots@ =~= given.take(MODULE as int));
    let unused: Option<bool> = take_open_flag(take_last(slots))?;
    assert(slots@ =~= given.take(UNUSED as int));
    let unsafe_undefined: bool = take_flag(take_last(slots))?;
    assert(slots@ =~= given.take(UNSAFE_UNDEFINED as int));
    let unsafe_regexp: bool = take_flag(take_last(slots))?;
    assert(slots@ =~= given.take(UNSAFE_REGEXP as int));
    let unsafe_proto: bool = take_flag(take_last(slots))?;
    assert(slots@ =~= given.take(UNSAFE_PROTO as int));
    let unsafe_methods: bool = take_flag(take_last(slots))?;
    assert(slots@ =~= given.take(UNSAFE_METHODS as int));
    let unsafe_symbols: bool = take_flag(take_last(slots))?;
    assert(slots@ =~= given.take(UNSAFE_SYMBOLS as int));
    let unsafe_math: bool = take_flag(take_last(slots))?;
    assert(slots@ =~= given.take(UNSAFE_MATH as int));
    let unsafe_function: bool = take_flag(take_last(slots))?;
    assert(slots@ =~= given.take(UNSAFE_FUNCTION as int));
    Some(
        (
            unsafe_function,
            unsafe_math,
            unsafe_symbols,
            unsafe_methods,
            unsafe_proto,
            unsafe_regexp,
            unsafe_undefined,
            unused,
            module,
        ),
    )
}

/// Reads each field from its slot. It fails exactly where a slot holds
/// what its option does not accept.
fn read_slots(slots: Vec<Option<RawValue>>) -> (r: Option<TerserCompressorOptions>)
    requires
        slots.len() == SLOTS,
    ensures
        match r {
            Some(o) => slots_ok(slots@) && slots_read(o, slots@),
            None => !slots_ok(slots@),
        },
{
    let ghost given = slots@;
    let mut slots = slots;
    let (
        unsafe_function,
        unsafe_math,
        unsafe_symbols,
        unsafe_methods,
        unsafe_proto,
        unsafe_regexp,
        unsafe_undefined,
        unused,
        module,
    ) = read_unsafe_function_to_module(&mut slots)?;
    let (
        sequences,
        side_effects,
        switches,
        top_retain,
        toplevel,
        typeofs,
        unsafe_passes,
        unsafe_arrows,
        unsafe_comps,
    ) = read_sequences_to_unsafe_comps(&mut slots)?;
    let (
        keep_infinity,
        loops,
        negate_iife,
        passes,
        properties,
        pure_getters,
        pure_funcs,
        reduce_funcs,
        reduce_vars,
    ) = read_keep_infinity_to_reduce_vars(&mut slots)?;
    let (
        hoist_props,
        hoist_vars,
        ie8,
        if_return,
        inline,
        join_vars,
        keep_classnames,
        keep_fargs,
        keep_fnames,
    ) = read_hoist_props_to_keep_fnames(&mut slots)?;
    let (
        defaults,
        directives,
        drop_console,
        drop_debugger,
        ecma,
        evaluate,
        expression,
        global_defs,
        hoist_funs,
    ) = read_defaults_to_hoist_funs(&mut slots)?;
    let (
        arguments,
        arrows,
        booleans,
        booleans_as_integers,
        collapse_vars,
        comparisons,
        computed_props,
        conditionals,
        dead_code,
    ) = read_arguments_to_dead_code(&mut slots)?;
    Some(
        TerserCompressorOptions {
            arguments,
            arrows,
            booleans,
            booleans_as_integers,
            collapse_vars,
            comparisons,
            computed_props,
            conditionals,
            dead_code,
            defaults,
            directives,
            drop_console,
            drop_debugger,
            ecma,
            evaluate,
            expression,
            global_defs,
            hoist_funs,
            hoist_props,
            hoist_vars,
            ie8,
            if_return,
            inline,
            join_vars,
            keep_classnames,
            keep_fargs,
            keep_fnames,
            keep_infinity,
            loops,
            negate_iife,
            passes,
            properties,
            pure_getters,
            pure_funcs,
            reduce_funcs,
            reduce_vars,
            sequences,
            side_effects,
            switches,
            top_retain,
            toplevel,
            typeofs,
            unsafe_passes,
            unsafe_arrows,
            unsafe_comps,
            unsafe_function,
            unsafe_math,
            unsafe_symbols,
            unsafe_methods,
            unsafe_proto,
            unsafe_regexp,
            unsafe_undefined,
            unused,
            module,
        },
    )
}

/// Slots that hold what a record gives, and are read, make the
/// configuration that the record writes.
proof fn lemma_slots_read(
    o: TerserCompressorOptions,
    fields: Seq<(String, RawValue)>,
    given: Seq<Option<RawValue>>,
)
    requires
        given.len() == SLOTS,
        forall|j: nat| j < SLOTS ==> given[j as int] == #[trigger] lookup(fields, j),
        slots_ok(given),
        slots_read(o, given),
    ensures
        reads(o, fields),
        forall|slot: nat| slot < SLOTS ==> slot_ok(slot, #[trigger] lookup(fields, slot)),
{
    assert forall|slot: nat| slot < SLOTS implies slot_ok(slot, #[trigger] lookup(fields, slot))
        && field_reads(o, slot, lookup(fields, slot)) by {
        assert(lookup(fields, slot) == given[slot as int]);
    }
}

/// Slots that hold what a record gives, one of them something that its
/// option does not accept, are those of no configuration.
proof fn lemma_slots_not_ok(fields: Seq<(String, RawValue)>, given: Seq<Option<RawValue>>)
    requires
        given.len() == SLOTS,
        forall|j: nat| j < SLOTS ==> given[j as int] == #[trigger] lookup(fields, j),
        !slots_ok(given),
    ensures
        !readable(fields),
{
    if !slot_ok(ARGUMENTS as nat, given[ARGUMENTS as int]) {
        assert(given[ARGUMENTS as int] == lookup(fields, ARGUMENTS as nat));
    }
    if !slot_ok(ARROWS as nat, given[ARROWS as int]) {
        assert(given[ARROWS as int] == lookup(fields, ARROWS as nat));
    }
    if !slot_ok(BOOLEANS as nat, given[BOOLEANS as int]) {
        assert(given[BOOLEANS as int] == lookup(fields, BOOLEANS as nat));
    }
    if !slot_ok(BOOLEANS_AS_INTEGERS as nat, given[BOOLEANS_AS_INTEGERS as int]) {
        assert(given[BOOLEANS_AS_INTEGERS as int] == lookup(fields, BOOLEANS_AS_INTEGERS as nat));
    }
    if !slot_ok(COLLAPSE_VARS as nat, given[COLLAPSE_VARS as int]) {
        assert(given[COLLAPSE_VARS as int] == lookup(fields, COLLAPSE_VARS as nat));
    }
    if !slot_ok(COMPARISONS as nat, given[COMPARISONS as int]) {
        assert(given[COMPARISONS as int] == lookup(fields, COMPARISONS as nat));
    }
    if !slot_ok(COMPUTED_PROPS as nat, given[COMPUTED_PROPS as int]) {
        assert(given[COMPUTED_PROPS as int] == lookup(fields, COMPUTED_PROPS as nat));
    }
    if !slot_ok(CONDITIONALS as nat, given[CONDITIONALS as int]) {
        assert(given[CONDITIONALS as int] == lookup(fields, CONDITIONALS as nat));
    }
    if !slot_ok(DEAD_CODE as nat, given[DEAD_CODE as int]) {
        assert(given[DEAD_CODE as int] == lookup(fields, DEAD_CODE as nat));
    }
    if !slot_ok(DEFAULTS as nat, given[DEFAULTS as int]) {
        assert(given[DEFAULTS as int] == lookup(fields, DEFAULTS as nat));
    }
    if !slot_ok(DIRECTIVES as nat, given[DIRECTIVES as int]) {
        assert(given[DIRECTIVES as int] == lookup(fields, DIRECTIVES as nat));
    }
    if !slot_ok(DROP_CONSOLE as nat, given[DROP_CONSOLE as int]) {
        assert(given[DROP_CONSOLE as int] == lookup(fields, DROP_CONSOLE as nat));
    }
    if !slot_ok(DROP_DEBUGGER as nat, given[DROP_DEBUGGER as int]) {
        assert(given[DROP_DEBUGGER as int] == lookup(fields, DROP_DEBUGGER as nat));
    }
    if !slot_ok(ECMA as nat, given[ECMA as int]) {
        assert(given[ECMA as int] == lookup(fields, ECMA as nat));
    }
    if !slot_ok(EVALUATE as nat, given[EVALUATE as int]) {
        assert(given[EVALUATE as int] == lookup(fields, EVALUATE as nat));
    }
    if !slot_ok(EXPRESSION as nat, given[EXPRESSION as int]) {
        assert(given[EXPRESSION as int] == lookup(fields, EXPRESSION as nat));
    }
    if !slot_ok(GLOBAL_DEFS as nat, given[GLOBAL_DEFS as int]) {
        assert(given[GLOBAL_DEFS as int] == lookup(fields, GLOBAL_DEFS as nat));
    }
    if !slot_ok(HOIST_FUNS as nat, given[HOIST_FUNS as int]) {
        assert(given[HOIST_FUNS as int] == lookup(fields, HOIST_FUNS as nat));
    }
    if !slot_ok(HOIST_PROPS as nat, given[HOIST_PROPS as int]) {
        assert(given[HOIST_PROPS as int] == lookup(fields, HOIST_PROPS as nat));
    }
    if !slot_ok(HOIST_VARS as nat, given[HOIST_VARS as int]) {
        assert(given[HOIST_VARS as int] == lookup(fields, HOIST_VARS as nat));
    }
    if !slot_ok(IE8 as nat, given[IE8 as int]) {
        assert(given[IE8 as int] == lookup(fields, IE8 as nat));
    }
    if !slot_ok(IF_RETURN as nat, given[IF_RETURN as int]) {
        assert(given[IF_RETURN as int] == lookup(fields, IF_RETURN as nat));
    }
    if !slot_ok(INLINE as nat, given[INLINE as int]) {
        assert(given[INLINE as int] == lookup(fields, INLINE as nat));
    }
    if !slot_ok(JOIN_VARS as nat, given[JOIN_VARS as int]) {
        assert(given[JOIN_VARS as int] == lookup(fields, JOIN_VARS as nat));
    }
    if !slot_ok(KEEP_CLASSNAMES as nat, given[KEEP_CLASSNAMES as int]) {
        assert(given[KEEP_CLASSNAMES as int] == lookup(fields, KEEP_CLASSNAMES as nat));
    }
    if !slot_ok(KEEP_FARGS as nat, given[KEEP_FARGS as int]) {
        assert(given[KEEP_FARGS as int] == lookup(fields, KEEP_FARGS as nat));
    }
    if !slot_ok(KEEP_FNAMES as nat, given[KEEP_FNAMES as int]) {
        assert(given[KEEP_FNAMES as int] == lookup(fields, KEEP_FNAMES as nat));
    }
    if !slot_ok(KEEP_INFINITY as nat, given[KEEP_INFINITY as int]) {
        assert(given[KEEP_INFINITY as int] == lookup(fields, KEEP_INFINITY as nat));
    }
    if !slot_ok(LOOPS as nat, given[LOOPS as int]) {
        assert(given[LOOPS as int] == lookup(fields, LOOPS as nat));
    }
    if !slot_ok(NEGATE_IIFE as nat, given[NEGATE_IIFE as int]) {
        assert(given[NEGATE_IIFE as int] == lookup(fields, NEGATE_IIFE as nat));
    }
    if !slot_ok(PASSES as nat, given[PASSES as int]) {
        assert(given[PASSES as int] == lookup(fields, PASSES as nat));
    }
    if !slot_ok(PROPERTIES as nat, given[PROPERTIES as int]) {
        assert(given[PROPERTIES as int] == lookup(fields, PROPERTIES as nat));
    }
    if !slot_ok(PURE_GETTERS as nat, given[PURE_GETTERS as int]) {
        assert(given[PURE_GETTERS as int] == lookup(fields, PURE_GETTERS as nat));
    }
    if !slot_ok(PURE_FUNCS as nat, given[PURE_FUNCS as int]) {
        assert(given[PURE_FUNCS as int] == lookup(fields, PURE_FUNCS as nat));
    }
    if !slot_ok(REDUCE_FUNCS as nat, given[REDUCE_FUNCS as int]) {
        assert(given[REDUCE_FUNCS as int] == lookup(fields, REDUCE_FUNCS as nat));
    }
    if !slot_ok(REDUCE_VARS as nat, given[REDUCE_VARS as int]) {
        assert(given[REDUCE_VARS as int] == lookup(fields, REDUCE_VARS as nat));
    }
    if !slot_ok(SEQUENCES as nat, given[SEQUENCES as int]) {
        assert(given[SEQUENCES as int] == lookup(fields, SEQUENCES as nat));
    }
    if !slot_ok(SIDE_EFFECTS as nat, given[SIDE_EFFECTS as int]) {
        assert(given[SIDE_EFFECTS as int] == lookup(fields, SIDE_EFFECTS as nat));
    }
    if !slot_ok(SWITCHES as nat, given[SWITCHES as int]) {
        assert(given[SWITCHES as int] == lookup(fields, SWITCHES as nat));
    }
    if !slot_ok(TOP_RETAIN as nat, given[TOP_RETAIN as int]) {
        assert(given[TOP_RETAIN as int] == lookup(fields, TOP_RETAIN as nat));
    }
    if !slot_ok(TOPLEVEL as nat, given[TOPLEVEL as int]) {
        assert(given[TOPLEVEL as int] == lookup(fields, TOPLEVEL as nat));
    }
    if !slot_ok(TYPEOFS as nat, given[TYPEOFS as int]) {
        assert(given[TYPEOFS as int] == lookup(fields, TYPEOFS as nat));
    }
    if !slot_ok(UNSAFE_PASSES as nat, given[UNSAFE_PASSES as int]) {
        assert(given[UNSAFE_PASSES as int] == lookup(fields, UNSAFE_PASSES as nat));
    }
    if !slot_ok(UNSAFE_ARROWS as nat, given[UNSAFE_ARROWS as int]) {
        assert(given[UNSAFE_ARROWS as int] == lookup(fields, UNSAFE_ARROWS as nat));
    }
    if !slot_ok(UNSAFE_COMPS as nat, given[UNSAFE_COMPS as int]) {
        assert(given[UNSAFE_COMPS as int] == lookup(fields, UNSAFE_COMPS as nat));
    }
    if !slot_ok(UNSAFE_FUNCTION as nat, given[UNSAFE_FUNCTION as int]) {
        assert(given[UNSAFE_FUNCTION as int] == lookup(fields, UNSAFE_FUNCTION as nat));
    }
    if !slot_ok(UNSAFE_MATH as nat, given[UNSAFE_MATH as int]) {
        assert(given[UNSAFE_MATH as int] == lookup(fields, UNSAFE_MATH as nat));
    }
    if !slot_ok(UNSAFE_SYMBOLS as nat, given[UNSAFE_SYMBOLS as int]) {
        assert(given[UNSAFE_SYMBOLS as int] == lookup(fields, UNSAFE_SYMBOLS as nat));
    }
    if !slot_ok(UNSAFE_METHODS as nat, given[UNSAFE_METHODS as int]) {
        assert(given[UNSAFE_METHODS as int] == lookup(fields, UNSAFE_METHODS as nat));
    }
    if !slot_ok(UNSAFE_PROTO as nat, given[UNSAFE_PROTO as int]) {
        assert(given[UNSAFE_PROTO as int] == lookup(fields, UNSAFE_PROTO as nat));
    }
    if !slot_ok(UNSAFE_REGEXP as nat, given[UNSAFE_REGEXP as int]) {
        assert(given[UNSAFE_REGEXP as int] == lookup(fields, UNSAFE_REGEXP as nat));
    }
    if !slot_ok(UNSAFE_UNDEFINED as nat, given[UNSAFE_UNDEFINED as int]) {
        assert(given[UNSAFE_UNDEFINED as int] == lookup(fields, UNSAFE_UNDEFINED as nat));
    }
    if !slot_ok(UNUSED as nat, given[UNUSED as int]) {
        assert(given[UNUSED as int] == lookup(fields, UNUSED as nat));
    }
    if !slot_ok(MODULE as nat, given[MODULE as int]) {
        assert(given[MODULE as int] == lookup(fields, MODULE as nat));
    }
}

impl TerserCompressorOptions {
    /// Reads a configuration from a structured value. It succeeds exactly
    /// on a configuration, and then each field is what the record gives
    /// it; any other value is a `SchemaViolation`.
    pub fn from_value(v: RawValue) -> (r: Result<TerserCompressorOptions, TerserError>)
        ensures
            match r {
                Ok(o) => is_configuration(v) && reads(o, v->Record_0@),
                Err(e) => e == TerserError::SchemaViolation && !is_configuration(v),
            },
    {
        let fields = match v {
            RawValue::Record(fields) => fields,
            _ => {
                return Err(TerserError::SchemaViolation);
            },
        };
        let ghost all = fields@;
        let slots = match sort_by_slot(fields) {
            Some(slots) => slots,
            None => {
                return Err(TerserError::SchemaViolation);
            },
        };
        let ghost given = slots@;
        match read_slots(slots) {
            Some(o) => {
                proof {
                    lemma_slots_read(o, all, given);
                }
                Ok(o)
            },
            None => {
                proof {
                    lemma_slots_not_ok(all, given);
                }
                Err(TerserError::SchemaViolation)
            },
        }
    }
}

/// Where a record gives a slot a value, that value stands in an entry
/// whose key names the slot.
pub proof fn lemma_lookup_entry(fields: Seq<(String, RawValue)>, slot: nat) -> (i: int)
    requires
        lookup(fields, slot) is Some,
    ensures
        0 <= i < fields.len(),
        slot_of(fields[i].0@) == Some(slot),
        lookup(fields, slot) == Some(fields[i].1),
    decreases fields.len(),
{
    if slot_of(fields.last().0@) == Some(slot) {
        fields.len() - 1
    } else {
        lemma_lookup_entry(fields.drop_last(), slot)
    }
}

/// The order of the entries does not matter: two records with their keys
/// in order that hold the same entries give each slot the same.
pub proof fn law_order_is_free(
    a: Seq<(String, RawValue)>,
    b: Seq<(String, RawValue)>,
    slot: nat,
)
    requires
        keys_ok(a),
        keys_ok(b),
        a.to_multiset() == b.to_multiset(),
    ensures
        lookup(a, slot) == lookup(b, slot),
{
    if lookup(a, slot) is Some {
        let i = lemma_lookup_entry(a, slot);
        assert(a.contains(a[i]));
        vstd::seq_lib::to_multiset_contains(a, a[i]);
        vstd::seq_lib::to_multiset_contains(b, a[i]);
        let j = b.index_of(a[i]);
        lemma_lookup_keeps(b, j);
    } else if lookup(b, slot) is Some {
        let j = lemma_lookup_entry(b, slot);
        assert(b.contains(b[j]));
        vstd::seq_lib::to_multiset_contains(b, b[j]);
        vstd::seq_lib::to_multiset_contains(a, b[j]);
        let i = a.index_of(b[j]);
        lemma_lookup_keeps(a, i);
    }
}

/// Two configurations that hold the same entries are read alike: what
/// reads the one reads the other.
pub proof fn law_same_entries_same_reading(
    a: Seq<(String, RawValue)>,
    b: Seq<(String, RawValue)>,
    o: TerserCompressorOptions,
)
    requires
        readable(a),
        keys_ok(b),
        a.to_multiset() == b.to_multiset(),
        reads(o, a),
    ensures
        readable(b),
        reads(o, b),
{
    assert forall|slot: nat| slot < SLOTS implies slot_ok(slot, #[trigger] lookup(b, slot))
        && field_reads(o, slot, lookup(b, slot)) by {
        law_order_is_free(a, b, slot);
        assert(slot_ok(slot, lookup(a, slot)));
        assert(field_reads(o, slot, lookup(a, slot)));
    }
}

/// The empty record is a configuration, and what it writes is the
/// configuration that sets nothing.
pub proof fn law_nothing_given(o: TerserCompressorOptions)
    requires
        o.is_blank(),
    ensures
        readable(Seq::empty()),
        reads(o, Seq::empty()),
{
    assert(names_view(o.pure_funcs@) =~= Seq::<Seq<char>>::empty());
}

/// A record with a key that names no option is no configuration.
pub proof fn law_unknown_key(fields: Seq<(String, RawValue)>, i: int)
    requires
        0 <= i < fields.len(),
        slot_of(fields[i].0@) is None,
    ensures
        !readable(fields),
{
    if keys_ok(fields) {
        lemma_lookup_keeps(fields, i);
    }
}

/// A record with a value that its option does not accept is no
/// configuration.
pub proof fn law_wrong_shape(fields: Seq<(String, RawValue)>, i: int)
    requires
        0 <= i < fields.len(),
        slot_of(fields[i].0@) matches Some(slot) && !accepts(slot, fields[i].1),
    ensures
        !readable(fields),
{
    if keys_ok(fields) {
        lemma_lookup_keeps(fields, i);
        lemma_slot_in_range(fields[i].0@);
    }
}

/// In a configuration no key comes twice, and the value that an option
/// is given is the one that stands under its key.
pub proof fn law_one_value_per_option(fields: Seq<(String, RawValue)>, i: int, j: int)
    requires
        readable(fields),
        0 <= i < j < fields.len(),
    ensures
        slot_of(fields[i].0@) != slot_of(fields[j].0@),
        fields[i].0@ != fields[j].0@,
        lookup(fields, slot_of(fields[j].0@)->0) == Some(fields[j].1),
        lookup(fields, slot_of(fields[i].0@)->0) == Some(fields[i].1),
{
    lemma_lookup_keeps(fields, j);
    lemma_lookup_keeps(fields, i);
    lemma_keys_ok_prefix(fields, j + 1);
    let upto = fields.take(j + 1);
    assert(upto.last() == fields[j]);
    assert(upto.drop_last() =~= fields.take(j));
    assert(fields.take(j)[i] == fields[i]);
    lemma_lookup_finds(fields.take(j), i);
}

} // verus!
