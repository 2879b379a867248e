//! The options as a configuration gives them, the record that the
//! compressor takes, and the step from the one to the other.

use crate::cascade::{
    flag_or, inline_or, resolve_flag, resolve_inline, resolve_sequences, sequences_or,
    TerserInlineOption, TerserSequenceOptions,
};
use crate::error::TerserError;
use crate::literal::{lit_views, literal_of, literals_from_defs, literals_of, Lit};
use crate::names::NameMap;
use crate::retain::{names_view, resolve_top_retain, top_retain_of, TerserTopRetainOption};
use crate::toplevel::{
    resolve_top_level, top_level_of, TerserPureGetterOption, TerserTopLevelOptions, TopLevelOptions,
};
use crate::value::RawValue;
use crate::version::{ecma_default, EsVersion, TerserEcmaVersion};
use vstd::prelude::*;

verus! {

/// Compressor options as a configuration gives them. A boolean option
/// that may be left open is an `Option`: `None` is not `Some(false)`.
/// `defaults` stands in for every boolean option that is left open.
#[derive(Debug, Clone)]
pub struct TerserCompressorOptions {
    pub arguments: bool,
    pub arrows: Option<bool>,
    pub booleans: Option<bool>,
    pub booleans_as_integers: bool,
    pub collapse_vars: Option<bool>,
    pub comparisons: Option<bool>,
    pub computed_props: bool,
    pub conditionals: bool,
    pub dead_code: bool,
    pub defaults: bool,
    pub directives: bool,
    pub drop_console: bool,
    pub drop_debugger: Option<bool>,
    pub ecma: TerserEcmaVersion,
    pub evaluate: Option<bool>,
    pub expression: bool,
    pub global_defs: NameMap<RawValue>,
    pub hoist_funs: bool,
    pub hoist_props: Option<bool>,
    pub hoist_vars: bool,
    pub ie8: bool,
    pub if_return: Option<bool>,
    pub inline: Option<TerserInlineOption>,
    pub join_vars: Option<bool>,
    pub keep_classnames: bool,
    pub keep_fargs: Option<bool>,
    pub keep_fnames: bool,
    pub keep_infinity: bool,
    pub loops: Option<bool>,
    pub negate_iife: Option<bool>,
    pub passes: usize,
    pub properties: Option<bool>,
    pub pure_getters: TerserPureGetterOption,
    pub pure_funcs: Vec<String>,
    pub reduce_funcs: bool,
    pub reduce_vars: bool,
    pub sequences: Option<TerserSequenceOptions>,
    pub side_effects: Option<bool>,
    pub switches: bool,
    pub top_retain: Option<TerserTopRetainOption>,
    pub toplevel: Option<TerserTopLevelOptions>,
    pub typeofs: Option<bool>,
    pub unsafe_passes: bool,
    pub unsafe_arrows: bool,
    pub unsafe_comps: bool,
    pub unsafe_function: bool,
    pub unsafe_math: bool,
    pub unsafe_symbols: bool,
    pub unsafe_methods: bool,
    pub unsafe_proto: bool,
    pub unsafe_regexp: bool,
    pub unsafe_undefined: bool,
    pub unused: Option<bool>,
    pub module: bool,
}

/// The options that the compressor takes. Nothing in it is left open.
#[derive(Debug, Clone)]
pub struct CompressOptions {
    pub arguments: bool,
    pub arrows: bool,
    pub bools: bool,
    pub bools_as_ints: bool,
    pub collapse_vars: bool,
    pub comparisons: bool,
    pub computed_props: bool,
    pub conditionals: bool,
    pub dead_code: bool,
    pub directives: bool,
    pub drop_console: bool,
    pub drop_debugger: bool,
    pub ecma: EsVersion,
    pub evaluate: bool,
    pub expr: bool,
    pub global_defs: NameMap<Lit>,
    pub hoist_fns: bool,
    pub hoist_props: bool,
    pub hoist_vars: bool,
    pub ie8: bool,
    pub if_return: bool,
    pub inline: u8,
    pub join_vars: bool,
    pub keep_classnames: bool,
    pub keep_fargs: bool,
    pub keep_fnames: bool,
    pub keep_infinity: bool,
    pub loops: bool,
    pub negate_iife: bool,
    pub passes: usize,
    pub props: bool,
    pub reduce_fns: bool,
    pub reduce_vars: bool,
    pub sequences: u8,
    pub side_effects: bool,
    pub switches: bool,
    pub top_retain: Vec<String>,
    pub top_level: Option<TopLevelOptions>,
    pub typeofs: bool,
    pub unsafe_passes: bool,
    pub unsafe_arrows: bool,
    pub unsafe_comps: bool,
    pub unsafe_function: bool,
    pub unsafe_math: bool,
    pub unsafe_symbols: bool,
    pub unsafe_methods: bool,
    pub unsafe_proto: bool,
    pub unsafe_regexp: bool,
    pub unsafe_undefined: bool,
    pub unused: bool,
}

/// Why a configuration comes to no record, if it comes to none. A version
/// that names no edition rules the configuration out, and so does a
/// global definition that has no literal; where both are wrong the
/// version is reported.
pub open spec fn failure(c: TerserCompressorOptions) -> Option<TerserError> {
    if c.ecma.edition() is None {
        Some(TerserError::UnsupportedVersion)
    } else if literals_of(c.global_defs@) is None {
        Some(TerserError::UnsupportedLiteralShape)
    } else {
        None
    }
}

impl TerserCompressorOptions {
    /// Whether the configuration sets nothing: every flag is off or open,
    /// the version is 5, `pure_getters` is `strict`, and there are no
    /// definitions, names or passes.
    pub open spec fn is_blank(self) -> bool {
        &&& !self.arguments
        &&& self.arrows is None
        &&& self.booleans is None
        &&& !self.booleans_as_integers
        &&& self.collapse_vars is None
        &&& self.comparisons is None
        &&& !self.computed_props
        &&& !self.conditionals
        &&& !self.dead_code
        &&& !self.defaults
        &&& !self.directives
        &&& !self.drop_console
        &&& self.drop_debugger is None
        &&& self.ecma matches TerserEcmaVersion::Num(n) && n == 5
        &&& self.evaluate is None
        &&& !self.expression
        &&& self.global_defs@ == Map::<Seq<char>, RawValue>::empty()
        &&& !self.hoist_funs
        &&& self.hoist_props is None
        &&& !self.hoist_vars
        &&& !self.ie8
        &&& self.if_return is None
        &&& self.inline is None
        &&& self.join_vars is None
        &&& !self.keep_classnames
        &&& self.keep_fargs is None
        &&& !self.keep_fnames
        &&& !self.keep_infinity
        &&& self.loops is None
        &&& self.negate_iife is None
        &&& self.passes == 0
        &&& self.properties is None
        &&& self.pure_getters is Strict
        &&& self.pure_funcs@.len() == 0
        &&& !self.reduce_funcs
        &&& !self.reduce_vars
        &&& self.sequences is None
        &&& self.side_effects is None
        &&& !self.switches
        &&& self.top_retain is None
        &&& self.toplevel is None
        &&& self.typeofs is None
        &&& !self.unsafe_passes
        &&& !self.unsafe_arrows
        &&& !self.unsafe_comps
        &&& !self.unsafe_function
        &&& !self.unsafe_math
        &&& !self.unsafe_symbols
        &&& !self.unsafe_methods
        &&& !self.unsafe_proto
        &&& !self.unsafe_regexp
        &&& !self.unsafe_undefined
        &&& self.unused is None
        &&& !self.module
    }

    /// Whether the configuration gives each field of `c` outright: every
    /// optional field is set, to the value that `c` has, the version is
    /// the edition's number, the levels are numbers, the names are a list
    /// and each global definition is a value of which `c` has the literal.
    /// `toplevel` alone may be open, where `c` has none. Nothing is asked
    /// of `defaults`, nor of the fields that have no part in `c`.
    pub open spec fn spells_out(self, c: CompressOptions) -> bool {
        &&& self.arguments == c.arguments
        &&& self.arrows == Some(c.arrows)
        &&& self.booleans == Some(c.bools)
        &&& self.booleans_as_integers == c.bools_as_ints
        &&& self.collapse_vars == Some(c.collapse_vars)
        &&& self.comparisons == Some(c.comparisons)
        &&& self.computed_props == c.computed_props
        &&& self.conditionals == c.conditionals
        &&& self.dead_code == c.dead_code
        &&& self.directives == c.directives
        &&& self.drop_console == c.drop_console
        &&& self.drop_debugger == Some(c.drop_debugger)
        &&& self.ecma matches TerserEcmaVersion::Num(n) && n == c.ecma.spec_number()
        &&& self.evaluate == Some(c.evaluate)
        &&& self.expression == c.expr
        &&& self.global_defs.wf()
        &&& c.global_defs.wf()
        &&& self.global_defs.keys() == c.global_defs.keys()
        &&& forall|i: int|
            0 <= i < c.global_defs.keys().len() ==> literal_of(
                #[trigger] self.global_defs.values()[i],
            ) == Some(c.global_defs.values()[i]@)
        &&& self.hoist_funs == c.hoist_fns
        &&& self.hoist_props == Some(c.hoist_props)
        &&& self.hoist_vars == c.hoist_vars
        &&& self.ie8 == c.ie8
        &&& self.if_return == Some(c.if_return)
        &&& self.inline == Some(TerserInlineOption::Num(c.inline))
        &&& self.join_vars == Some(c.join_vars)
        &&& self.keep_classnames == c.keep_classnames
        &&& self.keep_fargs == Some(c.keep_fargs)
        &&& self.keep_fnames == c.keep_fnames
        &&& self.keep_infinity == c.keep_infinity
        &&& self.loops == Some(c.loops)
        &&& self.negate_iife == Some(c.negate_iife)
        &&& self.passes == c.passes
        &&& self.properties == Some(c.props)
        &&& self.reduce_funcs == c.reduce_fns
        &&& self.reduce_vars == c.reduce_vars
        &&& self.sequences == Some(TerserSequenceOptions::Num(c.sequences))
        &&& self.side_effects == Some(c.side_effects)
        &&& self.switches == c.switches
        &&& self.top_retain matches Some(TerserTopRetainOption::List(names))
        &&& names_view(names@) == names_view(c.top_retain@)
        &&& match c.top_level {
            Some(t) => self.toplevel == Some(TerserTopLevelOptions::Bool(t.functions)),
            None => self.toplevel is None,
        }
        &&& self.typeofs == Some(c.typeofs)
        &&& self.unsafe_passes == c.unsafe_passes
        &&& self.unsafe_arrows == c.unsafe_arrows
        &&& self.unsafe_comps == c.unsafe_comps
        &&& self.unsafe_function == c.unsafe_function
        &&& self.unsafe_math == c.unsafe_math
        &&& self.unsafe_symbols == c.unsafe_symbols
        &&& self.unsafe_methods == c.unsafe_methods
        &&& self.unsafe_proto == c.unsafe_proto
        &&& self.unsafe_regexp == c.unsafe_regexp
        &&& self.unsafe_undefined == c.unsafe_undefined
        &&& self.unused == Some(c.unused)
    }
}

impl CompressOptions {
    /// Whether this is the record that a configuration comes to: the
    /// edition is the one that the version names, the literals are those
    /// of the global definitions, and each other field is resolved by
    /// itself, with `defaults` as the only thing shared. `pure_getters`,
    /// `pure_funcs` and `module` have no part in the record.
    pub open spec fn resolves(self, c: TerserCompressorOptions) -> bool {
        &&& self.arguments == c.arguments
        &&& self.arrows == flag_or(c.arrows, c.defaults)
        &&& self.bools == flag_or(c.booleans, c.defaults)
        &&& self.bools_as_ints == c.booleans_as_integers
        &&& self.collapse_vars == flag_or(c.collapse_vars, c.defaults)
        &&& self.comparisons == flag_or(c.comparisons, c.defaults)
        &&& self.computed_props == c.computed_props
        &&& self.conditionals == c.conditionals
        &&& self.dead_code == c.dead_code
        &&& self.directives == c.directives
        &&& self.drop_console == c.drop_console
        &&& self.drop_debugger == flag_or(c.drop_debugger, c.defaults)
        &&& c.ecma.edition() == Some(self.ecma)
        &&& self.evaluate == flag_or(c.evaluate, c.defaults)
        &&& self.expr == c.expression
        &&& literals_of(c.global_defs@) == Some(lit_views(self.global_defs@))
        &&& self.hoist_fns == c.hoist_funs
        &&& self.hoist_props == flag_or(c.hoist_props, c.defaults)
        &&& self.hoist_vars == c.hoist_vars
        &&& self.ie8 == c.ie8
        &&& self.if_return == flag_or(c.if_return, c.defaults)
        &&& self.inline == inline_or(c.inline, c.defaults)
        &&& self.join_vars == flag_or(c.join_vars, c.defaults)
        &&& self.keep_classnames == c.keep_classnames
        &&& self.keep_fargs == flag_or(c.keep_fargs, c.defaults)
        &&& self.keep_fnames == c.keep_fnames
        &&& self.keep_infinity == c.keep_infinity
        &&& self.loops == flag_or(c.loops, c.defaults)
        &&& self.negate_iife == flag_or(c.negate_iife, c.defaults)
        &&& self.passes == c.passes
        &&& self.props == flag_or(c.properties, c.defaults)
        &&& self.reduce_fns == c.reduce_funcs
        &&& self.reduce_vars == c.reduce_vars
        &&& self.sequences == sequences_or(c.sequences, c.defaults)
        &&& self.side_effects == flag_or(c.side_effects, c.defaults)
        &&& self.switches == c.switches
        &&& names_view(self.top_retain@) == top_retain_of(c.top_retain)
        &&& self.top_level == top_level_of(c.toplevel)
        &&& self.typeofs == flag_or(c.typeofs, c.defaults)
        &&& self.unsafe_passes == c.unsafe_passes
        &&& self.unsafe_arrows == c.unsafe_arrows
        &&& self.unsafe_comps == c.unsafe_comps
        &&& self.unsafe_function == c.unsafe_function
        &&& self.unsafe_math == c.unsafe_math
        &&& self.unsafe_symbols == c.unsafe_symbols
        &&& self.unsafe_methods == c.unsafe_methods
        &&& self.unsafe_proto == c.unsafe_proto
        &&& self.unsafe_regexp == c.unsafe_regexp
        &&& self.unsafe_undefined == c.unsafe_undefined
        &&& self.unused == flag_or(c.unused, c.defaults)
    }

    /// Whether two records say the same: they agree field by field, the
    /// names and literals taken by their characters.
    pub open spec fn same_as(self, other: CompressOptions) -> bool {
        &&& self.arguments == other.arguments
        &&& self.arrows == other.arrows
        &&& self.bools == other.bools
        &&& self.bools_as_ints == other.bools_as_ints
        &&& self.collapse_vars == other.collapse_vars
        &&& self.comparisons == other.comparisons
        &&& self.computed_props == other.computed_props
        &&& self.conditionals == other.conditionals
        &&& self.dead_code == other.dead_code
        &&& self.directives == other.directives
        &&& self.drop_console == other.drop_console
        &&& self.drop_debugger == other.drop_debugger
        &&& self.ecma == other.ecma
        &&& self.evaluate == other.evaluate
        &&& self.expr == other.expr
        &&& lit_views(self.global_defs@) == lit_views(other.global_defs@)
        &&& self.hoist_fns == other.hoist_fns
        &&& self.hoist_props == other.hoist_props
        &&& self.hoist_vars == other.hoist_vars
        &&& self.ie8 == other.ie8
        &&& self.if_return == other.if_return
        &&& self.inline == other.inline
        &&& self.join_vars == other.join_vars
        &&& self.keep_classnames == other.keep_classnames
        &&& self.keep_fargs == other.keep_fargs
        &&& self.keep_fnames == other.keep_fnames
        &&& self.keep_infinity == other.keep_infinity
        &&& self.loops == other.loops
        &&& self.negate_iife == other.negate_iife
        &&& self.passes == other.passes
        &&& self.props == other.props
        &&& self.reduce_fns == other.reduce_fns
        &&& self.reduce_vars == other.reduce_vars
        &&& self.sequences == other.sequences
        &&& self.side_effects == other.side_effects
        &&& self.switches == other.switches
        &&& names_view(self.top_retain@) == names_view(other.top_retain@)
        &&& self.top_level == other.top_level
        &&& self.typeofs == other.typeofs
        &&& self.unsafe_passes == other.unsafe_passes
        &&& self.unsafe_arrows == other.unsafe_arrows
        &&& self.unsafe_comps == other.unsafe_comps
        &&& self.unsafe_function == other.unsafe_function
        &&& self.unsafe_math == other.unsafe_math
        &&& self.unsafe_symbols == other.unsafe_symbols
        &&& self.unsafe_methods == other.unsafe_methods
        &&& self.unsafe_proto == other.unsafe_proto
        &&& self.unsafe_regexp == other.unsafe_regexp
        &&& self.unsafe_undefined == other.unsafe_undefined
        &&& self.unused == other.unused
    }
}

impl Default for TerserCompressorOptions {
    /// The configuration that sets nothing.
    fn default() -> (r: Self)
        ensures
            r.is_blank(),
    {
        TerserCompressorOptions {
            arguments: false,
            arrows: None,
            booleans: None,
            booleans_as_integers: false,
            collapse_vars: None,
            comparisons: None,
            computed_props: false,
            conditionals: false,
            dead_code: false,
            defaults: false,
            directives: false,
            drop_console: false,
            drop_debugger: None,
            ecma: ecma_default(),
            evaluate: None,
            expression: false,
            global_defs: NameMap::new(),
            hoist_funs: false,
            hoist_props: None,
            hoist_vars: false,
            ie8: false,
            if_return: None,
            inline: None,
            join_vars: None,
            keep_classnames: false,
            keep_fargs: None,
            keep_fnames: false,
            keep_infinity: false,
            loops: None,
            negate_iife: None,
            passes: 0,
            properties: None,
            pure_getters: TerserPureGetterOption::default(),
            pure_funcs: Vec::new(),
            reduce_funcs: false,
            reduce_vars: false,
            sequences: None,
            side_effects: None,
            switches: false,
            top_retain: None,
            toplevel: None,
            typeofs: None,
            unsafe_passes: false,
            unsafe_arrows: false,
            unsafe_comps: false,
            unsafe_function: false,
            unsafe_math: false,
            unsafe_symbols: false,
            unsafe_methods: false,
            unsafe_proto: false,
            unsafe_regexp: false,
            unsafe_undefined: false,
            unused: None,
            module: false,
        }
    }
}

impl CompressOptions {
    /// Resolves a configuration into the record that the compressor takes.
    /// It fails exactly where `failure` says so, with that error, and
    /// hands out no record then. A list of names to keep is handed on as
    /// it is.
    pub fn from_terser(c: TerserCompressorOptions) -> (r: Result<CompressOptions, TerserError>)
        ensures
            match failure(c) {
                None => r matches Ok(o) && o.resolves(c),
                Some(e) => r matches Err(x) && x == e,
            },
            r matches Ok(o) ==> (c.top_retain matches Some(TerserTopRetainOption::List(names))
                ==> o.top_retain == names),
    {
        let TerserCompressorOptions {
            arguments,
            arrows,
            booleans,
            booleans_as_integers,
            collapse_vars,
            comparisons,
            computed_props,
            conditionals,
            dead_code,
            defaults,
            directives,
            drop_console,
            drop_debugger,
            ecma,
            evaluate,
            expression,
            global_defs,
            hoist_funs,
            hoist_props,
            hoist_vars,
            ie8,
            if_return,
            inline,
            join_vars,
            keep_classnames,
            keep_fargs,
            keep_fnames,
            keep_infinity,
            loops,
            negate_iife,
            passes,
            properties,
            pure_getters: _,
            pure_funcs: _,
            reduce_funcs,
            reduce_vars,
            sequences,
            side_effects,
            switches,
            top_retain,
            toplevel,
            typeofs,
            unsafe_passes,
            unsafe_arrows,
            unsafe_comps,
            unsafe_function,
            unsafe_math,
            unsafe_symbols,
            unsafe_methods,
            unsafe_proto,
            unsafe_regexp,
            unsafe_undefined,
            unused,
            module: _,
        } = c;
        let ecma = match EsVersion::from_terser(&ecma) {
            Ok(ecma) => ecma,
            Err(e) => {
                return Err(e);
            },
        };
        let global_defs = match literals_from_defs(&global_defs) {
            Ok(defs) => defs,
            Err(e) => {
                return Err(e);
            },
        };
        let o = CompressOptions {
            arguments,
            arrows: resolve_flag(arrows, defaults),
            bools: resolve_flag(booleans, defaults),
            bools_as_ints: booleans_as_integers,
            collapse_vars: resolve_flag(collapse_vars, defaults),
            comparisons: resolve_flag(comparisons, defaults),
            computed_props,
            conditionals,
            dead_code,
            directives,
            drop_console,
            drop_debugger: resolve_flag(drop_debugger, defaults),
            ecma,
            evaluate: resolve_flag(evaluate, defaults),
            expr: expression,
            global_defs,
            hoist_fns: hoist_funs,
            hoist_props: resolve_flag(hoist_props, defaults),
            hoist_vars,
            ie8,
            if_return: resolve_flag(if_return, defaults),
            inline: resolve_inline(inline, defaults),
            join_vars: resolve_flag(join_vars, defaults),
            keep_classnames,
            keep_fargs: resolve_flag(keep_fargs, defaults),
            keep_fnames,
            keep_infinity,
            loops: resolve_flag(loops, defaults),
            negate_iife: resolve_flag(negate_iife, defaults),
            passes,
            props: resolve_flag(properties, defaults),
            reduce_fns: reduce_funcs,
            reduce_vars,
            sequences: resolve_sequences(sequences, defaults),
            side_effects: resolve_flag(side_effects, defaults),
            switches,
            top_retain: resolve_top_retain(top_retain),
            top_level: resolve_top_level(toplevel),
            typeofs: resolve_flag(typeofs, defaults),
            unsafe_passes,
            unsafe_arrows,
            unsafe_comps,
            unsafe_function,
            unsafe_math,
            unsafe_symbols,
            unsafe_methods,
            unsafe_proto,
            unsafe_regexp,
            unsafe_undefined,
            unused: resolve_flag(unused, defaults),
        };
        Ok(o)
    }

    /// Writes the record back as a configuration that gives every field
    /// outright. `defaults` is taken as it comes: it decides nothing in
    /// such a configuration.
    pub fn to_terser(&self, defaults: bool) -> (r: TerserCompressorOptions)
        ensures
            r.spells_out(*self),
            r.defaults == defaults,
            r.pure_getters is Strict,
            r.pure_funcs@.len() == 0,
            !r.module,
    {
        let n: usize = self.global_defs.len();
        let mut global_defs: NameMap<RawValue> = NameMap::new();
        let mut i: usize = 0;
        while i < n
            invariant
                i <= n,
                n == self.global_defs.keys().len(),
                n == self.global_defs.values().len(),
                self.global_defs.wf(),
                global_defs.wf(),
                global_defs.keys() == self.global_defs.keys().take(i as int),
                global_defs.values().len() == i,
                forall|j: int|
                    0 <= j < i ==> literal_of(#[trigger] global_defs.values()[j]) == Some(
                        self.global_defs.values()[j]@,
                    ),
            decreases n - i,
        {
            let name: String = self.global_defs.key(i).clone();
            let value: RawValue = self.global_defs.value(i).to_value();
            proof {
                if global_defs.keys().contains(name@) {
                    let j = global_defs.keys().index_of(name@);
                    assert(global_defs.keys()[j] == name@);
                    assert(self.global_defs.keys()[j] == self.global_defs.keys()[i as int]);
                }
            }
            global_defs.insert(name, value);
            assert(global_defs.keys() =~= self.global_defs.keys().take(i + 1));
            i = i + 1;
        }
        assert(self.global_defs.keys().take(n as int) =~= self.global_defs.keys());
        let toplevel: Option<TerserTopLevelOptions> = match self.top_level {
            Some(t) => Some(TerserTopLevelOptions::Bool(t.functions)),
            None => None,
        };
        TerserCompressorOptions {
            arguments: self.arguments,
            arrows: Some(self.arrows),
            booleans: Some(self.bools),
            booleans_as_integers: self.bools_as_ints,
            collapse_vars: Some(self.collapse_vars),
            comparisons: Some(self.comparisons),
            computed_props: self.computed_props,
            conditionals: self.conditionals,
            dead_code: self.dead_code,
            defaults,
            directives: self.directives,
            drop_console: self.drop_console,
            drop_debugger: Some(self.drop_debugger),
            ecma: TerserEcmaVersion::Num(self.ecma.number()),
            evaluate: Some(self.evaluate),
            expression: self.expr,
            global_defs,
            hoist_funs: self.hoist_fns,
            hoist_props: Some(self.hoist_props),
            hoist_vars: self.hoist_vars,
            ie8: self.ie8,
            if_return: Some(self.if_return),
            inline: Some(TerserInlineOption::Num(self.inline)),
            join_vars: Some(self.join_vars),
            keep_classnames: self.keep_classnames,
            keep_fargs: Some(self.keep_fargs),
            keep_fnames: self.keep_fnames,
            keep_infinity: self.keep_infinity,
            loops: Some(self.loops),
            negate_iife: Some(self.negate_iife),
            passes: self.passes,
            properties: Some(self.props),
            pure_getters: TerserPureGetterOption::default(),
            pure_funcs: Vec::new(),
            reduce_funcs: self.reduce_fns,
            reduce_vars: self.reduce_vars,
            sequences: Some(TerserSequenceOptions::Num(self.sequences)),
            side_effects: Some(self.side_effects),
            switches: self.switches,
            top_retain: Some(TerserTopRetainOption::List(self.top_retain.clone())),
            toplevel,
            typeofs: Some(self.typeofs),
            unsafe_passes: self.unsafe_passes,
            unsafe_arrows: self.unsafe_arrows,
            unsafe_comps: self.unsafe_comps,
            unsafe_function: self.unsafe_function,
            unsafe_math: self.unsafe_math,
            unsafe_symbols: self.unsafe_symbols,
            unsafe_methods: self.unsafe_methods,
            unsafe_proto: self.unsafe_proto,
            unsafe_regexp: self.unsafe_regexp,
            unsafe_undefined: self.unsafe_undefined,
            unused: Some(self.unused),
            module: false,
        }
    }
}

/// A configuration comes to one record only: two records that it comes to
/// say the same.
pub proof fn law_one_result(c: TerserCompressorOptions, a: CompressOptions, b: CompressOptions)
    requires
        a.resolves(c),
        b.resolves(c),
    ensures
        a.same_as(b),
{
}

/// A boolean option that is given keeps its value whatever `defaults` is,
/// and one that is left open takes the value of `defaults`.
pub proof fn law_defaults_cascade(c: TerserCompressorOptions, o: CompressOptions)
    requires
        o.resolves(c),
    ensures
        c.arrows is None ==> o.arrows == c.defaults,
        c.arrows matches Some(given) ==> o.arrows == given,
        c.booleans is None ==> o.bools == c.defaults,
        c.booleans matches Some(given) ==> o.bools == given,
        c.collapse_vars is None ==> o.collapse_vars == c.defaults,
        c.collapse_vars matches Some(given) ==> o.collapse_vars == given,
        c.comparisons is None ==> o.comparisons == c.defaults,
        c.comparisons matches Some(given) ==> o.comparisons == given,
        c.drop_debugger is None ==> o.drop_debugger == c.defaults,
        c.drop_debugger matches Some(given) ==> o.drop_debugger == given,
        c.evaluate is None ==> o.evaluate == c.defaults,
        c.evaluate matches Some(given) ==> o.evaluate == given,
        c.hoist_props is None ==> o.hoist_props == c.defaults,
        c.hoist_props matches Some(given) ==> o.hoist_props == given,
        c.if_return is None ==> o.if_return == c.defaults,
        c.if_return matches Some(given) ==> o.if_return == given,
        c.join_vars is None ==> o.join_vars == c.defaults,
        c.join_vars matches Some(given) ==> o.join_vars == given,
        c.keep_fargs is None ==> o.keep_fargs == c.defaults,
        c.keep_fargs matches Some(given) ==> o.keep_fargs == given,
        c.loops is None ==> o.loops == c.defaults,
        c.loops matches Some(given) ==> o.loops == given,
        c.negate_iife is None ==> o.negate_iife == c.defaults,
        c.negate_iife matches Some(given) ==> o.negate_iife == given,
        c.properties is None ==> o.props == c.defaults,
        c.properties matches Some(given) ==> o.props == given,
        c.side_effects is None ==> o.side_effects == c.defaults,
        c.side_effects matches Some(given) ==> o.side_effects == given,
        c.typeofs is None ==> o.typeofs == c.defaults,
        c.typeofs matches Some(given) ==> o.typeofs == given,
        c.unused is None ==> o.unused == c.defaults,
        c.unused matches Some(given) ==> o.unused == given,
{
}

/// A level given as `true` is 3, as `false` 0, and as a number that
/// number; a level left open is 3 where `defaults` is on and 0 where it
/// is off.
pub proof fn law_levels(c: TerserCompressorOptions, o: CompressOptions)
    requires
        o.resolves(c),
    ensures
        c.inline == Some(TerserInlineOption::Bool(true)) ==> o.inline == 3,
        c.inline == Some(TerserInlineOption::Bool(false)) ==> o.inline == 0,
        c.inline matches Some(TerserInlineOption::Num(n)) ==> o.inline == n,
        c.inline is None && c.defaults ==> o.inline == 3,
        c.inline is None && !c.defaults ==> o.inline == 0,
        c.sequences == Some(TerserSequenceOptions::Bool(true)) ==> o.sequences == 3,
        c.sequences == Some(TerserSequenceOptions::Bool(false)) ==> o.sequences == 0,
        c.sequences matches Some(TerserSequenceOptions::Num(n)) ==> o.sequences == n,
        c.sequences is None && c.defaults ==> o.sequences == 3,
        c.sequences is None && !c.defaults ==> o.sequences == 0,
{
}

/// A configuration comes to a record exactly when its version names an
/// edition and each of its global definitions is a scalar; a version
/// that names none is reported before any definition is.
pub proof fn law_failures(c: TerserCompressorOptions)
    requires
        c.global_defs.wf(),
    ensures
        failure(c) is None <==> c.ecma.edition() is Some && forall|i: int|
            0 <= i < c.global_defs.values().len() ==> (
            #[trigger] c.global_defs.values()[i]).is_scalar(),
        c.ecma.edition() is None ==> failure(c) == Some(TerserError::UnsupportedVersion),
        failure(c) is Some ==> failure(c) != Some(TerserError::SchemaViolation),
{
    reveal(literals_of);
    c.global_defs.lemma_entries();
    let defs = c.global_defs;
    if forall|i: int| 0 <= i < defs.values().len() ==> (#[trigger] defs.values()[i]).is_scalar() {
        assert forall|name: Seq<char>| defs@.contains_key(name) implies literal_of(
            #[trigger] defs@[name],
        ) is Some by {
            let j = defs.keys().index_of(name);
            assert(defs.values()[j].is_scalar());
        }
    } else {
        let i = choose|i: int|
            0 <= i < defs.values().len() && !(#[trigger] defs.values()[i]).is_scalar();
        assert(defs@.contains_key(defs.keys()[i]));
        assert(literal_of(defs@[defs.keys()[i]]) is None);
    }
}

/// A configuration that gives every field of a record outright comes to
/// a record, whatever its `defaults` is, and to one that says the same.
/// So to write a record back and resolve it again changes nothing,
/// however often it is done.
pub proof fn law_round_trip(
    c: CompressOptions,
    raw: TerserCompressorOptions,
    again: CompressOptions,
)
    requires
        raw.spells_out(c),
    ensures
        failure(raw) is None,
        again.resolves(raw) ==> again.same_as(c),
{
    reveal(literals_of);
    let theirs = raw.global_defs;
    let ours = c.global_defs;
    theirs.lemma_entries();
    ours.lemma_entries();
    assert forall|name: Seq<char>| theirs@.contains_key(name) implies literal_of(
        #[trigger] theirs@[name],
    ) == Some(ours@[name]@) by {
        let j = theirs.keys().index_of(name);
        assert(literal_of(theirs.values()[j]) == Some(ours.values()[j]@));
    }
    assert(theirs@.map_values(|v: RawValue| literal_of(v)->0) =~= lit_views(ours@));
    assert(raw.ecma.edition() == Some(c.ecma));
}

/// Two configurations that give every field of one record outright come
/// to records that say the same, though they differ in `defaults`.
pub proof fn law_defaults_irrelevant(
    c: CompressOptions,
    first: TerserCompressorOptions,
    second: TerserCompressorOptions,
    a: CompressOptions,
    b: CompressOptions,
)
    requires
        first.spells_out(c),
        second.spells_out(c),
        a.resolves(first),
        b.resolves(second),
    ensures
        a.same_as(b),
{
    law_round_trip(c, first, a);
    law_round_trip(c, second, b);
}

} // verus!
