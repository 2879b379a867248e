//! Options on what stands at the top level of a program, and on getters.

use vstd::prelude::*;
use vstd::std_specs::convert::FromSpecImpl;

verus! {

/// `toplevel`: a boolean, or text kept for compatibility.
#[derive(Debug, Clone, PartialEq, Eq)]
pub enum TerserTopLevelOptions {
    Bool(bool),
    Str(String),
}

/// How the compressor treats the top level of a program.
#[derive(Debug, Clone, Copy, PartialEq, Eq, Hash, Structural)]
pub struct TopLevelOptions {
    /// Whether functions at the top level may be dropped or renamed.
    pub functions: bool,
}

/// `pure_getters`: a boolean, the keyword `strict`, or other text.
#[derive(Debug, Clone, PartialEq, Eq)]
pub enum TerserPureGetterOption {
    Bool(bool),
    Strict,
    Str(String),
}

impl Default for TerserPureGetterOption {
    /// `strict`, which stands where the option is left open.
    fn default() -> (r: Self)
        ensures
            r is Strict,
    {
        TerserPureGetterOption::Strict
    }
}

impl TerserTopLevelOptions {
    /// What the option asks for. Only the boolean form has a meaning; the
    /// textual form is accepted and switches nothing on.
    pub open spec fn functions(self) -> bool {
        match self {
            TerserTopLevelOptions::Bool(on) => on,
            TerserTopLevelOptions::Str(_) => false,
        }
    }
}

impl From<TerserTopLevelOptions> for TopLevelOptions {
    fn from(c: TerserTopLevelOptions) -> (r: TopLevelOptions) {
        match c {
            TerserTopLevelOptions::Bool(on) => TopLevelOptions { functions: on },
            TerserTopLevelOptions::Str(_) => TopLevelOptions { functions: false },
        }
    }
}

impl FromSpecImpl<TerserTopLevelOptions> for TopLevelOptions {
    open spec fn obeys_from_spec() -> bool {
        true
    }

    open spec fn from_spec(c: TerserTopLevelOptions) -> TopLevelOptions {
        TopLevelOptions { functions: c.functions() }
    }
}

/// The top-level options of a configuration: none where the option is
/// left open.
pub open spec fn top_level_of(explicit: Option<TerserTopLevelOptions>) -> Option<TopLevelOptions> {
    match explicit {
        Some(c) => Some(TopLevelOptions { functions: c.functions() }),
        None => None,
    }
}

/// Resolves `toplevel`.
pub fn resolve_top_level(explicit: Option<TerserTopLevelOptions>) -> (r: Option<TopLevelOptions>)
    ensures
        r == top_level_of(explicit),
{
    match explicit {
        Some(c) => Some(TopLevelOptions::from(c)),
        None => None,
    }
}

} // verus!
