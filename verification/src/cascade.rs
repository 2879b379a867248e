//! The cascading default: one flag that fills in every option left open.

use vstd::prelude::*;

verus! {

/// Level that a level field takes for `true`.
pub const LEVEL_MAX: u8 = 3;

/// Level that a level field takes for `false`.
pub const LEVEL_OFF: u8 = 0;

/// `inline`: a boolean shorthand or an explicit level.
#[derive(Debug, Clone, Copy, PartialEq, Eq, Hash, Structural)]
pub enum TerserInlineOption {
    Bool(bool),
    Num(u8),
}

/// `sequences`: a boolean shorthand or an explicit level.
#[derive(Debug, Clone, Copy, PartialEq, Eq, Hash, Structural)]
pub enum TerserSequenceOptions {
    Bool(bool),
    Num(u8),
}

/// The value of a boolean option: what was given, else the default.
pub open spec fn flag_or(explicit: Option<bool>, defaults: bool) -> bool {
    match explicit {
        Some(v) => v,
        None => defaults,
    }
}

/// The level that a boolean stands for.
pub open spec fn level_of_flag(on: bool) -> u8 {
    if on {
        LEVEL_MAX
    } else {
        LEVEL_OFF
    }
}

impl TerserInlineOption {
    /// The level meant: the shorthand's level, or the number as it stands.
    pub open spec fn spec_level(self) -> u8 {
        match self {
            TerserInlineOption::Bool(on) => level_of_flag(on),
            TerserInlineOption::Num(n) => n,
        }
    }

    #[verifier::when_used_as_spec(spec_level)]
    pub fn level(self) -> (r: u8)
        ensures
            r == self.spec_level(),
    {
        match self {
            TerserInlineOption::Bool(on) => flag_level(on),
            TerserInlineOption::Num(n) => n,
        }
    }
}

impl TerserSequenceOptions {
    /// The level meant: the shorthand's level, or the number as it stands.
    pub open spec fn spec_level(self) -> u8 {
        match self {
            TerserSequenceOptions::Bool(on) => level_of_flag(on),
            TerserSequenceOptions::Num(n) => n,
        }
    }

    #[verifier::when_used_as_spec(spec_level)]
    pub fn level(self) -> (r: u8)
        ensures
            r == self.spec_level(),
    {
        match self {
            TerserSequenceOptions::Bool(on) => flag_level(on),
            TerserSequenceOptions::Num(n) => n,
        }
    }
}

/// The `inline` level of a configuration.
pub open spec fn inline_or(explicit: Option<TerserInlineOption>, defaults: bool) -> u8 {
    match explicit {
        Some(v) => v.spec_level(),
        None => level_of_flag(defaults),
    }
}

/// The `sequences` level of a configuration.
pub open spec fn sequences_or(explicit: Option<TerserSequenceOptions>, defaults: bool) -> u8 {
    match explicit {
        Some(v) => v.spec_level(),
        None => level_of_flag(defaults),
    }
}

/// Resolves a boolean option against the default.
pub fn resolve_flag(explicit: Option<bool>, defaults: bool) -> (r: bool)
    ensures
        r == flag_or(explicit, defaults),
{
    match explicit {
        Some(v) => v,
        None => defaults,
    }
}

/// 3 for `true`, 0 for `false`.
pub fn flag_level(on: bool) -> (r: u8)
    ensures
        r == level_of_flag(on),
{
    if on {
        LEVEL_MAX
    } else {
        LEVEL_OFF
    }
}

/// Resolves `inline` against the default. A number is not clamped: what
/// a level above 3 means is for the compressor to say.
pub fn resolve_inline(explicit: Option<TerserInlineOption>, defaults: bool) -> (r: u8)
    ensures
        r == inline_or(explicit, defaults),
{
    match explicit {
        Some(v) => v.level(),
        None => flag_level(defaults),
    }
}

/// Resolves `sequences` against the default, as `resolve_inline` does.
pub fn resolve_sequences(explicit: Option<TerserSequenceOptions>, defaults: bool) -> (r: u8)
    ensures
        r == sequences_or(explicit, defaults),
{
    match explicit {
        Some(v) => v.level(),
        None => flag_level(defaults),
    }
}

} // verus!
