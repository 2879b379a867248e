//! Literals, and the global definitions that become literals.

use crate::error::TerserError;
use crate::names::NameMap;
use crate::value::{Number, RawValue};
use vstd::prelude::*;

verus! {

/// A literal of the program: what a global definition is replaced by.
#[derive(Debug, Clone, PartialEq, Eq)]
pub enum Lit {
    Null,
    Bool(bool),
    /// A number, as an IEEE 754 double, by its bits.
    Num(u64),
    /// A string. The text is the string's value as it stands: no escape
    /// in it is read.
    Str(String),
}

/// A literal, with the characters of its string.
pub enum LitView {
    Null,
    Bool(bool),
    Num(u64),
    Str(Seq<char>),
}

impl View for Lit {
    type V = LitView;

    open spec fn view(&self) -> LitView {
        match self {
            Lit::Null => LitView::Null,
            Lit::Bool(b) => LitView::Bool(*b),
            Lit::Num(bits) => LitView::Num(*bits),
            Lit::Str(s) => LitView::Str(s@),
        }
    }
}

/// The literal that stands for a value. A scalar has one, of its own
/// kind; a list or a record has none.
pub open spec fn literal_of(v: RawValue) -> Option<LitView> {
    match v {
        RawValue::Null => Some(LitView::Null),
        RawValue::Bool(b) => Some(LitView::Bool(b)),
        RawValue::Number(n) => Some(LitView::Num(n.bits)),
        RawValue::Text(s) => Some(LitView::Str(s@)),
        RawValue::List(_) => None,
        RawValue::Record(_) => None,
    }
}

/// Two values that are the same have the same literal, or none.
pub proof fn law_same_value_same_literal(a: RawValue, b: RawValue)
    requires
        a.same_as(b),
    ensures
        literal_of(a) == literal_of(b),
{
}

/// The literals that stand for a map of values: under each name the
/// literal of its value. There are none where any value has no literal.
#[verifier::opaque]
pub open spec fn literals_of(defs: Map<Seq<char>, RawValue>) -> Option<Map<Seq<char>, LitView>> {
    if forall|name: Seq<char>|
        defs.contains_key(name) ==> literal_of(#[trigger] defs[name]) is Some {
        Some(defs.map_values(|v: RawValue| literal_of(v)->0))
    } else {
        None
    }
}

/// A map of literals, each with the characters of its string.
pub open spec fn lit_views(defs: Map<Seq<char>, Lit>) -> Map<Seq<char>, LitView> {
    defs.map_values(|l: Lit| l@)
}

impl Lit {
    /// A value of which this is the literal. A number comes back by its
    /// bits alone.
    pub fn to_value(&self) -> (v: RawValue)
        ensures
            literal_of(v) == Some(self@),
            match self {
                Lit::Null => v is Null,
                Lit::Bool(b) => v == RawValue::Bool(*b),
                Lit::Num(bits) => v == RawValue::Number(Number { bits: *bits, whole: None }),
                Lit::Str(s) => v == RawValue::Text(*s),
            },
    {
        match self {
            Lit::Null => RawValue::Null,
            Lit::Bool(b) => RawValue::Bool(*b),
            Lit::Num(bits) => RawValue::Number(Number { bits: *bits, whole: None }),
            Lit::Str(s) => RawValue::Text(s.clone()),
        }
    }

    /// Turns a scalar into its literal. It fails, with
    /// `UnsupportedLiteralShape`, exactly on a list or a record.
    pub fn from_value(v: &RawValue) -> (r: Result<Lit, TerserError>)
        ensures
            match literal_of(*v) {
                Some(l) => r matches Ok(lit) && lit@ == l,
                None => r matches Err(e) && e == TerserError::UnsupportedLiteralShape,
            },
            r is Ok <==> v.is_scalar(),
    {
        match v {
            RawValue::Null => Ok(Lit::Null),
            RawValue::Bool(b) => Ok(Lit::Bool(*b)),
            RawValue::Number(n) => Ok(Lit::Num(n.bits)),
            RawValue::Text(s) => Ok(Lit::Str(s.clone())),
            RawValue::List(_) => Err(TerserError::UnsupportedLiteralShape),
            RawValue::Record(_) => Err(TerserError::UnsupportedLiteralShape),
        }
    }
}

/// Turns global definitions into literals, name by name. It fails, with
/// `UnsupportedLiteralShape`, exactly where a definition is a list or a
/// record.
pub fn literals_from_defs(defs: &NameMap<RawValue>) -> (r: Result<NameMap<Lit>, TerserError>)
    ensures
        match literals_of(defs@) {
            Some(m) => r matches Ok(out) && lit_views(out@) == m && out.wf() && out.keys()
                == defs.keys(),
            None => r matches Err(e) && e == TerserError::UnsupportedLiteralShape,
        },
{
    let n: usize = defs.len();
    let mut out: NameMap<Lit> = NameMap::new();
    let mut i: usize = 0;
    proof {
        reveal(literals_of);
        defs.lemma_entries();
    }
    while i < n
        invariant
            i <= n,
            n == defs.keys().len(),
            n == defs.values().len(),
            defs.wf(),
            out.wf(),
            out.keys() == defs.keys().take(i as int),
            out.values().len() == i,
            forall|j: int|
                0 <= j < i ==> literal_of(#[trigger] defs.values()[j]) == Some(out.values()[j]@),
        decreases n - i,
    {
        let name: String = defs.key(i).clone();
        let ghost before = out;
        match Lit::from_value(defs.value(i)) {
            Ok(lit) => {
                proof {
                    if out.keys().contains(name@) {
                        let j = out.keys().index_of(name@);
                        assert(out.keys()[j] == name@);
                        assert(defs.keys()[j] == defs.keys()[i as int]);
                    }
                }
                out.insert(name, lit);
                proof {
                    assert(out.keys() =~= defs.keys().take(i + 1));
                }
            },
            Err(e) => {
                proof {
                    reveal(literals_of);
                    let k = defs.keys()[i as int];
                    assert(defs@.contains_key(k) && defs@[k] == defs.values()[i as int]);
                }
                return Err(e);
            },
        }
        i = i + 1;
    }
    proof {
        reveal(literals_of);
        assert(defs.keys().take(n as int) =~= defs.keys());
        out.lemma_entries();
        let m = defs@.map_values(|v: RawValue| literal_of(v)->0);
        assert forall|name: Seq<char>| defs@.contains_key(name) implies literal_of(
            #[trigger] defs@[name],
        ) is Some && lit_views(out@)[name] == m[name] by {
            let j = defs.keys().index_of(name);
            assert(defs.keys()[j] == name);
            assert(literal_of(defs.values()[j]) == Some(out.values()[j]@));
        }
        assert(lit_views(out@) =~= m);
    }
    Ok(out)
}

} // verus!
