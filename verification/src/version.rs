//! Language editions, and the version specifiers that name them.

use crate::error::TerserError;
use crate::text::{decimal, parse_decimal};
use vstd::prelude::*;

verus! {

/// `ecma`: a version given as a number or as text.
#[derive(Debug, Clone, PartialEq, Eq)]
pub enum TerserEcmaVersion {
    Num(usize),
    Str(String),
}

/// An edition of the language.
#[derive(Debug, Clone, Copy, PartialEq, Eq, Hash, Structural)]
pub enum EsVersion {
    Es3,
    Es5,
    Es2015,
    Es2016,
    Es2017,
    Es2018,
    Es2019,
    Es2020,
}

/// The edition that a number names. 6 is the edition of 2015 under its
/// older name; a number outside this table names nothing.
pub open spec fn edition_of(n: nat) -> Option<EsVersion> {
    if n == 3 {
        Some(EsVersion::Es3)
    } else if n == 5 {
        Some(EsVersion::Es5)
    } else if n == 6 || n == 2015 {
        Some(EsVersion::Es2015)
    } else if n == 2016 {
        Some(EsVersion::Es2016)
    } else if n == 2017 {
        Some(EsVersion::Es2017)
    } else if n == 2018 {
        Some(EsVersion::Es2018)
    } else if n == 2019 {
        Some(EsVersion::Es2019)
    } else if n == 2020 {
        Some(EsVersion::Es2020)
    } else {
        None
    }
}

/// The edition that a text names: that of the decimal number it writes.
pub open spec fn edition_of_text(s: Seq<char>) -> Option<EsVersion> {
    match decimal(s) {
        Some(n) => edition_of(n),
        None => None,
    }
}

impl TerserEcmaVersion {
    /// The edition that the specifier names, if it names one.
    pub open spec fn edition(self) -> Option<EsVersion> {
        match self {
            TerserEcmaVersion::Num(n) => edition_of(n as nat),
            TerserEcmaVersion::Str(s) => edition_of_text(s@),
        }
    }
}

impl EsVersion {
    /// The number by which the edition is known: 3, 5, or its year.
    pub open spec fn spec_number(self) -> usize {
        match self {
            EsVersion::Es3 => 3,
            EsVersion::Es5 => 5,
            EsVersion::Es2015 => 2015,
            EsVersion::Es2016 => 2016,
            EsVersion::Es2017 => 2017,
            EsVersion::Es2018 => 2018,
            EsVersion::Es2019 => 2019,
            EsVersion::Es2020 => 2020,
        }
    }

    #[verifier::when_used_as_spec(spec_number)]
    pub fn number(self) -> (n: usize)
        ensures
            n == self.spec_number(),
    {
        match self {
            EsVersion::Es3 => 3,
            EsVersion::Es5 => 5,
            EsVersion::Es2015 => 2015,
            EsVersion::Es2016 => 2016,
            EsVersion::Es2017 => 2017,
            EsVersion::Es2018 => 2018,
            EsVersion::Es2019 => 2019,
            EsVersion::Es2020 => 2020,
        }
    }

    /// Looks a number up in the table of editions.
    pub fn from_number(n: usize) -> (r: Result<EsVersion, TerserError>)
        ensures
            r == match edition_of(n as nat) {
                Some(e) => Ok::<EsVersion, TerserError>(e),
                None => Err(TerserError::UnsupportedVersion),
            },
    {
        if n == 3 {
            Ok(EsVersion::Es3)
        } else if n == 5 {
            Ok(EsVersion::Es5)
        } else if n == 6 || n == 2015 {
            Ok(EsVersion::Es2015)
        } else if n == 2016 {
            Ok(EsVersion::Es2016)
        } else if n == 2017 {
            Ok(EsVersion::Es2017)
        } else if n == 2018 {
            Ok(EsVersion::Es2018)
        } else if n == 2019 {
            Ok(EsVersion::Es2019)
        } else if n == 2020 {
            Ok(EsVersion::Es2020)
        } else {
            Err(TerserError::UnsupportedVersion)
        }
    }

    /// Reads a textual version: the text is parsed as a decimal number,
    /// which is then looked up as a number is.
    pub fn from_text(s: &str) -> (r: Result<EsVersion, TerserError>)
        ensures
            r == match edition_of_text(s@) {
                Some(e) => Ok::<EsVersion, TerserError>(e),
                None => Err(TerserError::UnsupportedVersion),
            },
    {
        match parse_decimal(s) {
            Some(n) => EsVersion::from_number(n),
            None => Err(TerserError::UnsupportedVersion),
        }
    }

    /// Normalises a version specifier. It fails, with `UnsupportedVersion`,
    /// exactly when the specifier names no edition.
    pub fn from_terser(v: &TerserEcmaVersion) -> (r: Result<EsVersion, TerserError>)
        ensures
            r == match v.edition() {
                Some(e) => Ok::<EsVersion, TerserError>(e),
                None => Err(TerserError::UnsupportedVersion),
            },
    {
        match v {
            TerserEcmaVersion::Num(n) => EsVersion::from_number(*n),
            TerserEcmaVersion::Str(s) => EsVersion::from_text(s.as_str()),
        }
    }
}

/// The version of a configuration that names none: edition 5.
pub fn ecma_default() -> (v: TerserEcmaVersion)
    ensures
        v matches TerserEcmaVersion::Num(n) && n == 5,
{
    TerserEcmaVersion::Num(5)
}

/// The numbers that name an edition are 3, 5, 6 and the years 2015 to 2020,
/// and each names one edition only.
pub proof fn law_edition_table(n: nat)
    ensures
        edition_of(n) is Some <==> (n == 3 || n == 5 || n == 6 || 2015 <= n <= 2020),
        edition_of(n) matches Some(e) ==> (e.spec_number() == n || (n == 6 && e
            == EsVersion::Es2015)),
{
}

/// 6 and 2015 name the same edition.
pub proof fn law_six_is_2015()
    ensures
        edition_of(6) == edition_of(2015),
        edition_of(6) == Some(EsVersion::Es2015),
{
}

/// An edition's own number names that edition.
pub proof fn law_number_names_edition(e: EsVersion)
    ensures
        edition_of(e.spec_number() as nat) == Some(e),
        TerserEcmaVersion::Num(e.spec_number()).edition() == Some(e),
{
}

/// A text and the number it writes name the same edition, and a text that
/// writes no number names none.
pub proof fn law_text_follows_number(s: Seq<char>)
    ensures
        decimal(s) matches Some(n) ==> edition_of_text(s) == edition_of(n),
        decimal(s) is None ==> edition_of_text(s) is None,
{
}

} // verus!
