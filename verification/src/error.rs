use vstd::prelude::*;

verus! {

/// Why a configuration was turned down. No canonical record exists for an
/// input that yields one of these.
#[derive(Debug, Clone, Copy, PartialEq, Eq, Hash, Structural)]
pub enum TerserError {
    /// A value that is no record, a key that names no option, a key given
    /// twice, or a value whose shape its option does not accept.
    SchemaViolation,
    /// A version that names no known edition of the language, or a textual
    /// version that is not a decimal number.
    UnsupportedVersion,
    /// A global definition whose value is a list or a record.
    UnsupportedLiteralShape,
}

impl TerserError {
    /// The error in words.
    pub open spec fn message(self) -> Seq<char> {
        match self {
            TerserError::SchemaViolation => "the configuration does not fit the schema"@,
            TerserError::UnsupportedVersion => "the version names no supported edition"@,
            TerserError::UnsupportedLiteralShape => "a global definition is a list or a record"@,
        }
    }

    /// The error in words, for a report.
    pub fn describe(&self) -> (r: String)
        ensures
            r@ == self.message(),
    {
        match self {
            TerserError::SchemaViolation => "the configuration does not fit the schema".to_owned(),
            TerserError::UnsupportedVersion => "the version names no supported edition".to_owned(),
            TerserError::UnsupportedLiteralShape => {
                "a global definition is a list or a record".to_owned()
            },
        }
    }
}

} // verus!
