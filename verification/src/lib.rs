//! Normalisation of terser-style compressor options.
//!
//! The options arrive in a permissive shape, where one key may hold a
//! boolean, a number, a string or a list. This crate reads them from a
//! structured value, resolves every field into the single strict record
//! that a compressor consumes, and states for each step, as a contract,
//! what comes out.
//!
//! `TerserCompressorOptions::from_value` reads a configuration and
//! `CompressOptions::from_terser` resolves it.

pub mod cascade;
pub mod error;
pub mod literal;
pub mod names;
pub mod options;
pub mod retain;
pub mod schema;
pub mod text;
pub mod toplevel;
pub mod value;
pub mod version;

pub use cascade::{TerserInlineOption, TerserSequenceOptions};
pub use error::TerserError;
pub use literal::{Lit, LitView};
pub use names::NameMap;
pub use options::{failure, CompressOptions, TerserCompressorOptions};
pub use retain::TerserTopRetainOption;
pub use toplevel::{TerserPureGetterOption, TerserTopLevelOptions, TopLevelOptions};
pub use value::{Number, RawValue};
pub use version::{ecma_default, EsVersion, TerserEcmaVersion};
