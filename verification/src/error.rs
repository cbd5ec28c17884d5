//! Errors: the extraction failures that abort a whole translation, and the
//! command-line error kind of the surrounding tool.

use vstd::prelude::*;
use vstd::string::*;

verus! {

/// A failure of the translation. Any such failure aborts the whole run: no
/// partial project is returned.
#[derive(Debug)]
pub enum ExtractError {
    /// A property's schema kind is not one of the supported primitive or
    /// array kinds; carries the owning model, the property, and a one-word
    /// description of the offending kind.
    UnsupportedSchemaKind { model: String, property: String, kind: String },
    /// An object property is a reference rather than an inline schema;
    /// carries the owning model and the property.
    UnsupportedReferenceProperty { model: String, property: String },
    /// The document declares no component schema section at all.
    MissingComponents,
}

/// Ghost counterpart of [`ExtractError`].
pub ghost enum ErrorV {
    UnsupportedSchemaKind { model: Seq<char>, property: Seq<char>, kind: Seq<char> },
    UnsupportedReferenceProperty { model: Seq<char>, property: Seq<char> },
    MissingComponents,
}

/// The mathematical value of an [`ExtractError`].
pub open spec fn error_view(e: ExtractError) -> ErrorV {
    match e {
        ExtractError::UnsupportedSchemaKind { model, property, kind } => {
            ErrorV::UnsupportedSchemaKind { model: model@, property: property@, kind: kind@ }
        },
        ExtractError::UnsupportedReferenceProperty { model, property } => {
            ErrorV::UnsupportedReferenceProperty { model: model@, property: property@ }
        },
        ExtractError::MissingComponents => ErrorV::MissingComponents,
    }
}

/// An error of the surrounding command-line tool.
#[derive(Clone, Debug)]
pub enum CliError {
    ArgumentError(String),
    ConfigError(String),
}

/// The text of a [`CliError`].
pub open spec fn spec_cli_error_message(e: CliError) -> Seq<char> {
    match e {
        CliError::ArgumentError(why) => "ArgumentError: "@ + why@,
        CliError::ConfigError(why) => "ConfigError: "@ + why@,
    }
}

impl CliError {
    /// Renders the error as text, naming its kind and its cause.
    pub fn message(&self) -> (r: String)
        ensures
            r@ == spec_cli_error_message(*self),
    {
        match self {
            CliError::ArgumentError(why) => String::from_str("ArgumentError: ").concat(
                why.as_str(),
            ),
            CliError::ConfigError(why) => String::from_str("ConfigError: ").concat(why.as_str()),
        }
    }
}

} // verus!
