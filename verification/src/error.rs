//! Error type shared by the library's fallible functions.

use vstd::prelude::*;

verus! {

/// Everything that can go wrong inside the library.
///
/// Failures are reported as values; no verified function panics.
#[derive(Debug)]
pub enum Error {
    /// A free-form failure, carrying its description.
    Generic(String),
    /// A language name could not be interpreted.
    ParseLangError,
    /// A method name is not one the backend knows.
    UnknownMethod,
    /// A repeat count was not a number, or did not fit.
    InvalidRepeat,
    /// The configuration text is not in the accepted form.
    ConfigSyntax,
    /// The configuration lacks the `default_method` property.
    ConfigMissingMethod,
}

} // verus!
