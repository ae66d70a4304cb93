use vstd::prelude::*;

verus! {

#[verifier::external_type_specification]
#[verifier::external_body]
pub struct ExRegexError(regex::Error);

#[verifier::external_type_specification]
#[verifier::external_body]
pub struct ExWalkError(ignore::Error);

#[verifier::external_type_specification]
#[verifier::external_body]
pub struct ExIoError(std::io::Error);

/// The closed error taxonomy of a search run. Pattern errors are fatal and
/// abort the run before any traversal; per-entry filesystem errors during
/// the walk are skipped and never surface here.
#[derive(Debug)]
pub enum ScanError {
    /// Filesystem access failed.
    Io(std::io::Error),
    /// The pattern failed to compile as a regular expression.
    Regex(regex::Error),
    /// The directory walk reported a structural failure.
    Walk(ignore::Error),
    /// Any other failure, described in text; an untranslatable glob
    /// pattern is reported this way.
    Other(String),
}

} // verus!
