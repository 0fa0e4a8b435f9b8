//! The failures of loading a library and of looking a symbol up.

use crate::text::{decode_lossy, lossy_text};
use vstd::prelude::*;
use vstd::string::*;

verus! {

/// The error of the OS loader, as `libloading` reports it. Opaque here.
#[verifier::external_type_specification]
#[verifier::external_body]
pub struct ExLoaderError(libloading::Error);

/// What the `Display` impl of `libloading::Error` writes for an error.
pub uninterp spec fn cause_text(cause: libloading::Error) -> Seq<char>;

/// Formats a loader error with its `Display` impl. Trusted: the text depends
/// on the error value alone. Nothing is claimed of what it says.
#[verifier::external_body]
fn render_cause(cause: &libloading::Error) -> (r: String)
    ensures
        r@ == cause_text(*cause),
{
    cause.to_string()
}

/// The line that reports a failed load, given the loader's own words.
pub fn render_load_failure(cause: &str) -> (r: String)
    ensures
        r@ == "failed to load library: "@ + cause@,
{
    let mut text = String::from_str("failed to load library: ");
    text.append(cause);
    text
}

/// The line that reports a failed lookup of the symbol `name`, given the
/// loader's own words.
pub fn render_lookup_failure(name: &str, cause: &str) -> (r: String)
    ensures
        r@ == "failed to load symbol `"@ + name@ + "`: "@ + cause@,
{
    let mut text = String::from_str("failed to load symbol `");
    text.append(name);
    text.append("`: ");
    text.append(cause);
    text
}

/// Why a library handle or a symbol could not be had.
#[derive(Debug)]
pub enum LoadError {
    /// The OS refused to load the shared library.
    Library(libloading::Error),
    /// The library is loaded but the named export could not be resolved.
    Symbol {
        /// The requested name, as text.
        name: String,
        /// What the OS loader reported.
        source: libloading::Error,
    },
}

impl LoadError {
    /// The loader error underneath this failure.
    pub open spec fn cause(self) -> libloading::Error {
        match self {
            LoadError::Library(cause) => cause,
            LoadError::Symbol { name, source } => source,
        }
    }

    /// The one-line rendering of the failure.
    pub open spec fn rendering(self) -> Seq<char> {
        match self {
            LoadError::Library(cause) => "failed to load library: "@ + cause_text(cause),
            LoadError::Symbol { name, source } => "failed to load symbol `"@ + name@ + "`: "@
                + cause_text(source),
        }
    }

    /// The failure of a lookup of the symbol `name`, with the name rendered
    /// as text: exactly where it is valid UTF-8, lossily where it is not.
    pub fn symbol(name: &[u8], source: libloading::Error) -> (r: LoadError)
        ensures
            r matches LoadError::Symbol { name: text, source: cause } && text@ == lossy_text(name@)
                && cause == source,
    {
        LoadError::Symbol { name: decode_lossy(name), source }
    }

    /// Renders the failure: what failed, the symbol's name where there is
    /// one, and the loader's own words.
    pub fn to_string(&self) -> (r: String)
        ensures
            r@ == self.rendering(),
    {
        match self {
            LoadError::Library(cause) => render_load_failure(render_cause(cause).as_str()),
            LoadError::Symbol { name, source } => render_lookup_failure(
                name.as_str(),
                render_cause(source).as_str(),
            ),
        }
    }

    /// The loader error that caused the failure. There always is one.
    pub fn source(&self) -> (r: Option<&libloading::Error>)
        ensures
            r == Some(&self.cause()),
    {
        match self {
            LoadError::Library(cause) => Some(cause),
            LoadError::Symbol { name: _, source } => Some(source),
        }
    }
}

/// A text that holds no line break.
pub open spec fn single_line(text: Seq<char>) -> bool {
    forall|i: int| 0 <= i < text.len() ==> text[i] != '\n'
}

/// The rendering of a failure is a single line, provided that the loader's
/// own words are, and that the symbol's name holds no line break.
pub proof fn lemma_rendering_single_line(failure: LoadError)
    requires
        single_line(cause_text(failure.cause())),
        failure matches LoadError::Symbol { name, source } ==> single_line(name@),
    ensures
        single_line(failure.rendering()),
{
    reveal_strlit("failed to load library: ");
    reveal_strlit("failed to load symbol `");
    reveal_strlit("`: ");
    assert(single_line("failed to load library: "@));
    assert(single_line("failed to load symbol `"@));
    assert(single_line("`: "@));
}

} // verus!
