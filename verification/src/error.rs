//! The failures a call can report.

use vstd::prelude::*;
use vstd::string::*;

verus! {

/// Why a call failed. Every failure is deterministic in its inputs: the same
/// selector and text fail the same way, and no partial token sequence is
/// returned on failure.
#[derive(Debug, PartialEq, Eq)]
pub enum TokenizerError {
    /// The selector names neither a supported encoding nor a known model.
    UnknownEncodingOrModel { selector: String },
    /// The vocabulary behind a supported encoding could not be loaded. The
    /// bundled vocabularies are compiled in and load reliably, so `encode`
    /// and `count` never report this; the class stays in the taxonomy for
    /// hosts that surface load failures of their own.
    ResourceLoadFailure,
    /// The tokenizer could not process the text.
    EncodingError,
}

impl TokenizerError {
    /// A descriptive message. For an unresolved selector it names the
    /// selector that failed to resolve.
    pub fn message(&self) -> (r: String)
        ensures
            self matches TokenizerError::UnknownEncodingOrModel { selector } ==> r@
                == "'"@ + selector@ + "': unknown model or encoding"@,
            self is ResourceLoadFailure ==> r@ == "the encoding's vocabulary failed to load"@,
            self is EncodingError ==> r@ == "the text could not be tokenized"@,
    {
        match self {
            TokenizerError::UnknownEncodingOrModel { selector } => {
                let mut m = String::from_str("'");
                m.append(selector.as_str());
                m.append("': unknown model or encoding");
                m
            },
            TokenizerError::ResourceLoadFailure => {
                String::from_str("the encoding's vocabulary failed to load")
            },
            TokenizerError::EncodingError => {
                String::from_str("the text could not be tokenized")
            },
        }
    }
}

} // verus!
