use vstd::prelude::*;

verus! {

/// Error channel of the driver layer.
///
/// A configuration error is recoverable by the caller (for instance by
/// retrying with a different URL); it is distinct from a backend connection
/// failure, which the embedding code propagates verbatim from the driver's
/// own connect entry point and which never originates here.
#[derive(Debug)]
pub enum AnyError {
    /// No installed driver claims the URL scheme; the payload is the
    /// offending scheme, kept verbatim for diagnostics.
    Configuration(String),
}

impl AnyError {
    /// The scheme this error reports.
    pub open spec fn scheme(&self) -> Seq<char> {
        match self {
            AnyError::Configuration(s) => s@,
        }
    }

    /// Read the offending scheme back out.
    pub fn scheme_str(&self) -> (r: &str)
        ensures
            r@ == self.scheme(),
    {
        match self {
            AnyError::Configuration(s) => s.as_str(),
        }
    }
}

} // verus!
