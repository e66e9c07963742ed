//! The failure a configuration run can end in.

use vstd::prelude::*;

verus! {

/// Why no configuration could be produced.
#[derive(Debug)]
pub enum Error {
    /// A source, a value or the resolved whole is not acceptable; the text says which.
    Configuration(String),
}

impl Error {
    /// The text carried by the error.
    pub open spec fn message(self) -> Seq<char> {
        match self {
            Error::Configuration(m) => m@,
        }
    }

    /// The text of the error, as a caller would print it.
    pub fn description(&self) -> (text: String)
        ensures
            text@ == "Configuration error: "@ + self.message(),
    {
        match self {
            Error::Configuration(m) => String::from_str("Configuration error: ").concat(m.as_str()),
        }
    }
}

} // verus!
