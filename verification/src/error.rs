//! The engine's error type. Collaborator failures (I/O, network, parsing
//! of outside data) are reported by the surrounding program; the engine
//! itself only ever rejects invalid user input.

use vstd::prelude::*;

verus! {

#[derive(Clone, Debug)]
pub enum AppError {
    InvalidInput(String),
}

impl AppError {
    /// The full report text of the error.
    pub open spec fn spec_message(self) -> Seq<char> {
        match self {
            AppError::InvalidInput(m) => "Invalid user input: "@ + m@,
        }
    }

    pub fn message(&self) -> (r: String)
        ensures
            r@ == self.spec_message(),
    {
        match self {
            AppError::InvalidInput(m) => {
                let mut s = String::from_str("Invalid user input: ");
                s.append(m.as_str());
                s
            },
        }
    }
}

} // verus!
