use vstd::prelude::*;
use vstd::string::*;

verus! {

/// The errors that the bot's logic reports.
#[derive(Debug)]
pub enum RailwayError {
    /// A setting is missing or malformed.
    Config(String),
    /// A module failed.
    Module(String),
    /// Anything else that went wrong.
    Internal(String),
}

/// The text of an error, as it is logged.
pub open spec fn error_text(e: RailwayError) -> Seq<char> {
    match e {
        RailwayError::Config(m) => "Configuration error: "@ + m@,
        RailwayError::Module(m) => "Module error: "@ + m@,
        RailwayError::Internal(m) => "Internal error: "@ + m@,
    }
}

/// An internal error with the given message.
pub open spec fn is_internal(e: RailwayError, m: Seq<char>) -> bool {
    e matches RailwayError::Internal(x) && x@ == m
}

impl RailwayError {
    /// The text of the error.
    pub fn message(&self) -> (r: String)
        ensures
            r@ == error_text(*self),
    {
        let (head, m) = match self {
            RailwayError::Config(m) => ("Configuration error: ", m),
            RailwayError::Module(m) => ("Module error: ", m),
            RailwayError::Internal(m) => ("Internal error: ", m),
        };
        let mut r = String::from_str(head);
        r.append(m.as_str());
        r
    }

    /// An internal error with the given message.
    pub fn internal(m: &str) -> (r: RailwayError)
        ensures
            is_internal(r, m@),
    {
        RailwayError::Internal(String::from_str(m))
    }
}

} // verus!
