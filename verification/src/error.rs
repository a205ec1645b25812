//! The library's error type, with the exit status and message each
//! error kind carries to the process edge.
use vstd::prelude::*;
use vstd::string::StringExecFns;

verus! {

/// Everything that can end a run early.
#[derive(Debug)]
pub enum Error {
    /// Help was requested: not a failure, the run ends with status 0.
    Help,
    /// A bad or unknown command-line argument; status 2.
    Usage(String),
    /// A malformed configuration value such as a colour; status 2.
    Config(String),
    /// A failure from the terminal I/O layer; status 1.
    Terminal(String),
    /// The local wall-clock time could not be read; fatal, status 1.
    Clock(String),
}

/// The process exit status each error kind maps to.
pub open spec fn spec_exit_code(e: Error) -> u8 {
    match e {
        Error::Help => 0,
        Error::Usage(_) => 2,
        Error::Config(_) => 2,
        Error::Terminal(_) => 1,
        Error::Clock(_) => 1,
    }
}

/// The one-line description of an error.
pub open spec fn spec_describe(e: Error) -> Seq<char> {
    match e {
        Error::Help => "help requested"@,
        Error::Usage(m) => "usage error: "@ + m@,
        Error::Config(m) => "error: "@ + m@,
        Error::Terminal(m) => "terminal error: "@ + m@,
        Error::Clock(m) => "clock error: "@ + m@,
    }
}

impl Error {
    /// The exit status this error surfaces as.
    pub fn exit_code(&self) -> (c: u8)
        ensures
            c == spec_exit_code(*self),
    {
        match self {
            Error::Help => 0,
            Error::Usage(_) => 2,
            Error::Config(_) => 2,
            Error::Terminal(_) => 1,
            Error::Clock(_) => 1,
        }
    }

    /// A human-readable one-line description.
    pub fn describe(&self) -> (r: String)
        ensures
            r@ == spec_describe(*self),
    {
        match self {
            Error::Help => String::from_str("help requested"),
            Error::Usage(m) => String::from_str("usage error: ").concat(m.as_str()),
            Error::Config(m) => String::from_str("error: ").concat(m.as_str()),
            Error::Terminal(m) => String::from_str("terminal error: ").concat(m.as_str()),
            Error::Clock(m) => String::from_str("clock error: ").concat(m.as_str()),
        }
    }

    /// The raw message carried by the error, if any: what a run prints
    /// to standard error for usage and configuration errors.
    pub fn message(&self) -> (r: String)
        ensures
            match *self {
                Error::Help => r@ == Seq::<char>::empty(),
                Error::Usage(m) => r@ == m@,
                Error::Config(m) => r@ == m@,
                Error::Terminal(m) => r@ == m@,
                Error::Clock(m) => r@ == m@,
            },
    {
        match self {
            Error::Help => String::new(),
            Error::Usage(m) => m.clone(),
            Error::Config(m) => m.clone(),
            Error::Terminal(m) => m.clone(),
            Error::Clock(m) => m.clone(),
        }
    }
}

} // verus!
