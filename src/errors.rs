use vstd::prelude::*;
use vstd::string::to_string_from_display_ensures;

verus! {

#[verifier::external_type_specification]
#[verifier::external_body]
pub struct ExIoError(std::io::Error);

#[verifier::external_type_specification]
#[verifier::external_body]
pub struct ExParseIntError(std::num::ParseIntError);

/// Failures of the daemon's own plumbing.
#[derive(Debug)]
pub enum ServerError {
    IOError(std::io::Error),
    ParseError(std::num::ParseIntError),
    _CustomError(String),
}

impl ServerError {
    /// The failure as a sentence: its kind, then what the cause says of itself.
    pub fn describe(&self) -> (r: String)
        ensures
            match self {
                ServerError::IOError(e) => exists|t: String|
                    to_string_from_display_ensures::<std::io::Error>(e, t) && r@ == "IO Error: "@
                        + t@,
                ServerError::ParseError(e) => exists|t: String|
                    to_string_from_display_ensures::<std::num::ParseIntError>(e, t) && r@
                        == "Parse Error: "@ + t@,
                ServerError::_CustomError(m) => r@ == "Custom Error: "@ + m@,
            },
    {
        match self {
            ServerError::IOError(e) => {
                let t = e.to_string();
                let mut r = String::from_str("IO Error: ");
                r.append(t.as_str());
                r
            },
            ServerError::ParseError(e) => {
                let t = e.to_string();
                let mut r = String::from_str("Parse Error: ");
                r.append(t.as_str());
                r
            },
            ServerError::_CustomError(m) => {
                let mut r = String::from_str("Custom Error: ");
                r.append(m.as_str());
                r
            },
        }
    }
}

impl From<std::io::Error> for ServerError {
    fn from(err: std::io::Error) -> ServerError {
        ServerError::IOError(err)
    }
}

impl vstd::std_specs::convert::FromSpecImpl<std::io::Error> for ServerError {
    open spec fn obeys_from_spec() -> bool {
        true
    }

    open spec fn from_spec(v: std::io::Error) -> ServerError {
        ServerError::IOError(v)
    }
}

impl From<std::num::ParseIntError> for ServerError {
    fn from(err: std::num::ParseIntError) -> ServerError {
        ServerError::ParseError(err)
    }
}

impl vstd::std_specs::convert::FromSpecImpl<std::num::ParseIntError> for ServerError {
    open spec fn obeys_from_spec() -> bool {
        true
    }

    open spec fn from_spec(v: std::num::ParseIntError) -> ServerError {
        ServerError::ParseError(v)
    }
}

} // verus!
