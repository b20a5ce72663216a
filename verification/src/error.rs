//! The errors that the proxy answers with.

use vstd::prelude::*;
use vstd::string::StringExecFns;

verus! {

/// JSON-RPC code of a failure inside the server.
pub const INTERNAL_ERROR: i32 = -32603;

/// JSON-RPC code of a method that the server does not have.
pub const METHOD_NOT_FOUND: i32 = -32601;

/// The error object of a JSON-RPC response.
pub struct ErrorData {
    /// What kind of error it is.
    pub code: i32,
    /// What happened, in words.
    pub message: String,
    /// Further text about the error, where there is any.
    pub data: Option<String>,
}

/// What an `ErrorData` says, as mathematical values.
pub struct ErrorModel {
    pub code: i32,
    pub message: Seq<char>,
    pub data: Option<Seq<char>>,
}

impl View for ErrorData {
    type V = ErrorModel;

    open spec fn view(&self) -> ErrorModel {
        ErrorModel {
            code: self.code,
            message: self.message@,
            data: match self.data {
                Some(data) => Some(data@),
                None => None,
            },
        }
    }
}

/// An error with this code and message, and no further data.
pub open spec fn plain_error(code: i32, message: Seq<char>) -> ErrorModel {
    ErrorModel { code, message, data: None }
}

/// An error inside the proxy: a fixed text, then what the failed call reported.
pub open spec fn internal_error(prefix: Seq<char>, cause: Seq<char>) -> ErrorModel {
    plain_error(INTERNAL_ERROR, prefix + cause)
}

impl ErrorData {
    /// An error with this code and message, and no further data.
    pub fn new(code: i32, message: String) -> (error: ErrorData)
        ensures
            error@ == plain_error(code, message@),
            error.code == code,
            error.message@ == message@,
            error.data is None,
    {
        ErrorData { code, message, data: None }
    }

    /// An error inside the proxy: a fixed text, then what the failed call reported.
    pub fn internal(prefix: &str, cause: &str) -> (error: ErrorData)
        ensures
            error@ == internal_error(prefix@, cause@),
            error.code == -32603,
            error.message@ == prefix@ + cause@,
            error.data is None,
    {
        ErrorData::new(INTERNAL_ERROR, prefix.to_owned().concat(cause))
    }
}

/// An internal error names its cause: the message starts with the fixed text, ends
/// with the cause and holds nothing else, so different causes give different errors.
pub proof fn law_internal_error_keeps_cause(
    prefix: Seq<char>,
    cause: Seq<char>,
    other: Seq<char>,
)
    ensures
        internal_error(prefix, cause).message.take(prefix.len() as int) == prefix,
        internal_error(prefix, cause).message.skip(prefix.len() as int) == cause,
        internal_error(prefix, cause) == internal_error(prefix, other) ==> cause == other,
{
    assert((prefix + cause).take(prefix.len() as int) =~= prefix);
    assert((prefix + cause).skip(prefix.len() as int) =~= cause);
    assert((prefix + other).skip(prefix.len() as int) =~= other);
}

/// The model of an error says what its fields hold: whoever knows the model of an error
/// without further text knows its code and its message, and that there is no more.
pub proof fn law_model_says_what_the_fields_hold(error: ErrorData, code: i32, message: Seq<char>)
    ensures
        error@ == plain_error(code, message) <==> {
            &&& error.code == code
            &&& error.message@ == message
            &&& error.data is None
        },
        internal_error(message, error.message@).code == -32603,
        internal_error(message, error.message@).message == message + error.message@,
        internal_error(message, error.message@).data is None,
        METHOD_NOT_FOUND == -32601,
{
}

} // verus!
