use vstd::prelude::*;

verus! {

/// Failure kinds that the store and the command resolver can report.
#[derive(Debug, Clone, Copy, PartialEq, Eq, Structural)]
pub enum ErrorCode {
    FileDoesNotExist,
    BrokenFile,
    InvalidJsonFormat,
    JsonPropertyNotFound,
    UnsupportedOperation,
    NonexistentArgument,
    FileWriteFailed,
}

/// The fixed human-readable description of each error kind.
pub open spec fn error_description(e: ErrorCode) -> Seq<char> {
    match e {
        ErrorCode::FileDoesNotExist => "File does not exist"@,
        ErrorCode::BrokenFile => "The file seemed to be broken while attempting to read it"@,
        ErrorCode::InvalidJsonFormat => "JSON file formatted incorrectly"@,
        ErrorCode::JsonPropertyNotFound => "JSON property not found in object"@,
        ErrorCode::UnsupportedOperation => "Given operation is not supported"@,
        ErrorCode::NonexistentArgument => "Required argument was not provided"@,
        ErrorCode::FileWriteFailed => "Writing to file failed"@,
    }
}

impl ErrorCode {
    /// Returns the loggable description of this error.
    pub fn get_code(&self) -> (r: String)
        ensures
            r@ == error_description(*self),
    {
        match *self {
            ErrorCode::FileDoesNotExist => "File does not exist".to_owned(),
            ErrorCode::BrokenFile => "The file seemed to be broken while attempting to read it".to_owned(),
            ErrorCode::InvalidJsonFormat => "JSON file formatted incorrectly".to_owned(),
            ErrorCode::JsonPropertyNotFound => "JSON property not found in object".to_owned(),
            ErrorCode::UnsupportedOperation => "Given operation is not supported".to_owned(),
            ErrorCode::NonexistentArgument => "Required argument was not provided".to_owned(),
            ErrorCode::FileWriteFailed => "Writing to file failed".to_owned(),
        }
    }
}

} // verus!
