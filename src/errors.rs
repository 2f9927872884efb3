use vstd::prelude::*;

verus! {

/// Failures of the conversion endpoints, each with the message shown to
/// the user.
pub enum ConverterError<'de> {
    /// The artifact could not be downloaded (500).
    Download(&'de str),
    /// The conversion failed (500).
    Convert(&'de str),
    /// The request lacks something it needs (424).
    MissingDependencies(&'de str),
    /// The database could not be reached (500).
    DatabaseConnection(&'de str),
}

pub const INTERNAL_SERVER_ERROR: u16 = 500;

pub const FAILED_DEPENDENCY: u16 = 424;

/// HTTP status code that answers `err`.
pub open spec fn status_of(err: ConverterError) -> u16 {
    match err {
        ConverterError::MissingDependencies(_) => FAILED_DEPENDENCY,
        _ => INTERNAL_SERVER_ERROR,
    }
}

/// The message that `err` carries.
pub open spec fn message_of(err: ConverterError) -> Seq<char> {
    match err {
        ConverterError::Download(m) => m@,
        ConverterError::Convert(m) => m@,
        ConverterError::MissingDependencies(m) => m@,
        ConverterError::DatabaseConnection(m) => m@,
    }
}

/// The HTTP status code and body that answer `err`.
pub fn internal_error(err: ConverterError) -> (r: (u16, String))
    ensures
        r.0 == status_of(err),
        r.1@ == message_of(err),
{
    match err {
        ConverterError::Convert(message) => (INTERNAL_SERVER_ERROR, message.to_owned()),
        ConverterError::Download(message) => (INTERNAL_SERVER_ERROR, message.to_owned()),
        ConverterError::MissingDependencies(message) => (FAILED_DEPENDENCY, message.to_owned()),
        ConverterError::DatabaseConnection(message) => (INTERNAL_SERVER_ERROR, message.to_owned()),
    }
}

} // verus!
