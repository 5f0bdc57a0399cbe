use vstd::prelude::*;

verus! {

/// The ways a query request can fail.
///
/// `InvalidAddressEncoding` is a client error: the validator address on the
/// uptime path was not valid hexadecimal, and is reported before any store
/// access. `StoreFailure` is a server error: the query store could not
/// execute or complete a query. `MappingFailure` is a server error: a row
/// returned by the store lacked an expected column (or held one of the wrong
/// primitive type); the payload names that column.
#[derive(Debug)]
pub enum Error {
    InvalidAddressEncoding,
    StoreFailure,
    MappingFailure(String),
}

impl Error {
    /// A short classification of the error, safe to show to a client.
    pub fn kind(&self) -> (r: &'static str)
        ensures
            (self is InvalidAddressEncoding ==> r@ == "invalid address encoding"@)
                && (self is StoreFailure ==> r@ == "store failure"@)
                && (self is MappingFailure ==> r@ == "mapping failure"@),
    {
        match self {
            Error::InvalidAddressEncoding => "invalid address encoding",
            Error::StoreFailure => "store failure",
            Error::MappingFailure(_) => "mapping failure",
        }
    }
}

} // verus!
