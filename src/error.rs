//! Errors of an exchange with the target application.
use vstd::prelude::*;

verus! {

#[verifier::external_type_specification]
#[verifier::external_body]
pub struct ExIoError(std::io::Error);

/// Why an exchange with the target application failed.
#[derive(Debug)]
pub enum MyError {
    /// Connecting, writing, flushing or reading failed.
    IoError(std::io::Error),
    /// The exchange went through but broke the protocol, such as a query
    /// answered with no byte at all.
    OtherError(String),
}

/// Relies on `<std::io::Error as ToString>::to_string` for the error's text.
#[verifier::external_body]
fn io_error_text(e: &std::io::Error) -> (r: String) {
    e.to_string()
}

impl MyError {
    /// The error as plain text: the I/O error's own text, or the protocol
    /// error's message unchanged.
    pub fn into_message(self) -> (r: String)
        ensures
            self matches MyError::OtherError(m) ==> r@ == m@,
    {
        match self {
            MyError::IoError(e) => io_error_text(&e),
            MyError::OtherError(m) => m,
        }
    }
}

} // verus!
