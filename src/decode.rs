use vstd::prelude::*;

use crate::apply::ApplyError;
use crate::configuration::ConfigurationError;
use crate::stdin_bytes::StdinBytes;

verus! {

#[verifier::external_type_specification]
#[verifier::external_body]
pub struct ExCapnpError(capnp::Error);

#[verifier::external_type_specification]
#[verifier::external_body]
pub struct ExOwnedSegments(capnp::serialize::OwnedSegments);

/// The bytes hold one packed message that capnp reads with its default reader options.
pub uninterp spec fn packed_message_readable(b: Seq<u8>) -> bool;

/// Relies on capnp's `serialize_packed::read_message` with default reader
/// options: one packed, segment-framed message read from the bytes, or the
/// error that the framing or the reader limits raised. The message is handed
/// on as its segments.
#[verifier::external_body]
fn read_packed_message(bytes: &[u8]) -> (r: Result<capnp::serialize::OwnedSegments, capnp::Error>)
    ensures
        r is Ok <==> packed_message_readable(bytes@),
{
    let mut input = bytes;
    let message = capnp::serialize_packed::read_message(
        &mut input,
        capnp::message::ReaderOptions::new(),
    )?;
    Ok(message.into_segments())
}

/// Relies on `capnp::Error`'s `to_string`: a one-line description of the error.
#[verifier::external_body]
fn capnp_error_message(error: &capnp::Error) -> (r: String) {
    error.to_string()
}

/// Reads the framed message that the input holds. A buffer that is not one
/// well-formed packed message is a decode error; no other error comes.
pub fn read_message(bytes: StdinBytes) -> (r: Result<capnp::serialize::OwnedSegments, ConfigurationError>)
    ensures
        r is Ok <==> packed_message_readable(bytes@),
        r matches Err(e) ==> e is Decode,
{
    let buffer = bytes.into_bytes();
    match read_packed_message(buffer.as_slice()) {
        Ok(segments) => Ok(segments),
        Err(error) => Err(ConfigurationError::from_decode(capnp_error_message(&error))),
    }
}

/// Why a run of the tool failed.
#[derive(Debug)]
pub enum RunError {
    /// Wrong arguments, or nothing on standard input.
    Usage,
    /// The input is not a well-formed configuration message.
    Decode(ConfigurationError),
    /// A step of the apply run failed.
    Apply(ApplyError),
}

impl RunError {
    pub open spec fn spec_exit_code(&self) -> i32 {
        match self {
            RunError::Usage => 2,
            RunError::Decode(_) => 1,
            RunError::Apply(e) => e.spec_exit_code(),
        }
    }

    /// The process exit code: 2 for a usage error, 1 for a decode error,
    /// the apply error's own code otherwise.
    pub fn exit_code(&self) -> (r: i32)
        ensures
            r == self.spec_exit_code(),
    {
        match self {
            RunError::Usage => 2,
            RunError::Decode(_) => 1,
            RunError::Apply(e) => e.exit_code(),
        }
    }
}

/// What reading `bytes` may give: success exactly when the input is a
/// non-empty readable message; the usage error exactly for empty input;
/// otherwise a decode error.
pub open spec fn read_input_result(
    bytes: StdinBytes,
    r: Result<capnp::serialize::OwnedSegments, RunError>,
) -> bool {
    &&& (r is Ok <==> (bytes@.len() > 0 && packed_message_readable(bytes@)))
    &&& (bytes@.len() == 0 <==> r matches Err(RunError::Usage))
    &&& (bytes@.len() > 0 ==> (r matches Err(e) ==> (e matches RunError::Decode(d) && d is Decode)))
}

/// Reads the input message. Empty input is a usage error, told apart before
/// any decoding; a non-empty buffer that is not a well-formed message is a
/// decode error.
pub fn read_input(bytes: StdinBytes) -> (r: Result<capnp::serialize::OwnedSegments, RunError>)
    ensures
        read_input_result(bytes, r),
{
    if bytes.is_empty() {
        return Err(RunError::Usage);
    }
    match read_message(bytes) {
        Ok(segments) => Ok(segments),
        Err(error) => Err(RunError::Decode(error)),
    }
}

/// Empty input is never decoded: reading it gives the usage error, which
/// exits with 2, apart from every decode error, which exits with 1.
pub proof fn empty_input_is_usage_error(
    bytes: StdinBytes,
    r: Result<capnp::serialize::OwnedSegments, RunError>,
    e: ConfigurationError,
)
    requires
        bytes@.len() == 0,
        read_input_result(bytes, r),
    ensures
        r matches Err(u) && u is Usage && u.spec_exit_code() == 2,
        RunError::Decode(e).spec_exit_code() == 1,
{
}

} // verus!
