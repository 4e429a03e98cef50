use vstd::prelude::*;
use std::string::FromUtf8Error;
use crate::context::{lossy_utf8, rendered, FromUtf8ErrorContext};

verus! {

/// How many bytes of a stream an error message shows at most.
pub const ERROR_CONTEXT_BYTES: usize = 1024;

#[verifier::external_type_specification]
#[verifier::external_body]
pub struct ExFromUtf8Error(FromUtf8Error);

/// Relies on the derived `Clone` of `FromUtf8Error`: a copy of the same bytes
/// and the same decoding error.
pub assume_specification[ <FromUtf8Error as Clone>::clone ](e: &FromUtf8Error) -> (r: FromUtf8Error)
    ensures
        r == *e,
;

/// How many leading bytes of `b` form valid UTF-8, as the standard decoder
/// reports it.
pub uninterp spec fn utf8_valid_up_to(b: Seq<u8>) -> nat;

/// Relies on `std::str::from_utf8` and `Utf8Error::valid_up_to`: the length of
/// the longest valid prefix, which is the whole input exactly when it decodes.
#[verifier::external_body]
fn valid_up_to(b: &[u8]) -> (r: usize)
    ensures
        r == utf8_valid_up_to(b@),
        r <= b@.len(),
{
    match std::str::from_utf8(b) {
        Ok(_) => b.len(),
        Err(e) => e.valid_up_to(),
    }
}

/// Relies on `String::from_utf8`: it succeeds exactly when the whole input is
/// valid UTF-8, and then holds the text that lossy decoding gives.
#[verifier::external_body]
fn string_from_utf8(b: Vec<u8>) -> (r: Result<String, FromUtf8Error>)
    ensures
        r is Ok <==> utf8_valid_up_to(b@) == b@.len(),
        r matches Ok(s) ==> s@ == lossy_utf8(b@),
{
    String::from_utf8(b)
}

/// Relies on `FromUtf8Error::as_bytes`: the bytes that failed to decode.
#[verifier::external_body]
fn error_bytes(e: &FromUtf8Error) -> (r: &[u8]) {
    e.as_bytes()
}

/// Relies on `<FromUtf8Error as Display>::fmt`: what went wrong, and where.
#[verifier::external_body]
fn error_description(e: &FromUtf8Error) -> (r: String) {
    e.to_string()
}

/// The message for a stream named `label` whose bytes failed to decode.
pub open spec fn stream_message(label: Seq<char>, description: Seq<char>, bytes: Seq<u8>) -> Seq<
    char,
> {
    label + " contained "@ + description + ": "@ + rendered(
        bytes,
        utf8_valid_up_to(bytes) as int,
        ERROR_CONTEXT_BYTES as int,
    )
}

/// The message text for `inner` on the stream named `label`.
fn describe(label: &str, inner: &FromUtf8Error) -> (r: String)
    ensures
        exists|d: Seq<char>, b: Seq<u8>| r@ == stream_message(label@, d, b),
{
    let bytes = error_bytes(inner);
    let index = valid_up_to(bytes);
    let excerpt = FromUtf8ErrorContext::new(bytes, index, ERROR_CONTEXT_BYTES).to_string();
    let description = error_description(inner);
    let mut r = String::from_str(label);
    r.append(" contained ");
    r.append(description.as_str());
    r.append(": ");
    r.append(excerpt.as_str());
    assert(r@ == stream_message(label@, description@, bytes@));
    r
}

/// The `stdout` stream of a process held invalid UTF-8.
#[derive(Debug, Clone, PartialEq, Eq)]
pub struct StdoutError {
    inner: FromUtf8Error,
}

impl StdoutError {
    /// The decoding error this wraps.
    pub closed spec fn inner_spec(&self) -> FromUtf8Error {
        self.inner
    }

    /// The decoding error this wraps.
    pub fn inner(&self) -> (r: &FromUtf8Error)
        ensures
            *r == self.inner_spec(),
    {
        &self.inner
    }

    /// `Stdout contained <what went wrong>: <excerpt of the bytes>`.
    pub fn to_string(&self) -> (r: String)
        ensures
            exists|d: Seq<char>, b: Seq<u8>| r@ == stream_message("Stdout"@, d, b),
    {
        describe("Stdout", &self.inner)
    }
}

impl From<FromUtf8Error> for StdoutError {
    fn from(inner: FromUtf8Error) -> (r: Self)
        ensures
            r.inner_spec() == inner,
    {
        StdoutError { inner }
    }
}

impl vstd::std_specs::convert::FromSpecImpl<FromUtf8Error> for StdoutError {
    open spec fn obeys_from_spec() -> bool {
        true
    }

    closed spec fn from_spec(v: FromUtf8Error) -> Self {
        StdoutError { inner: v }
    }
}

impl From<StdoutError> for FromUtf8Error {
    fn from(value: StdoutError) -> (r: Self)
        ensures
            r == value.inner_spec(),
    {
        value.inner
    }
}

impl vstd::std_specs::convert::FromSpecImpl<StdoutError> for FromUtf8Error {
    open spec fn obeys_from_spec() -> bool {
        true
    }

    open spec fn from_spec(v: StdoutError) -> Self {
        v.inner_spec()
    }
}

/// The `stderr` stream of a process held invalid UTF-8.
#[derive(Debug, Clone, PartialEq, Eq)]
pub struct StderrError {
    inner: FromUtf8Error,
}

impl StderrError {
    /// The decoding error this wraps.
    pub closed spec fn inner_spec(&self) -> FromUtf8Error {
        self.inner
    }

    /// The decoding error this wraps.
    pub fn inner(&self) -> (r: &FromUtf8Error)
        ensures
            *r == self.inner_spec(),
    {
        &self.inner
    }

    /// `Stderr contained <what went wrong>: <excerpt of the bytes>`.
    pub fn to_string(&self) -> (r: String)
        ensures
            exists|d: Seq<char>, b: Seq<u8>| r@ == stream_message("Stderr"@, d, b),
    {
        describe("Stderr", &self.inner)
    }
}

impl From<FromUtf8Error> for StderrError {
    fn from(inner: FromUtf8Error) -> (r: Self)
        ensures
            r.inner_spec() == inner,
    {
        StderrError { inner }
    }
}

impl vstd::std_specs::convert::FromSpecImpl<FromUtf8Error> for StderrError {
    open spec fn obeys_from_spec() -> bool {
        true
    }

    closed spec fn from_spec(v: FromUtf8Error) -> Self {
        StderrError { inner: v }
    }
}

impl From<StderrError> for FromUtf8Error {
    fn from(value: StderrError) -> (r: Self)
        ensures
            r == value.inner_spec(),
    {
        value.inner
    }
}

impl vstd::std_specs::convert::FromSpecImpl<StderrError> for FromUtf8Error {
    open spec fn obeys_from_spec() -> bool {
        true
    }

    open spec fn from_spec(v: StderrError) -> Self {
        v.inner_spec()
    }
}

/// One of a process's two output streams held invalid UTF-8.
#[derive(Debug, Clone, PartialEq, Eq)]
pub enum Error {
    /// The `stdout` stream held invalid UTF-8.
    Stdout(StdoutError),
    /// The `stderr` stream held invalid UTF-8.
    Stderr(StderrError),
}

impl Error {
    /// The decoding error of whichever stream failed.
    pub open spec fn inner_spec(&self) -> FromUtf8Error {
        match self {
            Error::Stdout(e) => e.inner_spec(),
            Error::Stderr(e) => e.inner_spec(),
        }
    }

    /// The decoding error of whichever stream failed.
    pub fn inner(&self) -> (r: &FromUtf8Error)
        ensures
            *r == self.inner_spec(),
    {
        match self {
            Error::Stdout(err) => err.inner(),
            Error::Stderr(err) => err.inner(),
        }
    }

    /// The message of whichever stream failed.
    pub fn to_string(&self) -> (r: String)
        ensures
            match self {
                Error::Stdout(_) => exists|d: Seq<char>, b: Seq<u8>|
                    r@ == stream_message("Stdout"@, d, b),
                Error::Stderr(_) => exists|d: Seq<char>, b: Seq<u8>|
                    r@ == stream_message("Stderr"@, d, b),
            },
    {
        match self {
            Error::Stdout(err) => err.to_string(),
            Error::Stderr(err) => err.to_string(),
        }
    }
}

impl From<StdoutError> for Error {
    fn from(value: StdoutError) -> (r: Self)
        ensures
            r == Error::Stdout(value),
    {
        Error::Stdout(value)
    }
}

impl vstd::std_specs::convert::FromSpecImpl<StdoutError> for Error {
    open spec fn obeys_from_spec() -> bool {
        true
    }

    open spec fn from_spec(v: StdoutError) -> Self {
        Error::Stdout(v)
    }
}

impl From<StderrError> for Error {
    fn from(value: StderrError) -> (r: Self)
        ensures
            r == Error::Stderr(value),
    {
        Error::Stderr(value)
    }
}

impl vstd::std_specs::convert::FromSpecImpl<StderrError> for Error {
    open spec fn obeys_from_spec() -> bool {
        true
    }

    open spec fn from_spec(v: StderrError) -> Self {
        Error::Stderr(v)
    }
}

impl From<Error> for FromUtf8Error {
    fn from(value: Error) -> (r: Self)
        ensures
            r == value.inner_spec(),
    {
        match value {
            Error::Stdout(err) => err.inner,
            Error::Stderr(err) => err.inner,
        }
    }
}

impl vstd::std_specs::convert::FromSpecImpl<Error> for FromUtf8Error {
    open spec fn obeys_from_spec() -> bool {
        true
    }

    open spec fn from_spec(v: Error) -> Self {
        v.inner_spec()
    }
}

/// Whether all of `b` is valid UTF-8.
pub open spec fn is_valid_utf8(b: Seq<u8>) -> bool {
    utf8_valid_up_to(b) == b.len()
}

/// Decodes a process's `stdout` and `stderr` as UTF-8, `stdout` first: the
/// first stream that does not decode gives the error.
pub fn decode_output(stdout: Vec<u8>, stderr: Vec<u8>) -> (r: Result<(String, String), Error>)
    ensures
        r is Ok <==> is_valid_utf8(stdout@) && is_valid_utf8(stderr@),
        !is_valid_utf8(stdout@) ==> r matches Err(Error::Stdout(_)),
        is_valid_utf8(stdout@) && !is_valid_utf8(stderr@) ==> r matches Err(Error::Stderr(_)),
        r matches Ok((o, e)) ==> o@ == lossy_utf8(stdout@) && e@ == lossy_utf8(stderr@),
{
    let out = match string_from_utf8(stdout) {
        Ok(s) => s,
        Err(inner) => return Err(Error::Stdout(StdoutError { inner })),
    };
    let err = match string_from_utf8(stderr) {
        Ok(s) => s,
        Err(inner) => return Err(Error::Stderr(StderrError { inner })),
    };
    Ok((out, err))
}

} // verus!
