//! Error types.
use vstd::prelude::*;
use vstd::std_specs::convert::FromSpecImpl;

verus! {

/// `sgp4::TleError`: why the parser refused the text of an element set. Carried through unopened.
#[verifier::external_type_specification]
#[verifier::external_body]
pub struct ExTleError(sgp4::TleError);

/// `sgp4::ElementsError`: why no propagation constants follow from the elements. Carried through unopened.
#[verifier::external_type_specification]
#[verifier::external_body]
pub struct ExElementsError(sgp4::ElementsError);

/// `sgp4::DatetimeToMinutesSinceEpochError`: an instant too far from the epoch. Carried through unopened.
#[verifier::external_type_specification]
#[verifier::external_body]
pub struct ExDatetimeToMinutesSinceEpochError(sgp4::DatetimeToMinutesSinceEpochError);

/// `sgp4::Error`: why the propagation diverged. Carried through unopened.
#[verifier::external_type_specification]
#[verifier::external_body]
pub struct ExPropagationDivergence(sgp4::Error);

/// `tonic::Status`: the status of a call to another service. Carried through unopened.
#[verifier::external_type_specification]
#[verifier::external_body]
pub struct ExStatus(tonic::Status);

/// `tonic::transport::Error`: a failure of the gRPC transport. Carried through unopened.
#[verifier::external_type_specification]
#[verifier::external_body]
pub struct ExTransportError(tonic::transport::Error);

/// `std::io::Error`: a failure of the operating system. Carried through unopened.
#[verifier::external_type_specification]
#[verifier::external_body]
pub struct ExIoError(std::io::Error);

/// Why the service could not start.
#[derive(Debug)]
pub enum StartupError {
    /// The environment name is none of the known ones.
    InvalidAppEnv(String),
    /// The logger could not be installed.
    LoggerInit(String),
    /// The HTTP server failed.
    Http(HttpServerError),
    /// The gRPC server failed.
    Grpc(GrpcServerError),
    /// The client of the TLE source could not be set up.
    GrpcClientInit(tonic::transport::Error),
}

/// Why the HTTP server could not start or stopped.
#[derive(Debug)]
pub enum HttpServerError {
    /// The metrics middleware could not be built.
    Prometheus(String),
    /// An I/O error while starting the server.
    Io(std::io::Error),
}

/// Why the gRPC server could not start or stopped.
#[derive(Debug)]
pub enum GrpcServerError {
    /// An I/O error while starting the server.
    Io(std::io::Error),
    /// An error of the transport.
    Transport(tonic::transport::Error),
}

/// Why a position or a set of look angles could not be computed.
#[derive(Debug)]
pub enum PropagationError {
    /// The TLE source did not deliver the element set.
    TleFetch(tonic::Status),
    /// A line of the element set holds a character that is not ASCII.
    TleNotAscii,
    /// Both lines have the length of a TLE line, and one ends in a
    /// character below `'0'`, which cannot be a checksum digit.
    TleChecksumNotDigit,
    /// The TLE text is malformed.
    TleParse(sgp4::TleError),
    /// The elements do not describe an orbit that can be propagated.
    ElementsCreation(sgp4::ElementsError),
    /// The instant is too far from the elements' epoch.
    DatetimeToMinutesSinceEpochFailed(sgp4::DatetimeToMinutesSinceEpochError),
    /// The propagation diverged.
    PropagationFailed(sgp4::Error),
}

/// Why a timestamp could not be converted.
#[derive(Debug)]
pub enum TimestampConversionError {
    /// The nanoseconds do not fit the integer type of the other side.
    NanosOutOfRange(std::num::TryFromIntError),
    /// The seconds and nanoseconds name no instant.
    InvalidTimestamp,
}

impl From<std::io::Error> for HttpServerError {
    fn from(e: std::io::Error) -> (r: Self) {
        HttpServerError::Io(e)
    }
}

impl FromSpecImpl<std::io::Error> for HttpServerError {
    open spec fn obeys_from_spec() -> bool {
        true
    }

    open spec fn from_spec(e: std::io::Error) -> Self {
        HttpServerError::Io(e)
    }
}

impl From<std::io::Error> for GrpcServerError {
    fn from(e: std::io::Error) -> (r: Self) {
        GrpcServerError::Io(e)
    }
}

impl FromSpecImpl<std::io::Error> for GrpcServerError {
    open spec fn obeys_from_spec() -> bool {
        true
    }

    open spec fn from_spec(e: std::io::Error) -> Self {
        GrpcServerError::Io(e)
    }
}

impl From<tonic::transport::Error> for GrpcServerError {
    fn from(e: tonic::transport::Error) -> (r: Self) {
        GrpcServerError::Transport(e)
    }
}

impl FromSpecImpl<tonic::transport::Error> for GrpcServerError {
    open spec fn obeys_from_spec() -> bool {
        true
    }

    open spec fn from_spec(e: tonic::transport::Error) -> Self {
        GrpcServerError::Transport(e)
    }
}

impl From<std::io::Error> for StartupError {
    fn from(e: std::io::Error) -> (r: Self) {
        StartupError::Http(HttpServerError::Io(e))
    }
}

impl FromSpecImpl<std::io::Error> for StartupError {
    open spec fn obeys_from_spec() -> bool {
        true
    }

    open spec fn from_spec(e: std::io::Error) -> Self {
        StartupError::Http(HttpServerError::Io(e))
    }
}

impl From<HttpServerError> for StartupError {
    fn from(e: HttpServerError) -> (r: Self) {
        StartupError::Http(e)
    }
}

impl FromSpecImpl<HttpServerError> for StartupError {
    open spec fn obeys_from_spec() -> bool {
        true
    }

    open spec fn from_spec(e: HttpServerError) -> Self {
        StartupError::Http(e)
    }
}

impl From<GrpcServerError> for StartupError {
    fn from(e: GrpcServerError) -> (r: Self) {
        StartupError::Grpc(e)
    }
}

impl FromSpecImpl<GrpcServerError> for StartupError {
    open spec fn obeys_from_spec() -> bool {
        true
    }

    open spec fn from_spec(e: GrpcServerError) -> Self {
        StartupError::Grpc(e)
    }
}

impl From<tonic::transport::Error> for StartupError {
    fn from(e: tonic::transport::Error) -> (r: Self) {
        StartupError::GrpcClientInit(e)
    }
}

impl FromSpecImpl<tonic::transport::Error> for StartupError {
    open spec fn obeys_from_spec() -> bool {
        true
    }

    open spec fn from_spec(e: tonic::transport::Error) -> Self {
        StartupError::GrpcClientInit(e)
    }
}

impl From<tonic::Status> for PropagationError {
    fn from(e: tonic::Status) -> (r: Self) {
        PropagationError::TleFetch(e)
    }
}

impl FromSpecImpl<tonic::Status> for PropagationError {
    open spec fn obeys_from_spec() -> bool {
        true
    }

    open spec fn from_spec(e: tonic::Status) -> Self {
        PropagationError::TleFetch(e)
    }
}

} // verus!
