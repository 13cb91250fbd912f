//! Error taxonomy for the transport and the client.

use vstd::prelude::*;

verus! {

/// What the transport reports when a request could not be completed or the
/// envelope around the response was not what the protocol promises.
#[derive(Debug)]
pub enum TransportError {
    /// The response body did not parse as an envelope `{ success: bool }`.
    /// Carries the raw body for diagnostics.
    MalformedEnvelope(String),
    /// The vendor answered with `success: false`.  Carries the request URL
    /// and the raw body for diagnostics.
    ApiFailure(String, String),
    /// A connection-level failure (DNS, connect, TLS), as reported by the
    /// HTTP layer.
    Network(String),
}

/// What a client operation reports to its caller.
#[derive(Debug)]
pub enum ClientError {
    /// Login did not yield a session: the envelope failed or the session
    /// payload did not parse.
    AuthFailed,
    /// The vendor answered with `success: false`.  Carries the request URL
    /// and the raw body.
    ApiFailure(String, String),
    /// A response body did not match the expected shape.  Carries the body.
    MalformedResponse(String),
    /// A connection-level failure, passed through from the transport.
    NetworkError(String),
}

/// The display string of a transport error, as stored for the operator.
pub open spec fn spec_transport_message(e: TransportError) -> Seq<char> {
    match e {
        TransportError::MalformedEnvelope(_) => "Failed to parse server response"@,
        TransportError::ApiFailure(_, _) => "API request failed"@,
        TransportError::Network(m) => m@,
    }
}

/// The display string of a client error, as stored for the operator.
pub open spec fn spec_client_message(e: ClientError) -> Seq<char> {
    match e {
        ClientError::AuthFailed => "Login failed"@,
        ClientError::ApiFailure(_, _) => "API request failed"@,
        ClientError::MalformedResponse(_) => "Failed to parse server response"@,
        ClientError::NetworkError(m) => m@,
    }
}

impl TransportError {
    /// The display string of this error.
    pub fn message(&self) -> (r: String)
        ensures
            r@ == spec_transport_message(*self),
    {
        match self {
            TransportError::MalformedEnvelope(_) => "Failed to parse server response".to_owned(),
            TransportError::ApiFailure(_, _) => "API request failed".to_owned(),
            TransportError::Network(m) => m.clone(),
        }
    }
}

impl ClientError {
    /// The display string of this error.
    pub fn message(&self) -> (r: String)
        ensures
            r@ == spec_client_message(*self),
    {
        match self {
            ClientError::AuthFailed => "Login failed".to_owned(),
            ClientError::ApiFailure(_, _) => "API request failed".to_owned(),
            ClientError::MalformedResponse(_) => "Failed to parse server response".to_owned(),
            ClientError::NetworkError(m) => m.clone(),
        }
    }
}

/// The client error a transport failure surfaces as: each transport
/// failure passes through under the client's taxonomy.
pub open spec fn spec_to_client(e: TransportError) -> ClientError {
    match e {
        TransportError::MalformedEnvelope(b) => ClientError::MalformedResponse(b),
        TransportError::ApiFailure(u, b) => ClientError::ApiFailure(u, b),
        TransportError::Network(m) => ClientError::NetworkError(m),
    }
}

/// Every operational failure of the client maps to the transport failure it
/// came from; login additionally collapses protocol failures into
/// [`ClientError::AuthFailed`].
pub fn transport_to_client(e: TransportError) -> (r: ClientError)
    ensures
        r == spec_to_client(e),
{
    match e {
        TransportError::MalformedEnvelope(b) => ClientError::MalformedResponse(b),
        TransportError::ApiFailure(u, b) => ClientError::ApiFailure(u, b),
        TransportError::Network(m) => ClientError::NetworkError(m),
    }
}

} // verus!
