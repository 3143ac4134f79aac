//! The errors that the feeder-gateway client reports, and which of them a
//! retry may cure.
use vstd::prelude::*;

use crate::types::{ClassHash, StarkHash};

verus! {

/// Error codes returned by the gateway.
#[derive(Clone, Copy, Debug, PartialEq, Eq, Structural)]
pub enum StarknetErrorCode {
    BlockNotFound,
    OutOfRangeClassHash,
    MalformedRequest,
    UndeclaredClass,
}

/// An error that the gateway returned, with its code.
#[derive(Clone, Debug)]
pub struct StarknetError {
    pub code: StarknetErrorCode,
    pub message: String,
}

/// Errors that retrying may solve.
#[derive(Clone, Copy, Debug, PartialEq, Eq, Structural)]
pub enum RetryErrorCode {
    Redirect,
    Timeout,
    TooManyRequests,
    ServiceUnavailable,
    Disconnect,
}

/// What the HTTP layer says of a request that failed before a response came.
#[derive(Clone, Copy, Debug, PartialEq, Eq, Structural)]
pub struct RequestFailure {
    pub is_timeout: bool,
    pub is_request: bool,
    pub is_connect: bool,
    pub is_redirect: bool,
}

/// Errors that the client may return. Each carries the text that describes it.
#[derive(Clone, Debug)]
pub enum ClientError {
    /// A response with a status code that the client does not accept.
    BadResponseStatus { code: u16, message: String },
    /// A request that failed in the HTTP layer.
    RequestError { failure: RequestFailure, message: String },
    /// An error that persisted through the retries.
    RetryError { code: RetryErrorCode, message: String },
    /// A response that did not parse.
    SerdeError { message: String },
    /// A response whose content the chain's types reject.
    StarknetApiError { message: String },
    /// An error that the gateway returned.
    StarknetError(StarknetError),
    /// A block whose transaction receipts do not match its transactions.
    TransactionReceiptsError { message: String },
    /// An invalid transaction.
    BadTransaction { message: String },
}

pub const TEMPORARY_REDIRECT: u16 = 307;
pub const REQUEST_TIMEOUT: u16 = 408;
pub const TOO_MANY_REQUESTS: u16 = 429;
pub const SERVICE_UNAVAILABLE: u16 = 503;
pub const GATEWAY_TIMEOUT: u16 = 504;

/// The retry code of a response status, if a retry may cure it.
pub open spec fn status_retry_code(code: u16) -> Option<RetryErrorCode> {
    if code == TEMPORARY_REDIRECT {
        Some(RetryErrorCode::Redirect)
    } else if code == REQUEST_TIMEOUT || code == GATEWAY_TIMEOUT {
        Some(RetryErrorCode::Timeout)
    } else if code == TOO_MANY_REQUESTS {
        Some(RetryErrorCode::TooManyRequests)
    } else if code == SERVICE_UNAVAILABLE {
        Some(RetryErrorCode::ServiceUnavailable)
    } else {
        None
    }
}

/// The retry code of a failed request, if a retry may cure it. A timeout
/// comes first; a malformed request is never retried.
pub open spec fn failure_retry_code(f: RequestFailure) -> Option<RetryErrorCode> {
    if f.is_timeout {
        Some(RetryErrorCode::Timeout)
    } else if f.is_request {
        None
    } else if f.is_connect {
        Some(RetryErrorCode::Disconnect)
    } else if f.is_redirect {
        Some(RetryErrorCode::Redirect)
    } else {
        None
    }
}

/// The retry code of an error, if a retry may cure it.
pub open spec fn retry_code(err: ClientError) -> Option<RetryErrorCode> {
    match err {
        ClientError::BadResponseStatus { code, .. } => status_retry_code(code),
        ClientError::RequestError { failure, .. } => failure_retry_code(failure),
        _ => None,
    }
}

/// The retry code of an error, if a retry may cure it.
pub fn get_retry_error_code(err: &ClientError) -> (r: Option<RetryErrorCode>)
    ensures
        r == retry_code(*err),
{
    match err {
        ClientError::BadResponseStatus { code, .. } => {
            let code = *code;
            if code == TEMPORARY_REDIRECT {
                Some(RetryErrorCode::Redirect)
            } else if code == REQUEST_TIMEOUT || code == GATEWAY_TIMEOUT {
                Some(RetryErrorCode::Timeout)
            } else if code == TOO_MANY_REQUESTS {
                Some(RetryErrorCode::TooManyRequests)
            } else if code == SERVICE_UNAVAILABLE {
                Some(RetryErrorCode::ServiceUnavailable)
            } else {
                None
            }
        },
        ClientError::RequestError { failure, .. } => {
            if failure.is_timeout {
                Some(RetryErrorCode::Timeout)
            } else if failure.is_request {
                None
            } else if failure.is_connect {
                Some(RetryErrorCode::Disconnect)
            } else if failure.is_redirect {
                Some(RetryErrorCode::Redirect)
            } else {
                None
            }
        },
        _ => None,
    }
}

/// Whether a retry may cure the error.
pub fn should_retry(err: &ClientError) -> (r: bool)
    ensures
        r == retry_code(*err) is Some,
{
    get_retry_error_code(err).is_some()
}

/// The error to report once the retries are over: one that a retry might
/// have cured becomes a [`ClientError::RetryError`] with its code and the
/// error's text (`message`); any other is reported as it is.
pub fn final_error(err: ClientError, message: String) -> (r: ClientError)
    ensures
        match retry_code(err) {
            Some(c) => r matches ClientError::RetryError { code, message: m } && code == c && m
                == message,
            None => r == err,
        },
{
    match get_retry_error_code(&err) {
        Some(code) => ClientError::RetryError { code, message },
        None => err,
    }
}

/// What a response with this status code holds: the text that was asked for
/// (200), an error of the gateway (400, and 500 from older gateways), or
/// neither.
#[derive(Clone, Copy, Debug, PartialEq, Eq, Structural)]
pub enum ResponseKind {
    Success,
    GatewayError,
    BadStatus,
}

pub fn response_kind(code: u16) -> (r: ResponseKind)
    ensures
        r == (if code == 200 {
            ResponseKind::Success
        } else if code == 400 || code == 500 {
            ResponseKind::GatewayError
        } else {
            ResponseKind::BadStatus
        }),
{
    if code == 200 {
        ResponseKind::Success
    } else if code == 400 || code == 500 {
        ResponseKind::GatewayError
    } else {
        ResponseKind::BadStatus
    }
}

/// The answer to a lookup, from the gateway's response: the text that was
/// asked for, none where the gateway reports the error code `missing` (the
/// block or class does not exist), and any other error as it is.
pub fn absent_on(response: Result<String, ClientError>, missing: StarknetErrorCode) -> (r: Result<
    Option<String>,
    ClientError,
>)
    ensures
        match response {
            Ok(text) => r == Ok::<Option<String>, ClientError>(Some(text)),
            Err(ClientError::StarknetError(e)) => if e.code == missing {
                r == Ok::<Option<String>, ClientError>(None)
            } else {
                r == Err::<Option<String>, ClientError>(ClientError::StarknetError(e))
            },
            Err(e) => r == Err::<Option<String>, ClientError>(e),
        },
{
    match response {
        Ok(text) => Ok(Some(text)),
        Err(ClientError::StarknetError(e)) => {
            if e.code == missing {
                Ok(None)
            } else {
                Err(ClientError::StarknetError(e))
            }
        },
        Err(e) => Err(e),
    }
}

/// The classes whose compiled form is malformed on the integration network:
/// the client answers with an empty compiled class for them.
pub open spec fn default_compiled_classes() -> Seq<ClassHash> {
    seq![
        ClassHash(StarkHash(0x04e70b19333ae94b, 0xd958625f7b61ce9e, 0xec631653597e6864, 0x5e13780061b2136c)),
        ClassHash(StarkHash(0x06208b3f9f94e622, 0x0f3d6a3562fe06a3, 0x5a66181a202d946c, 0x3522fd28eda9ea1b)),
        ClassHash(StarkHash(0x00d6916ff38c93f8, 0x34e7223a95b41d45, 0x42152d8288ff388b, 0x5d3dcdf8126a784a)),
        ClassHash(StarkHash(0x0161354521d46ca8, 0x9a5b64aa41fa4e77, 0xffeadc0f9796272d, 0x9b94227dbbb3840e)),
        ClassHash(StarkHash(0x06a9eb910b3f8398, 0x9900c8d65f9d67d6, 0x7016f2528cc1b834, 0x019cf489f4f7d716)),
    ]
}

/// Whether the client answers for this class with an empty compiled class
/// instead of asking the gateway.
pub fn uses_default_compiled_class(class_hash: &ClassHash) -> (r: bool)
    ensures
        r == default_compiled_classes().contains(*class_hash),
{
    let defaults: Vec<ClassHash> = vec![
        ClassHash(StarkHash(0x04e70b19333ae94b, 0xd958625f7b61ce9e, 0xec631653597e6864, 0x5e13780061b2136c)),
        ClassHash(StarkHash(0x06208b3f9f94e622, 0x0f3d6a3562fe06a3, 0x5a66181a202d946c, 0x3522fd28eda9ea1b)),
        ClassHash(StarkHash(0x00d6916ff38c93f8, 0x34e7223a95b41d45, 0x42152d8288ff388b, 0x5d3dcdf8126a784a)),
        ClassHash(StarkHash(0x0161354521d46ca8, 0x9a5b64aa41fa4e77, 0xffeadc0f9796272d, 0x9b94227dbbb3840e)),
        ClassHash(StarkHash(0x06a9eb910b3f8398, 0x9900c8d65f9d67d6, 0x7016f2528cc1b834, 0x019cf489f4f7d716)),
    ];
    assert(defaults@ =~= default_compiled_classes());
    let mut i: usize = 0;
    while i < defaults.len()
        invariant
            i <= defaults@.len(),
            defaults@ == default_compiled_classes(),
            forall|j: int| 0 <= j < i ==> defaults@[j] != *class_hash,
        decreases defaults@.len() - i,
    {
        if defaults[i] == *class_hash {
            return true;
        }
        i += 1;
    }
    false
}

} // verus!
