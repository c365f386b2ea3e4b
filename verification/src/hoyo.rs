use vstd::prelude::*;

verus! {

/// The universal response wrapper every endpoint returns: an application-level
/// status code, a human-readable message, and an optional typed payload.
pub struct HoyoResult<T> {
    pub retcode: i32,
    pub message: String,
    pub data: Option<T>,
}

/// An application-level failure: the envelope carried a non-zero retcode.
/// The raw retcode is kept so callers can match specific vendor codes.
#[derive(Debug)]
pub struct HoyoError {
    pub retcode: i32,
    pub message: String,
}

/// What a single HTTP exchange produced, as the transport layer hands it back.
pub enum HttpOutcome<T> {
    /// The request never completed: DNS, TLS, connect or read failure.
    Transport { timeout: bool },
    /// The request completed with a non-success HTTP status.
    BadStatus { status: u16 },
    /// The request completed with a success status and a well-formed envelope body.
    Decoded { result: HoyoResult<T> },
    /// The request completed with a success status but the body was not a
    /// well-formed envelope.
    MalformedBody,
}

/// The error taxonomy of one API call, in classification order: transport
/// failure, bad HTTP status, non-zero envelope retcode, malformed body.
#[derive(Debug)]
pub enum SendError {
    Transport { timeout: bool },
    Status { status: u16 },
    Api { error: HoyoError },
    Decode,
}

/// Connect timeout applied to every request, in seconds.
pub const CONNECT_TIMEOUT_SECS: u64 = 5;

/// Read timeout applied to every request, in seconds.
pub const READ_TIMEOUT_SECS: u64 = 10;

/// Whether an HTTP status code counts as success for envelope decoding.
pub fn status_is_success(status: u16) -> (r: bool)
    ensures
        r == (200 <= status && status < 300),
{
    200 <= status && status < 300
}

/// The fixed `Referer` header value attached to every outgoing request.
pub fn referer() -> (r: &'static str)
    ensures
        r@ == "https://www.hoyoverse.com/en-us"@,
{
    "https://www.hoyoverse.com/en-us"
}

/// The fixed browser-impersonating `User-Agent` header value attached to
/// every outgoing request.
pub fn user_agent() -> (r: &'static str)
    ensures
        r@ == "Mozilla/5.0 (Windows NT 10.0; Win64; x64) AppleWebKit/537.36 (KHTML, like Gecko) Chrome/126.0.0.0 Safari/537.36"@,
{
    "Mozilla/5.0 (Windows NT 10.0; Win64; x64) AppleWebKit/537.36 (KHTML, like Gecko) Chrome/126.0.0.0 Safari/537.36"
}

/// Classifies a completed exchange. A transport failure, a non-success
/// status and a malformed body each map to their own error; a well-formed
/// envelope yields its payload when the retcode is zero and an `Api` error
/// carrying the retcode and message otherwise, regardless of the HTTP status
/// having been a success.
pub fn classify_response<T>(outcome: HttpOutcome<T>) -> (r: Result<Option<T>, SendError>)
    ensures
        match outcome {
            HttpOutcome::Transport { timeout } => r matches Err(SendError::Transport {
                timeout: t,
            }) && t == timeout,
            HttpOutcome::BadStatus { status } => r matches Err(SendError::Status { status: s })
                && s == status,
            HttpOutcome::MalformedBody => r matches Err(SendError::Decode),
            HttpOutcome::Decoded { result } => if result.retcode == 0 {
                r matches Ok(d) && d == result.data
            } else {
                r matches Err(SendError::Api { error }) && error.retcode == result.retcode
                    && error.message == result.message
            },
        },
{
    match outcome {
        HttpOutcome::Transport { timeout } => Err(SendError::Transport { timeout }),
        HttpOutcome::BadStatus { status } => Err(SendError::Status { status }),
        HttpOutcome::MalformedBody => Err(SendError::Decode),
        HttpOutcome::Decoded { result } => {
            if result.retcode != 0 {
                Err(
                    SendError::Api {
                        error: HoyoError { retcode: result.retcode, message: result.message },
                    },
                )
            } else {
                Ok(result.data)
            }
        },
    }
}

/// Relies on std's `SystemTime::now`; the rest converts its result to
/// milliseconds since the Unix epoch (zero if the clock is set before the
/// epoch). Nothing can be promised of the current time.
#[verifier::external_body]
fn system_millis() -> u128 {
    std::time::SystemTime::now().duration_since(std::time::UNIX_EPOCH).map(
        |d| d.as_millis(),
    ).unwrap_or(0)
}

/// Milliseconds since the Unix epoch at the moment of the call, as read from
/// the system clock.
pub fn now_timestamp() -> u128 {
    system_millis()
}

/// A stable short identifier for a game, used to tag its log lines.
pub trait Name {
    spec fn spec_name(&self) -> Seq<char>;

    fn name(&self) -> (r: &str)
        ensures
            r@ == self.spec_name(),
    ;
}

/// A daily-info payload that can report whether today's check-in is done.
pub trait DailyInfoData {
    spec fn spec_is_sign(&self) -> bool;

    fn is_sign(&self) -> (r: bool)
        ensures
            r == self.spec_is_sign(),
    ;
}

} // verus!
