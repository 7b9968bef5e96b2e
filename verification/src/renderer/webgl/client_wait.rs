//! Waiting for a fence sync of a WebGL context: the parameters of each
//! `clientWaitSync` call and what follows from each of its answers. The
//! caller runs the loop: it makes the call, hands the answer over, and
//! resolves, rejects, or waits and asks again.
use vstd::prelude::*;

use super::constants;
use super::conversion::ToGlEnum;

verus! {

/// Available client wait flags mapped from [`WebGl2RenderingContext`].
#[allow(non_camel_case_types)]
#[derive(Debug, Clone, Copy, PartialEq, Eq, Hash, Structural)]
pub enum ClientWaitFlags {
    SYNC_FLUSH_COMMANDS_BIT,
}

/// The answers of `clientWaitSync`.
#[derive(Debug, Clone, Copy, PartialEq, Eq, Hash, Structural)]
pub enum ClientWaitStatus {
    AlreadySignaled,
    TimeoutExpired,
    ConditionSatisfied,
    WaitFailed,
}

/// What to do after an answer of `clientWaitSync`.
#[derive(Debug, Clone, Copy, PartialEq, Eq, Hash, Structural)]
pub enum ClientWaitAction {
    /// The fence is signaled: the wait succeeds.
    Resolve,
    /// The wait fails.
    Reject,
    /// Ask again after this many milliseconds.
    Retry(i32),
}

/// The answer a WebGL status code stands for.
pub open spec fn status_of(code: u32) -> Option<ClientWaitStatus> {
    if code == constants::ALREADY_SIGNALED {
        Some(ClientWaitStatus::AlreadySignaled)
    } else if code == constants::TIMEOUT_EXPIRED {
        Some(ClientWaitStatus::TimeoutExpired)
    } else if code == constants::CONDITION_SATISFIED {
        Some(ClientWaitStatus::ConditionSatisfied)
    } else if code == constants::WAIT_FAILED {
        Some(ClientWaitStatus::WaitFailed)
    } else {
        None
    }
}

/// Reads the status code `clientWaitSync` returned; `None` for a code
/// WebGL never returns.
pub fn client_wait_status(code: u32) -> (r: Option<ClientWaitStatus>)
    ensures
        r == status_of(code),
{
    if code == constants::ALREADY_SIGNALED {
        Some(ClientWaitStatus::AlreadySignaled)
    } else if code == constants::TIMEOUT_EXPIRED {
        Some(ClientWaitStatus::TimeoutExpired)
    } else if code == constants::CONDITION_SATISFIED {
        Some(ClientWaitStatus::ConditionSatisfied)
    } else if code == constants::WAIT_FAILED {
        Some(ClientWaitStatus::WaitFailed)
    } else {
        None
    }
}

/// The flags passed to `clientWaitSync`: the given flags, or none.
pub fn client_wait_flags(flags: Option<ClientWaitFlags>) -> (r: u32)
    ensures
        r == match flags {
            Some(f) => f.gl_value(),
            None => constants::NONE,
        },
{
    match flags {
        Some(f) => f.gl_enum(),
        None => constants::NONE,
    }
}

/// The timeout passed to `clientWaitSync`: the requested nanoseconds, cut to
/// 32 bits, and no more than `MAX_CLIENT_WAIT_TIMEOUT_WEBGL`.
pub fn client_wait_timeout(wait_timeout_nanoseconds: usize) -> (r: u32)
    ensures
        r == if (wait_timeout_nanoseconds as u32) < constants::MAX_CLIENT_WAIT_TIMEOUT_WEBGL {
            wait_timeout_nanoseconds as u32
        } else {
            constants::MAX_CLIENT_WAIT_TIMEOUT_WEBGL
        },
        r <= constants::MAX_CLIENT_WAIT_TIMEOUT_WEBGL,
{
    let timeout = wait_timeout_nanoseconds as u32;
    if timeout < constants::MAX_CLIENT_WAIT_TIMEOUT_WEBGL {
        timeout
    } else {
        constants::MAX_CLIENT_WAIT_TIMEOUT_WEBGL
    }
}

/// What follows an answer: a signaled fence resolves, a failure rejects, an
/// expired timeout is retried after `retry_interval_milliseconds` when one
/// is given and rejects otherwise.
pub open spec fn next_action(status: ClientWaitStatus, retry_interval_milliseconds: Option<usize>) -> ClientWaitAction {
    match status {
        ClientWaitStatus::AlreadySignaled => ClientWaitAction::Resolve,
        ClientWaitStatus::ConditionSatisfied => ClientWaitAction::Resolve,
        ClientWaitStatus::WaitFailed => ClientWaitAction::Reject,
        ClientWaitStatus::TimeoutExpired => match retry_interval_milliseconds {
            Some(ms) => ClientWaitAction::Retry(ms as i32),
            None => ClientWaitAction::Reject,
        },
    }
}

/// Decides what follows an answer of `clientWaitSync`.
pub fn client_wait_next(status: ClientWaitStatus, retry_interval_milliseconds: Option<usize>) -> (r: ClientWaitAction)
    ensures
        r == next_action(status, retry_interval_milliseconds),
{
    match status {
        ClientWaitStatus::AlreadySignaled => ClientWaitAction::Resolve,
        ClientWaitStatus::ConditionSatisfied => ClientWaitAction::Resolve,
        ClientWaitStatus::WaitFailed => ClientWaitAction::Reject,
        ClientWaitStatus::TimeoutExpired => match retry_interval_milliseconds {
            Some(ms) => ClientWaitAction::Retry(ms as i32),
            None => ClientWaitAction::Reject,
        },
    }
}

/// A wait succeeds exactly when the fence is signaled, and is asked again
/// only after an expired timeout with a retry interval.
pub proof fn lemma_client_wait_outcomes(status: ClientWaitStatus, retry_interval_milliseconds: Option<usize>)
    ensures
        (next_action(status, retry_interval_milliseconds) == ClientWaitAction::Resolve) <==> (status
            == ClientWaitStatus::AlreadySignaled || status == ClientWaitStatus::ConditionSatisfied),
        (next_action(status, retry_interval_milliseconds) is Retry) <==> (status == ClientWaitStatus::TimeoutExpired
            && retry_interval_milliseconds is Some),
{
}

/// The status codes of `clientWaitSync` stand for the answers of their names
/// (`ALREADY_SIGNALED` 37146, `TIMEOUT_EXPIRED` 37147, `CONDITION_SATISFIED`
/// 37148, `WAIT_FAILED` 37149) and every other code for none; a retried wait
/// waits the interval it was given; the timeout never passes
/// `MAX_CLIENT_WAIT_TIMEOUT_WEBGL` (37447) and keeps a smaller request.
pub proof fn lemma_client_wait_codes(code: u32, status: ClientWaitStatus, retry_interval_milliseconds: usize)
    ensures
        status_of(37146) == Some(ClientWaitStatus::AlreadySignaled),
        status_of(37147) == Some(ClientWaitStatus::TimeoutExpired),
        status_of(37148) == Some(ClientWaitStatus::ConditionSatisfied),
        status_of(37149) == Some(ClientWaitStatus::WaitFailed),
        (code < 37146 || code > 37149) ==> status_of(code) is None,
        next_action(ClientWaitStatus::TimeoutExpired, Some(retry_interval_milliseconds)) == ClientWaitAction::Retry(
            retry_interval_milliseconds as i32,
        ),
        constants::MAX_CLIENT_WAIT_TIMEOUT_WEBGL == 37447,
        constants::NONE == 0,
{
}

} // verus!
