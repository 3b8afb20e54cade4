//! Classification of what came back from the remote agent.
//!
//! A transport performs a prepared request and reports three things: the
//! status code, the raw body text, and the result of decoding that body
//! into the expected entity (`None` when it did not decode). This module
//! turns that report into the client's result: success statuses with a
//! decoded body succeed, success statuses without one are decode errors,
//! and everything else is a transport error carrying the status. Nothing is
//! retried.

use vstd::prelude::*;

use crate::error::AgentError;

verus! {

/// The success statuses: the whole 2xx range.
pub open spec fn is_success_status(status: u16) -> bool {
    200 <= status && status < 300
}

/// Whether `status` counts as success.
pub fn status_is_success(status: u16) -> (r: bool)
    ensures
        r == is_success_status(status),
{
    200 <= status && status < 300
}

/// Turn a transport's report of one exchange into the client's result.
pub fn handle_response<T>(status: u16, body: String, decoded: Option<T>) -> (r: Result<
    T,
    AgentError,
>)
    ensures
        is_success_status(status) ==> (match decoded {
            Option::Some(v) => r matches Ok(w) && w == v,
            Option::None => r matches Err(AgentError::Decode { body: b }) && b@ == body@,
        }),
        !is_success_status(status) ==> (r matches Err(AgentError::Transport { status: s, body: b })
            && s == status && b@ == body@),
{
    if status_is_success(status) {
        match decoded {
            Option::Some(v) => Result::Ok(v),
            Option::None => Result::Err(AgentError::Decode { body }),
        }
    } else {
        Result::Err(AgentError::Transport { status, body })
    }
}

} // verus!
