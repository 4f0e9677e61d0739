//! Wire mappings: each error to its HTTP status code and body message.

use vstd::prelude::*;

use crate::api::TaskRouteError;
use crate::auth::{ClerkServiceError, IdentityError};
use crate::task::SharedTaskError;
use vstd::string::StringExecFns;

verus! {

/// Maps a task mutation error to its HTTP status and body message.
pub fn task_error_response(error: &SharedTaskError) -> (r: (u16, String))
    ensures
        match error {
            SharedTaskError::NotFound => r.0 == 404 && r.1@ == "task not found"@,
            SharedTaskError::Forbidden => r.0 == 403 && r.1@
                == "only the assignee can modify this \
                task"@,
            SharedTaskError::Conflict(m) => r.0 == 409 && r.1@ == m@,
            SharedTaskError::PayloadTooLarge => r.0 == 400 && r.1@
                == "title and description cannot exceed 50 KiB combined"@,
        },
{
    match error {
        SharedTaskError::NotFound => (404, String::from_str("task not found")),
        SharedTaskError::Forbidden => (
            403,
            String::from_str(
                "only the assignee can modify this \
                task",
            ),
        ),
        SharedTaskError::Conflict(m) => (409, m.clone()),
        SharedTaskError::PayloadTooLarge => (
            400,
            String::from_str("title and description cannot exceed 50 KiB combined"),
        ),
    }
}

/// Maps an identity error to its HTTP status and body message: a
/// provider refusal is the caller's fault and carries the route's
/// message; a database failure is internal.
pub fn identity_error_response(error: &IdentityError, message: &String) -> (r: (u16, String))
    ensures
        match error {
            IdentityError::Clerk(e) => r.0 == 400 && r.1@ == message@,
            IdentityError::Database(e) => r.0 == 500 && r.1@ == "internal server error"@,
        },
{
    match error {
        IdentityError::Clerk(_) => (400, message.clone()),
        IdentityError::Database(_) => (500, String::from_str("internal server error")),
    }
}

/// Maps a whole task route failure to its HTTP status and body message.
pub fn task_route_error_response(error: &TaskRouteError, identity_message: &String) -> (r: (
    u16,
    String,
))
    ensures
        match error {
            TaskRouteError::Task(e) => match e {
                SharedTaskError::NotFound => r.0 == 404 && r.1@ == "task not found"@,
                SharedTaskError::Forbidden => r.0 == 403 && r.1@
                    == "only the assignee can modify this \
                    task"@,
                SharedTaskError::Conflict(m) => r.0 == 409 && r.1@ == m@,
                SharedTaskError::PayloadTooLarge => r.0 == 400 && r.1@
                    == "title and description cannot exceed 50 KiB combined"@,
            },
            TaskRouteError::Identity(e) => match e {
                IdentityError::Clerk(c) => r.0 == 400 && r.1@ == identity_message@,
                IdentityError::Database(c) => r.0 == 500 && r.1@ == "internal server error"@,
            },
        },
{
    match error {
        TaskRouteError::Task(e) => task_error_response(e),
        TaskRouteError::Identity(e) => identity_error_response(e, identity_message),
    }
}

/// Maps a GitHub token retrieval failure to its HTTP status and body
/// message: an unlinked account is a failed precondition, everything
/// else an upstream failure.
pub fn clerk_token_error_response(error: &ClerkServiceError) -> (r: (u16, String))
    ensures
        match error {
            ClerkServiceError::NotFound(_) => r.0 == 412 && r.1@ == "github account not linked"@,
            ClerkServiceError::OAuthTokenUnavailable(_) => r.0 == 412 && r.1@
                == "github account not linked"@,
            ClerkServiceError::InvalidResponse(_) => r.0 == 502 && r.1@
                == "failed to retrieve GitHub token"@,
            ClerkServiceError::Http(_) => r.0 == 502 && r.1@ == "failed to retrieve GitHub token"@,
        },
{
    match error {
        ClerkServiceError::NotFound(_) | ClerkServiceError::OAuthTokenUnavailable(_) => (
            412,
            String::from_str("github account not linked"),
        ),
        ClerkServiceError::InvalidResponse(_) | ClerkServiceError::Http(_) => (
            502,
            String::from_str("failed to retrieve GitHub token"),
        ),
    }
}

} // verus!
