//! What resolving a track can come to.

use std::time::Duration;

use vstd::prelude::*;
use vstd::string::*;

use crate::clock;
use crate::clock::span_text;
use crate::media::json;
use crate::media::json::error_text;
use crate::media::track::ResolvedTrack;

verus! {

/// The most tracks that one playlist submission queues.
pub const MAX_PLAYLIST_ITEMS: usize = 25;

/// Whether retrying a failed source operation can reasonably succeed without
/// changing the request or local configuration.
#[derive(Debug, Clone, Copy, PartialEq, Eq, Structural)]
pub enum RetryClass {
    /// The failure is transient and may succeed on a later attempt.
    Retryable,
    /// Retrying the same operation is not expected to help.
    Permanent,
}

/// Why a source operation failed.
#[derive(Debug)]
pub enum ResolveError {
    Spawn { backend: String, source: String },
    TimedOut { backend: String, timeout: Duration },
    BackendFailed { backend: String, message: String },
    NoResults,
    MissingField { field: &'static str },
    InvalidJson(serde_json::Error),
    InvalidMediaUrl,
}

impl ResolveError {
    pub open spec fn message(self) -> Seq<char> {
        match self {
            ResolveError::Spawn { backend, source } => "failed to start resolver backend `"@
                + backend@ + "`: "@ + source@,
            ResolveError::TimedOut { backend, timeout } => "resolver backend `"@ + backend@
                + "` timed out after "@ + clock::duration_debug(timeout),
            ResolveError::BackendFailed { backend, message } => "resolver backend `"@ + backend@
                + "` exited unsuccessfully: "@ + message@,
            ResolveError::NoResults => "resolver backend returned no matching track"@,
            ResolveError::MissingField { field } =>
                "resolver output was missing required field `"@ + field@ + "`"@,
            ResolveError::InvalidJson(error) => "resolver output was invalid JSON: "@
                + json::json_fault(error),
            ResolveError::InvalidMediaUrl => "resolver returned an invalid media URL"@,
        }
    }

    /// The error in words.
    pub fn text(&self) -> (text: String)
        ensures
            text@ == self.message(),
    {
        match self {
            ResolveError::Spawn { backend, source } => {
                let mut text: String = "failed to start resolver backend `".to_owned();
                text.append(backend.as_str());
                text.append("`: ");
                text.append(source.as_str());
                text
            },
            ResolveError::TimedOut { backend, timeout } => {
                let mut text: String = "resolver backend `".to_owned();
                text.append(backend.as_str());
                text.append("` timed out after ");
                text.append(span_text(*timeout).as_str());
                text
            },
            ResolveError::BackendFailed { backend, message } => {
                let mut text: String = "resolver backend `".to_owned();
                text.append(backend.as_str());
                text.append("` exited unsuccessfully: ");
                text.append(message.as_str());
                text
            },
            ResolveError::NoResults => "resolver backend returned no matching track".to_owned(),
            ResolveError::MissingField { field } => {
                let mut text: String = "resolver output was missing required field `".to_owned();
                text.append(field);
                text.append("`");
                text
            },
            ResolveError::InvalidJson(error) => {
                "resolver output was invalid JSON: ".to_owned().concat(error_text(error).as_str())
            },
            ResolveError::InvalidMediaUrl => "resolver returned an invalid media URL".to_owned(),
        }
    }

    /// Classifies source failures without relying on backend error strings.
    ///
    /// Timeouts and backend process failures can be caused by transient network
    /// or upstream conditions. Spawn/configuration failures and malformed or
    /// semantically empty resolver output require operator or request changes.
    #[must_use]
    pub fn retry_class(&self) -> (class: RetryClass)
        ensures
            class == if self is TimedOut || self is BackendFailed {
                RetryClass::Retryable
            } else {
                RetryClass::Permanent
            },
    {
        match self {
            ResolveError::TimedOut { .. } | ResolveError::BackendFailed { .. } => {
                RetryClass::Retryable
            },
            ResolveError::Spawn { .. }
            | ResolveError::NoResults
            | ResolveError::MissingField { .. }
            | ResolveError::InvalidJson(_)
            | ResolveError::InvalidMediaUrl => RetryClass::Permanent,
        }
    }

    #[must_use]
    pub fn is_retryable(&self) -> (retryable: bool)
        ensures
            retryable == (self is TimedOut || self is BackendFailed),
    {
        matches!(self.retry_class(), RetryClass::Retryable)
    }
}

/// What a resolver without support for playlists makes of one: the single
/// track that the submission resolves to.
pub fn playlist_of_one(resolved: Result<ResolvedTrack, ResolveError>) -> (playlist: Result<
    Vec<ResolvedTrack>,
    ResolveError,
>)
    ensures
        match resolved {
            Ok(track) => playlist is Ok && playlist->Ok_0@ == seq![track],
            Err(error) => playlist == Err::<Vec<ResolvedTrack>, ResolveError>(error),
        },
{
    match resolved {
        Ok(track) => Ok(vec![track]),
        Err(error) => Err(error),
    }
}

/// Every error names what failed and says why, as far as that is known.
pub proof fn law_errors_name_what_failed(error: ResolveError)
    ensures
        match error {
            ResolveError::Spawn { backend, source } => error.message()
                == "failed to start resolver backend `"@ + backend@ + "`: "@ + source@,
            ResolveError::TimedOut { backend, timeout } => error.message() == "resolver backend `"@
                + backend@ + "` timed out after "@ + clock::duration_debug(timeout),
            ResolveError::BackendFailed { backend, message } => error.message()
                == "resolver backend `"@ + backend@ + "` exited unsuccessfully: "@ + message@,
            ResolveError::MissingField { field } => error.message()
                == "resolver output was missing required field `"@ + field@ + "`"@,
            ResolveError::NoResults => error.message()
                == "resolver backend returned no matching track"@,
            ResolveError::InvalidJson(fault) => error.message()
                == "resolver output was invalid JSON: "@ + json::json_fault(fault),
            ResolveError::InvalidMediaUrl => error.message()
                == "resolver returned an invalid media URL"@,
        },
{
}

/// A failure is worth a retry exactly if the backend ran out of time or failed
/// by itself. A backend that cannot be started, and output that is of no use,
/// stay as they are.
pub proof fn law_only_transient_failures_are_retried(
    error: ResolveError,
    class: RetryClass,
    retryable: bool,
)
    requires
        call_ensures(ResolveError::retry_class, (&error,), class),
        call_ensures(ResolveError::is_retryable, (&error,), retryable),
    ensures
        retryable <==> class == RetryClass::Retryable,
        match error {
            ResolveError::TimedOut { .. } | ResolveError::BackendFailed { .. } => retryable,
            _ => !retryable,
        },
{
}

} // verus!
