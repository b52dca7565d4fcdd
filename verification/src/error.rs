use crate::http::{describe_status, representable_status, status_line};
use crate::text::{decimal, to_decimal};
use vstd::prelude::*;
use vstd::string::*;

verus! {

/// Why a call could not be configured.
#[derive(Debug, Clone, Copy, PartialEq, Eq, Structural)]
pub enum ConfigurationFault {
    /// Neither an explicit token nor a fallback token was available.
    MissingToken,
    /// The token holds a character that no HTTP header value may carry.
    UnusableToken,
    /// The polling policy has a zero interval, or a cap below its first interval.
    InvalidPolicy,
}

/// Every way a call to the service can fail.
#[derive(Debug, Clone, PartialEq, Eq)]
pub enum ClientError {
    /// The client was not set up well enough to make the call.
    Configuration { reason: ConfigurationFault },
    /// The input exceeds a stated limit; nothing was sent.
    Validation { given: usize, limit: usize },
    /// The exchange itself failed, or the response was malformed.
    Transport { detail: String },
    /// The service answered with a failure status.
    Remote { status: u16, detail: String },
    /// Polling used up its waiting budget before the job resolved.
    PollTimeout { waited_ms: u64, polls: u64 },
}

/// The mathematical content of a [`ClientError`].
pub enum ClientErrorView {
    Configuration { reason: ConfigurationFault },
    Validation { given: usize, limit: usize },
    Transport { detail: Seq<char> },
    Remote { status: u16, detail: Seq<char> },
    PollTimeout { waited_ms: u64, polls: u64 },
}

impl View for ClientError {
    type V = ClientErrorView;

    open spec fn view(&self) -> ClientErrorView {
        match *self {
            ClientError::Configuration { reason } => ClientErrorView::Configuration { reason },
            ClientError::Validation { given, limit } => ClientErrorView::Validation {
                given,
                limit,
            },
            ClientError::Transport { detail } => ClientErrorView::Transport { detail: detail@ },
            ClientError::Remote { status, detail } => ClientErrorView::Remote {
                status,
                detail: detail@,
            },
            ClientError::PollTimeout { waited_ms, polls } => ClientErrorView::PollTimeout {
                waited_ms,
                polls,
            },
        }
    }
}

/// How a status is written in a message: as `reqwest` displays it, or as its
/// bare number where no status can hold the code.
pub open spec fn status_text(status: u16) -> Seq<char> {
    if representable_status(status) {
        status_line(status)
    } else {
        decimal(status as nat)
    }
}

/// What a configuration fault is called in a message.
pub open spec fn fault_text(reason: ConfigurationFault) -> Seq<char> {
    match reason {
        ConfigurationFault::MissingToken => "no API token was given"@,
        ConfigurationFault::UnusableToken => "the API token cannot be sent in a header"@,
        ConfigurationFault::InvalidPolicy => "the polling intervals do not fit together"@,
    }
}

/// The message of an error.
pub open spec fn message_of(e: ClientErrorView) -> Seq<char> {
    match e {
        ClientErrorView::Configuration { reason } => fault_text(reason),
        ClientErrorView::Validation { given, limit } => "Content list exceeds maximum limit of "@
            + decimal(limit as nat),
        ClientErrorView::Transport { detail } => detail,
        ClientErrorView::Remote { status, detail } => status_text(status) + ": "@ + detail,
        ClientErrorView::PollTimeout { waited_ms, polls } => "polling gave up after "@ + decimal(
            waited_ms as nat,
        ) + " ms and "@ + decimal(polls as nat) + " polls"@,
    }
}

impl ClientError {
    /// Describes the error in one line.
    pub fn message(&self) -> (text: String)
        ensures
            text@ == message_of(self@),
    {
        match self {
            ClientError::Configuration { reason } => {
                match reason {
                    ConfigurationFault::MissingToken => String::from_str("no API token was given"),
                    ConfigurationFault::UnusableToken => String::from_str(
                        "the API token cannot be sent in a header",
                    ),
                    ConfigurationFault::InvalidPolicy => String::from_str(
                        "the polling intervals do not fit together",
                    ),
                }
            },
            ClientError::Validation { given, limit } => {
                let mut text = String::from_str("Content list exceeds maximum limit of ");
                text.append(to_decimal(*limit as u64).as_str());
                text
            },
            ClientError::Transport { detail } => detail.clone(),
            ClientError::Remote { status, detail } => {
                let mut text = match describe_status(*status) {
                    Some(line) => line,
                    None => to_decimal(*status as u64),
                };
                text.append(": ");
                text.append(detail.as_str());
                text
            },
            ClientError::PollTimeout { waited_ms, polls } => {
                let mut text = String::from_str("polling gave up after ");
                text.append(to_decimal(*waited_ms).as_str());
                text.append(" ms and ");
                text.append(to_decimal(*polls).as_str());
                text.append(" polls");
                text
            },
        }
    }
}

} // verus!
