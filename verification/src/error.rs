//! Violations of the contract between host and guest.

use vstd::prelude::*;
use vstd::string::*;
use crate::text::{decimal, decimal_digits};

verus! {

/// A violation of the contract between host and guest.
///
/// None of these is recoverable: the host and the guest disagree on the
/// protocol, and the entry point that meets one must abort the current
/// invocation rather than carry on with state it cannot trust.
#[derive(Clone, Copy, Debug, PartialEq, Eq, Hash, Structural)]
pub enum Fatal {
    /// A context was to be created under an identifier that is already live.
    DuplicateContextId,
    /// A stream callback named an identifier that has no live stream context.
    UnknownContextId,
    /// A root context was to be created before any root factory was registered.
    MissingRootFactory,
    /// A stream context was to be created under a parent that is no live root context.
    UnknownRootContext,
    /// The parent root context was asked for a stream context and gave none.
    FactoryReturnedNone,
    /// The parent root context declares no kind of child, and no stream factory is registered.
    UnknownContextType,
    /// The host answered an imported call with a status that the call does not allow for.
    UnexpectedHostStatus { code: u32 },
    /// The host handed over bytes that are not UTF-8 where text is required.
    InvalidUtf8,
    /// A message for a foreign function could not be put on the wire, or
    /// what came back is no message.
    MalformedMessage,
}

impl Fatal {
    /// The words in which this violation is reported.
    pub open spec fn spec_message(self) -> Seq<char> {
        match self {
            Fatal::DuplicateContextId => "duplicate context_id"@,
            Fatal::UnknownContextId => "invalid context_id"@,
            Fatal::MissingRootFactory => "None RootContext fn"@,
            Fatal::UnknownRootContext => "invalid root_context_id"@,
            Fatal::FactoryReturnedNone => "create_http_context returned None"@,
            Fatal::UnknownContextType => "missing ContextType on root_context"@,
            Fatal::UnexpectedHostStatus { code } => "unexpected status: "@ + decimal_digits(
                code as nat,
            ),
            Fatal::InvalidUtf8 => "invalid UTF-8 in host data"@,
            Fatal::MalformedMessage => "malformed message"@,
        }
    }

    /// The words in which this violation is reported, for the adapter that
    /// turns it into an abort.
    pub fn message(self) -> (text: String)
        ensures
            text@ == self.spec_message(),
    {
        match self {
            Fatal::DuplicateContextId => "duplicate context_id".to_owned(),
            Fatal::UnknownContextId => "invalid context_id".to_owned(),
            Fatal::MissingRootFactory => "None RootContext fn".to_owned(),
            Fatal::UnknownRootContext => "invalid root_context_id".to_owned(),
            Fatal::FactoryReturnedNone => "create_http_context returned None".to_owned(),
            Fatal::UnknownContextType => "missing ContextType on root_context".to_owned(),
            Fatal::UnexpectedHostStatus { code } => {
                let mut text = "unexpected status: ".to_owned();
                let digits = decimal(code);
                text.append(digits.as_str());
                text
            },
            Fatal::InvalidUtf8 => "invalid UTF-8 in host data".to_owned(),
            Fatal::MalformedMessage => "malformed message".to_owned(),
        }
    }
}

} // verus!
