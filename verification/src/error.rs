//! Error model of the synchronization core.
//!
//! Connection, authentication and folder-selection failures are fatal to the
//! enclosing operation; per-message fetch and parse failures are isolated
//! inside message synchronization and never escalate.

use vstd::prelude::*;

verus! {

/// The mutation step that failed, for [`MailError::MutationStepError`].
#[derive(Clone, Copy, Debug, PartialEq, Eq, Structural)]
pub enum MutationStepKind {
    /// Copying the message to the destination folder.
    CopyStep,
    /// Storing a flag change on the message.
    StoreStep,
    /// Expunging messages marked deleted.
    ExpungeStep,
}

/// A failure of one of the synchronization operations.
#[derive(Clone, Debug)]
pub enum MailError {
    /// The provider name is not in the fixed provider table. Carries the
    /// offending provider name.
    UnsupportedProvider(String),
    /// The TCP connection could not be established.
    TransportError(String),
    /// TLS negotiation failed.
    TlsError(String),
    /// The server rejected the credential. Carries the provider name and the
    /// server's diagnostic text.
    AuthenticationError(String, String),
    /// The target folder could not be selected.
    FolderSelectError(String),
    /// The identifier search failed (or its predicate could not be built).
    SearchError(String),
    /// A fetch round failed; non-fatal inside message synchronization.
    FetchError(String),
    /// A message could not be parsed; non-fatal inside message synchronization.
    ParseError(String),
    /// A mutation step failed; says which step.
    MutationStepError(MutationStepKind, String),
}

impl MailError {
    /// A short label naming the error kind.
    pub fn kind_label(&self) -> (r: &'static str)
        ensures
            r@ == spec_kind_label(*self),
    {
        match self {
            MailError::UnsupportedProvider(_) => "unsupported provider",
            MailError::TransportError(_) => "transport error",
            MailError::TlsError(_) => "tls error",
            MailError::AuthenticationError(_, _) => "authentication error",
            MailError::FolderSelectError(_) => "folder select error",
            MailError::SearchError(_) => "search error",
            MailError::FetchError(_) => "fetch error",
            MailError::ParseError(_) => "parse error",
            MailError::MutationStepError(_, _) => "mutation step error",
        }
    }
}

/// The label that [`MailError::kind_label`] returns for each kind.
pub open spec fn spec_kind_label(e: MailError) -> Seq<char> {
    match e {
        MailError::UnsupportedProvider(_) => "unsupported provider"@,
        MailError::TransportError(_) => "transport error"@,
        MailError::TlsError(_) => "tls error"@,
        MailError::AuthenticationError(_, _) => "authentication error"@,
        MailError::FolderSelectError(_) => "folder select error"@,
        MailError::SearchError(_) => "search error"@,
        MailError::FetchError(_) => "fetch error"@,
        MailError::ParseError(_) => "parse error"@,
        MailError::MutationStepError(_, _) => "mutation step error"@,
    }
}

} // verus!
