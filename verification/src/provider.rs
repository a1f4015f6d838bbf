//! The fixed provider table.
//!
//! Two provider profiles are supported: a Google-style and a Microsoft-style
//! mailbox service. Every operation resolves its endpoint from this table
//! before any network activity; an unknown provider name is rejected
//! immediately.

use vstd::prelude::*;
use crate::error::MailError;
use crate::text::eq_str;

verus! {

use vstd::string::StringExecFns;

/// A provider profile from the fixed table.
#[derive(Clone, Copy, Debug, PartialEq, Eq, Structural)]
pub enum Provider {
    Gmail,
    Outlook,
}

/// The provider that a provider name denotes, if any.
pub open spec fn spec_parse_provider(name: Seq<char>) -> Option<Provider> {
    if name == "gmail"@ {
        Some(Provider::Gmail)
    } else if name == "outlook"@ {
        Some(Provider::Outlook)
    } else {
        None
    }
}

/// Looks a provider name up in the fixed table.
pub fn parse_provider(name: &str) -> (r: Option<Provider>)
    ensures
        r == spec_parse_provider(name@),
{
    if eq_str(name, "gmail") {
        Some(Provider::Gmail)
    } else if eq_str(name, "outlook") {
        Some(Provider::Outlook)
    } else {
        None
    }
}

/// The mailbox host of each provider.
pub open spec fn spec_imap_host(p: Provider) -> Seq<char> {
    match p {
        Provider::Gmail => "imap.gmail.com"@,
        Provider::Outlook => "outlook.office365.com"@,
    }
}

/// The mailbox port of each provider.
pub open spec fn spec_imap_port(p: Provider) -> u16 {
    993u16
}

/// A resolved mailbox endpoint.
pub struct ImapEndpoint {
    pub host: String,
    pub port: u16,
}

/// Resolves the mailbox endpoint of a provider from the fixed table.
pub fn imap_endpoint(p: Provider) -> (r: ImapEndpoint)
    ensures
        r.host@ == spec_imap_host(p),
        r.port == spec_imap_port(p),
{
    match p {
        Provider::Gmail => ImapEndpoint { host: String::from_str("imap.gmail.com"), port: 993 },
        Provider::Outlook => ImapEndpoint {
            host: String::from_str("outlook.office365.com"),
            port: 993,
        },
    }
}

/// The submission host of each provider.
pub open spec fn spec_smtp_host(p: Provider) -> Seq<char> {
    match p {
        Provider::Gmail => "smtp.gmail.com"@,
        Provider::Outlook => "smtp.office365.com"@,
    }
}

/// The submission port of each provider.
pub open spec fn spec_smtp_port(p: Provider) -> u16 {
    match p {
        Provider::Gmail => 465u16,
        Provider::Outlook => 587u16,
    }
}

/// Whether the submission endpoint uses implicit TLS.
pub open spec fn spec_smtp_implicit_tls(p: Provider) -> bool {
    p is Gmail
}

/// A resolved submission endpoint.
pub struct SmtpEndpoint {
    pub host: String,
    pub port: u16,
    pub implicit_tls: bool,
}

/// Resolves the submission endpoint of a provider from the fixed table.
pub fn smtp_endpoint(p: Provider) -> (r: SmtpEndpoint)
    ensures
        r.host@ == spec_smtp_host(p),
        r.port == spec_smtp_port(p),
        r.implicit_tls == spec_smtp_implicit_tls(p),
{
    match p {
        Provider::Gmail => SmtpEndpoint {
            host: String::from_str("smtp.gmail.com"),
            port: 465,
            implicit_tls: true,
        },
        Provider::Outlook => SmtpEndpoint {
            host: String::from_str("smtp.office365.com"),
            port: 587,
            implicit_tls: false,
        },
    }
}

/// Checks a provider name against the fixed table, rejecting unknown names
/// with [`MailError::UnsupportedProvider`] before any network activity.
pub fn require_provider(name: &str) -> (r: Result<Provider, MailError>)
    ensures
        spec_parse_provider(name@) matches Some(p) ==> r matches Ok(q) && q == p,
        spec_parse_provider(name@) is None ==> (r matches Err(
            MailError::UnsupportedProvider(n),
        ) && n@ == name@),
{
    match parse_provider(name) {
        Some(p) => Ok(p),
        None => Err(MailError::UnsupportedProvider(String::from_str(name))),
    }
}

/// Every provider name outside the fixed table is rejected as unsupported;
/// no operation with such a name ever resolves an endpoint.
pub proof fn lemma_unknown_provider_rejected(name: Seq<char>)
    requires
        name != "gmail"@,
        name != "outlook"@,
    ensures
        spec_parse_provider(name) is None,
{
}

} // verus!
