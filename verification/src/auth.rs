//! Session setup: the SASL token credential and the connection plan.
//!
//! Authentication is a single round trip: the client presents one pre-built,
//! base64-encoded credential string for the `XOAUTH2` mechanism and waits for
//! accept or reject. The plan resolved here carries everything the transport
//! layer needs; failures of the individual setup steps are classified into
//! the error model by [`classify_connect_failure`].

use vstd::prelude::*;
use crate::error::MailError;
use crate::provider::{spec_imap_host, spec_imap_port, spec_parse_provider, Provider};
use crate::provider::{imap_endpoint, require_provider};
use crate::text::extend_bytes;
use base64::Engine;

verus! {

use vstd::utf8::encode_utf8;

/// The standard, padded base64 encoding of a byte sequence, as the base64
/// crate's `general_purpose::STANDARD` engine produces it.
pub uninterp spec fn base64_std(data: Seq<u8>) -> Seq<char>;

/// Relies on base64's `Engine::encode` with the `general_purpose::STANDARD`
/// engine: the encoding is a function of the input bytes alone. `encode`
/// cannot fail for bytes held in a vector: its only failure mode is an
/// output length overflowing `usize`, which a vector's length (at most
/// `isize::MAX`) cannot reach.
#[verifier::external_body]
fn base64_encode(data: &Vec<u8>) -> (r: String)
    ensures
        r@ == base64_std(data@),
{
    base64::engine::general_purpose::STANDARD.encode(data.as_slice())
}

/// The raw SASL token credential before encoding:
/// `user=<email>\x01auth=Bearer <token>\x01\x01`, in UTF-8.
pub open spec fn spec_xoauth2_plain(email: Seq<char>, token: Seq<char>) -> Seq<u8> {
    encode_utf8("user="@) + encode_utf8(email) + seq![1u8] + encode_utf8("auth=Bearer "@)
        + encode_utf8(token) + seq![1u8, 1u8]
}

/// Builds the raw SASL token credential for one authentication attempt.
pub fn build_xoauth2_plain(email: &str, token: &str) -> (r: Vec<u8>)
    ensures
        r@ == spec_xoauth2_plain(email@, token@),
{
    let mut cred: Vec<u8> = Vec::new();
    extend_bytes(&mut cred, "user=".as_bytes());
    extend_bytes(&mut cred, email.as_bytes());
    cred.push(1u8);
    extend_bytes(&mut cred, "auth=Bearer ".as_bytes());
    extend_bytes(&mut cred, token.as_bytes());
    cred.push(1u8);
    cred.push(1u8);
    proof {
        assert(cred@ =~= spec_xoauth2_plain(email@, token@));
    }
    cred
}

/// Builds the encoded `XOAUTH2` credential: the raw SASL string,
/// base64-encoded, presented verbatim as the single challenge response.
pub fn build_xoauth2_credential(email: &str, token: &str) -> (r: String)
    ensures
        r@ == base64_std(spec_xoauth2_plain(email@, token@)),
{
    let cred = build_xoauth2_plain(email, token);
    base64_encode(&cred)
}

/// Everything the transport layer needs to open and authenticate one
/// session. `sasl_credential` is the raw SASL string; the protocol layer
/// base64-encodes it, so the wire carries exactly
/// [`build_xoauth2_credential`]'s output.
pub struct ConnectPlan {
    pub provider: Provider,
    pub host: String,
    pub port: u16,
    pub sasl_credential: Vec<u8>,
}

/// Resolves the endpoint and builds the credential for one session, rejecting
/// provider names outside the fixed table before any network activity.
pub fn connection_plan(provider_name: &str, email: &str, token: &str) -> (r: Result<
    ConnectPlan,
    MailError,
>)
    ensures
        spec_parse_provider(provider_name@) matches Some(p) ==> r matches Ok(plan)
            && plan.provider == p && plan.host@ == spec_imap_host(p) && plan.port
            == spec_imap_port(p) && plan.sasl_credential@ == spec_xoauth2_plain(email@, token@),
        spec_parse_provider(provider_name@) is None ==> (r matches Err(
            MailError::UnsupportedProvider(n),
        ) && n@ == provider_name@),
{
    let provider = require_provider(provider_name)?;
    let endpoint = imap_endpoint(provider);
    let sasl_credential = build_xoauth2_plain(email, token);
    Ok(ConnectPlan { provider, host: endpoint.host, port: endpoint.port, sasl_credential })
}

/// A step of session setup that can fail after the plan was resolved.
#[derive(Clone, Copy, Debug, PartialEq, Eq, Structural)]
pub enum ConnectStep {
    /// Opening the TCP connection.
    Tcp,
    /// Negotiating encryption.
    Tls,
    /// Presenting the credential.
    Auth,
}

/// Classifies a setup-step failure into the error model. An authentication
/// rejection keeps the server's diagnostic text and the failing provider.
pub fn classify_connect_failure(step: ConnectStep, provider_name: String, detail: String) -> (r:
    MailError)
    ensures
        step is Tcp ==> r == MailError::TransportError(detail),
        step is Tls ==> r == MailError::TlsError(detail),
        step is Auth ==> r == MailError::AuthenticationError(provider_name, detail),
{
    match step {
        ConnectStep::Tcp => MailError::TransportError(detail),
        ConnectStep::Tls => MailError::TlsError(detail),
        ConnectStep::Auth => MailError::AuthenticationError(provider_name, detail),
    }
}

} // verus!
