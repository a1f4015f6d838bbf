//! The outbound-message boundary: the compose model and the decisions of
//! the send operation that do not touch the transport.
//!
//! Sending itself (message assembly in the mail transport's types, SMTP
//! submission) is an external collaborator; this module fixes the provider
//! resolution and how the body parts are chosen from the composed message.

use vstd::prelude::*;
use crate::error::MailError;
use crate::provider::{smtp_endpoint, require_provider, SmtpEndpoint};
use crate::provider::{spec_parse_provider, spec_smtp_host, spec_smtp_implicit_tls, spec_smtp_port};

verus! {

use vstd::string::StringExecFns;

/// A file attached to an outgoing message.
#[derive(Clone, Debug)]
pub struct Attachment {
    pub filename: String,
    pub content_type: String,
    pub content: Vec<u8>,
}

/// A fully-formed outgoing message, as the caller composed it.
#[derive(Clone, Debug)]
pub struct ComposeMessage {
    pub to: Vec<String>,
    pub cc: Option<Vec<String>>,
    pub bcc: Option<Vec<String>>,
    pub subject: String,
    pub body_html: Option<String>,
    pub body_text: Option<String>,
    pub attachments: Option<Vec<Attachment>>,
}

/// How the outgoing body is assembled: an HTML part with a plain-text
/// alternative when HTML is present, else plain text alone. A missing text
/// part becomes the empty string in either shape.
pub enum BodyPlan {
    HtmlWithTextAlternative { text: String, html: String },
    PlainText { text: String },
}

/// The plain-text part that a composed message contributes.
pub open spec fn spec_text_part(msg: ComposeMessage) -> Seq<char> {
    match msg.body_text {
        Some(t) => t@,
        None => Seq::empty(),
    }
}

/// Chooses the body shape for a composed message.
pub fn plan_send_body(msg: &ComposeMessage) -> (r: BodyPlan)
    ensures
        msg.body_html matches Some(h) ==> (r matches BodyPlan::HtmlWithTextAlternative {
            text,
            html,
        } && html@ == h@ && text@ == spec_text_part(*msg)),
        msg.body_html is None ==> (r matches BodyPlan::PlainText { text } && text@
            == spec_text_part(*msg)),
{
    let text = match &msg.body_text {
        Some(t) => t.clone(),
        None => String::new(),
    };
    match &msg.body_html {
        Some(h) => BodyPlan::HtmlWithTextAlternative { text, html: h.clone() },
        None => BodyPlan::PlainText { text },
    }
}

/// Resolves the submission endpoint for a send, rejecting provider names
/// outside the fixed table before any network activity.
pub fn send_plan(provider_name: &str) -> (r: Result<SmtpEndpoint, MailError>)
    ensures
        spec_parse_provider(provider_name@) matches Some(p) ==> (r matches Ok(ep) && ep.host@
            == spec_smtp_host(p) && ep.port == spec_smtp_port(p) && ep.implicit_tls
            == spec_smtp_implicit_tls(p)),
        spec_parse_provider(provider_name@) is None ==> (r matches Err(
            MailError::UnsupportedProvider(n),
        ) && n@ == provider_name@),
{
    let provider = require_provider(provider_name)?;
    Ok(smtp_endpoint(provider))
}

} // verus!
