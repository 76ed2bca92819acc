//! The values that a request to send a mail is made of, and the message that
//! is built from one before anything is sent.

use vstd::prelude::*;
use vstd::string::*;

verus! {

/// How to reach and log in to the SMTP server.
#[derive(Debug, Clone)]
pub struct SmtpConfig {
    pub host: String,
    pub port: u16,
    /// `true` for TLS from the first byte, `false` for STARTTLS.
    pub secure: bool,
    pub username: String,
    pub password: String,
    pub from_email: String,
    pub from_name: Option<String>,
}

/// One attachment, its content in base64.
#[derive(Debug, Clone)]
pub struct EmailAttachment {
    pub filename: String,
    pub content_base64: String,
    pub content_type: String,
}

/// One mail to send, and the server to send it through.
#[derive(Debug, Clone)]
pub struct SendEmailRequest {
    pub smtp: SmtpConfig,
    pub to_email: String,
    pub to_name: Option<String>,
    pub subject: String,
    pub body_html: String,
    pub body_text: Option<String>,
    pub attachments: Option<Vec<EmailAttachment>>,
}

/// What the caller is told once a mail was sent or a connection was tried.
#[derive(Debug, Clone)]
pub struct SendEmailResponse {
    pub success: bool,
    pub message: String,
}

/// A display name, empty where none was given, and an address.
#[derive(Debug, Clone)]
pub struct Mailbox {
    pub name: String,
    pub address: String,
}

/// One attachment with its content as bytes.
#[derive(Debug, Clone)]
pub struct DecodedAttachment {
    pub content_type: String,
    pub filename: String,
    pub content: Vec<u8>,
}

/// A message ready to be handed to the mail transport.
#[derive(Debug, Clone)]
pub struct OutgoingMessage {
    pub from: Mailbox,
    pub to: Mailbox,
    pub subject: String,
    pub html_body: String,
    pub text_body: Option<String>,
    pub attachments: Vec<DecodedAttachment>,
}

/// The error of base64's decoder. Nothing of what it holds is visible here.
#[verifier::external_type_specification]
#[verifier::external_body]
pub struct ExDecodeError(base64::DecodeError);

/// The bytes that a text stands for in base64 with the standard alphabet and
/// padding, or `None` where the text is no such encoding.
pub uninterp spec fn base64_standard(text: Seq<char>) -> Option<Seq<u8>>;

/// `Engine::decode` of base64 on its `STANDARD` engine. The contract names
/// what the call returns: whether it succeeds, and the bytes if it does, are
/// a function of the text alone. Nothing is said of the error.
#[verifier::external_body]
fn decode_standard(text: &str) -> (r: Result<Vec<u8>, base64::DecodeError>)
    ensures
        r.is_ok() == base64_standard(text@).is_some(),
        r.is_ok() ==> r.unwrap()@ == base64_standard(text@).unwrap(),
{
    base64::Engine::decode(&base64::engine::general_purpose::STANDARD, text)
}

/// `to_string` on base64's `DecodeError`: the text of its `Display`. Nothing
/// is claimed of that text.
#[verifier::external_body]
fn decode_error_text(e: &base64::DecodeError) -> (text: String) {
    e.to_string()
}

/// The name to show for a mailbox: the one given, or the empty text.
pub open spec fn display_name(name: Option<String>) -> Seq<char> {
    match name {
        Some(n) => n@,
        None => Seq::empty(),
    }
}

/// The text of an optional string, where there is one.
pub open spec fn text_of(s: Option<String>) -> Option<Seq<char>> {
    match s {
        Some(t) => Some(t@),
        None => None,
    }
}

/// The attachments of a request; none where the field is absent.
pub open spec fn attachments_of(request: SendEmailRequest) -> Seq<EmailAttachment> {
    match request.attachments {
        Some(list) => list@,
        None => Seq::empty(),
    }
}

/// Whether the content of an attachment is base64.
pub open spec fn decodable(att: EmailAttachment) -> bool {
    base64_standard(att.content_base64@).is_some()
}

/// Whether `d` is `att` with its content decoded.
pub open spec fn decodes_to(att: EmailAttachment, d: DecodedAttachment) -> bool {
    &&& decodable(att)
    &&& d.content@ == base64_standard(att.content_base64@).unwrap()
    &&& d.filename@ == att.filename@
    &&& d.content_type@ == att.content_type@
}

/// Whether a text is the message for an attachment that could not be
/// decoded: the fixed opening, then the reason.
pub open spec fn is_decode_failure(msg: Seq<char>) -> bool {
    let opening = "Failed to decode attachment: "@;
    msg.len() >= opening.len() && msg.subrange(0, opening.len() as int) == opening
}

/// Whether `m` is the message that `request` asks for.
pub open spec fn is_message_of(request: SendEmailRequest, m: OutgoingMessage) -> bool {
    &&& m.from.name@ == display_name(request.smtp.from_name)
    &&& m.from.address@ == request.smtp.from_email@
    &&& m.to.name@ == display_name(request.to_name)
    &&& m.to.address@ == request.to_email@
    &&& m.subject@ == request.subject@
    &&& m.html_body@ == request.body_html@
    &&& text_of(m.text_body) == text_of(request.body_text)
    &&& m.attachments@.len() == attachments_of(request).len()
    &&& forall|i: int|
        0 <= i < m.attachments@.len() ==> decodes_to(
            #[trigger] attachments_of(request)[i],
            m.attachments@[i],
        )
}

/// A mailbox with the given address, and the given name if there is one.
pub fn mailbox(name: &Option<String>, address: &String) -> (m: Mailbox)
    ensures
        m.name@ == display_name(*name),
        m.address@ == address@,
{
    let shown = match name {
        Some(n) => n.clone(),
        None => String::new(),
    };
    Mailbox { name: shown, address: address.clone() }
}

impl SmtpConfig {
    /// The mailbox that mail is sent from.
    pub fn sender(&self) -> (m: Mailbox)
        ensures
            m.name@ == display_name(self.from_name),
            m.address@ == self.from_email@,
    {
        mailbox(&self.from_name, &self.from_email)
    }
}

impl SendEmailRequest {
    /// The mailbox that the mail goes to.
    pub fn recipient(&self) -> (m: Mailbox)
        ensures
            m.name@ == display_name(self.to_name),
            m.address@ == self.to_email@,
    {
        mailbox(&self.to_name, &self.to_email)
    }
}

impl SendEmailResponse {
    /// The response to a mail that was sent.
    pub fn sent() -> (r: SendEmailResponse)
        ensures
            r.success,
            r.message@ == "Email sent successfully"@,
    {
        SendEmailResponse { success: true, message: String::from_str("Email sent successfully") }
    }

    /// The response to a connection that was made.
    pub fn connected() -> (r: SendEmailResponse)
        ensures
            r.success,
            r.message@ == "SMTP connection successful!"@,
    {
        SendEmailResponse {
            success: true,
            message: String::from_str("SMTP connection successful!"),
        }
    }
}

/// The message for an attachment that could not be decoded for `reason`.
pub fn attachment_failure(reason: &str) -> (msg: String)
    ensures
        msg@ == "Failed to decode attachment: "@ + reason@,
        is_decode_failure(msg@),
{
    let mut msg = String::from_str("Failed to decode attachment: ");
    msg.append(reason);
    assert(msg@.subrange(0, "Failed to decode attachment: "@.len() as int)
        =~= "Failed to decode attachment: "@);
    msg
}

/// Decodes the content of one attachment. It succeeds exactly where the
/// content is base64; the error is the message with the decoder's reason.
pub fn decode_attachment(att: &EmailAttachment) -> (r: Result<DecodedAttachment, String>)
    ensures
        r.is_ok() == decodable(*att),
        r.is_ok() ==> decodes_to(*att, r.unwrap()),
        r.is_err() ==> is_decode_failure(r.unwrap_err()@),
{
    match decode_standard(att.content_base64.as_str()) {
        Ok(content) => Ok(
            DecodedAttachment {
                content_type: att.content_type.clone(),
                filename: att.filename.clone(),
                content,
            },
        ),
        Err(e) => {
            let reason = decode_error_text(&e);
            Err(attachment_failure(reason.as_str()))
        },
    }
}

/// Builds the message that `request` asks for: sender and recipient with
/// their names, subject, both bodies, and each attachment decoded, in the
/// order of the request.
///
/// It succeeds exactly where every attachment is base64. Otherwise the error
/// is the message for an attachment that could not be decoded.
pub fn build_message(request: &SendEmailRequest) -> (r: Result<OutgoingMessage, String>)
    ensures
        r.is_ok() == (forall|i: int|
            0 <= i < attachments_of(*request).len() ==> decodable(
                #[trigger] attachments_of(*request)[i],
            )),
        r.is_ok() ==> is_message_of(*request, r.unwrap()),
        r.is_err() ==> is_decode_failure(r.unwrap_err()@),
{
    let mut decoded: Vec<DecodedAttachment> = Vec::new();
    match &request.attachments {
        Some(list) => {
            let mut i: usize = 0;
            while i < list.len()
                invariant
                    i <= list@.len(),
                    list@ == attachments_of(*request),
                    decoded@.len() == i,
                    forall|k: int| 0 <= k < i ==> decodes_to(#[trigger] list@[k], decoded@[k]),
                decreases list@.len() - i,
            {
                match decode_attachment(&list[i]) {
                    Ok(d) => {
                        decoded.push(d);
                    },
                    Err(msg) => {
                        assert(!decodable(attachments_of(*request)[i as int]));
                        return Err(msg);
                    },
                }
                i += 1;
            }
        },
        None => {},
    }
    let text_body = match &request.body_text {
        Some(t) => Some(t.clone()),
        None => None,
    };
    Ok(
        OutgoingMessage {
            from: request.smtp.sender(),
            to: request.recipient(),
            subject: request.subject.clone(),
            html_body: request.body_html.clone(),
            text_body,
            attachments: decoded,
        },
    )
}

} // verus!
