//! The one mail that carries a report: what is handed to the transport, and
//! when nothing is handed to it.

use crate::config::{Config, ConfigView};
use vstd::prelude::*;

verus! {

/// Which of the two addresses of a mail.
#[derive(Debug, Clone, Copy, PartialEq, Eq, Structural)]
pub enum AddressRole {
    Sender,
    Recipient,
}

/// Why no mail was handed to the transport.
#[derive(Debug, Clone, Copy, PartialEq, Eq, Structural)]
pub enum MailError {
    /// Both addresses parse, and a text field of the configuration is empty.
    IncompleteConfig,
    /// The address does not parse as a mailbox.
    InvalidAddress(AddressRole),
}

/// Everything the transport needs to deliver one plain-text mail.
#[derive(Debug, Clone, PartialEq, Eq)]
pub struct MailRequest {
    pub server: String,
    pub port: u16,
    pub sender: String,
    pub password: String,
    pub recipient: String,
    pub subject: String,
    pub body: String,
}

/// The mathematical value of a `MailRequest`.
pub struct MailRequestView {
    pub server: Seq<char>,
    pub port: u16,
    pub sender: Seq<char>,
    pub password: Seq<char>,
    pub recipient: Seq<char>,
    pub subject: Seq<char>,
    pub body: Seq<char>,
}

impl View for MailRequest {
    type V = MailRequestView;

    open spec fn view(&self) -> MailRequestView {
        MailRequestView {
            server: self.server@,
            port: self.port,
            sender: self.sender@,
            password: self.password@,
            recipient: self.recipient@,
            subject: self.subject@,
            body: self.body@,
        }
    }
}

/// Whether lettre's mailbox parser accepts `address`.
pub uninterp spec fn mailbox_parses(address: Seq<char>) -> bool;

/// The subject line of every report.
pub open spec fn report_subject() -> Seq<char> {
    "Disk Space Report"@
}

/// The mail to send for a configuration, or the reason to send none, given
/// what the mailbox parser said of the two addresses. The addresses come
/// first, the sender before the recipient: an address that does not parse
/// is an invalid address whatever else the configuration holds. Where both
/// parse, a configuration with an empty text field is incomplete.
pub open spec fn planned_mail(
    config: ConfigView,
    subject: Seq<char>,
    body: Seq<char>,
    sender_ok: bool,
    recipient_ok: bool,
) -> Result<MailRequestView, MailError> {
    if !sender_ok {
        Err(MailError::InvalidAddress(AddressRole::Sender))
    } else if !recipient_ok {
        Err(MailError::InvalidAddress(AddressRole::Recipient))
    } else if !config.is_complete() {
        Err(MailError::IncompleteConfig)
    } else {
        Ok(
            MailRequestView {
                server: config.mailserver,
                port: config.port,
                sender: config.sendmail,
                password: config.password,
                recipient: config.recipient,
                subject: subject,
                body: body,
            },
        )
    }
}

/// The view of what `plan_mail` and `prepare_mail` return.
pub open spec fn plan_view(plan: Result<MailRequest, MailError>) -> Result<
    MailRequestView,
    MailError,
> {
    match plan {
        Ok(request) => Ok(request@),
        Err(e) => Err(e),
    }
}

/// What is told of a mail that was not sent for the reason `error`.
pub open spec fn refusal_text(error: MailError) -> Seq<char> {
    match error {
        MailError::IncompleteConfig => "the configuration is incomplete"@,
        MailError::InvalidAddress(AddressRole::Sender) => "the sender address is not valid"@,
        MailError::InvalidAddress(AddressRole::Recipient) => "the recipient address is not valid"@,
    }
}

/// Asks lettre whether `address` is a mailbox: calls
/// `<lettre::message::Mailbox as FromStr>::from_str` and keeps whether it
/// returned `Ok`. The parser reads nothing but the text it is given, so its
/// answer has a name, `mailbox_parses`; what it accepts is not stated here.
#[verifier::external_body]
fn parses_as_mailbox(address: &str) -> (ok: bool)
    ensures
        ok == mailbox_parses(address@),
{
    address.parse::<lettre::message::Mailbox>().is_ok()
}

impl MailError {
    /// What is told of a mail that was not sent for this reason.
    pub fn reason(&self) -> (text: &'static str)
        ensures
            text@ == refusal_text(*self),
    {
        match self {
            MailError::IncompleteConfig => "the configuration is incomplete",
            MailError::InvalidAddress(AddressRole::Sender) => "the sender address is not valid",
            MailError::InvalidAddress(AddressRole::Recipient) => {
                "the recipient address is not valid"
            },
        }
    }
}

/// The subject line of every report.
pub fn subject_line() -> (subject: &'static str)
    ensures
        subject@ == report_subject(),
{
    "Disk Space Report"
}

/// Whether `address` parses as a mailbox: a bare address, or a display name
/// followed by the address in angle brackets.
pub fn valid_mailbox(address: &str) -> (valid: bool)
    ensures
        valid == mailbox_parses(address@),
{
    parses_as_mailbox(address)
}

/// Decides whether a mail goes out, given what the mailbox parser said of
/// the two addresses, and fills the request in from the configuration. A
/// sender that did not parse is reported first, then a recipient that did
/// not, then an empty text field.
pub fn plan_mail(
    config: &Config,
    subject: &str,
    body: &str,
    sender_ok: bool,
    recipient_ok: bool,
) -> (plan: Result<MailRequest, MailError>)
    ensures
        plan_view(plan) == planned_mail(config@, subject@, body@, sender_ok, recipient_ok),
{
    if !sender_ok {
        Err(MailError::InvalidAddress(AddressRole::Sender))
    } else if !recipient_ok {
        Err(MailError::InvalidAddress(AddressRole::Recipient))
    } else if !config.is_complete() {
        Err(MailError::IncompleteConfig)
    } else {
        Ok(
            MailRequest {
                server: config.mailserver.clone(),
                port: config.port,
                sender: config.sendmail.clone(),
                password: config.password.clone(),
                recipient: config.recipient.clone(),
                subject: String::from_str(subject),
                body: String::from_str(body),
            },
        )
    }
}

/// Checks both addresses of the configuration with the mailbox parser and
/// prepares the mail. A sender or recipient that does not parse comes back
/// as `MailError::InvalidAddress`, the sender first, before anything
/// touches the network. No request comes back unless both addresses parse
/// and the configuration is complete.
pub fn prepare_mail(config: &Config, subject: &str, body: &str) -> (plan: Result<
    MailRequest,
    MailError,
>)
    ensures
        plan_view(plan) == planned_mail(
            config@,
            subject@,
            body@,
            mailbox_parses(config@.sendmail),
            mailbox_parses(config@.recipient),
        ),
{
    let sender_ok = valid_mailbox(config.sendmail.as_str());
    let recipient_ok = valid_mailbox(config.recipient.as_str());
    plan_mail(config, subject, body, sender_ok, recipient_ok)
}

/// A mail is planned exactly when the configuration is complete and both
/// addresses parse, and then it is the configuration's own account and
/// addresses that it carries.
pub proof fn lemma_planned_mail_is_sound(
    config: ConfigView,
    subject: Seq<char>,
    body: Seq<char>,
    sender_ok: bool,
    recipient_ok: bool,
)
    ensures
        planned_mail(config, subject, body, sender_ok, recipient_ok) is Ok <==> config.is_complete()
            && sender_ok && recipient_ok,
        planned_mail(config, subject, body, sender_ok, recipient_ok) matches Ok(request) ==> {
            &&& request.server == config.mailserver
            &&& request.port == config.port
            &&& request.sender == config.sendmail
            &&& request.password == config.password
            &&& request.recipient == config.recipient
            &&& request.subject == subject
            &&& request.body == body
            &&& request.server.len() > 0
            &&& request.sender.len() > 0
            &&& request.password.len() > 0
            &&& request.recipient.len() > 0
        },
{
}

/// A malformed address is always reported as an invalid address, the
/// sender's before the recipient's, whatever the other fields hold. A
/// configuration is reported as incomplete only where both addresses parse.
pub proof fn lemma_malformed_address_is_reported(
    config: ConfigView,
    subject: Seq<char>,
    body: Seq<char>,
    sender_ok: bool,
    recipient_ok: bool,
)
    ensures
        !sender_ok ==> planned_mail(config, subject, body, sender_ok, recipient_ok) == Err::<
            MailRequestView,
            MailError,
        >(MailError::InvalidAddress(AddressRole::Sender)),
        sender_ok && !recipient_ok ==> planned_mail(config, subject, body, sender_ok, recipient_ok)
            == Err::<MailRequestView, MailError>(MailError::InvalidAddress(AddressRole::Recipient)),
        planned_mail(config, subject, body, sender_ok, recipient_ok) == Err::<
            MailRequestView,
            MailError,
        >(MailError::IncompleteConfig) <==> sender_ok && recipient_ok && !config.is_complete(),
{
}

} // verus!
