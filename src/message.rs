//! The site's mail configuration and the email composed from a visitor's form.

use vstd::prelude::*;
use vstd::string::*;
use lettre::address::AddressError;
use lettre::message::Mailbox;
use lettre::Message;

verus! {

#[verifier::external_type_specification]
#[verifier::external_body]
pub struct ExMailbox(Mailbox);

#[verifier::external_type_specification]
#[verifier::external_body]
pub struct ExAddressError(AddressError);

#[verifier::external_type_specification]
#[verifier::external_body]
pub struct ExMessage(Message);

#[verifier::external_type_specification]
#[verifier::external_body]
pub struct ExEmailError(lettre::error::Error);

/// Whether lettre accepts a text as a mailbox (`user@domain`, or `Name <user@domain>`).
pub uninterp spec fn mailbox_ok(s: Seq<char>) -> bool;

/// Relies on `<lettre::message::Mailbox as FromStr>::from_str`: it accepts or
/// refuses a text by the text alone.
#[verifier::external_body]
fn parse_mailbox(s: &str) -> (r: Result<Mailbox, AddressError>)
    ensures
        r is Ok <==> mailbox_ok(s@),
{
    s.parse::<Mailbox>()
}

/// Relies on lettre's `Message::builder()` with `from`, `reply_to`, `to`,
/// `subject` and `body`: building fails only without a From, with several
/// From and no Sender, or without a To, and here exactly one From and one To
/// are set.
#[verifier::external_body]
fn build_message(
    from: &Mailbox,
    reply_to: Mailbox,
    to: &Mailbox,
    subject: &str,
    body: &str,
) -> (r: Result<Message, lettre::error::Error>)
    ensures
        r is Ok,
{
    Message::builder().from(from.clone()).reply_to(reply_to).to(to.clone()).subject(subject).body(
        String::from(body),
    )
}

/// What a visitor submitted through the contact form.
pub struct ContactSubmission {
    /// The human-verification token of the form.
    pub verification_token: String,
    /// The address the visitor asks to be answered at; untrusted.
    pub sender_email: String,
    /// The text of the message.
    pub message: String,
}

impl ContactSubmission {
    pub fn new(verification_token: String, sender_email: String, message: String) -> (r: Self)
        ensures
            r.verification_token == verification_token,
            r.sender_email == sender_email,
            r.message == message,
    {
        ContactSubmission { verification_token, sender_email, message }
    }
}

/// Why a configuration was refused.
#[derive(Debug, Clone, Copy, PartialEq, Eq)]
pub enum ConfigError {
    /// The site's own sender address is not a mailbox.
    InvalidSender,
    /// The operator's recipient address is not a mailbox.
    InvalidRecipient,
}

/// The settings read once at start-up and shared, read-only, by every submission.
pub struct Config {
    captcha_secret: String,
    smtp_host: String,
    smtp_username: String,
    smtp_password: String,
    sender_text: String,
    recipient_text: String,
    sender: Mailbox,
    recipient: Mailbox,
}

impl Config {
    /// The sender and recipient texts are mailboxes, and `sender` and
    /// `recipient` are what lettre parsed from them.
    #[verifier::type_invariant]
    spec fn addresses_are_mailboxes(&self) -> bool {
        &&& mailbox_ok(self.sender_text@)
        &&& mailbox_ok(self.recipient_text@)
    }

    /// The site's own sender address, as configured.
    pub closed spec fn sender_spec(&self) -> Seq<char> {
        self.sender_text@
    }

    /// The operator's address, as configured.
    pub closed spec fn recipient_spec(&self) -> Seq<char> {
        self.recipient_text@
    }

    pub closed spec fn captcha_secret_spec(&self) -> Seq<char> {
        self.captcha_secret@
    }

    pub closed spec fn smtp_host_spec(&self) -> Seq<char> {
        self.smtp_host@
    }

    pub closed spec fn smtp_username_spec(&self) -> Seq<char> {
        self.smtp_username@
    }

    pub closed spec fn smtp_password_spec(&self) -> Seq<char> {
        self.smtp_password@
    }

    /// Builds the configuration; refused when the sender or the recipient is
    /// not a mailbox, so that a misconfigured site fails before it serves.
    pub fn new(
        captcha_secret: String,
        smtp_host: String,
        smtp_username: String,
        smtp_password: String,
        sender_text: String,
        recipient_text: String,
    ) -> (r: Result<Config, ConfigError>)
        ensures
            !mailbox_ok(sender_text@) ==> r == Err::<Config, ConfigError>(ConfigError::InvalidSender),
            mailbox_ok(sender_text@) && !mailbox_ok(recipient_text@) ==> r == Err::<Config, ConfigError>(
                ConfigError::InvalidRecipient,
            ),
            mailbox_ok(sender_text@) && mailbox_ok(recipient_text@) ==> r is Ok,
            r matches Ok(c) ==> c.captcha_secret_spec() == captcha_secret@ && c.smtp_host_spec()
                == smtp_host@ && c.smtp_username_spec() == smtp_username@ && c.smtp_password_spec()
                == smtp_password@ && c.sender_spec() == sender_text@ && c.recipient_spec()
                == recipient_text@,
    {
        let sender = match parse_mailbox(sender_text.as_str()) {
            Ok(m) => m,
            Err(_) => return Err(ConfigError::InvalidSender),
        };
        let recipient = match parse_mailbox(recipient_text.as_str()) {
            Ok(m) => m,
            Err(_) => return Err(ConfigError::InvalidRecipient),
        };
        Ok(
            Config {
                captcha_secret,
                smtp_host,
                smtp_username,
                smtp_password,
                sender_text,
                recipient_text,
                sender,
                recipient,
            },
        )
    }

    /// The configured sender and recipient are mailboxes.
    pub fn check_addresses(&self)
        ensures
            mailbox_ok(self.sender_spec()),
            mailbox_ok(self.recipient_spec()),
    {
        proof {
            use_type_invariant(self);
        }
    }

    pub fn captcha_secret(&self) -> (r: &str)
        ensures
            r@ == self.captcha_secret_spec(),
    {
        self.captcha_secret.as_str()
    }

    pub fn smtp_host(&self) -> (r: &str)
        ensures
            r@ == self.smtp_host_spec(),
    {
        self.smtp_host.as_str()
    }

    pub fn smtp_username(&self) -> (r: &str)
        ensures
            r@ == self.smtp_username_spec(),
    {
        self.smtp_username.as_str()
    }

    pub fn smtp_password(&self) -> (r: &str)
        ensures
            r@ == self.smtp_password_spec(),
    {
        self.smtp_password.as_str()
    }

    pub fn sender(&self) -> (r: &str)
        ensures
            r@ == self.sender_spec(),
    {
        self.sender_text.as_str()
    }

    pub fn recipient(&self) -> (r: &str)
        ensures
            r@ == self.recipient_spec(),
    {
        self.recipient_text.as_str()
    }
}

/// Why no email could be composed.
#[derive(Debug, Clone, Copy, PartialEq, Eq)]
pub enum ComposeError {
    /// The visitor's reply-to address is not a mailbox.
    InvalidReplyTo,
}

/// The subject line of every contact email.
pub open spec fn subject_text() -> Seq<char> {
    "Message from the CV website"@
}

pub fn subject() -> (r: String)
    ensures
        r@ == subject_text(),
{
    String::from_str("Message from the CV website")
}

/// An email ready for the relay, with the parts that were handed to lettre.
pub struct OutboundMessage {
    pub from: String,
    pub reply_to: String,
    pub to: String,
    pub subject: String,
    pub body: String,
    pub email: Message,
}

/// Whether `m` is the email for `submission` under `config`: from the site's
/// sender to the operator, answering to the visitor, with the fixed subject
/// and the visitor's text.
pub open spec fn is_email_for(m: OutboundMessage, config: Config, submission: ContactSubmission) -> bool {
    &&& m.from@ == config.sender_spec()
    &&& m.to@ == config.recipient_spec()
    &&& m.reply_to@ == submission.sender_email@
    &&& m.subject@ == subject_text()
    &&& m.body@ == submission.message@
}

/// Composes the email for a submission. A malformed reply-to address is
/// refused before lettre is asked to build anything; otherwise the email is
/// always built.
pub fn compose(config: &Config, submission: &ContactSubmission) -> (r: Result<
    OutboundMessage,
    ComposeError,
>)
    ensures
        !mailbox_ok(submission.sender_email@) ==> r == Err::<OutboundMessage, ComposeError>(
            ComposeError::InvalidReplyTo,
        ),
        mailbox_ok(submission.sender_email@) ==> r is Ok,
        r matches Ok(m) ==> is_email_for(m, *config, *submission),
{
    let reply_to = match parse_mailbox(submission.sender_email.as_str()) {
        Ok(m) => m,
        Err(_) => return Err(ComposeError::InvalidReplyTo),
    };
    let subject = subject();
    let built = build_message(
        &config.sender,
        reply_to,
        &config.recipient,
        subject.as_str(),
        submission.message.as_str(),
    );
    let email = match built {
        Ok(email) => email,
        // Not reached: with one From and one To the builder succeeds.
        Err(_) => return Err(ComposeError::InvalidReplyTo),
    };
    Ok(
        OutboundMessage {
            from: config.sender_text.clone(),
            reply_to: submission.sender_email.clone(),
            to: config.recipient_text.clone(),
            subject,
            body: submission.message.clone(),
            email,
        },
    )
}

} // verus!
