//! The notification gateway: what goes to the e-mail provider, and what its
//! reply means. The call itself is made by the caller; one call per message,
//! never repeated.

use crate::domain::SubscriberEmail;
use std::time::Duration;
use vstd::prelude::*;

verus! {

/// Why a message did not go out.
#[derive(Debug, Clone, Copy, PartialEq, Eq, Structural)]
pub enum NotificationError {
    /// The provider did not answer within the client's timeout.
    Timeout,
    /// The provider answered with a status outside 200..=299.
    Status(u16),
    /// The request did not reach the provider, or no answer came back.
    Transport,
}

/// How one call of the provider ended.
#[derive(Debug, Clone, Copy, PartialEq, Eq, Structural)]
pub enum ProviderReply {
    /// The provider answered with this HTTP status.
    Status(u16),
    /// The client's timeout ran out first.
    TimedOut,
    /// The connection failed.
    Unreachable,
}

/// What a reply of the provider means for the message: delivered on a status
/// in 200..=299, and failed on everything else.
pub open spec fn delivery(reply: ProviderReply) -> Result<(), NotificationError> {
    match reply {
        ProviderReply::Status(code) => if 200 <= code <= 299 {
            Ok(())
        } else {
            Err(NotificationError::Status(code))
        },
        ProviderReply::TimedOut => Err(NotificationError::Timeout),
        ProviderReply::Unreachable => Err(NotificationError::Transport),
    }
}

/// A message for one recipient.
#[derive(Debug, PartialEq, Eq)]
pub struct EmailMessage {
    pub recipient: SubscriberEmail,
    pub subject: String,
    pub text_body: String,
    pub html_body: String,
}

/// What an [`EmailMessage`] stands for.
pub struct EmailMessageView {
    pub recipient: Seq<char>,
    pub subject: Seq<char>,
    pub text_body: Seq<char>,
    pub html_body: Seq<char>,
}

impl View for EmailMessage {
    type V = EmailMessageView;

    open spec fn view(&self) -> EmailMessageView {
        EmailMessageView {
            recipient: self.recipient@,
            subject: self.subject@,
            text_body: self.text_body@,
            html_body: self.html_body@,
        }
    }
}

/// The one request that sends a message: a POST to `url`.
#[derive(Debug, PartialEq, Eq)]
pub struct EmailRequest {
    pub url: String,
    pub sender: String,
    pub recipient: String,
    pub subject: String,
    pub text_body: String,
    pub html_body: String,
}

/// What an [`EmailRequest`] stands for.
pub struct EmailRequestView {
    pub url: Seq<char>,
    pub sender: Seq<char>,
    pub recipient: Seq<char>,
    pub subject: Seq<char>,
    pub text_body: Seq<char>,
    pub html_body: Seq<char>,
}

impl View for EmailRequest {
    type V = EmailRequestView;

    open spec fn view(&self) -> EmailRequestView {
        EmailRequestView {
            url: self.url@,
            sender: self.sender@,
            recipient: self.recipient@,
            subject: self.subject@,
            text_body: self.text_body@,
            html_body: self.html_body@,
        }
    }
}

/// The settings of the gateway: where the provider is, who the messages come
/// from, and how long one call may take.
#[derive(Debug, PartialEq, Eq)]
pub struct EmailClient {
    base_url: String,
    sender: SubscriberEmail,
    timeout: Duration,
}

/// What an [`EmailClient`] stands for.
pub struct EmailClientView {
    pub base_url: Seq<char>,
    pub sender: Seq<char>,
    pub timeout: Duration,
}

impl View for EmailClient {
    type V = EmailClientView;

    closed spec fn view(&self) -> EmailClientView {
        EmailClientView {
            base_url: self.base_url@,
            sender: self.sender@,
            timeout: self.timeout,
        }
    }
}

impl Clone for EmailClient {
    fn clone(&self) -> (copy: Self)
        ensures
            copy@ == self@,
    {
        EmailClient {
            base_url: self.base_url.clone(),
            sender: self.sender.clone(),
            timeout: self.timeout,
        }
    }
}

/// The address of the provider's endpoint for sending, under `base_url`.
pub open spec fn endpoint_of(base_url: Seq<char>) -> Seq<char> {
    base_url + "/email"@
}

/// The request that sends `message` through a client.
pub open spec fn request_of(client: EmailClientView, message: EmailMessageView) -> EmailRequestView {
    EmailRequestView {
        url: endpoint_of(client.base_url),
        sender: client.sender,
        recipient: message.recipient,
        subject: message.subject,
        text_body: message.text_body,
        html_body: message.html_body,
    }
}

impl EmailRequest {
    /// The HTTP method of the request.
    pub fn method(&self) -> (method: &'static str)
        ensures
            method@ == "POST"@,
    {
        "POST"
    }
}

impl EmailClient {
    /// A client for the provider at `base_url`, sending as `sender`, with
    /// calls cut off after `timeout`.
    pub fn new(base_url: String, sender: SubscriberEmail, timeout: Duration) -> (client: Self)
        ensures
            client@ == (EmailClientView { base_url: base_url@, sender: sender@, timeout }),
    {
        EmailClient { base_url, sender, timeout }
    }

    /// The provider's base address.
    pub fn base_url(&self) -> (url: &str)
        ensures
            url@ == self@.base_url,
    {
        self.base_url.as_str()
    }

    /// The address that messages come from.
    pub fn sender(&self) -> (sender: &SubscriberEmail)
        ensures
            sender@ == self@.sender,
    {
        &self.sender
    }

    /// The longest that one call may take.
    pub fn timeout(&self) -> (timeout: Duration)
        ensures
            timeout == self@.timeout,
    {
        self.timeout
    }

    /// The address to post to: the base address followed by `/email`.
    pub fn endpoint(&self) -> (url: String)
        ensures
            url@ == endpoint_of(self@.base_url),
    {
        let mut url = self.base_url.clone();
        url.append("/email");
        url
    }

    /// The request that sends `message`. It is made once for each message.
    pub fn request(&self, message: EmailMessage) -> (request: EmailRequest)
        ensures
            request@ == request_of(self@, message@),
    {
        EmailRequest {
            url: self.endpoint(),
            sender: String::from_str(self.sender.as_ref()),
            recipient: String::from_str(message.recipient.as_ref()),
            subject: message.subject,
            text_body: message.text_body,
            html_body: message.html_body,
        }
    }

    /// Reads the provider's reply: the message went out if the status is in
    /// 200..=299. A timeout, another status and a failed connection are each
    /// an error, and nothing is tried again.
    pub fn outcome(reply: ProviderReply) -> (result: Result<(), NotificationError>)
        ensures
            result == delivery(reply),
    {
        match reply {
            ProviderReply::Status(code) => {
                if 200 <= code && code <= 299 {
                    Ok(())
                } else {
                    Err(NotificationError::Status(code))
                }
            },
            ProviderReply::TimedOut => Err(NotificationError::Timeout),
            ProviderReply::Unreachable => Err(NotificationError::Transport),
        }
    }
}

} // verus!
