//! What a run reports, and how a report becomes a line of output.

use crate::status::{status_text, HttpStatus};
use crate::text::{decimal, to_decimal};
use vstd::prelude::*;

verus! {

/// One report of a run.
#[derive(Debug, Clone, PartialEq, Eq)]
pub enum Message {
    /// The configuration has been loaded.
    ConfigLoaded,
    /// The public address has been resolved.
    CurrentIp { ip: String },
    /// The records have been listed; so many subdomains will be checked.
    CheckingSubdomains { count: usize },
    /// The check of one fully-qualified name begins.
    CheckingDomain { domain: String },
    /// The record differs from the public address and will be updated.
    IpChanged { domain: String },
    /// The provider has accepted the update.
    Updated { domain: String, ip: String },
    /// The record already holds the public address.
    NoChange { domain: String },
    /// The zone lists no record of that name: a warning.
    NoRecord { domain: String },
    /// The provider has refused the update: an error.
    UpdateFailed { domain: String, status: HttpStatus, body: String },
}

/// What a `Message` holds.
pub enum MessageView {
    ConfigLoaded,
    CurrentIp { ip: Seq<char> },
    CheckingSubdomains { count: nat },
    CheckingDomain { domain: Seq<char> },
    IpChanged { domain: Seq<char> },
    Updated { domain: Seq<char>, ip: Seq<char> },
    NoChange { domain: Seq<char> },
    NoRecord { domain: Seq<char> },
    UpdateFailed { domain: Seq<char>, status: u16, body: Seq<char> },
}

impl View for Message {
    type V = MessageView;

    open spec fn view(&self) -> MessageView {
        match self {
            Message::ConfigLoaded => MessageView::ConfigLoaded,
            Message::CurrentIp { ip } => MessageView::CurrentIp { ip: ip@ },
            Message::CheckingSubdomains { count } => MessageView::CheckingSubdomains {
                count: *count as nat,
            },
            Message::CheckingDomain { domain } => MessageView::CheckingDomain { domain: domain@ },
            Message::IpChanged { domain } => MessageView::IpChanged { domain: domain@ },
            Message::Updated { domain, ip } => MessageView::Updated { domain: domain@, ip: ip@ },
            Message::NoChange { domain } => MessageView::NoChange { domain: domain@ },
            Message::NoRecord { domain } => MessageView::NoRecord { domain: domain@ },
            Message::UpdateFailed { domain, status, body } => MessageView::UpdateFailed {
                domain: domain@,
                status: status@,
                body: body@,
            },
        }
    }
}

/// What each message of `v` holds, in order.
pub open spec fn message_views(v: Seq<Message>) -> Seq<MessageView> {
    v.map_values(|m: Message| m@)
}

impl MessageView {
    /// Whether the message reports a failure, and so goes to the error stream.
    pub open spec fn is_error(self) -> bool {
        self is UpdateFailed
    }

    /// Whether the message is a warning.
    pub open spec fn is_warning(self) -> bool {
        self is NoRecord
    }

    /// The wording of the message.
    pub open spec fn text(self) -> Seq<char> {
        match self {
            MessageView::ConfigLoaded => "Configuration loaded from environment variables"@,
            MessageView::CurrentIp { ip } => "Current IP: "@ + ip,
            MessageView::CheckingSubdomains { count } => "Checking "@ + decimal(count)
                + " subdomains..."@,
            MessageView::CheckingDomain { domain } => "Checking domain: "@ + domain,
            MessageView::IpChanged { domain } => "IP changed for "@ + domain
                + ": updating record..."@,
            MessageView::Updated { domain, ip } => "Successfully updated DNS record for "@ + domain
                + " to "@ + ip,
            MessageView::NoChange { domain } => "No IP change needed for "@ + domain,
            MessageView::NoRecord { domain } => "Warning: No A record found for "@ + domain,
            MessageView::UpdateFailed { domain, status, body } => "Update failed for "@ + domain
                + " ("@ + status_text(status) + "): "@ + body,
        }
    }

    /// The line of output for the message, written at the time `timestamp`:
    /// the time in square brackets, marked `ERROR` for a failure, then a space
    /// and the wording.
    pub open spec fn line(self, timestamp: Seq<char>) -> Seq<char> {
        if self.is_error() {
            "["@ + timestamp + " ERROR] "@ + self.text()
        } else {
            "["@ + timestamp + "] "@ + self.text()
        }
    }
}

impl Message {
    /// Whether the message reports a failure, and so goes to the error stream
    /// and not to standard output.
    pub fn is_error(&self) -> (res: bool)
        ensures
            res == self@.is_error(),
    {
        match self {
            Message::UpdateFailed { .. } => true,
            _ => false,
        }
    }

    /// Whether the message is a warning.
    pub fn is_warning(&self) -> (res: bool)
        ensures
            res == self@.is_warning(),
    {
        match self {
            Message::NoRecord { .. } => true,
            _ => false,
        }
    }

    /// The wording of the message.
    pub fn text(&self) -> (res: String)
        ensures
            res@ == self@.text(),
    {
        match self {
            Message::ConfigLoaded => String::from_str(
                "Configuration loaded from environment variables",
            ),
            Message::CurrentIp { ip } => {
                let mut text = String::from_str("Current IP: ");
                text.append(ip.as_str());
                text
            },
            Message::CheckingSubdomains { count } => {
                let mut text = String::from_str("Checking ");
                text.append(to_decimal(*count).as_str());
                text.append(" subdomains...");
                text
            },
            Message::CheckingDomain { domain } => {
                let mut text = String::from_str("Checking domain: ");
                text.append(domain.as_str());
                text
            },
            Message::IpChanged { domain } => {
                let mut text = String::from_str("IP changed for ");
                text.append(domain.as_str());
                text.append(": updating record...");
                text
            },
            Message::Updated { domain, ip } => {
                let mut text = String::from_str("Successfully updated DNS record for ");
                text.append(domain.as_str());
                text.append(" to ");
                text.append(ip.as_str());
                text
            },
            Message::NoChange { domain } => {
                let mut text = String::from_str("No IP change needed for ");
                text.append(domain.as_str());
                text
            },
            Message::NoRecord { domain } => {
                let mut text = String::from_str("Warning: No A record found for ");
                text.append(domain.as_str());
                text
            },
            Message::UpdateFailed { domain, status, body } => {
                let mut text = String::from_str("Update failed for ");
                text.append(domain.as_str());
                text.append(" (");
                text.append(status.text().as_str());
                text.append("): ");
                text.append(body.as_str());
                text
            },
        }
    }

    /// The line of output for the message, written at the time `timestamp`.
    pub fn line_at(&self, timestamp: &str) -> (res: String)
        ensures
            res@ == self@.line(timestamp@),
    {
        let mut line = String::from_str("[");
        line.append(timestamp);
        if self.is_error() {
            line.append(" ERROR] ");
        } else {
            line.append("] ");
        }
        line.append(self.text().as_str());
        line
    }

    /// The line of output for the message, written now: the time is the local
    /// time of the call.
    pub fn line(&self) -> (res: String)
        ensures
            exists|timestamp: Seq<char>| res@ == self@.line(timestamp),
    {
        let timestamp = now();
        self.line_at(timestamp.as_str())
    }
}

/// Calls `chrono::Local::now` and formats what it gives as year, month and
/// day, then hours, minutes and seconds (`%Y-%m-%d %H:%M:%S`). The result is
/// the local time of the call, so nothing is claimed of it. The call panics
/// where the system clock stands before 1970.
#[verifier::external_body]
fn now() -> String {
    chrono::Local::now().format("%Y-%m-%d %H:%M:%S").to_string()
}

} // verus!
