//! What passes between the updater and the program that drives it: the
//! events that the program reports, and the steps that the updater answers
//! with.

use crate::messages::{message_views, Message, MessageView};
use crate::records::{
    record_views, DnsRecordView, DnsRecordsListResponse, IpifyResponse, UpdateDnsRecord,
    UpdateDnsRecordView,
};
use crate::status::HttpStatus;
use vstd::prelude::*;

verus! {

/// The update of one record, ready to be sent: a `PATCH` to `url`, with
/// `token` as bearer token and `payload` as JSON body.
#[derive(Debug, Clone, PartialEq, Eq)]
pub struct PatchRequest {
    pub url: String,
    pub token: String,
    pub payload: UpdateDnsRecord,
}

/// What a `PatchRequest` holds.
pub struct PatchRequestView {
    pub url: Seq<char>,
    pub token: Seq<char>,
    pub payload: UpdateDnsRecordView,
}

impl View for PatchRequest {
    type V = PatchRequestView;

    open spec fn view(&self) -> PatchRequestView {
        PatchRequestView { url: self.url@, token: self.token@, payload: self.payload@ }
    }
}

/// What the caller is to do next.
#[derive(Debug, Clone, PartialEq, Eq)]
pub enum Action {
    /// Look up the public address: a `GET` to `url`, without credentials.
    GetIp { url: String },
    /// Read the body of the lookup's response: JSON with a field `ip`.
    ReadIp,
    /// List the records of the zone: a `GET` to `url`, with `token` as bearer
    /// token.
    ListRecords { url: String, token: String },
    /// Read the body of the listing's response: JSON with a field `result`.
    ReadRecords,
    /// Send the update of one record.
    Patch(PatchRequest),
    /// Read the body of the update's response, as text.
    ReadBody,
    /// The run is complete: leave with exit code 0.
    Finish,
    /// The run has failed: leave with a non-zero exit code.
    Abort,
}

/// What an `Action` holds.
pub enum ActionView {
    GetIp { url: Seq<char> },
    ReadIp,
    ListRecords { url: Seq<char>, token: Seq<char> },
    ReadRecords,
    Patch(PatchRequestView),
    ReadBody,
    Finish,
    Abort,
}

impl View for Action {
    type V = ActionView;

    open spec fn view(&self) -> ActionView {
        match self {
            Action::GetIp { url } => ActionView::GetIp { url: url@ },
            Action::ReadIp => ActionView::ReadIp,
            Action::ListRecords { url, token } => ActionView::ListRecords {
                url: url@,
                token: token@,
            },
            Action::ReadRecords => ActionView::ReadRecords,
            Action::Patch(request) => ActionView::Patch(request@),
            Action::ReadBody => ActionView::ReadBody,
            Action::Finish => ActionView::Finish,
            Action::Abort => ActionView::Abort,
        }
    }
}

impl ActionView {
    /// The exit code with which the action ends the run, if it ends it: 0 for
    /// a complete run, 1 for a failed one.
    pub open spec fn exit_code(self) -> Option<i32> {
        match self {
            ActionView::Finish => Some(0i32),
            ActionView::Abort => Some(1i32),
            _ => None,
        }
    }
}

impl Action {
    /// The exit code with which the action ends the run, if it ends it.
    pub fn exit_code(&self) -> (res: Option<i32>)
        ensures
            res == self@.exit_code(),
    {
        match self {
            Action::Finish => Some(0),
            Action::Abort => Some(1),
            _ => None,
        }
    }
}

/// What has happened since the last action was handed out.
#[derive(Debug, Clone, PartialEq, Eq)]
pub enum Event {
    /// The request has been answered with this status.
    Responded(HttpStatus),
    /// The body of the lookup's response held the public address.
    IpResolved(IpifyResponse),
    /// The body of the listing's response held the records of the zone.
    RecordsListed(DnsRecordsListResponse),
    /// The body of the update's response has been read as text.
    BodyRead(String),
    /// The action could not be completed: the transport failed, or the body
    /// was not of the expected shape.
    Failed,
}

/// What an `Event` holds.
pub enum EventView {
    Responded { status: u16 },
    IpResolved { ip: Seq<char> },
    RecordsListed { records: Seq<DnsRecordView> },
    BodyRead { body: Seq<char> },
    Failed,
}

impl View for Event {
    type V = EventView;

    open spec fn view(&self) -> EventView {
        match self {
            Event::Responded(status) => EventView::Responded { status: status@ },
            Event::IpResolved(answer) => EventView::IpResolved { ip: answer.ip@ },
            Event::RecordsListed(list) => EventView::RecordsListed {
                records: record_views(list.result@),
            },
            Event::BodyRead(body) => EventView::BodyRead { body: body@ },
            Event::Failed => EventView::Failed,
        }
    }
}

/// One answer of the machine: the messages to report, in order, and then the
/// action to perform.
#[derive(Debug, Clone, PartialEq, Eq)]
pub struct Step {
    pub messages: Vec<Message>,
    pub action: Action,
}

/// What a `Step` holds.
pub struct StepView {
    pub messages: Seq<MessageView>,
    pub action: ActionView,
}

impl View for Step {
    type V = StepView;

    open spec fn view(&self) -> StepView {
        StepView { messages: message_views(self.messages@), action: self.action@ }
    }
}

} // verus!
