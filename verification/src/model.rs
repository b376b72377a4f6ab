//! The run as a mathematical model: its states, and the transition that an
//! event causes.

use crate::config::ConfigView;
use crate::endpoints::{listing_url, lookup_url, update_url};
use crate::messages::MessageView;
use crate::protocol::{ActionView, EventView, PatchRequestView, StepView};
use crate::records::{find, fqdn, update_of, DnsRecordView};
use crate::status::is_success_code;
use vstd::prelude::*;

verus! {

/// How far a run has come.
pub enum PhaseView {
    /// The public address has been asked for.
    ResolvingIp,
    /// The lookup has answered, and its body has been asked for.
    ReadingIp,
    /// The records have been asked for.
    ListingRecords,
    /// The listing has answered, and its body has been asked for.
    ReadingRecords,
    /// The update for the subdomain at `index` has been sent.
    Patching { index: nat },
    /// The update for the subdomain at `index` was answered with `status`, and
    /// the body of that answer has been asked for.
    ReadingBody { index: nat, status: u16 },
    /// Every subdomain has been checked.
    Finished,
    /// The run has failed.
    Aborted,
}

/// What an `Updater` holds: the configuration, the public address and the
/// records as far as they are known (empty before), and the phase.
pub struct UpdaterView {
    pub config: ConfigView,
    pub ip: Seq<char>,
    pub records: Seq<DnsRecordView>,
    pub phase: PhaseView,
}

/// The result of checking one subdomain: what is reported at once, and the
/// update to send, if one is needed.
pub struct Checked {
    pub messages: Seq<MessageView>,
    pub patch: Option<PatchRequestView>,
}

/// Checks one subdomain against the listed records. The first record that
/// carries the fully-qualified name decides: without one there is a warning
/// and no update; with one that holds `ip` already there is no update; with
/// one that holds anything else there is one update of that record, to `ip`,
/// which keeps its time to live and its proxy flag.
pub open spec fn check(
    config: ConfigView,
    ip: Seq<char>,
    records: Seq<DnsRecordView>,
    subdomain: Seq<char>,
) -> Checked {
    let domain = fqdn(subdomain, config.base_domain);
    match find(records, domain) {
        None => Checked {
            messages: seq![
                MessageView::CheckingDomain { domain },
                MessageView::NoRecord { domain },
            ],
            patch: None,
        },
        Some(record) => if record.content == ip {
            Checked {
                messages: seq![
                    MessageView::CheckingDomain { domain },
                    MessageView::NoChange { domain },
                ],
                patch: None,
            }
        } else {
            Checked {
                messages: seq![
                    MessageView::CheckingDomain { domain },
                    MessageView::IpChanged { domain },
                ],
                patch: Some(
                    PatchRequestView {
                        url: update_url(config.zone_id, record.id),
                        token: config.api_token,
                        payload: update_of(record, domain, ip),
                    },
                ),
            }
        },
    }
}

/// `step` with `messages` reported first.
pub open spec fn preceded(messages: Seq<MessageView>, next: (UpdaterView, StepView)) -> (
    UpdaterView,
    StepView,
) {
    (next.0, StepView { messages: messages + next.1.messages, action: next.1.action })
}

/// Checks the subdomains from position `from` on, in order, up to the first
/// that needs an update, which is sent; when none is left, the run is
/// complete.
pub open spec fn resume(state: UpdaterView, from: nat) -> (UpdaterView, StepView)
    decreases state.config.subdomain_list.len() - from,
{
    if from >= state.config.subdomain_list.len() {
        (
            UpdaterView { phase: PhaseView::Finished, ..state },
            StepView { messages: seq![], action: ActionView::Finish },
        )
    } else {
        let checked = check(
            state.config,
            state.ip,
            state.records,
            state.config.subdomain_list[from as int],
        );
        match checked.patch {
            Some(request) => (
                UpdaterView { phase: PhaseView::Patching { index: from }, ..state },
                StepView { messages: checked.messages, action: ActionView::Patch(request) },
            ),
            None => preceded(checked.messages, resume(state, from + 1)),
        }
    }
}

/// The state in which a run begins.
pub open spec fn initial(config: ConfigView) -> UpdaterView {
    UpdaterView { config, ip: seq![], records: seq![], phase: PhaseView::ResolvingIp }
}

/// The first step of every run: report the configuration, look up the address.
pub open spec fn first_step() -> StepView {
    StepView {
        messages: seq![MessageView::ConfigLoaded],
        action: ActionView::GetIp { url: lookup_url() },
    }
}

/// The run stops: nothing is reported, and no call follows.
pub open spec fn aborted(state: UpdaterView) -> (UpdaterView, StepView) {
    awaiting(state, PhaseView::Aborted, ActionView::Abort)
}

/// The fully-qualified name of the subdomain at `index`.
pub open spec fn domain_at(state: UpdaterView, index: nat) -> Seq<char> {
    fqdn(state.config.subdomain_list[index as int], state.config.base_domain)
}

/// The state in `phase`, with nothing to report and `action` to perform.
pub open spec fn awaiting(state: UpdaterView, phase: PhaseView, action: ActionView) -> (
    UpdaterView,
    StepView,
) {
    (UpdaterView { phase, ..state }, StepView { messages: seq![], action })
}

/// The state after `event`, and the step that answers it.
///
/// The lookup and the listing must be answered with a status from 200 to 299
/// for their bodies to be read. The address, once resolved, is reported and
/// the records are asked for. The records, once listed, start the checks. An
/// update answered with 200 is reported as done and the checks go on with the
/// next subdomain; any other status has the body read, and the failure is then
/// reported and the checks go on in the same way. A complete or failed run
/// stays as it is. Everything else stops the run: a lookup or a listing
/// answered with another status, an action that could not be completed, and an
/// event that does not answer the action last handed out.
pub open spec fn transition(state: UpdaterView, event: EventView) -> (UpdaterView, StepView) {
    match (state.phase, event) {
        (PhaseView::ResolvingIp, EventView::Responded { status }) => if is_success_code(status) {
            awaiting(state, PhaseView::ReadingIp, ActionView::ReadIp)
        } else {
            aborted(state)
        },
        (PhaseView::ListingRecords, EventView::Responded { status }) => if is_success_code(
            status,
        ) {
            awaiting(state, PhaseView::ReadingRecords, ActionView::ReadRecords)
        } else {
            aborted(state)
        },
        (PhaseView::ReadingIp, EventView::IpResolved { ip }) => (
            UpdaterView { ip, phase: PhaseView::ListingRecords, ..state },
            StepView {
                messages: seq![MessageView::CurrentIp { ip }],
                action: ActionView::ListRecords {
                    url: listing_url(state.config.zone_id),
                    token: state.config.api_token,
                },
            },
        ),
        (PhaseView::ReadingRecords, EventView::RecordsListed { records }) => preceded(
            seq![
                MessageView::CheckingSubdomains { count: state.config.subdomain_list.len() },
            ],
            resume(UpdaterView { records, ..state }, 0),
        ),
        (PhaseView::Patching { index }, EventView::Responded { status }) => if status == 200 {
            preceded(
                seq![MessageView::Updated { domain: domain_at(state, index), ip: state.ip }],
                resume(state, index + 1),
            )
        } else {
            awaiting(state, PhaseView::ReadingBody { index, status }, ActionView::ReadBody)
        },
        (PhaseView::ReadingBody { index, status }, EventView::BodyRead { body }) => preceded(
            seq![MessageView::UpdateFailed { domain: domain_at(state, index), status, body }],
            resume(state, index + 1),
        ),
        (PhaseView::Finished, _) => (
            state,
            StepView { messages: seq![], action: ActionView::Finish },
        ),
        _ => aborted(state),
    }
}

/// What `resume` gives does not depend on the phase it starts from.
pub proof fn lemma_resume_ignores_phase(a: UpdaterView, b: UpdaterView, from: nat)
    requires
        a.config == b.config,
        a.ip == b.ip,
        a.records == b.records,
    ensures
        resume(a, from) == resume(b, from),
    decreases a.config.subdomain_list.len() - from,
{
    if from < a.config.subdomain_list.len() {
        lemma_resume_ignores_phase(a, b, from + 1);
    }
}

} // verus!
